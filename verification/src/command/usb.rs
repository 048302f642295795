//! Usb Commands
//!
//! **Only** valid when running with libusb backend.
//!
//! - `attach SERIAL`: Attach a detached USB device identified by its `SERIAL` number.
//! - `detach SERIAL`: Detach from a USB device identified by its `SERIAL` to allow use by other processes.

use vstd::prelude::*;
use crate::command::{option_texts, owned, start, with_arg, AdbCommand, AdbCommandBuilder};
use crate::global_option::OptionModel;
use crate::Adb;

verus! {

/// `attach SERIAL`: Attach a detached USB device identified by its `SERIAL` number.
#[derive(Debug, Clone, PartialEq, Eq)]
pub struct AdbAttach<'a> {
    acb: AdbCommandBuilder<'a>,
    /// `SERIAL`: The serial number of the device to attach.
    serial: String,
}

/// A command `attach` as plain values: its global options and its own settings.
pub struct AttachModel {
    pub options: Seq<OptionModel>,
    pub serial: Seq<char>,
}

/// The arguments of a command `attach` after the global options.
pub open spec fn attach_args(m: AttachModel) -> Seq<Seq<char>> {
    seq!["attach"@] + seq![m.serial]
}

impl<'a> View for AdbAttach<'a> {
    type V = AttachModel;

    closed spec fn view(&self) -> AttachModel {
        AttachModel {
            options: self.acb.options(),
            serial: self.serial@,
        }
    }
}

impl<'a> AdbAttach<'a> {
    /// The environment used in this command.
    pub closed spec fn environment(&self) -> Adb {
        self.acb.environment()
    }

    /// Creates a new `AdbAttach` command.
    pub fn new(acb: AdbCommandBuilder<'a>, serial: &str) -> (r: Self)
        ensures
            r@ == (AttachModel {
                options: acb.options(),
                serial: serial@,
            }),
            r.environment() == acb.environment(),
    {
        Self { acb, serial: owned(serial) }
    }

    /// `SERIAL`: The serial number of the device to attach.
    ///
    /// The previous serial will be overwritten.
    pub fn serial(self, serial: &str) -> (r: Self)
        ensures
            r@ == (AttachModel { serial: serial@, ..self@ }),
            r.environment() == self.environment(),
    {
        let mut r = self;
        r.serial = owned(serial);
        r
    }

}

impl<'a> AdbCommand<'a> for AdbAttach<'a> {
    open spec fn arguments(&self) -> Seq<Seq<char>> {
        option_texts(self@.options) + attach_args(self@)
    }

    open spec fn global_options(&self) -> Seq<OptionModel> {
        self@.options
    }

    open spec fn adb(&self) -> Adb {
        self.environment()
    }

    fn command_line(&self) -> (r: Vec<String>) {
        let v = start("attach");
        let v = with_arg(v, self.serial.as_str());
        self.acb.command_line(v)
    }

    fn builder(&self) -> (r: &AdbCommandBuilder<'a>) {
        &self.acb
    }
}

impl Adb {
    /// `attach SERIAL`: Attach a detached USB device identified by its `SERIAL` number.
    pub fn attach(&self, serial: &str) -> (r: AdbAttach<'_>)
        ensures
            r@ == (AttachModel {
                options: Seq::<OptionModel>::empty(),
                serial: serial@,
            }),
            r.environment() == *self,
    {
        AdbAttach::new(self.command(), serial)
    }
}

impl<'a> AdbCommandBuilder<'a> {
    /// `attach SERIAL`: Attach a detached USB device identified by its `SERIAL` number.
    pub fn attach(self, serial: &str) -> (r: AdbAttach<'a>)
        ensures
            r@ == (AttachModel {
                options: self.options(),
                serial: serial@,
            }),
            r.environment() == self.environment(),
    {
        AdbAttach::new(self, serial)
    }
}

/// `detach SERIAL`: Detach from a USB device identified by its `SERIAL` to allow use by other processes.
#[derive(Debug, Clone, PartialEq, Eq)]
pub struct AdbDetach<'a> {
    acb: AdbCommandBuilder<'a>,
    /// `SERIAL`: The serial number of the device to detach.
    serial: String,
}

/// A command `detach` as plain values: its global options and its own settings.
pub struct DetachModel {
    pub options: Seq<OptionModel>,
    pub serial: Seq<char>,
}

/// The arguments of a command `detach` after the global options.
pub open spec fn detach_args(m: DetachModel) -> Seq<Seq<char>> {
    seq!["detach"@] + seq![m.serial]
}

impl<'a> View for AdbDetach<'a> {
    type V = DetachModel;

    closed spec fn view(&self) -> DetachModel {
        DetachModel {
            options: self.acb.options(),
            serial: self.serial@,
        }
    }
}

impl<'a> AdbDetach<'a> {
    /// The environment used in this command.
    pub closed spec fn environment(&self) -> Adb {
        self.acb.environment()
    }

    /// Creates a new `AdbDetach` command.
    pub fn new(acb: AdbCommandBuilder<'a>, serial: &str) -> (r: Self)
        ensures
            r@ == (DetachModel {
                options: acb.options(),
                serial: serial@,
            }),
            r.environment() == acb.environment(),
    {
        Self { acb, serial: owned(serial) }
    }

    /// `SERIAL`: The serial number of the device to detach.
    ///
    /// The previous serial will be overwritten.
    pub fn serial(self, serial: &str) -> (r: Self)
        ensures
            r@ == (DetachModel { serial: serial@, ..self@ }),
            r.environment() == self.environment(),
    {
        let mut r = self;
        r.serial = owned(serial);
        r
    }

}

impl<'a> AdbCommand<'a> for AdbDetach<'a> {
    open spec fn arguments(&self) -> Seq<Seq<char>> {
        option_texts(self@.options) + detach_args(self@)
    }

    open spec fn global_options(&self) -> Seq<OptionModel> {
        self@.options
    }

    open spec fn adb(&self) -> Adb {
        self.environment()
    }

    fn command_line(&self) -> (r: Vec<String>) {
        let v = start("detach");
        let v = with_arg(v, self.serial.as_str());
        self.acb.command_line(v)
    }

    fn builder(&self) -> (r: &AdbCommandBuilder<'a>) {
        &self.acb
    }
}

impl Adb {
    /// `detach SERIAL`: Detach from a USB device identified by its `SERIAL` to allow use by other processes.
    pub fn detach(&self, serial: &str) -> (r: AdbDetach<'_>)
        ensures
            r@ == (DetachModel {
                options: Seq::<OptionModel>::empty(),
                serial: serial@,
            }),
            r.environment() == *self,
    {
        AdbDetach::new(self.command(), serial)
    }
}

impl<'a> AdbCommandBuilder<'a> {
    /// `detach SERIAL`: Detach from a USB device identified by its `SERIAL` to allow use by other processes.
    pub fn detach(self, serial: &str) -> (r: AdbDetach<'a>)
        ensures
            r@ == (DetachModel {
                options: self.options(),
                serial: serial@,
            }),
            r.environment() == self.environment(),
    {
        AdbDetach::new(self, serial)
    }
}

} // verus!
