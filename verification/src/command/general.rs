//! General commands.
//!
//! - `devices [-l]`: List connected devices.
//! - `help`: Show help message.
//! - `version`: Show version number.

use vstd::prelude::*;
use crate::command::{flag, option_texts, start, with_flag, AdbCommand, AdbCommandBuilder};
use crate::global_option::OptionModel;
use crate::Adb;

verus! {

/// `devices [-l]`: List connected devices.
/// - `-l`: Use long output.
#[derive(Debug, Clone, PartialEq, Eq)]
pub struct Devices<'a> {
    acb: AdbCommandBuilder<'a>,
    /// `-l`: Use long output.
    l: bool,
}

/// A command `devices` as plain values: its global options and its own settings.
pub struct DevicesModel {
    pub options: Seq<OptionModel>,
    pub l: bool,
}

/// The arguments of a command `devices` after the global options.
pub open spec fn devices_args(m: DevicesModel) -> Seq<Seq<char>> {
    seq!["devices"@] + flag(m.l, "-l"@)
}

impl<'a> View for Devices<'a> {
    type V = DevicesModel;

    closed spec fn view(&self) -> DevicesModel {
        DevicesModel {
            options: self.acb.options(),
            l: self.l,
        }
    }
}

impl<'a> Devices<'a> {
    /// The environment used in this command.
    pub closed spec fn environment(&self) -> Adb {
        self.acb.environment()
    }

    /// A command `devices` with the environment and the global options of `acb`.
    pub fn new(acb: AdbCommandBuilder<'a>) -> (r: Self)
        ensures
            r@ == (DevicesModel {
                options: acb.options(),
                l: false,
            }),
            r.environment() == acb.environment(),
    {
        Self { acb, l: false }
    }

    /// `-l`: Use long output.
    pub fn l(self) -> (r: Self)
        ensures
            r@ == (DevicesModel { l: true, ..self@ }),
            r.environment() == self.environment(),
    {
        let mut r = self;
        r.l = true;
        r
    }

}

impl<'a> AdbCommand<'a> for Devices<'a> {
    open spec fn arguments(&self) -> Seq<Seq<char>> {
        option_texts(self@.options) + devices_args(self@)
    }

    open spec fn global_options(&self) -> Seq<OptionModel> {
        self@.options
    }

    open spec fn adb(&self) -> Adb {
        self.environment()
    }

    fn command_line(&self) -> (r: Vec<String>) {
        let v = start("devices");
        let v = with_flag(v, self.l, "-l");
        self.acb.command_line(v)
    }

    fn builder(&self) -> (r: &AdbCommandBuilder<'a>) {
        &self.acb
    }
}

impl Adb {
    /// `devices [-l]`: List connected devices.
    /// - `-l`: Use long output.
    pub fn devices(&self) -> (r: Devices<'_>)
        ensures
            r@ == (DevicesModel {
                options: Seq::<OptionModel>::empty(),
                l: false,
            }),
            r.environment() == *self,
    {
        Devices::new(self.command())
    }
}

impl<'a> AdbCommandBuilder<'a> {
    /// `devices [-l]`: List connected devices.
    /// - `-l`: Use long output.
    pub fn devices(self) -> (r: Devices<'a>)
        ensures
            r@ == (DevicesModel {
                options: self.options(),
                l: false,
            }),
            r.environment() == self.environment(),
    {
        Devices::new(self)
    }
}

/// `help`: Show help message.
#[derive(Debug, Clone, PartialEq, Eq)]
pub struct Help<'a>(AdbCommandBuilder<'a>);

/// The arguments of the command `help` after the global options.
pub open spec fn help_args() -> Seq<Seq<char>> {
    seq!["help"@]
}

impl<'a> View for Help<'a> {
    type V = Seq<OptionModel>;

    /// The global options of the command.
    closed spec fn view(&self) -> Seq<OptionModel> {
        self.0.options()
    }
}

impl<'a> Help<'a> {
    /// The environment used in this command.
    pub closed spec fn environment(&self) -> Adb {
        self.0.environment()
    }

    /// The command `help` with the environment and the global options of `acb`.
    pub fn new(acb: AdbCommandBuilder<'a>) -> (r: Self)
        ensures
            r@ == acb.options(),
            r.environment() == acb.environment(),
    {
        Help(acb)
    }
}

impl<'a> AdbCommand<'a> for Help<'a> {
    open spec fn arguments(&self) -> Seq<Seq<char>> {
        option_texts(self@) + help_args()
    }

    open spec fn global_options(&self) -> Seq<OptionModel> {
        self@
    }

    open spec fn adb(&self) -> Adb {
        self.environment()
    }

    fn command_line(&self) -> (r: Vec<String>) {
        let v = start("help");
        self.0.command_line(v)
    }

    fn builder(&self) -> (r: &AdbCommandBuilder<'a>) {
        &self.0
    }
}

impl Adb {
    /// `help`: Show help message.
    pub fn help(&self) -> (r: Help<'_>)
        ensures
            r@ == Seq::<OptionModel>::empty(),
            r.environment() == *self,
    {
        Help::new(self.command())
    }
}

impl<'a> AdbCommandBuilder<'a> {
    /// `help`: Show help message.
    pub fn help(self) -> (r: Help<'a>)
        ensures
            r@ == self.options(),
            r.environment() == self.environment(),
    {
        Help::new(self)
    }
}

/// `version`: Show version number.
#[derive(Debug, Clone, PartialEq, Eq)]
pub struct Version<'a>(AdbCommandBuilder<'a>);

/// The arguments of the command `version` after the global options.
pub open spec fn version_args() -> Seq<Seq<char>> {
    seq!["version"@]
}

impl<'a> View for Version<'a> {
    type V = Seq<OptionModel>;

    /// The global options of the command.
    closed spec fn view(&self) -> Seq<OptionModel> {
        self.0.options()
    }
}

impl<'a> Version<'a> {
    /// The environment used in this command.
    pub closed spec fn environment(&self) -> Adb {
        self.0.environment()
    }

    /// The command `version` with the environment and the global options of `acb`.
    pub fn new(acb: AdbCommandBuilder<'a>) -> (r: Self)
        ensures
            r@ == acb.options(),
            r.environment() == acb.environment(),
    {
        Version(acb)
    }
}

impl<'a> AdbCommand<'a> for Version<'a> {
    open spec fn arguments(&self) -> Seq<Seq<char>> {
        option_texts(self@) + version_args()
    }

    open spec fn global_options(&self) -> Seq<OptionModel> {
        self@
    }

    open spec fn adb(&self) -> Adb {
        self.environment()
    }

    fn command_line(&self) -> (r: Vec<String>) {
        let v = start("version");
        self.0.command_line(v)
    }

    fn builder(&self) -> (r: &AdbCommandBuilder<'a>) {
        &self.0
    }
}

impl Adb {
    /// `version`: Show version number.
    pub fn version(&self) -> (r: Version<'_>)
        ensures
            r@ == Seq::<OptionModel>::empty(),
            r.environment() == *self,
    {
        Version::new(self.command())
    }
}

impl<'a> AdbCommandBuilder<'a> {
    /// `version`: Show version number.
    pub fn version(self) -> (r: Version<'a>)
        ensures
            r@ == self.options(),
            r.environment() == self.environment(),
    {
        Version::new(self)
    }
}

} // verus!
