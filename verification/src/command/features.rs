//! Feature Commands
//!
//! - `host-features`: list features supported by adb server.
//! - `features`: list features supported by both adb server and device.

use vstd::prelude::*;
use crate::command::{option_texts, start, AdbCommand, AdbCommandBuilder};
use crate::global_option::OptionModel;
use crate::Adb;

verus! {

/// `host-features`: List features supported by adb server.
#[derive(Debug, Clone, PartialEq, Eq)]
pub struct AdbHostFeatures<'a>(AdbCommandBuilder<'a>);

/// The arguments of the command `host-features` after the global options.
pub open spec fn host_features_args() -> Seq<Seq<char>> {
    seq!["host-features"@]
}

impl<'a> View for AdbHostFeatures<'a> {
    type V = Seq<OptionModel>;

    /// The global options of the command.
    closed spec fn view(&self) -> Seq<OptionModel> {
        self.0.options()
    }
}

impl<'a> AdbHostFeatures<'a> {
    /// The environment used in this command.
    pub closed spec fn environment(&self) -> Adb {
        self.0.environment()
    }

    /// The command `host-features` with the environment and the global options of `acb`.
    pub fn new(acb: AdbCommandBuilder<'a>) -> (r: Self)
        ensures
            r@ == acb.options(),
            r.environment() == acb.environment(),
    {
        AdbHostFeatures(acb)
    }
}

impl<'a> AdbCommand<'a> for AdbHostFeatures<'a> {
    open spec fn arguments(&self) -> Seq<Seq<char>> {
        option_texts(self@) + host_features_args()
    }

    open spec fn global_options(&self) -> Seq<OptionModel> {
        self@
    }

    open spec fn adb(&self) -> Adb {
        self.environment()
    }

    fn command_line(&self) -> (r: Vec<String>) {
        let v = start("host-features");
        self.0.command_line(v)
    }

    fn builder(&self) -> (r: &AdbCommandBuilder<'a>) {
        &self.0
    }
}

impl Adb {
    /// `host-features`: List features supported by adb server.
    pub fn host_features(&self) -> (r: AdbHostFeatures<'_>)
        ensures
            r@ == Seq::<OptionModel>::empty(),
            r.environment() == *self,
    {
        AdbHostFeatures::new(self.command())
    }
}

impl<'a> AdbCommandBuilder<'a> {
    /// `host-features`: List features supported by adb server.
    pub fn host_features(self) -> (r: AdbHostFeatures<'a>)
        ensures
            r@ == self.options(),
            r.environment() == self.environment(),
    {
        AdbHostFeatures::new(self)
    }
}

/// `features`: List features supported by both adb server and device.
#[derive(Debug, Clone, PartialEq, Eq)]
pub struct AdbFeatures<'a>(AdbCommandBuilder<'a>);

/// The arguments of the command `features` after the global options.
pub open spec fn features_args() -> Seq<Seq<char>> {
    seq!["features"@]
}

impl<'a> View for AdbFeatures<'a> {
    type V = Seq<OptionModel>;

    /// The global options of the command.
    closed spec fn view(&self) -> Seq<OptionModel> {
        self.0.options()
    }
}

impl<'a> AdbFeatures<'a> {
    /// The environment used in this command.
    pub closed spec fn environment(&self) -> Adb {
        self.0.environment()
    }

    /// The command `features` with the environment and the global options of `acb`.
    pub fn new(acb: AdbCommandBuilder<'a>) -> (r: Self)
        ensures
            r@ == acb.options(),
            r.environment() == acb.environment(),
    {
        AdbFeatures(acb)
    }
}

impl<'a> AdbCommand<'a> for AdbFeatures<'a> {
    open spec fn arguments(&self) -> Seq<Seq<char>> {
        option_texts(self@) + features_args()
    }

    open spec fn global_options(&self) -> Seq<OptionModel> {
        self@
    }

    open spec fn adb(&self) -> Adb {
        self.environment()
    }

    fn command_line(&self) -> (r: Vec<String>) {
        let v = start("features");
        self.0.command_line(v)
    }

    fn builder(&self) -> (r: &AdbCommandBuilder<'a>) {
        &self.0
    }
}

impl Adb {
    /// `features`: List features supported by both adb server and device.
    pub fn features(&self) -> (r: AdbFeatures<'_>)
        ensures
            r@ == Seq::<OptionModel>::empty(),
            r.environment() == *self,
    {
        AdbFeatures::new(self.command())
    }
}

impl<'a> AdbCommandBuilder<'a> {
    /// `features`: List features supported by both adb server and device.
    pub fn features(self) -> (r: AdbFeatures<'a>)
        ensures
            r@ == self.options(),
            r.environment() == self.environment(),
    {
        AdbFeatures::new(self)
    }
}

} // verus!
