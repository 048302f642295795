//! Debugging commands.
//!
//! - `bugreport [PATH]`: Write bugreport to given PATH (default=`bugreport.zip`);
//!     if `PATH` is a directory, the bug report is saved in that directory.
//!     devices that don't support zipped bug reports output to stdout.
//! - `jdwp`: List pids of processes hosting a JDWP transport.
//! - `logcat`: Show device log.

use vstd::prelude::*;
use crate::command::{
    borrowed, optional, option_texts, owned, start, text_of, with_optional, AdbCommand,
    AdbCommandBuilder,
};
use crate::global_option::OptionModel;
use crate::Adb;

verus! {

/// `bugreport [PATH]`: Write bugreport to given PATH (default=`bugreport.zip`).
///
/// If `PATH` is a directory, the bug report is saved in that directory.
/// Devices that don't support zipped bug reports output to stdout.
#[derive(Debug, Clone, PartialEq, Eq)]
pub struct AdbBugReport<'a> {
    acb: AdbCommandBuilder<'a>,
    /// `PATH`: The path to write the bugreport to.
    path: Option<String>,
}

/// A command `bugreport` as plain values: its global options and its own settings.
pub struct BugReportModel {
    pub options: Seq<OptionModel>,
    pub path: Option<Seq<char>>,
}

/// The arguments of a command `bugreport` after the global options.
pub open spec fn bug_report_args(m: BugReportModel) -> Seq<Seq<char>> {
    seq!["bugreport"@] + optional(m.path)
}

impl<'a> View for AdbBugReport<'a> {
    type V = BugReportModel;

    closed spec fn view(&self) -> BugReportModel {
        BugReportModel {
            options: self.acb.options(),
            path: text_of(self.path),
        }
    }
}

impl<'a> AdbBugReport<'a> {
    /// The environment used in this command.
    pub closed spec fn environment(&self) -> Adb {
        self.acb.environment()
    }

    /// Creates a new `AdbBugReport` command.
    pub fn new(acb: AdbCommandBuilder<'a>) -> (r: Self)
        ensures
            r@ == (BugReportModel {
                options: acb.options(),
                path: None,
            }),
            r.environment() == acb.environment(),
    {
        Self { acb, path: None }
    }

    /// `PATH`: The path to write the bugreport to.
    ///
    /// The previous path will be overwritten.
    pub fn path(self, path: &str) -> (r: Self)
        ensures
            r@ == (BugReportModel { path: Some(path@), ..self@ }),
            r.environment() == self.environment(),
    {
        let mut r = self;
        r.path = Some(owned(path));
        r
    }

}

impl<'a> AdbCommand<'a> for AdbBugReport<'a> {
    open spec fn arguments(&self) -> Seq<Seq<char>> {
        option_texts(self@.options) + bug_report_args(self@)
    }

    open spec fn global_options(&self) -> Seq<OptionModel> {
        self@.options
    }

    open spec fn adb(&self) -> Adb {
        self.environment()
    }

    fn command_line(&self) -> (r: Vec<String>) {
        let v = start("bugreport");
        let v = with_optional(v, borrowed(&self.path));
        self.acb.command_line(v)
    }

    fn builder(&self) -> (r: &AdbCommandBuilder<'a>) {
        &self.acb
    }
}

impl Adb {
    /// `bugreport [PATH]`: Write bugreport to given PATH (default=`bugreport.zip`).
    ///
    /// If `PATH` is a directory, the bug report is saved in that directory.
    /// Devices that don't support zipped bug reports output to stdout.
    pub fn bug_report(&self) -> (r: AdbBugReport<'_>)
        ensures
            r@ == (BugReportModel {
                options: Seq::<OptionModel>::empty(),
                path: None,
            }),
            r.environment() == *self,
    {
        AdbBugReport::new(self.command())
    }
}

impl<'a> AdbCommandBuilder<'a> {
    /// `bugreport [PATH]`: Write bugreport to given PATH (default=`bugreport.zip`).
    pub fn bug_report(self) -> (r: AdbBugReport<'a>)
        ensures
            r@ == (BugReportModel {
                options: self.options(),
                path: None,
            }),
            r.environment() == self.environment(),
    {
        AdbBugReport::new(self)
    }
}

/// `jdwp`: List pids of processes hosting a JDWP transport.
#[derive(Debug, Clone, PartialEq, Eq)]
pub struct AdbJdwp<'a>(AdbCommandBuilder<'a>);

/// The arguments of the command `jdwp` after the global options.
pub open spec fn jdwp_args() -> Seq<Seq<char>> {
    seq!["jdwp"@]
}

impl<'a> View for AdbJdwp<'a> {
    type V = Seq<OptionModel>;

    /// The global options of the command.
    closed spec fn view(&self) -> Seq<OptionModel> {
        self.0.options()
    }
}

impl<'a> AdbJdwp<'a> {
    /// The environment used in this command.
    pub closed spec fn environment(&self) -> Adb {
        self.0.environment()
    }

    /// The command `jdwp` with the environment and the global options of `acb`.
    pub fn new(acb: AdbCommandBuilder<'a>) -> (r: Self)
        ensures
            r@ == acb.options(),
            r.environment() == acb.environment(),
    {
        AdbJdwp(acb)
    }
}

impl<'a> AdbCommand<'a> for AdbJdwp<'a> {
    open spec fn arguments(&self) -> Seq<Seq<char>> {
        option_texts(self@) + jdwp_args()
    }

    open spec fn global_options(&self) -> Seq<OptionModel> {
        self@
    }

    open spec fn adb(&self) -> Adb {
        self.environment()
    }

    fn command_line(&self) -> (r: Vec<String>) {
        let v = start("jdwp");
        self.0.command_line(v)
    }

    fn builder(&self) -> (r: &AdbCommandBuilder<'a>) {
        &self.0
    }
}

impl Adb {
    /// `jdwp`: List pids of processes hosting a JDWP transport.
    pub fn jdwp(&self) -> (r: AdbJdwp<'_>)
        ensures
            r@ == Seq::<OptionModel>::empty(),
            r.environment() == *self,
    {
        AdbJdwp::new(self.command())
    }
}

impl<'a> AdbCommandBuilder<'a> {
    /// `jdwp`: List pids of processes hosting a JDWP transport.
    pub fn jdwp(self) -> (r: AdbJdwp<'a>)
        ensures
            r@ == self.options(),
            r.environment() == self.environment(),
    {
        AdbJdwp::new(self)
    }
}

/// `logcat`: Show device log.
#[derive(Debug, Clone, PartialEq, Eq)]
pub struct AdbLogcat<'a>(AdbCommandBuilder<'a>);

/// The arguments of the command `logcat` after the global options.
pub open spec fn logcat_args() -> Seq<Seq<char>> {
    seq!["logcat"@]
}

impl<'a> View for AdbLogcat<'a> {
    type V = Seq<OptionModel>;

    /// The global options of the command.
    closed spec fn view(&self) -> Seq<OptionModel> {
        self.0.options()
    }
}

impl<'a> AdbLogcat<'a> {
    /// The environment used in this command.
    pub closed spec fn environment(&self) -> Adb {
        self.0.environment()
    }

    /// The command `logcat` with the environment and the global options of `acb`.
    pub fn new(acb: AdbCommandBuilder<'a>) -> (r: Self)
        ensures
            r@ == acb.options(),
            r.environment() == acb.environment(),
    {
        AdbLogcat(acb)
    }
}

impl<'a> AdbCommand<'a> for AdbLogcat<'a> {
    open spec fn arguments(&self) -> Seq<Seq<char>> {
        option_texts(self@) + logcat_args()
    }

    open spec fn global_options(&self) -> Seq<OptionModel> {
        self@
    }

    open spec fn adb(&self) -> Adb {
        self.environment()
    }

    fn command_line(&self) -> (r: Vec<String>) {
        let v = start("logcat");
        self.0.command_line(v)
    }

    fn builder(&self) -> (r: &AdbCommandBuilder<'a>) {
        &self.0
    }
}

impl Adb {
    /// `logcat`: Show device log.
    pub fn logcat(&self) -> (r: AdbLogcat<'_>)
        ensures
            r@ == Seq::<OptionModel>::empty(),
            r.environment() == *self,
    {
        AdbLogcat::new(self.command())
    }
}

impl<'a> AdbCommandBuilder<'a> {
    /// `logcat`: Show device log.
    pub fn logcat(self) -> (r: AdbLogcat<'a>)
        ensures
            r@ == self.options(),
            r.environment() == self.environment(),
    {
        AdbLogcat::new(self)
    }
}

} // verus!
