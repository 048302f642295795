//! Security commands.
//!
//! - `disable-verity`: Disable dm-verity checking on userdebug builds.
//! - `enable-verity`: Re-enable dm-verity checking on userdebug builds.
//! - `keygen FILE`: Generate adb public/private key; private key stored in `FILE`.

use vstd::prelude::*;
use crate::command::{option_texts, owned, start, with_arg, AdbCommand, AdbCommandBuilder};
use crate::global_option::OptionModel;
use crate::Adb;

verus! {

/// `disable-verity`: Disable dm-verity checking on userdebug builds.
#[derive(Debug, Clone, PartialEq, Eq)]
pub struct AdbDisableVerity<'a>(AdbCommandBuilder<'a>);

/// The arguments of the command `disable-verity` after the global options.
pub open spec fn disable_verity_args() -> Seq<Seq<char>> {
    seq!["disable-verity"@]
}

impl<'a> View for AdbDisableVerity<'a> {
    type V = Seq<OptionModel>;

    /// The global options of the command.
    closed spec fn view(&self) -> Seq<OptionModel> {
        self.0.options()
    }
}

impl<'a> AdbDisableVerity<'a> {
    /// The environment used in this command.
    pub closed spec fn environment(&self) -> Adb {
        self.0.environment()
    }

    /// The command `disable-verity` with the environment and the global options of `acb`.
    pub fn new(acb: AdbCommandBuilder<'a>) -> (r: Self)
        ensures
            r@ == acb.options(),
            r.environment() == acb.environment(),
    {
        AdbDisableVerity(acb)
    }
}

impl<'a> AdbCommand<'a> for AdbDisableVerity<'a> {
    open spec fn arguments(&self) -> Seq<Seq<char>> {
        option_texts(self@) + disable_verity_args()
    }

    open spec fn global_options(&self) -> Seq<OptionModel> {
        self@
    }

    open spec fn adb(&self) -> Adb {
        self.environment()
    }

    fn command_line(&self) -> (r: Vec<String>) {
        let v = start("disable-verity");
        self.0.command_line(v)
    }

    fn builder(&self) -> (r: &AdbCommandBuilder<'a>) {
        &self.0
    }
}

impl Adb {
    /// `disable-verity`: Disable dm-verity checking on userdebug builds.
    pub fn disable_verity(&self) -> (r: AdbDisableVerity<'_>)
        ensures
            r@ == Seq::<OptionModel>::empty(),
            r.environment() == *self,
    {
        AdbDisableVerity::new(self.command())
    }
}

impl<'a> AdbCommandBuilder<'a> {
    /// `disable-verity`: Disable dm-verity checking on userdebug builds.
    pub fn disable_verity(self) -> (r: AdbDisableVerity<'a>)
        ensures
            r@ == self.options(),
            r.environment() == self.environment(),
    {
        AdbDisableVerity::new(self)
    }
}

/// `enable-verity`: Re-enable dm-verity checking on userdebug builds.
#[derive(Debug, Clone, PartialEq, Eq)]
pub struct AdbEnableVerity<'a>(AdbCommandBuilder<'a>);

/// The arguments of the command `enable-verity` after the global options.
pub open spec fn enable_verity_args() -> Seq<Seq<char>> {
    seq!["enable-verity"@]
}

impl<'a> View for AdbEnableVerity<'a> {
    type V = Seq<OptionModel>;

    /// The global options of the command.
    closed spec fn view(&self) -> Seq<OptionModel> {
        self.0.options()
    }
}

impl<'a> AdbEnableVerity<'a> {
    /// The environment used in this command.
    pub closed spec fn environment(&self) -> Adb {
        self.0.environment()
    }

    /// The command `enable-verity` with the environment and the global options of `acb`.
    pub fn new(acb: AdbCommandBuilder<'a>) -> (r: Self)
        ensures
            r@ == acb.options(),
            r.environment() == acb.environment(),
    {
        AdbEnableVerity(acb)
    }
}

impl<'a> AdbCommand<'a> for AdbEnableVerity<'a> {
    open spec fn arguments(&self) -> Seq<Seq<char>> {
        option_texts(self@) + enable_verity_args()
    }

    open spec fn global_options(&self) -> Seq<OptionModel> {
        self@
    }

    open spec fn adb(&self) -> Adb {
        self.environment()
    }

    fn command_line(&self) -> (r: Vec<String>) {
        let v = start("enable-verity");
        self.0.command_line(v)
    }

    fn builder(&self) -> (r: &AdbCommandBuilder<'a>) {
        &self.0
    }
}

impl Adb {
    /// `enable-verity`: Re-enable dm-verity checking on userdebug builds.
    pub fn enable_verity(&self) -> (r: AdbEnableVerity<'_>)
        ensures
            r@ == Seq::<OptionModel>::empty(),
            r.environment() == *self,
    {
        AdbEnableVerity::new(self.command())
    }
}

impl<'a> AdbCommandBuilder<'a> {
    /// `enable-verity`: Re-enable dm-verity checking on userdebug builds.
    pub fn enable_verity(self) -> (r: AdbEnableVerity<'a>)
        ensures
            r@ == self.options(),
            r.environment() == self.environment(),
    {
        AdbEnableVerity::new(self)
    }
}

/// `keygen FILE`: Generate adb public/private key; private key stored in `FILE`.
#[derive(Debug, Clone, PartialEq, Eq)]
pub struct AdbKeygen<'a> {
    acb: AdbCommandBuilder<'a>,
    file: String,
}

/// A command `keygen` as plain values: its global options and its own settings.
pub struct KeygenModel {
    pub options: Seq<OptionModel>,
    pub file: Seq<char>,
}

/// The arguments of a command `keygen` after the global options.
pub open spec fn keygen_args(m: KeygenModel) -> Seq<Seq<char>> {
    seq!["keygen"@] + seq![m.file]
}

impl<'a> View for AdbKeygen<'a> {
    type V = KeygenModel;

    closed spec fn view(&self) -> KeygenModel {
        KeygenModel {
            options: self.acb.options(),
            file: self.file@,
        }
    }
}

impl<'a> AdbKeygen<'a> {
    /// The environment used in this command.
    pub closed spec fn environment(&self) -> Adb {
        self.acb.environment()
    }

    /// A command `keygen` with the environment and the global options of `acb`.
    pub fn new(acb: AdbCommandBuilder<'a>, file: &str) -> (r: Self)
        ensures
            r@ == (KeygenModel {
                options: acb.options(),
                file: file@,
            }),
            r.environment() == acb.environment(),
    {
        Self { acb, file: owned(file) }
    }

    /// `FILE`: the file where the private key will be stored.
    ///
    /// The previous file will be overwritten.
    pub fn file(self, file: &str) -> (r: Self)
        ensures
            r@ == (KeygenModel { file: file@, ..self@ }),
            r.environment() == self.environment(),
    {
        let mut r = self;
        r.file = owned(file);
        r
    }

}

impl<'a> AdbCommand<'a> for AdbKeygen<'a> {
    open spec fn arguments(&self) -> Seq<Seq<char>> {
        option_texts(self@.options) + keygen_args(self@)
    }

    open spec fn global_options(&self) -> Seq<OptionModel> {
        self@.options
    }

    open spec fn adb(&self) -> Adb {
        self.environment()
    }

    fn command_line(&self) -> (r: Vec<String>) {
        let v = start("keygen");
        let v = with_arg(v, self.file.as_str());
        self.acb.command_line(v)
    }

    fn builder(&self) -> (r: &AdbCommandBuilder<'a>) {
        &self.acb
    }
}

impl Adb {
    /// `keygen FILE`: Generate adb public/private key; private key stored in `FILE`.
    pub fn keygen(&self, file: &str) -> (r: AdbKeygen<'_>)
        ensures
            r@ == (KeygenModel {
                options: Seq::<OptionModel>::empty(),
                file: file@,
            }),
            r.environment() == *self,
    {
        AdbKeygen::new(self.command(), file)
    }
}

impl<'a> AdbCommandBuilder<'a> {
    /// `keygen FILE`: Generate adb public/private key; private key stored in `FILE`.
    pub fn keygen(self, file: &str) -> (r: AdbKeygen<'a>)
        ensures
            r@ == (KeygenModel {
                options: self.options(),
                file: file@,
            }),
            r.environment() == self.environment(),
    {
        AdbKeygen::new(self, file)
    }
}

} // verus!
