//! App Installation commands (see also `adb shell cmd package help`)
//!
//! - `install [-lrtsdg] [--instant] PACKAGE`: Push a single package to the device and install it
//! - `install-multiple [-lrtsdpg] [--instant] PACKAGE...`: Push multiple APKs to the device for a single package and install them
//! - `install-multi-package [-lrtsdg] [--instant] PACKAGE...`: Push one or more packages to the device and install them atomically
//! - `uninstall [-k] APPLICATION_ID`: Remove this APPLICATION_ID from the device.

use vstd::prelude::*;
use crate::command::{
    borrowed, flag, only_flag, option_texts, owned, pair, start, text_of, with_arg, with_flag,
    with_list, with_pair, AdbCommand, AdbCommandBuilder,
};
use crate::global_option::OptionModel;
use crate::scan::texts;
use crate::Adb;

verus! {

/// `install [-lrtsdg] [--instant] PACKAGE`: Push a single package to the device and install it
/// - `-r`: Replace existing application.
/// - `-t`: Allow test packages.
/// - `-d`: Allow version code downgrade (debuggable packages only).
/// - `-g`: Grant all runtime permissions.
/// - `--abi ABI`: Override platform's default ABI.
/// - `--instant`: Cause the app to be installed as an ephemeral install app.
/// - `--no-streaming`: Always push APK to device and invoke Package Manager as separate steps.
/// - `--streaming`: Force streaming APK directly into Package Manager.
/// - `--fastdeploy`: Use fast deploy.
/// - `-no-fastdeploy`: Prevent use of fast deploy.
/// - `-force-agent`: Force update of deployment agent when using fast deploy.
/// - `-date-check-agent`: Update deployment agent when local version is newer and using fast deploy.
/// - `--version-check-agent`: Update deployment agent when local version has different version code and using fast deploy.
/// - `--local-agent`: Locate agent files from local source build (instead of SDK location).
#[derive(Debug, Clone, PartialEq, Eq)]
pub struct AdbInstall<'a> {
    acb: AdbCommandBuilder<'a>,
    l: bool,
    /// `-r`: Replace existing application.
    r: bool,
    /// `-t`: Allow test packages.
    t: bool,
    s: bool,
    /// `-d`: Allow version code downgrade (debuggable packages only).
    d: bool,
    /// `-g`: Grant all runtime permissions.
    g: bool,
    /// `--abi ABI`: Override platform's default ABI.
    abi: Option<String>,
    /// `--instant`: Cause the app to be installed as an ephemeral install app.
    instant: bool,
    /// `--no-streaming`: Always push APK to device and invoke Package Manager as separate steps.
    no_streaming: bool,
    /// `--streaming`: Force streaming APK directly into Package Manager.
    streaming: bool,
    /// `--fastdeploy`: Use fast deploy.
    fastdeploy: bool,
    /// `-no-fastdeploy`: Prevent use of fast deploy.
    no_fastdeploy: bool,
    /// `-force-agent`: Force update of deployment agent when using fast deploy.
    force_agent: bool,
    /// `-date-check-agent`: Update deployment agent when local version is newer and using fast deploy.
    date_check_agent: bool,
    /// `--version-check-agent`: Update deployment agent when local version has different version code and using fast deploy.
    version_check_agent: bool,
    /// `--local-agent`: Locate agent files from local source build (instead of SDK location).
    local_agent: bool,
    /// `PACKAGE`: The package to install.
    package: String,
}

/// A command `install` as plain values: its global options and its own settings.
pub struct InstallModel {
    pub options: Seq<OptionModel>,
    pub l: bool,
    pub r: bool,
    pub t: bool,
    pub s: bool,
    pub d: bool,
    pub g: bool,
    pub abi: Option<Seq<char>>,
    pub instant: bool,
    pub no_streaming: bool,
    pub streaming: bool,
    pub fastdeploy: bool,
    pub no_fastdeploy: bool,
    pub force_agent: bool,
    pub date_check_agent: bool,
    pub version_check_agent: bool,
    pub local_agent: bool,
    pub package: Seq<char>,
}

/// The first arguments of a command `install`: the name of the command, its
/// one-letter switches and the ABI.
pub open spec fn install_switches(m: InstallModel) -> Seq<Seq<char>> {
    seq!["install"@] + flag(m.l, "-l"@) + flag(m.r, "-r"@) + flag(m.t, "-t"@) + flag(m.s, "-s"@) + flag(m.d, "-d"@) + flag(m.g, "-g"@) + pair("--abi"@, m.abi)
}

/// The arguments of a command `install` that choose how the package is sent.
pub open spec fn install_modes(m: InstallModel) -> Seq<Seq<char>> {
    flag(m.instant, "--instant"@) + flag(m.no_streaming, "--no-streaming"@) + flag(m.streaming, "--streaming"@) + flag(m.fastdeploy, "--fastdeploy"@) + flag(m.no_fastdeploy, "-no-fastdeploy"@) + flag(m.force_agent, "-force-agent"@) + flag(m.date_check_agent, "-date-check-agent"@) + flag(m.version_check_agent, "--version-check-agent"@) + flag(m.local_agent, "--local-agent"@)
}

/// The arguments of a command `install` after the global options.
pub open spec fn install_args(m: InstallModel) -> Seq<Seq<char>> {
    install_switches(m) + install_modes(m) + seq![m.package]
}

impl<'a> View for AdbInstall<'a> {
    type V = InstallModel;

    closed spec fn view(&self) -> InstallModel {
        InstallModel {
            options: self.acb.options(),
            l: self.l,
            r: self.r,
            t: self.t,
            s: self.s,
            d: self.d,
            g: self.g,
            abi: text_of(self.abi),
            instant: self.instant,
            no_streaming: self.no_streaming,
            streaming: self.streaming,
            fastdeploy: self.fastdeploy,
            no_fastdeploy: self.no_fastdeploy,
            force_agent: self.force_agent,
            date_check_agent: self.date_check_agent,
            version_check_agent: self.version_check_agent,
            local_agent: self.local_agent,
            package: self.package@,
        }
    }
}

impl<'a> AdbInstall<'a> {
    /// The environment used in this command.
    pub closed spec fn environment(&self) -> Adb {
        self.acb.environment()
    }

    /// A command `install` with the environment and the global options of `acb`.
    pub fn new(acb: AdbCommandBuilder<'a>, package: &str) -> (r: Self)
        ensures
            r@ == (InstallModel {
                options: acb.options(),
                l: false,
                r: false,
                t: false,
                s: false,
                d: false,
                g: false,
                abi: None,
                instant: false,
                no_streaming: false,
                streaming: false,
                fastdeploy: false,
                no_fastdeploy: false,
                force_agent: false,
                date_check_agent: false,
                version_check_agent: false,
                local_agent: false,
                package: package@,
            }),
            r.environment() == acb.environment(),
    {
        Self { acb, l: false, r: false, t: false, s: false, d: false, g: false, abi: None, instant: false, no_streaming: false, streaming: false, fastdeploy: false, no_fastdeploy: false, force_agent: false, date_check_agent: false, version_check_agent: false, local_agent: false, package: owned(package) }
    }

    /// Sets `l`.
    pub fn l(self) -> (r: Self)
        ensures
            r@ == (InstallModel { l: true, ..self@ }),
            r.environment() == self.environment(),
    {
        let mut r = self;
        r.l = true;
        r
    }

    /// `-r`: Replace existing application.
    pub fn r(self) -> (r: Self)
        ensures
            r@ == (InstallModel { r: true, ..self@ }),
            r.environment() == self.environment(),
    {
        let mut r = self;
        r.r = true;
        r
    }

    /// `-t`: Allow test packages.
    pub fn t(self) -> (r: Self)
        ensures
            r@ == (InstallModel { t: true, ..self@ }),
            r.environment() == self.environment(),
    {
        let mut r = self;
        r.t = true;
        r
    }

    /// Sets `s`.
    pub fn s(self) -> (r: Self)
        ensures
            r@ == (InstallModel { s: true, ..self@ }),
            r.environment() == self.environment(),
    {
        let mut r = self;
        r.s = true;
        r
    }

    /// `-d`: Allow version code downgrade (debuggable packages only).
    pub fn d(self) -> (r: Self)
        ensures
            r@ == (InstallModel { d: true, ..self@ }),
            r.environment() == self.environment(),
    {
        let mut r = self;
        r.d = true;
        r
    }

    /// `-g`: Grant all runtime permissions.
    pub fn g(self) -> (r: Self)
        ensures
            r@ == (InstallModel { g: true, ..self@ }),
            r.environment() == self.environment(),
    {
        let mut r = self;
        r.g = true;
        r
    }

    /// `--abi ABI`: Override platform's default ABI.
    ///
    /// The previous ABI will be overwritten.
    pub fn abi(self, abi: &str) -> (r: Self)
        ensures
            r@ == (InstallModel { abi: Some(abi@), ..self@ }),
            r.environment() == self.environment(),
    {
        let mut r = self;
        r.abi = Some(owned(abi));
        r
    }

    /// `--instant`: Cause the app to be installed as an ephemeral install app.
    pub fn instant(self) -> (r: Self)
        ensures
            r@ == (InstallModel { instant: true, ..self@ }),
            r.environment() == self.environment(),
    {
        let mut r = self;
        r.instant = true;
        r
    }

    /// `--no-streaming`: Always push APK to device and invoke Package Manager as separate steps.
    pub fn no_streaming(self) -> (r: Self)
        ensures
            r@ == (InstallModel { no_streaming: true, ..self@ }),
            r.environment() == self.environment(),
    {
        let mut r = self;
        r.no_streaming = true;
        r
    }

    /// `--streaming`: Force streaming APK directly into Package Manager.
    pub fn streaming(self) -> (r: Self)
        ensures
            r@ == (InstallModel { streaming: true, ..self@ }),
            r.environment() == self.environment(),
    {
        let mut r = self;
        r.streaming = true;
        r
    }

    /// `--fastdeploy`: Use fast deploy.
    pub fn fastdeploy(self) -> (r: Self)
        ensures
            r@ == (InstallModel { fastdeploy: true, ..self@ }),
            r.environment() == self.environment(),
    {
        let mut r = self;
        r.fastdeploy = true;
        r
    }

    /// `-no-fastdeploy`: Prevent use of fast deploy.
    pub fn no_fastdeploy(self) -> (r: Self)
        ensures
            r@ == (InstallModel { no_fastdeploy: true, ..self@ }),
            r.environment() == self.environment(),
    {
        let mut r = self;
        r.no_fastdeploy = true;
        r
    }

    /// `-force-agent`: Force update of deployment agent when using fast deploy.
    pub fn force_agent(self) -> (r: Self)
        ensures
            r@ == (InstallModel { force_agent: true, ..self@ }),
            r.environment() == self.environment(),
    {
        let mut r = self;
        r.force_agent = true;
        r
    }

    /// `-date-check-agent`: Update deployment agent when local version is newer and using fast deploy.
    pub fn date_check_agent(self) -> (r: Self)
        ensures
            r@ == (InstallModel { date_check_agent: true, ..self@ }),
            r.environment() == self.environment(),
    {
        let mut r = self;
        r.date_check_agent = true;
        r
    }

    /// `--version-check-agent`: Update deployment agent when local version has different version code and using fast deploy.
    pub fn version_check_agent(self) -> (r: Self)
        ensures
            r@ == (InstallModel { version_check_agent: true, ..self@ }),
            r.environment() == self.environment(),
    {
        let mut r = self;
        r.version_check_agent = true;
        r
    }

    /// `--local-agent`: Locate agent files from local source build (instead of SDK location).
    pub fn local_agent(self) -> (r: Self)
        ensures
            r@ == (InstallModel { local_agent: true, ..self@ }),
            r.environment() == self.environment(),
    {
        let mut r = self;
        r.local_agent = true;
        r
    }

    /// `PACKAGE`: The package to install.
    ///
    /// The previous package will be overwritten.
    pub fn package(self, package: &str) -> (r: Self)
        ensures
            r@ == (InstallModel { package: package@, ..self@ }),
            r.environment() == self.environment(),
    {
        let mut r = self;
        r.package = owned(package);
        r
    }

    /// The name of the command, its one-letter switches and the ABI.
    fn switches(&self) -> (r: Vec<String>)
        ensures
            texts(r@) == install_switches(self@),
    {
        let v = start("install");
        let v = with_flag(v, self.l, "-l");
        let v = with_flag(v, self.r, "-r");
        let v = with_flag(v, self.t, "-t");
        let v = with_flag(v, self.s, "-s");
        let v = with_flag(v, self.d, "-d");
        let v = with_flag(v, self.g, "-g");
        let v = with_pair(v, "--abi", borrowed(&self.abi));
        v
    }

    /// The arguments that choose how the package is sent.
    fn modes(&self) -> (r: Vec<String>)
        ensures
            texts(r@) == install_modes(self@),
    {
        let v = only_flag(self.instant, "--instant");
        let v = with_flag(v, self.no_streaming, "--no-streaming");
        let v = with_flag(v, self.streaming, "--streaming");
        let v = with_flag(v, self.fastdeploy, "--fastdeploy");
        let v = with_flag(v, self.no_fastdeploy, "-no-fastdeploy");
        let v = with_flag(v, self.force_agent, "-force-agent");
        let v = with_flag(v, self.date_check_agent, "-date-check-agent");
        let v = with_flag(v, self.version_check_agent, "--version-check-agent");
        let v = with_flag(v, self.local_agent, "--local-agent");
        v
    }
}

impl<'a> AdbCommand<'a> for AdbInstall<'a> {
    open spec fn arguments(&self) -> Seq<Seq<char>> {
        option_texts(self@.options) + install_args(self@)
    }

    open spec fn global_options(&self) -> Seq<OptionModel> {
        self@.options
    }

    open spec fn adb(&self) -> Adb {
        self.environment()
    }

    fn command_line(&self) -> (r: Vec<String>) {
        let v = self.switches();
        let modes = self.modes();
        let v = with_list(v, modes.as_slice());
        let v = with_arg(v, self.package.as_str());
        self.acb.command_line(v)
    }

    fn builder(&self) -> (r: &AdbCommandBuilder<'a>) {
        &self.acb
    }
}

impl Adb {
    /// `install [-lrtsdg] [--instant] PACKAGE`: Push a single package to the device and install it
    /// - `-r`: Replace existing application.
    /// - `-t`: Allow test packages.
    /// - `-d`: Allow version code downgrade (debuggable packages only).
    /// - `-g`: Grant all runtime permissions.
    /// - `--abi ABI`: Override platform's default ABI.
    /// - `--instant`: Cause the app to be installed as an ephemeral install app.
    /// - `--no-streaming`: Always push APK to device and invoke Package Manager as separate steps.
    /// - `--streaming`: Force streaming APK directly into Package Manager.
    /// - `--fastdeploy`: Use fast deploy.
    /// - `-no-fastdeploy`: Prevent use of fast deploy.
    /// - `-force-agent`: Force update of deployment agent when using fast deploy.
    /// - `-date-check-agent`: Update deployment agent when local version is newer and using fast deploy.
    /// - `--version-check-agent`: Update deployment agent when local version has different version code and using fast deploy.
    /// - `--local-agent`: Locate agent files from local source build (instead of SDK location).
    pub fn install(&self, package: &str) -> (r: AdbInstall<'_>)
        ensures
            r@ == (InstallModel {
                options: Seq::<OptionModel>::empty(),
                l: false,
                r: false,
                t: false,
                s: false,
                d: false,
                g: false,
                abi: None,
                instant: false,
                no_streaming: false,
                streaming: false,
                fastdeploy: false,
                no_fastdeploy: false,
                force_agent: false,
                date_check_agent: false,
                version_check_agent: false,
                local_agent: false,
                package: package@,
            }),
            r.environment() == *self,
    {
        AdbInstall::new(self.command(), package)
    }
}

impl<'a> AdbCommandBuilder<'a> {
    /// `install [-lrtsdg] [--instant] PACKAGE`: Push a single package to the device and install it
    /// - `-r`: Replace existing application.
    /// - `-t`: Allow test packages.
    /// - `-d`: Allow version code downgrade (debuggable packages only).
    /// - `-g`: Grant all runtime permissions.
    /// - `--abi ABI`: Override platform's default ABI.
    /// - `--instant`: Cause the app to be installed as an ephemeral install app.
    /// - `--no-streaming`: Always push APK to device and invoke Package Manager as separate steps.
    /// - `--streaming`: Force streaming APK directly into Package Manager.
    /// - `--fastdeploy`: Use fast deploy.
    /// - `-no-fastdeploy`: Prevent use of fast deploy.
    /// - `-force-agent`: Force update of deployment agent when using fast deploy.
    /// - `-date-check-agent`: Update deployment agent when local version is newer and using fast deploy.
    /// - `--version-check-agent`: Update deployment agent when local version has different version code and using fast deploy.
    /// - `--local-agent`: Locate agent files from local source build (instead of SDK location).
    pub fn install(self, package: &str) -> (r: AdbInstall<'a>)
        ensures
            r@ == (InstallModel {
                options: self.options(),
                l: false,
                r: false,
                t: false,
                s: false,
                d: false,
                g: false,
                abi: None,
                instant: false,
                no_streaming: false,
                streaming: false,
                fastdeploy: false,
                no_fastdeploy: false,
                force_agent: false,
                date_check_agent: false,
                version_check_agent: false,
                local_agent: false,
                package: package@,
            }),
            r.environment() == self.environment(),
    {
        AdbInstall::new(self, package)
    }
}

/// `install-multiple [-lrtsdpg] [--instant] PACKAGE...`: Push multiple APKs to the device for a single package and install them
/// - `-r`: Replace existing application.
/// - `-t`: Allow test packages.
/// - `-d`: Allow version code downgrade (debuggable packages only).
/// - `-p`: Partial application install.
/// - `-g`: Grant all runtime permissions.
/// - `--abi ABI`: Override platform's default ABI.
/// - `--instant`: Cause the app to be installed as an ephemeral install app.
/// - `--no-streaming`: Always push APK to device and invoke Package Manager as separate steps.
/// - `--streaming`: Force streaming APK directly into Package Manager.
/// - `--fastdeploy`: Use fast deploy.
/// - `-no-fastdeploy`: Prevent use of fast deploy.
/// - `-force-agent`: Force update of deployment agent when using fast deploy.
/// - `-date-check-agent`: Update deployment agent when local version is newer and using fast deploy.
/// - `--version-check-agent`: Update deployment agent when local version has different version code and using fast deploy.
/// - `--local-agent`: Locate agent files from local source build (instead of SDK location).
#[derive(Debug, Clone, PartialEq, Eq)]
pub struct AdbInstallMultiple<'a> {
    acb: AdbCommandBuilder<'a>,
    l: bool,
    /// `-r`: Replace existing application.
    r: bool,
    /// `-t`: Allow test packages.
    t: bool,
    s: bool,
    /// `-d`: Allow version code downgrade (debuggable packages only).
    d: bool,
    /// `-p`: Partial application install.
    p: bool,
    /// `-g`: Grant all runtime permissions.
    g: bool,
    /// `--abi ABI`: Override platform's default ABI.
    abi: Option<String>,
    /// `--instant`: Cause the app to be installed as an ephemeral install app.
    instant: bool,
    /// `--no-streaming`: Always push APK to device and invoke Package Manager as separate steps.
    no_streaming: bool,
    /// `--streaming`: Force streaming APK directly into Package Manager.
    streaming: bool,
    /// `--fastdeploy`: Use fast deploy.
    fastdeploy: bool,
    /// `-no-fastdeploy`: Prevent use of fast deploy.
    no_fastdeploy: bool,
    /// `-force-agent`: Force update of deployment agent when using fast deploy.
    force_agent: bool,
    /// `-date-check-agent`: Update deployment agent when local version is newer and using fast deploy.
    date_check_agent: bool,
    /// `--version-check-agent`: Update deployment agent when local version has different version code and using fast deploy.
    version_check_agent: bool,
    /// `--local-agent`: Locate agent files from local source build (instead of SDK location).
    local_agent: bool,
    /// `PACKAGE...`: The packages to install.
    packages: Vec<String>,
}

/// A command `install-multiple` as plain values: its global options and its own settings.
pub struct InstallMultipleModel {
    pub options: Seq<OptionModel>,
    pub l: bool,
    pub r: bool,
    pub t: bool,
    pub s: bool,
    pub d: bool,
    pub p: bool,
    pub g: bool,
    pub abi: Option<Seq<char>>,
    pub instant: bool,
    pub no_streaming: bool,
    pub streaming: bool,
    pub fastdeploy: bool,
    pub no_fastdeploy: bool,
    pub force_agent: bool,
    pub date_check_agent: bool,
    pub version_check_agent: bool,
    pub local_agent: bool,
    pub packages: Seq<Seq<char>>,
}

/// The first arguments of a command `install-multiple`: the name of the command, its
/// one-letter switches and the ABI.
pub open spec fn install_multiple_switches(m: InstallMultipleModel) -> Seq<Seq<char>> {
    seq!["install-multiple"@] + flag(m.l, "-l"@) + flag(m.r, "-r"@) + flag(m.t, "-t"@) + flag(m.s, "-s"@) + flag(m.d, "-d"@) + flag(m.p, "-p"@) + flag(m.g, "-g"@) + pair("--abi"@, m.abi)
}

/// The arguments of a command `install-multiple` that choose how the package is sent.
pub open spec fn install_multiple_modes(m: InstallMultipleModel) -> Seq<Seq<char>> {
    flag(m.instant, "--instant"@) + flag(m.no_streaming, "--no-streaming"@) + flag(m.streaming, "--streaming"@) + flag(m.fastdeploy, "--fastdeploy"@) + flag(m.no_fastdeploy, "-no-fastdeploy"@) + flag(m.force_agent, "-force-agent"@) + flag(m.date_check_agent, "-date-check-agent"@) + flag(m.version_check_agent, "--version-check-agent"@) + flag(m.local_agent, "--local-agent"@)
}

/// The arguments of a command `install-multiple` after the global options.
pub open spec fn install_multiple_args(m: InstallMultipleModel) -> Seq<Seq<char>> {
    install_multiple_switches(m) + install_multiple_modes(m) + m.packages
}

impl<'a> View for AdbInstallMultiple<'a> {
    type V = InstallMultipleModel;

    closed spec fn view(&self) -> InstallMultipleModel {
        InstallMultipleModel {
            options: self.acb.options(),
            l: self.l,
            r: self.r,
            t: self.t,
            s: self.s,
            d: self.d,
            p: self.p,
            g: self.g,
            abi: text_of(self.abi),
            instant: self.instant,
            no_streaming: self.no_streaming,
            streaming: self.streaming,
            fastdeploy: self.fastdeploy,
            no_fastdeploy: self.no_fastdeploy,
            force_agent: self.force_agent,
            date_check_agent: self.date_check_agent,
            version_check_agent: self.version_check_agent,
            local_agent: self.local_agent,
            packages: texts(self.packages@),
        }
    }
}

impl<'a> AdbInstallMultiple<'a> {
    /// The environment used in this command.
    pub closed spec fn environment(&self) -> Adb {
        self.acb.environment()
    }

    /// A command `install-multiple` with the environment and the global options of `acb`.
    pub fn new(acb: AdbCommandBuilder<'a>, packages: Vec<String>) -> (r: Self)
        ensures
            r@ == (InstallMultipleModel {
                options: acb.options(),
                l: false,
                r: false,
                t: false,
                s: false,
                d: false,
                p: false,
                g: false,
                abi: None,
                instant: false,
                no_streaming: false,
                streaming: false,
                fastdeploy: false,
                no_fastdeploy: false,
                force_agent: false,
                date_check_agent: false,
                version_check_agent: false,
                local_agent: false,
                packages: texts(packages@),
            }),
            r.environment() == acb.environment(),
    {
        Self { acb, l: false, r: false, t: false, s: false, d: false, p: false, g: false, abi: None, instant: false, no_streaming: false, streaming: false, fastdeploy: false, no_fastdeploy: false, force_agent: false, date_check_agent: false, version_check_agent: false, local_agent: false, packages: packages }
    }

    /// Sets `l`.
    pub fn l(self) -> (r: Self)
        ensures
            r@ == (InstallMultipleModel { l: true, ..self@ }),
            r.environment() == self.environment(),
    {
        let mut r = self;
        r.l = true;
        r
    }

    /// `-r`: Replace existing application.
    pub fn r(self) -> (r: Self)
        ensures
            r@ == (InstallMultipleModel { r: true, ..self@ }),
            r.environment() == self.environment(),
    {
        let mut r = self;
        r.r = true;
        r
    }

    /// `-t`: Allow test packages.
    pub fn t(self) -> (r: Self)
        ensures
            r@ == (InstallMultipleModel { t: true, ..self@ }),
            r.environment() == self.environment(),
    {
        let mut r = self;
        r.t = true;
        r
    }

    /// Sets `s`.
    pub fn s(self) -> (r: Self)
        ensures
            r@ == (InstallMultipleModel { s: true, ..self@ }),
            r.environment() == self.environment(),
    {
        let mut r = self;
        r.s = true;
        r
    }

    /// `-d`: Allow version code downgrade (debuggable packages only).
    pub fn d(self) -> (r: Self)
        ensures
            r@ == (InstallMultipleModel { d: true, ..self@ }),
            r.environment() == self.environment(),
    {
        let mut r = self;
        r.d = true;
        r
    }

    /// `-g`: Grant all runtime permissions.
    pub fn g(self) -> (r: Self)
        ensures
            r@ == (InstallMultipleModel { g: true, ..self@ }),
            r.environment() == self.environment(),
    {
        let mut r = self;
        r.g = true;
        r
    }

    /// `--abi ABI`: Override platform's default ABI.
    ///
    /// The previous ABI will be overwritten.
    pub fn abi(self, abi: &str) -> (r: Self)
        ensures
            r@ == (InstallMultipleModel { abi: Some(abi@), ..self@ }),
            r.environment() == self.environment(),
    {
        let mut r = self;
        r.abi = Some(owned(abi));
        r
    }

    /// `--instant`: Cause the app to be installed as an ephemeral install app.
    pub fn instant(self) -> (r: Self)
        ensures
            r@ == (InstallMultipleModel { instant: true, ..self@ }),
            r.environment() == self.environment(),
    {
        let mut r = self;
        r.instant = true;
        r
    }

    /// `--no-streaming`: Always push APK to device and invoke Package Manager as separate steps.
    pub fn no_streaming(self) -> (r: Self)
        ensures
            r@ == (InstallMultipleModel { no_streaming: true, ..self@ }),
            r.environment() == self.environment(),
    {
        let mut r = self;
        r.no_streaming = true;
        r
    }

    /// `--streaming`: Force streaming APK directly into Package Manager.
    pub fn streaming(self) -> (r: Self)
        ensures
            r@ == (InstallMultipleModel { streaming: true, ..self@ }),
            r.environment() == self.environment(),
    {
        let mut r = self;
        r.streaming = true;
        r
    }

    /// `--fastdeploy`: Use fast deploy.
    pub fn fastdeploy(self) -> (r: Self)
        ensures
            r@ == (InstallMultipleModel { fastdeploy: true, ..self@ }),
            r.environment() == self.environment(),
    {
        let mut r = self;
        r.fastdeploy = true;
        r
    }

    /// `-no-fastdeploy`: Prevent use of fast deploy.
    pub fn no_fastdeploy(self) -> (r: Self)
        ensures
            r@ == (InstallMultipleModel { no_fastdeploy: true, ..self@ }),
            r.environment() == self.environment(),
    {
        let mut r = self;
        r.no_fastdeploy = true;
        r
    }

    /// `-force-agent`: Force update of deployment agent when using fast deploy.
    pub fn force_agent(self) -> (r: Self)
        ensures
            r@ == (InstallMultipleModel { force_agent: true, ..self@ }),
            r.environment() == self.environment(),
    {
        let mut r = self;
        r.force_agent = true;
        r
    }

    /// `-date-check-agent`: Update deployment agent when local version is newer and using fast deploy.
    pub fn date_check_agent(self) -> (r: Self)
        ensures
            r@ == (InstallMultipleModel { date_check_agent: true, ..self@ }),
            r.environment() == self.environment(),
    {
        let mut r = self;
        r.date_check_agent = true;
        r
    }

    /// `--version-check-agent`: Update deployment agent when local version has different version code and using fast deploy.
    pub fn version_check_agent(self) -> (r: Self)
        ensures
            r@ == (InstallMultipleModel { version_check_agent: true, ..self@ }),
            r.environment() == self.environment(),
    {
        let mut r = self;
        r.version_check_agent = true;
        r
    }

    /// `--local-agent`: Locate agent files from local source build (instead of SDK location).
    pub fn local_agent(self) -> (r: Self)
        ensures
            r@ == (InstallMultipleModel { local_agent: true, ..self@ }),
            r.environment() == self.environment(),
    {
        let mut r = self;
        r.local_agent = true;
        r
    }

    /// `PACKAGE...`: The packages to install.
    ///
    /// The previous packages will be overwritten.
    pub fn packages(self, packages: Vec<String>) -> (r: Self)
        ensures
            r@ == (InstallMultipleModel { packages: texts(packages@), ..self@ }),
            r.environment() == self.environment(),
    {
        let mut r = self;
        r.packages = packages;
        r
    }

    /// The name of the command, its one-letter switches and the ABI.
    fn switches(&self) -> (r: Vec<String>)
        ensures
            texts(r@) == install_multiple_switches(self@),
    {
        let v = start("install-multiple");
        let v = with_flag(v, self.l, "-l");
        let v = with_flag(v, self.r, "-r");
        let v = with_flag(v, self.t, "-t");
        let v = with_flag(v, self.s, "-s");
        let v = with_flag(v, self.d, "-d");
        let v = with_flag(v, self.p, "-p");
        let v = with_flag(v, self.g, "-g");
        let v = with_pair(v, "--abi", borrowed(&self.abi));
        v
    }

    /// The arguments that choose how the package is sent.
    fn modes(&self) -> (r: Vec<String>)
        ensures
            texts(r@) == install_multiple_modes(self@),
    {
        let v = only_flag(self.instant, "--instant");
        let v = with_flag(v, self.no_streaming, "--no-streaming");
        let v = with_flag(v, self.streaming, "--streaming");
        let v = with_flag(v, self.fastdeploy, "--fastdeploy");
        let v = with_flag(v, self.no_fastdeploy, "-no-fastdeploy");
        let v = with_flag(v, self.force_agent, "-force-agent");
        let v = with_flag(v, self.date_check_agent, "-date-check-agent");
        let v = with_flag(v, self.version_check_agent, "--version-check-agent");
        let v = with_flag(v, self.local_agent, "--local-agent");
        v
    }
}

impl<'a> AdbCommand<'a> for AdbInstallMultiple<'a> {
    open spec fn arguments(&self) -> Seq<Seq<char>> {
        option_texts(self@.options) + install_multiple_args(self@)
    }

    open spec fn global_options(&self) -> Seq<OptionModel> {
        self@.options
    }

    open spec fn adb(&self) -> Adb {
        self.environment()
    }

    fn command_line(&self) -> (r: Vec<String>) {
        let v = self.switches();
        let modes = self.modes();
        let v = with_list(v, modes.as_slice());
        let v = with_list(v, self.packages.as_slice());
        self.acb.command_line(v)
    }

    fn builder(&self) -> (r: &AdbCommandBuilder<'a>) {
        &self.acb
    }
}

impl Adb {
    /// `install-multiple [-lrtsdpg] [--instant] PACKAGE...`: Push multiple APKs to the device for a single package and install them
    /// - `-r`: Replace existing application.
    /// - `-t`: Allow test packages.
    /// - `-d`: Allow version code downgrade (debuggable packages only).
    /// - `-p`: Partial application install.
    /// - `-g`: Grant all runtime permissions.
    /// - `--abi ABI`: Override platform's default ABI.
    /// - `--instant`: Cause the app to be installed as an ephemeral install app.
    /// - `--no-streaming`: Always push APK to device and invoke Package Manager as separate steps.
    /// - `--streaming`: Force streaming APK directly into Package Manager.
    /// - `--fastdeploy`: Use fast deploy.
    /// - `-no-fastdeploy`: Prevent use of fast deploy.
    /// - `-force-agent`: Force update of deployment agent when using fast deploy.
    /// - `-date-check-agent`: Update deployment agent when local version is newer and using fast deploy.
    /// - `--version-check-agent`: Update deployment agent when local version has different version code and using fast deploy.
    /// - `--local-agent`: Locate agent files from local source build (instead of SDK location).
    pub fn install_multiple(&self, packages: Vec<String>) -> (r: AdbInstallMultiple<'_>)
        ensures
            r@ == (InstallMultipleModel {
                options: Seq::<OptionModel>::empty(),
                l: false,
                r: false,
                t: false,
                s: false,
                d: false,
                p: false,
                g: false,
                abi: None,
                instant: false,
                no_streaming: false,
                streaming: false,
                fastdeploy: false,
                no_fastdeploy: false,
                force_agent: false,
                date_check_agent: false,
                version_check_agent: false,
                local_agent: false,
                packages: texts(packages@),
            }),
            r.environment() == *self,
    {
        AdbInstallMultiple::new(self.command(), packages)
    }
}

impl<'a> AdbCommandBuilder<'a> {
    /// `install-multiple [-lrtsdpg] [--instant] PACKAGE...`: Push multiple APKs to the device for a single package and install them
    /// - `-r`: Replace existing application.
    /// - `-t`: Allow test packages.
    /// - `-d`: Allow version code downgrade (debuggable packages only).
    /// - `-p`: Partial application install.
    /// - `-g`: Grant all runtime permissions.
    /// - `--abi ABI`: Override platform's default ABI.
    /// - `--instant`: Cause the app to be installed as an ephemeral install app.
    /// - `--no-streaming`: Always push APK to device and invoke Package Manager as separate steps.
    /// - `--streaming`: Force streaming APK directly into Package Manager.
    /// - `--fastdeploy`: Use fast deploy.
    /// - `-no-fastdeploy`: Prevent use of fast deploy.
    /// - `-force-agent`: Force update of deployment agent when using fast deploy.
    /// - `-date-check-agent`: Update deployment agent when local version is newer and using fast deploy.
    /// - `--version-check-agent`: Update deployment agent when local version has different version code and using fast deploy.
    /// - `--local-agent`: Locate agent files from local source build (instead of SDK location).
    pub fn install_multiple(self, packages: Vec<String>) -> (r: AdbInstallMultiple<'a>)
        ensures
            r@ == (InstallMultipleModel {
                options: self.options(),
                l: false,
                r: false,
                t: false,
                s: false,
                d: false,
                p: false,
                g: false,
                abi: None,
                instant: false,
                no_streaming: false,
                streaming: false,
                fastdeploy: false,
                no_fastdeploy: false,
                force_agent: false,
                date_check_agent: false,
                version_check_agent: false,
                local_agent: false,
                packages: texts(packages@),
            }),
            r.environment() == self.environment(),
    {
        AdbInstallMultiple::new(self, packages)
    }
}

/// `install-multi-package [-lrtsdg] [--instant] PACKAGE...`: Push one or more packages to the device and install them atomically
/// - `-r`: Replace existing application.
/// - `-t`: Allow test packages.
/// - `-d`: Allow version code downgrade (debuggable packages only).
/// - `-g`: Grant all runtime permissions.
/// - `--abi ABI`: Override platform's default ABI.
/// - `--instant`: Cause the app to be installed as an ephemeral install app.
/// - `--no-streaming`: Always push APK to device and invoke Package Manager as separate steps.
/// - `--streaming`: Force streaming APK directly into Package Manager.
/// - `--fastdeploy`: Use fast deploy.
/// - `-no-fastdeploy`: Prevent use of fast deploy.
/// - `-force-agent`: Force update of deployment agent when using fast deploy.
/// - `-date-check-agent`: Update deployment agent when local version is newer and using fast deploy.
/// - `--version-check-agent`: Update deployment agent when local version has different version code and using fast deploy.
/// - `--local-agent`: Locate agent files from local source build (instead of SDK location).
#[derive(Debug, Clone, PartialEq, Eq)]
pub struct AdbInstallMultiPackage<'a> {
    acb: AdbCommandBuilder<'a>,
    l: bool,
    /// `-r`: Replace existing application.
    r: bool,
    /// `-t`: Allow test packages.
    t: bool,
    s: bool,
    /// `-d`: Allow version code downgrade (debuggable packages only).
    d: bool,
    /// `-g`: Grant all runtime permissions.
    g: bool,
    /// `--abi ABI`: Override platform's default ABI.
    abi: Option<String>,
    /// `--instant`: Cause the app to be installed as an ephemeral install app.
    instant: bool,
    /// `--no-streaming`: Always push APK to device and invoke Package Manager as separate steps.
    no_streaming: bool,
    /// `--streaming`: Force streaming APK directly into Package Manager.
    streaming: bool,
    /// `--fastdeploy`: Use fast deploy.
    fastdeploy: bool,
    /// `-no-fastdeploy`: Prevent use of fast deploy.
    no_fastdeploy: bool,
    /// `-force-agent`: Force update of deployment agent when using fast deploy.
    force_agent: bool,
    /// `-date-check-agent`: Update deployment agent when local version is newer and using fast deploy.
    date_check_agent: bool,
    /// `--version-check-agent`: Update deployment agent when local version has different version code and using fast deploy.
    version_check_agent: bool,
    /// `--local-agent`: Locate agent files from local source build (instead of SDK location).
    local_agent: bool,
    /// `PACKAGE...`: The packages to install.
    packages: Vec<String>,
}

/// A command `install-multi-package` as plain values: its global options and its own settings.
pub struct InstallMultiPackageModel {
    pub options: Seq<OptionModel>,
    pub l: bool,
    pub r: bool,
    pub t: bool,
    pub s: bool,
    pub d: bool,
    pub g: bool,
    pub abi: Option<Seq<char>>,
    pub instant: bool,
    pub no_streaming: bool,
    pub streaming: bool,
    pub fastdeploy: bool,
    pub no_fastdeploy: bool,
    pub force_agent: bool,
    pub date_check_agent: bool,
    pub version_check_agent: bool,
    pub local_agent: bool,
    pub packages: Seq<Seq<char>>,
}

/// The first arguments of a command `install-multi-package`: the name of the command, its
/// one-letter switches and the ABI.
pub open spec fn install_multi_package_switches(m: InstallMultiPackageModel) -> Seq<Seq<char>> {
    seq!["install-multi-package"@] + flag(m.l, "-l"@) + flag(m.r, "-r"@) + flag(m.t, "-t"@) + flag(m.s, "-s"@) + flag(m.d, "-d"@) + flag(m.g, "-g"@) + pair("--abi"@, m.abi)
}

/// The arguments of a command `install-multi-package` that choose how the package is sent.
pub open spec fn install_multi_package_modes(m: InstallMultiPackageModel) -> Seq<Seq<char>> {
    flag(m.instant, "--instant"@) + flag(m.no_streaming, "--no-streaming"@) + flag(m.streaming, "--streaming"@) + flag(m.fastdeploy, "--fastdeploy"@) + flag(m.no_fastdeploy, "-no-fastdeploy"@) + flag(m.force_agent, "-force-agent"@) + flag(m.date_check_agent, "-date-check-agent"@) + flag(m.version_check_agent, "--version-check-agent"@) + flag(m.local_agent, "--local-agent"@)
}

/// The arguments of a command `install-multi-package` after the global options.
pub open spec fn install_multi_package_args(m: InstallMultiPackageModel) -> Seq<Seq<char>> {
    install_multi_package_switches(m) + install_multi_package_modes(m) + m.packages
}

impl<'a> View for AdbInstallMultiPackage<'a> {
    type V = InstallMultiPackageModel;

    closed spec fn view(&self) -> InstallMultiPackageModel {
        InstallMultiPackageModel {
            options: self.acb.options(),
            l: self.l,
            r: self.r,
            t: self.t,
            s: self.s,
            d: self.d,
            g: self.g,
            abi: text_of(self.abi),
            instant: self.instant,
            no_streaming: self.no_streaming,
            streaming: self.streaming,
            fastdeploy: self.fastdeploy,
            no_fastdeploy: self.no_fastdeploy,
            force_agent: self.force_agent,
            date_check_agent: self.date_check_agent,
            version_check_agent: self.version_check_agent,
            local_agent: self.local_agent,
            packages: texts(self.packages@),
        }
    }
}

impl<'a> AdbInstallMultiPackage<'a> {
    /// The environment used in this command.
    pub closed spec fn environment(&self) -> Adb {
        self.acb.environment()
    }

    /// A command `install-multi-package` with the environment and the global options of `acb`.
    pub fn new(acb: AdbCommandBuilder<'a>, packages: Vec<String>) -> (r: Self)
        ensures
            r@ == (InstallMultiPackageModel {
                options: acb.options(),
                l: false,
                r: false,
                t: false,
                s: false,
                d: false,
                g: false,
                abi: None,
                instant: false,
                no_streaming: false,
                streaming: false,
                fastdeploy: false,
                no_fastdeploy: false,
                force_agent: false,
                date_check_agent: false,
                version_check_agent: false,
                local_agent: false,
                packages: texts(packages@),
            }),
            r.environment() == acb.environment(),
    {
        Self { acb, l: false, r: false, t: false, s: false, d: false, g: false, abi: None, instant: false, no_streaming: false, streaming: false, fastdeploy: false, no_fastdeploy: false, force_agent: false, date_check_agent: false, version_check_agent: false, local_agent: false, packages: packages }
    }

    /// Sets `l`.
    pub fn l(self) -> (r: Self)
        ensures
            r@ == (InstallMultiPackageModel { l: true, ..self@ }),
            r.environment() == self.environment(),
    {
        let mut r = self;
        r.l = true;
        r
    }

    /// `-r`: Replace existing application.
    pub fn r(self) -> (r: Self)
        ensures
            r@ == (InstallMultiPackageModel { r: true, ..self@ }),
            r.environment() == self.environment(),
    {
        let mut r = self;
        r.r = true;
        r
    }

    /// `-t`: Allow test packages.
    pub fn t(self) -> (r: Self)
        ensures
            r@ == (InstallMultiPackageModel { t: true, ..self@ }),
            r.environment() == self.environment(),
    {
        let mut r = self;
        r.t = true;
        r
    }

    /// Sets `s`.
    pub fn s(self) -> (r: Self)
        ensures
            r@ == (InstallMultiPackageModel { s: true, ..self@ }),
            r.environment() == self.environment(),
    {
        let mut r = self;
        r.s = true;
        r
    }

    /// `-d`: Allow version code downgrade (debuggable packages only).
    pub fn d(self) -> (r: Self)
        ensures
            r@ == (InstallMultiPackageModel { d: true, ..self@ }),
            r.environment() == self.environment(),
    {
        let mut r = self;
        r.d = true;
        r
    }

    /// `-g`: Grant all runtime permissions.
    pub fn g(self) -> (r: Self)
        ensures
            r@ == (InstallMultiPackageModel { g: true, ..self@ }),
            r.environment() == self.environment(),
    {
        let mut r = self;
        r.g = true;
        r
    }

    /// `--abi ABI`: Override platform's default ABI.
    ///
    /// The previous ABI will be overwritten.
    pub fn abi(self, abi: &str) -> (r: Self)
        ensures
            r@ == (InstallMultiPackageModel { abi: Some(abi@), ..self@ }),
            r.environment() == self.environment(),
    {
        let mut r = self;
        r.abi = Some(owned(abi));
        r
    }

    /// `--instant`: Cause the app to be installed as an ephemeral install app.
    pub fn instant(self) -> (r: Self)
        ensures
            r@ == (InstallMultiPackageModel { instant: true, ..self@ }),
            r.environment() == self.environment(),
    {
        let mut r = self;
        r.instant = true;
        r
    }

    /// `--no-streaming`: Always push APK to device and invoke Package Manager as separate steps.
    pub fn no_streaming(self) -> (r: Self)
        ensures
            r@ == (InstallMultiPackageModel { no_streaming: true, ..self@ }),
            r.environment() == self.environment(),
    {
        let mut r = self;
        r.no_streaming = true;
        r
    }

    /// `--streaming`: Force streaming APK directly into Package Manager.
    pub fn streaming(self) -> (r: Self)
        ensures
            r@ == (InstallMultiPackageModel { streaming: true, ..self@ }),
            r.environment() == self.environment(),
    {
        let mut r = self;
        r.streaming = true;
        r
    }

    /// `--fastdeploy`: Use fast deploy.
    pub fn fastdeploy(self) -> (r: Self)
        ensures
            r@ == (InstallMultiPackageModel { fastdeploy: true, ..self@ }),
            r.environment() == self.environment(),
    {
        let mut r = self;
        r.fastdeploy = true;
        r
    }

    /// `-no-fastdeploy`: Prevent use of fast deploy.
    pub fn no_fastdeploy(self) -> (r: Self)
        ensures
            r@ == (InstallMultiPackageModel { no_fastdeploy: true, ..self@ }),
            r.environment() == self.environment(),
    {
        let mut r = self;
        r.no_fastdeploy = true;
        r
    }

    /// `-force-agent`: Force update of deployment agent when using fast deploy.
    pub fn force_agent(self) -> (r: Self)
        ensures
            r@ == (InstallMultiPackageModel { force_agent: true, ..self@ }),
            r.environment() == self.environment(),
    {
        let mut r = self;
        r.force_agent = true;
        r
    }

    /// `-date-check-agent`: Update deployment agent when local version is newer and using fast deploy.
    pub fn date_check_agent(self) -> (r: Self)
        ensures
            r@ == (InstallMultiPackageModel { date_check_agent: true, ..self@ }),
            r.environment() == self.environment(),
    {
        let mut r = self;
        r.date_check_agent = true;
        r
    }

    /// `--version-check-agent`: Update deployment agent when local version has different version code and using fast deploy.
    pub fn version_check_agent(self) -> (r: Self)
        ensures
            r@ == (InstallMultiPackageModel { version_check_agent: true, ..self@ }),
            r.environment() == self.environment(),
    {
        let mut r = self;
        r.version_check_agent = true;
        r
    }

    /// `--local-agent`: Locate agent files from local source build (instead of SDK location).
    pub fn local_agent(self) -> (r: Self)
        ensures
            r@ == (InstallMultiPackageModel { local_agent: true, ..self@ }),
            r.environment() == self.environment(),
    {
        let mut r = self;
        r.local_agent = true;
        r
    }

    /// `PACKAGE...`: The packages to install.
    ///
    /// The previous packages will be overwritten.
    pub fn packages(self, packages: Vec<String>) -> (r: Self)
        ensures
            r@ == (InstallMultiPackageModel { packages: texts(packages@), ..self@ }),
            r.environment() == self.environment(),
    {
        let mut r = self;
        r.packages = packages;
        r
    }

    /// The name of the command, its one-letter switches and the ABI.
    fn switches(&self) -> (r: Vec<String>)
        ensures
            texts(r@) == install_multi_package_switches(self@),
    {
        let v = start("install-multi-package");
        let v = with_flag(v, self.l, "-l");
        let v = with_flag(v, self.r, "-r");
        let v = with_flag(v, self.t, "-t");
        let v = with_flag(v, self.s, "-s");
        let v = with_flag(v, self.d, "-d");
        let v = with_flag(v, self.g, "-g");
        let v = with_pair(v, "--abi", borrowed(&self.abi));
        v
    }

    /// The arguments that choose how the package is sent.
    fn modes(&self) -> (r: Vec<String>)
        ensures
            texts(r@) == install_multi_package_modes(self@),
    {
        let v = only_flag(self.instant, "--instant");
        let v = with_flag(v, self.no_streaming, "--no-streaming");
        let v = with_flag(v, self.streaming, "--streaming");
        let v = with_flag(v, self.fastdeploy, "--fastdeploy");
        let v = with_flag(v, self.no_fastdeploy, "-no-fastdeploy");
        let v = with_flag(v, self.force_agent, "-force-agent");
        let v = with_flag(v, self.date_check_agent, "-date-check-agent");
        let v = with_flag(v, self.version_check_agent, "--version-check-agent");
        let v = with_flag(v, self.local_agent, "--local-agent");
        v
    }
}

impl<'a> AdbCommand<'a> for AdbInstallMultiPackage<'a> {
    open spec fn arguments(&self) -> Seq<Seq<char>> {
        option_texts(self@.options) + install_multi_package_args(self@)
    }

    open spec fn global_options(&self) -> Seq<OptionModel> {
        self@.options
    }

    open spec fn adb(&self) -> Adb {
        self.environment()
    }

    fn command_line(&self) -> (r: Vec<String>) {
        let v = self.switches();
        let modes = self.modes();
        let v = with_list(v, modes.as_slice());
        let v = with_list(v, self.packages.as_slice());
        self.acb.command_line(v)
    }

    fn builder(&self) -> (r: &AdbCommandBuilder<'a>) {
        &self.acb
    }
}

impl Adb {
    /// `install-multi-package [-lrtsdg] [--instant] PACKAGE...`: Push one or more packages to the device and install them atomically
    /// - `-r`: Replace existing application.
    /// - `-t`: Allow test packages.
    /// - `-d`: Allow version code downgrade (debuggable packages only).
    /// - `-g`: Grant all runtime permissions.
    /// - `--abi ABI`: Override platform's default ABI.
    /// - `--instant`: Cause the app to be installed as an ephemeral install app.
    /// - `--no-streaming`: Always push APK to device and invoke Package Manager as separate steps.
    /// - `--streaming`: Force streaming APK directly into Package Manager.
    /// - `--fastdeploy`: Use fast deploy.
    /// - `-no-fastdeploy`: Prevent use of fast deploy.
    /// - `-force-agent`: Force update of deployment agent when using fast deploy.
    /// - `-date-check-agent`: Update deployment agent when local version is newer and using fast deploy.
    /// - `--version-check-agent`: Update deployment agent when local version has different version code and using fast deploy.
    /// - `--local-agent`: Locate agent files from local source build (instead of SDK location).
    pub fn install_multi_package(&self, packages: Vec<String>) -> (r: AdbInstallMultiPackage<'_>)
        ensures
            r@ == (InstallMultiPackageModel {
                options: Seq::<OptionModel>::empty(),
                l: false,
                r: false,
                t: false,
                s: false,
                d: false,
                g: false,
                abi: None,
                instant: false,
                no_streaming: false,
                streaming: false,
                fastdeploy: false,
                no_fastdeploy: false,
                force_agent: false,
                date_check_agent: false,
                version_check_agent: false,
                local_agent: false,
                packages: texts(packages@),
            }),
            r.environment() == *self,
    {
        AdbInstallMultiPackage::new(self.command(), packages)
    }
}

impl<'a> AdbCommandBuilder<'a> {
    /// `install-multi-package [-lrtsdg] [--instant] PACKAGE...`: Push one or more packages to the device and install them atomically
    /// - `-r`: Replace existing application.
    /// - `-t`: Allow test packages.
    /// - `-d`: Allow version code downgrade (debuggable packages only).
    /// - `-g`: Grant all runtime permissions.
    /// - `--abi ABI`: Override platform's default ABI.
    /// - `--instant`: Cause the app to be installed as an ephemeral install app.
    /// - `--no-streaming`: Always push APK to device and invoke Package Manager as separate steps.
    /// - `--streaming`: Force streaming APK directly into Package Manager.
    /// - `--fastdeploy`: Use fast deploy.
    /// - `-no-fastdeploy`: Prevent use of fast deploy.
    /// - `-force-agent`: Force update of deployment agent when using fast deploy.
    /// - `-date-check-agent`: Update deployment agent when local version is newer and using fast deploy.
    /// - `--version-check-agent`: Update deployment agent when local version has different version code and using fast deploy.
    /// - `--local-agent`: Locate agent files from local source build (instead of SDK location).
    pub fn install_multi_package(self, packages: Vec<String>) -> (r: AdbInstallMultiPackage<'a>)
        ensures
            r@ == (InstallMultiPackageModel {
                options: self.options(),
                l: false,
                r: false,
                t: false,
                s: false,
                d: false,
                g: false,
                abi: None,
                instant: false,
                no_streaming: false,
                streaming: false,
                fastdeploy: false,
                no_fastdeploy: false,
                force_agent: false,
                date_check_agent: false,
                version_check_agent: false,
                local_agent: false,
                packages: texts(packages@),
            }),
            r.environment() == self.environment(),
    {
        AdbInstallMultiPackage::new(self, packages)
    }
}

/// `uninstall [-k] APPLICATION_ID`: Remove this `APPLICATION_ID` from the device.
///
/// - `-k`: Keep the data and cache directories.
#[derive(Debug, Clone, PartialEq, Eq)]
pub struct AdbUninstall<'a> {
    acb: AdbCommandBuilder<'a>,
    /// `-k`: Keep the data and cache directories.
    k: bool,
    /// `APPLICATION_ID`: The package to uninstall.
    application_id: String,
}

/// A command `uninstall` as plain values: its global options and its own settings.
pub struct UninstallModel {
    pub options: Seq<OptionModel>,
    pub k: bool,
    pub application_id: Seq<char>,
}

/// The arguments of a command `uninstall` after the global options.
pub open spec fn uninstall_args(m: UninstallModel) -> Seq<Seq<char>> {
    seq!["uninstall"@] + flag(m.k, "-k"@) + seq![m.application_id]
}

impl<'a> View for AdbUninstall<'a> {
    type V = UninstallModel;

    closed spec fn view(&self) -> UninstallModel {
        UninstallModel {
            options: self.acb.options(),
            k: self.k,
            application_id: self.application_id@,
        }
    }
}

impl<'a> AdbUninstall<'a> {
    /// The environment used in this command.
    pub closed spec fn environment(&self) -> Adb {
        self.acb.environment()
    }

    /// A command `uninstall` with the environment and the global options of `acb`.
    pub fn new(acb: AdbCommandBuilder<'a>, application_id: &str) -> (r: Self)
        ensures
            r@ == (UninstallModel {
                options: acb.options(),
                k: false,
                application_id: application_id@,
            }),
            r.environment() == acb.environment(),
    {
        Self { acb, k: false, application_id: owned(application_id) }
    }

    /// `-k`: Keep the data and cache directories.
    pub fn k(self) -> (r: Self)
        ensures
            r@ == (UninstallModel { k: true, ..self@ }),
            r.environment() == self.environment(),
    {
        let mut r = self;
        r.k = true;
        r
    }

    /// `APPLICATION_ID`: The package to uninstall.
    ///
    /// The previous application ID will be overwritten.
    pub fn application_id(self, application_id: &str) -> (r: Self)
        ensures
            r@ == (UninstallModel { application_id: application_id@, ..self@ }),
            r.environment() == self.environment(),
    {
        let mut r = self;
        r.application_id = owned(application_id);
        r
    }

}

impl<'a> AdbCommand<'a> for AdbUninstall<'a> {
    open spec fn arguments(&self) -> Seq<Seq<char>> {
        option_texts(self@.options) + uninstall_args(self@)
    }

    open spec fn global_options(&self) -> Seq<OptionModel> {
        self@.options
    }

    open spec fn adb(&self) -> Adb {
        self.environment()
    }

    fn command_line(&self) -> (r: Vec<String>) {
        let v = start("uninstall");
        let v = with_flag(v, self.k, "-k");
        let v = with_arg(v, self.application_id.as_str());
        self.acb.command_line(v)
    }

    fn builder(&self) -> (r: &AdbCommandBuilder<'a>) {
        &self.acb
    }
}

impl Adb {
    /// `uninstall [-k] APPLICATION_ID`: Remove this `APPLICATION_ID` from the device.
    ///
    /// - `-k`: Keep the data and cache directories.
    pub fn uninstall(&self, application_id: &str) -> (r: AdbUninstall<'_>)
        ensures
            r@ == (UninstallModel {
                options: Seq::<OptionModel>::empty(),
                k: false,
                application_id: application_id@,
            }),
            r.environment() == *self,
    {
        AdbUninstall::new(self.command(), application_id)
    }
}

impl<'a> AdbCommandBuilder<'a> {
    /// `uninstall [-k] APPLICATION_ID`: Remove this `APPLICATION_ID` from the device.
    ///
    /// - `-k`: Keep the data and cache directories.
    pub fn uninstall(self, application_id: &str) -> (r: AdbUninstall<'a>)
        ensures
            r@ == (UninstallModel {
                options: self.options(),
                k: false,
                application_id: application_id@,
            }),
            r.environment() == self.environment(),
    {
        AdbUninstall::new(self, application_id)
    }
}

} // verus!
