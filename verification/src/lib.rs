//! A typed builder for the command lines of `adb`, the Android Debug Bridge.
//!
//! The library builds command lines and reads and writes the texts that they
//! are made of. It starts no process, reads no environment and resolves no
//! name: what it needs from outside is handed to it as plain values, and what
//! it returns is a list of arguments.
//!
//! - [`socket`]: the socket families of adb (`tcp:`, `localabstract:`,
//!   `vsock:` and the others), with the reading of a text into a socket and
//!   the text of a socket. [`socket_laws`] proves that the text of a valid
//!   socket is read back as that socket.
//! - [`ip`]: IP addresses and socket addresses with their text forms, on
//!   which the `tcp:` family rests. [`ip_laws`] proves that the text of an
//!   address is read back as that address.
//! - [`global_option`]: the options that go before the name of a command
//!   (`-s`, `-H`, `-L` and the others). [`global_option_laws`] proves that the
//!   text of an option is read back as that option.
//! - [`command`]: the set of global options of a command, which holds at most
//!   one option of each kind, and a builder for each command of adb.
//! - [`resolve`]: the reading of a socket or an option whose host is a name,
//!   as steps between which the caller looks the name up.
//! - [`envs`]: the environment variables of adb.
//! - [`error`]: the errors of reading.
//! - [`text`], [`scan`], [`number`]: characters, searching and splitting,
//!   decimal and hexadecimal numerals.
//!
//! An [`Adb`] holds the directory of the adb binary and the adb variables.
//! Every command starts from it, directly or after global options:
//! `adb.serial("emulator-5554").install("app.apk").r().args()` gives the
//! arguments `-s emulator-5554`, `install`, `-r`, `app.apk`.

pub mod command;
pub mod envs;
pub mod error;
pub mod global_option;
pub mod global_option_laws;
pub mod ip;
pub mod ip_laws;
pub mod number;
pub mod resolve;
pub mod scan;
pub mod socket;
pub mod socket_laws;
pub mod text;

use vstd::prelude::*;
use crate::envs::{envs_parse, env_model, no_envs, EnvsModel};
use crate::global_option::OptionModel;
use crate::ip::IpAddr;
use crate::socket::Tcp;

pub use command::{AdbCommand, AdbCommandBuilder};
pub use envs::AdbEnvs;
pub use error::AdbError;
pub use global_option::AdbGlobalOption;

verus! {

/// Adb result type, where the error is [`AdbError`].
pub type AdbResult<T> = Result<T, AdbError>;

/// A wrapper around the adb binary.
/// It contains working directory and environment variables to build and execute adb commands.
#[derive(Debug, Clone, PartialEq, Eq)]
pub struct Adb {
    /// The directory where the adb binary is located.
    /// If None, the adb binary should be in `PATH`.
    working_directory: Option<String>,
    /// Adb environment variables.
    envs: AdbEnvs,
}


impl Default for Adb {
    /// The adb binary is looked for in `PATH`, and all adb environment
    /// variables are removed from the environment of a command.
    fn default() -> (r: Self)
        ensures
            r.directory() is None,
            r.variables() == no_envs(),
    {
        Adb { working_directory: None, envs: AdbEnvs::default() }
    }
}

impl Adb {
    /// The directory where the adb binary is located, if one is set.
    pub closed spec fn directory(&self) -> Option<Seq<char>> {
        match self.working_directory {
            Some(d) => Some(d@),
            None => None,
        }
    }

    /// The values of the adb environment variables.
    pub closed spec fn variables(&self) -> EnvsModel {
        self.envs@
    }

    /// Creates a new [`Adb`] instance with the adb variables that the
    /// environment `env` gives.
    ///
    /// The adb binary is assumed to be in `PATH`.
    pub fn new(env: &[(String, String)]) -> (r: Result<Self, AdbError>)
        ensures
            match envs_parse(env_model(env@)) {
                Ok(m) => r is Ok && r->Ok_0.directory() is None && r->Ok_0.variables() == m,
                Err(f) => r is Err && r->Err_0@ == f,
            },
    {
        match AdbEnvs::new(env) {
            Ok(envs) => Ok(Self { working_directory: None, envs }),
            Err(e) => Err(e),
        }
    }

    /// Creates a new `Adb` instance with the adb binary located in the
    /// directory `path`, and with the adb variables that the environment
    /// `env` gives.
    pub fn with_working_directory(env: &[(String, String)], path: String) -> (r: Result<
        Self,
        AdbError,
    >)
        ensures
            match envs_parse(env_model(env@)) {
                Ok(m) => r is Ok && r->Ok_0.directory() == Some(path@) && r->Ok_0.variables()
                    == m,
                Err(f) => r is Err && r->Err_0@ == f,
            },
    {
        match AdbEnvs::new(env) {
            Ok(envs) => Ok(Self { working_directory: Some(path), envs }),
            Err(e) => Err(e),
        }
    }

    /// The directory where the adb binary is located.
    ///
    /// If [`None`], the adb binary will be searched in an OS-defined way in `PATH`.
    pub fn working_directory(&self) -> (r: Option<&str>)
        ensures
            match self.directory() {
                Some(d) => r is Some && r->0@ == d,
                None => r is None,
            },
    {
        match &self.working_directory {
            Some(d) => Some(d.as_str()),
            None => None,
        }
    }

    /// Sets the directory where the adb binary is located, and returns the
    /// `Adb` itself, so that calls can be chained.
    pub fn set_working_directory(&mut self, path: String) -> (r: &mut Self)
        ensures
            r.directory() == Some(path@),
            r.variables() == old(self).variables(),
            *final(self) == *final(r),
    {
        self.working_directory = Some(path);
        self
    }

    /// Resets the working directory.
    ///
    /// The adb binary will be searched in an OS-defined way in `PATH`.
    ///
    /// Returns the `Adb` itself, so that calls can be chained.
    pub fn reset_working_directory(&mut self) -> (r: &mut Self)
        ensures
            r.directory() is None,
            r.variables() == old(self).variables(),
            *final(self) == *final(r),
    {
        self.working_directory = None;
        self
    }

    /// Gets the adb environment variables.
    pub fn envs(&self) -> (r: &AdbEnvs)
        ensures
            r@ == self.variables(),
    {
        &self.envs
    }

    /// Gets the mutable adb environment variables.
    pub fn envs_mut(&mut self) -> (r: &mut AdbEnvs)
        ensures
            r@ == old(self).variables(),
            final(self).variables() == final(r)@,
            final(self).directory() == old(self).directory(),
    {
        &mut self.envs
    }

    /// Creates a new [`AdbCommandBuilder`].
    pub fn command(&self) -> (r: AdbCommandBuilder<'_>)
        ensures
            r.options() == Seq::<OptionModel>::empty(),
            r.environment() == *self,
    {
        AdbCommandBuilder::new(self)
    }

    /// `-a`: Listen on all network interfaces, not just localhost.
    pub fn listen_all(&self) -> (r: AdbCommandBuilder<'_>)
        ensures
            r.options() == seq![OptionModel::ListenAll],
            r.environment() == *self,
    {
        let r = self.command().listen_all();
        assert(r.options() =~= seq![OptionModel::ListenAll]);
        r
    }

    /// `-d`: Use USB device (error if multiple devices connected).
    pub fn usb(&self) -> (r: AdbCommandBuilder<'_>)
        ensures
            r.options() == seq![OptionModel::Usb],
            r.environment() == *self,
    {
        let r = self.command().usb();
        assert(r.options() =~= seq![OptionModel::Usb]);
        r
    }

    /// `-e`: Use TCP/IP device (error if multiple TCP/IP devices available).
    pub fn tcp_ip(&self) -> (r: AdbCommandBuilder<'_>)
        ensures
            r.options() == seq![OptionModel::TcpIp],
            r.environment() == *self,
    {
        let r = self.command().tcp_ip();
        assert(r.options() =~= seq![OptionModel::TcpIp]);
        r
    }

    /// `-s SERIAL`: Use device with given SERIAL (overrides $ANDROID_SERIAL).
    pub fn serial(&self, serial: &str) -> (r: AdbCommandBuilder<'_>)
        ensures
            r.options() == seq![OptionModel::Serial(serial@)],
            r.environment() == *self,
    {
        let r = self.command().serial(serial);
        assert(r.options() =~= seq![OptionModel::Serial(serial@)]);
        r
    }

    /// `-t ID`: Use device with given transport id.
    pub fn transport_id(&self, id: &str) -> (r: AdbCommandBuilder<'_>)
        ensures
            r.options() == seq![OptionModel::TransportId(id@)],
            r.environment() == *self,
    {
        let r = self.command().transport_id(id);
        assert(r.options() =~= seq![OptionModel::TransportId(id@)]);
        r
    }

    /// `-H`: Name of adb server host. Default is `localhost`.
    pub fn host(&self, host: IpAddr) -> (r: AdbCommandBuilder<'_>)
        ensures
            r.options() == seq![OptionModel::Host(host@)],
            r.environment() == *self,
    {
        let r = self.command().host(host);
        assert(r.options() =~= seq![OptionModel::Host(host@)]);
        r
    }

    /// `-P *PORT`: Smart socket PORT of adb server. Default is `5037`.
    pub fn port(&self, port: u16) -> (r: AdbCommandBuilder<'_>)
        ensures
            r.options() == seq![OptionModel::Port(port)],
            r.environment() == *self,
    {
        let r = self.command().port(port);
        assert(r.options() =~= seq![OptionModel::Port(port)]);
        r
    }

    /// `-L SOCKET`: Listen on given socket for adb server. Default is `tcp:localhost:5037`.
    pub fn listen(&self, addr: Tcp) -> (r: AdbCommandBuilder<'_>)
        ensures
            r.options() == seq![OptionModel::Listen(addr@)],
            r.environment() == *self,
    {
        let r = self.command().listen(addr);
        assert(r.options() =~= seq![OptionModel::Listen(addr@)]);
        r
    }

    /// `--one-device SERIAL | USB`:
    /// Server will only connect to one USB device, specified by a SERIAL number or USB device address
    /// (only with `start-server` or `server nodaemon`).
    pub fn one_device(&self, device: &str) -> (r: AdbCommandBuilder<'_>)
        ensures
            r.options() == seq![OptionModel::OneDevice(device@)],
            r.environment() == *self,
    {
        let r = self.command().one_device(device);
        assert(r.options() =~= seq![OptionModel::OneDevice(device@)]);
        r
    }

    /// `--exit-on-write-error`: Exit if stdout is closed.
    pub fn exit_on_write_error(&self) -> (r: AdbCommandBuilder<'_>)
        ensures
            r.options() == seq![OptionModel::ExitOnWriteError],
            r.environment() == *self,
    {
        let r = self.command().exit_on_write_error();
        assert(r.options() =~= seq![OptionModel::ExitOnWriteError]);
        r
    }
}

} // verus!
