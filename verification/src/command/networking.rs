//! Networking commands
//!
//! - `connect HOST[:PORT]`: Connect to a device via TCP/IP (default `PORT=5555`).
//! - `disconnect [HOST[:PORT]]`: Disconnect from given TCP/IP device (default `PORT=5555`), or all.
//! - `pair HOST[:PORT] [PAIRING_CODE]`: Pair with a device for secure TCP/IP communication.
//! - `forward --list | [--no-rebind] LOCAL_REMOTE | --remove LOCAL | --remove-all`: Forward socket connections.
//! - `reverse --list | [--no-rebind] LOCAL_REMOTE | --remove LOCAL | --remove-all`: Reverse socket connections.
//! - `mdns check | services`: Perform mDNS subcommands.

use vstd::prelude::*;
use crate::command::{
    borrowed, flag, host_and_port, host_with_port, optional, option_texts, owned, pair, start,
    text_of, with_arg, with_flag, with_optional, AdbCommand, AdbCommandBuilder,
};
use crate::global_option::OptionModel;
use crate::Adb;

verus! {

/// `connect HOST[:PORT]`: Connect to a device via TCP/IP (default `PORT=5555`).
#[derive(Debug, Clone, PartialEq, Eq)]
pub struct AdbConnect<'a> {
    acb: AdbCommandBuilder<'a>,
    /// `HOST`: The host to connect to.
    host: String,
    /// `PORT`: The optional port to connect to, default is `5555`.
    port: Option<u16>,
}

/// A command `connect` as plain values: its global options and its own settings.
pub struct ConnectModel {
    pub options: Seq<OptionModel>,
    pub host: Seq<char>,
    pub port: Option<u16>,
}

/// The arguments of a command `connect` after the global options.
pub open spec fn connect_args(m: ConnectModel) -> Seq<Seq<char>> {
    seq!["connect"@] + seq![host_and_port(m.host, m.port)]
}

impl<'a> View for AdbConnect<'a> {
    type V = ConnectModel;

    closed spec fn view(&self) -> ConnectModel {
        ConnectModel {
            options: self.acb.options(),
            host: self.host@,
            port: self.port,
        }
    }
}

impl<'a> AdbConnect<'a> {
    /// The environment used in this command.
    pub closed spec fn environment(&self) -> Adb {
        self.acb.environment()
    }

    /// Creates a new `Connect` command without the port.
    pub fn new(acb: AdbCommandBuilder<'a>, host: &str) -> (r: Self)
        ensures
            r@ == (ConnectModel {
                options: acb.options(),
                host: host@,
                port: None,
            }),
            r.environment() == acb.environment(),
    {
        Self { acb, host: owned(host), port: None }
    }

    /// `HOST`: The host to connect to.
    ///
    /// The previous host will be overwritten.
    pub fn host(self, host: &str) -> (r: Self)
        ensures
            r@ == (ConnectModel { host: host@, ..self@ }),
            r.environment() == self.environment(),
    {
        let mut r = self;
        r.host = owned(host);
        r
    }

    /// `PORT`: The optional port to connect to, default is `5555`.
    ///
    /// The previous port will be overwritten.
    pub fn port(self, port: u16) -> (r: Self)
        ensures
            r@ == (ConnectModel { port: Some(port), ..self@ }),
            r.environment() == self.environment(),
    {
        let mut r = self;
        r.port = Some(port);
        r
    }

}

impl<'a> AdbCommand<'a> for AdbConnect<'a> {
    open spec fn arguments(&self) -> Seq<Seq<char>> {
        option_texts(self@.options) + connect_args(self@)
    }

    open spec fn global_options(&self) -> Seq<OptionModel> {
        self@.options
    }

    open spec fn adb(&self) -> Adb {
        self.environment()
    }

    fn command_line(&self) -> (r: Vec<String>) {
        let v = start("connect");
        let target = host_with_port(self.host.as_str(), self.port);
        let v = with_arg(v, target.as_str());
        self.acb.command_line(v)
    }

    fn builder(&self) -> (r: &AdbCommandBuilder<'a>) {
        &self.acb
    }
}

impl Adb {
    /// `connect HOST[:PORT]`: Connect to a device via TCP/IP (default `PORT=5555`).
    ///
    /// # Note
    ///
    /// The host can be an IP address or a domain name.
    /// However, the validity of the host is not checked.
    pub fn connect(&self, host: &str) -> (r: AdbConnect<'_>)
        ensures
            r@ == (ConnectModel {
                options: Seq::<OptionModel>::empty(),
                host: host@,
                port: None,
            }),
            r.environment() == *self,
    {
        AdbConnect::new(self.command(), host)
    }
}

impl<'a> AdbCommandBuilder<'a> {
    /// `connect HOST[:PORT]`: Connect to a device via TCP/IP (default `PORT=5555`).
    pub fn connect(self, host: &str) -> (r: AdbConnect<'a>)
        ensures
            r@ == (ConnectModel {
                options: self.options(),
                host: host@,
                port: None,
            }),
            r.environment() == self.environment(),
    {
        AdbConnect::new(self, host)
    }
}

/// `disconnect [HOST[:PORT]]`: Disconnect from given TCP/IP device (default `PORT=5555`), or all.
#[derive(Debug, Clone, PartialEq, Eq)]
pub struct AdbDisconnect<'a> {
    acb: AdbCommandBuilder<'a>,
    /// `HOST`: The optional host to disconnect from.
    host: Option<String>,
    /// `PORT`: The optional port to disconnect from, default is `5555`.
    port: Option<u16>,
}

/// A command `disconnect` as plain values: its global options and its own settings.
pub struct DisconnectModel {
    pub options: Seq<OptionModel>,
    pub host: Option<Seq<char>>,
    pub port: Option<u16>,
}

/// The arguments of a command `disconnect` after the global options.
pub open spec fn disconnect_args(m: DisconnectModel) -> Seq<Seq<char>> {
    seq!["disconnect"@] + optional(
        match m.host {
            Some(h) => Some(host_and_port(h, m.port)),
            None => None,
        },
    )
}

impl<'a> View for AdbDisconnect<'a> {
    type V = DisconnectModel;

    closed spec fn view(&self) -> DisconnectModel {
        DisconnectModel {
            options: self.acb.options(),
            host: text_of(self.host),
            port: self.port,
        }
    }
}

impl<'a> AdbDisconnect<'a> {
    /// The environment used in this command.
    pub closed spec fn environment(&self) -> Adb {
        self.acb.environment()
    }

    /// Creates a new `Disconnect` command without the host and port.
    pub fn new(acb: AdbCommandBuilder<'a>) -> (r: Self)
        ensures
            r@ == (DisconnectModel {
                options: acb.options(),
                host: None,
                port: None,
            }),
            r.environment() == acb.environment(),
    {
        Self { acb, host: None, port: None }
    }

    /// `HOST`: The optional host to disconnect from.
    ///
    /// The previous host will be overwritten.
    ///
    /// # Note
    ///
    /// The host can be an IP address or a domain name.
    /// However, the validity of the host is not checked.
    pub fn host(self, host: &str) -> (r: Self)
        ensures
            r@ == (DisconnectModel { host: Some(host@), ..self@ }),
            r.environment() == self.environment(),
    {
        let mut r = self;
        r.host = Some(owned(host));
        r
    }

    /// `PORT`: The optional port to disconnect from, default is `5555`.
    ///
    /// The previous port will be overwritten.
    pub fn port(self, port: u16) -> (r: Self)
        ensures
            r@ == (DisconnectModel { port: Some(port), ..self@ }),
            r.environment() == self.environment(),
    {
        let mut r = self;
        r.port = Some(port);
        r
    }

}

impl<'a> AdbCommand<'a> for AdbDisconnect<'a> {
    open spec fn arguments(&self) -> Seq<Seq<char>> {
        option_texts(self@.options) + disconnect_args(self@)
    }

    open spec fn global_options(&self) -> Seq<OptionModel> {
        self@.options
    }

    open spec fn adb(&self) -> Adb {
        self.environment()
    }

    fn command_line(&self) -> (r: Vec<String>) {
        let v = start("disconnect");
        let target = match &self.host {
            Some(h) => Some(host_with_port(h.as_str(), self.port)),
            None => None,
        };
        let v = with_optional(v, borrowed(&target));
        self.acb.command_line(v)
    }

    fn builder(&self) -> (r: &AdbCommandBuilder<'a>) {
        &self.acb
    }
}

impl Adb {
    /// `disconnect [HOST[:PORT]]`: Disconnect from given TCP/IP device (default `PORT=5555`), or all.
    pub fn disconnect(&self) -> (r: AdbDisconnect<'_>)
        ensures
            r@ == (DisconnectModel {
                options: Seq::<OptionModel>::empty(),
                host: None,
                port: None,
            }),
            r.environment() == *self,
    {
        AdbDisconnect::new(self.command())
    }
}

impl<'a> AdbCommandBuilder<'a> {
    /// `disconnect [HOST[:PORT]]`: Disconnect from given TCP/IP device (default `PORT=5555`), or all.
    pub fn disconnect(self) -> (r: AdbDisconnect<'a>)
        ensures
            r@ == (DisconnectModel {
                options: self.options(),
                host: None,
                port: None,
            }),
            r.environment() == self.environment(),
    {
        AdbDisconnect::new(self)
    }
}

/// `pair HOST[:PORT] [PAIRING_CODE]`: Pair with a device for secure TCP/IP communication.
#[derive(Debug, Clone, PartialEq, Eq)]
pub struct AdbPair<'a> {
    acb: AdbCommandBuilder<'a>,
    /// `HOST`: The host to pair with.
    host: String,
    /// `PORT`: The optional port to pair with, default is `5555`.
    port: Option<u16>,
    /// `PAIRING_CODE`: The optional pairing code.
    pairing_code: Option<String>,
}

/// A command `pair` as plain values: its global options and its own settings.
pub struct PairModel {
    pub options: Seq<OptionModel>,
    pub host: Seq<char>,
    pub port: Option<u16>,
    pub pairing_code: Option<Seq<char>>,
}

/// The arguments of a command `pair` after the global options.
pub open spec fn pair_args(m: PairModel) -> Seq<Seq<char>> {
    seq!["pair"@] + seq![host_and_port(m.host, m.port)] + optional(m.pairing_code)
}

impl<'a> View for AdbPair<'a> {
    type V = PairModel;

    closed spec fn view(&self) -> PairModel {
        PairModel {
            options: self.acb.options(),
            host: self.host@,
            port: self.port,
            pairing_code: text_of(self.pairing_code),
        }
    }
}

impl<'a> AdbPair<'a> {
    /// The environment used in this command.
    pub closed spec fn environment(&self) -> Adb {
        self.acb.environment()
    }

    /// Creates a new `Pair` command with the host.
    pub fn new(acb: AdbCommandBuilder<'a>, host: &str) -> (r: Self)
        ensures
            r@ == (PairModel {
                options: acb.options(),
                host: host@,
                port: None,
                pairing_code: None,
            }),
            r.environment() == acb.environment(),
    {
        Self { acb, host: owned(host), port: None, pairing_code: None }
    }

    /// `HOST`: The host to pair with.
    ///
    /// The previous host will be overwritten.
    pub fn host(self, host: &str) -> (r: Self)
        ensures
            r@ == (PairModel { host: host@, ..self@ }),
            r.environment() == self.environment(),
    {
        let mut r = self;
        r.host = owned(host);
        r
    }

    /// `PORT`: The optional port to pair with, default is `5555`.
    ///
    /// The previous port will be overwritten.
    pub fn port(self, port: u16) -> (r: Self)
        ensures
            r@ == (PairModel { port: Some(port), ..self@ }),
            r.environment() == self.environment(),
    {
        let mut r = self;
        r.port = Some(port);
        r
    }

    /// `PAIRING_CODE`: The optional pairing code.
    ///
    /// The previous pairing code will be overwritten.
    pub fn pairing_code(self, pairing_code: &str) -> (r: Self)
        ensures
            r@ == (PairModel { pairing_code: Some(pairing_code@), ..self@ }),
            r.environment() == self.environment(),
    {
        let mut r = self;
        r.pairing_code = Some(owned(pairing_code));
        r
    }

}

impl<'a> AdbCommand<'a> for AdbPair<'a> {
    open spec fn arguments(&self) -> Seq<Seq<char>> {
        option_texts(self@.options) + pair_args(self@)
    }

    open spec fn global_options(&self) -> Seq<OptionModel> {
        self@.options
    }

    open spec fn adb(&self) -> Adb {
        self.environment()
    }

    fn command_line(&self) -> (r: Vec<String>) {
        let v = start("pair");
        let target = host_with_port(self.host.as_str(), self.port);
        let v = with_arg(v, target.as_str());
        let v = with_optional(v, borrowed(&self.pairing_code));
        self.acb.command_line(v)
    }

    fn builder(&self) -> (r: &AdbCommandBuilder<'a>) {
        &self.acb
    }
}

impl Adb {
    /// `pair HOST[:PORT] [PAIRING_CODE]`: Pair with a device for secure TCP/IP communication.
    ///
    /// # Note
    ///
    /// The host can be an IP address or a domain name.
    /// However, the validity of the host is not checked.
    pub fn pair(&self, host: &str) -> (r: AdbPair<'_>)
        ensures
            r@ == (PairModel {
                options: Seq::<OptionModel>::empty(),
                host: host@,
                port: None,
                pairing_code: None,
            }),
            r.environment() == *self,
    {
        AdbPair::new(self.command(), host)
    }
}

impl<'a> AdbCommandBuilder<'a> {
    /// `pair HOST[:PORT] [PAIRING_CODE]`: Pair with a device for secure TCP/IP communication.
    pub fn pair(self, host: &str) -> (r: AdbPair<'a>)
        ensures
            r@ == (PairModel {
                options: self.options(),
                host: host@,
                port: None,
                pairing_code: None,
            }),
            r.environment() == self.environment(),
    {
        AdbPair::new(self, host)
    }
}

/// `forward`: the start of the commands that forward socket connections.
#[derive(Debug, Clone, PartialEq, Eq)]
pub struct AdbForward<'a>(AdbCommandBuilder<'a>);

impl<'a> View for AdbForward<'a> {
    type V = Seq<OptionModel>;

    /// The global options of the command.
    closed spec fn view(&self) -> Seq<OptionModel> {
        self.0.options()
    }
}

impl<'a> AdbForward<'a> {
    /// The environment used in this command.
    pub closed spec fn environment(&self) -> Adb {
        self.0.environment()
    }

    /// The start of the command, with the environment and the global options of `acb`.
    pub fn new(acb: AdbCommandBuilder<'a>) -> (r: Self)
        ensures
            r@ == acb.options(),
            r.environment() == acb.environment(),
    {
        AdbForward(acb)
    }

    /// `forward LOCAL REMOTE`: Forward socket connection.
    pub fn arg(self, local: &str, remote: &str) -> (r: AdbForwardNoRebind<'a>)
        ensures
            r@ == (ForwardNoRebindModel {
                options: self@,
                no_rebind: false,
                local: local@,
                remote: remote@,
            }),
            r.environment() == self.environment(),
    {
        AdbForwardNoRebind::new(self.0, local, remote)
    }

    /// `forward --list`: List all forward socket connections.
    pub fn list(self) -> (r: AdbForwardList<'a>)
        ensures
            r@ == self@,
            r.environment() == self.environment(),
    {
        AdbForwardList::new(self.0)
    }

    /// `forward --no-rebind LOCAL REMOTE`: Forward socket connection, and fail if `LOCAL` is already forwarded.
    pub fn no_rebind(self, local: &str, remote: &str) -> (r: AdbForwardNoRebind<'a>)
        ensures
            r@ == (ForwardNoRebindModel {
                options: self@,
                no_rebind: true,
                local: local@,
                remote: remote@,
            }),
            r.environment() == self.environment(),
    {
        AdbForwardNoRebind::new(self.0, local, remote).no_rebind()
    }

    /// `forward --remove LOCAL`: Remove specific forward socket connection.
    pub fn remove(self, local: &str) -> (r: AdbForwardRemove<'a>)
        ensures
            r@ == (ForwardRemoveModel { options: self@, local: local@ }),
            r.environment() == self.environment(),
    {
        AdbForwardRemove::new(self.0, local)
    }

    /// `forward --remove-all`: Remove all forward socket connections.
    pub fn remove_all(self) -> (r: AdbForwardRemoveAll<'a>)
        ensures
            r@ == self@,
            r.environment() == self.environment(),
    {
        AdbForwardRemoveAll::new(self.0)
    }
}

impl Adb {
    /// `forward`: the start of the commands that forward socket connections.
    pub fn forward(&self) -> (r: AdbForward<'_>)
        ensures
            r@ == Seq::<OptionModel>::empty(),
            r.environment() == *self,
    {
        AdbForward::new(self.command())
    }
}

impl<'a> AdbCommandBuilder<'a> {
    /// `forward`: the start of the commands that forward socket connections.
    pub fn forward(self) -> (r: AdbForward<'a>)
        ensures
            r@ == self.options(),
            r.environment() == self.environment(),
    {
        AdbForward::new(self)
    }
}

/// A subcommand of `forward`.
///
/// `forward --list`: List all forward socket connections.
#[derive(Debug, Clone, PartialEq, Eq)]
pub struct AdbForwardList<'a>(AdbCommandBuilder<'a>);

/// The arguments of the command `forward --list` after the global options.
pub open spec fn forward_list_args() -> Seq<Seq<char>> {
    seq!["forward"@] + seq!["--list"@]
}

impl<'a> View for AdbForwardList<'a> {
    type V = Seq<OptionModel>;

    /// The global options of the command.
    closed spec fn view(&self) -> Seq<OptionModel> {
        self.0.options()
    }
}

impl<'a> AdbForwardList<'a> {
    /// The environment used in this command.
    pub closed spec fn environment(&self) -> Adb {
        self.0.environment()
    }

    /// The command `forward --list` with the environment and the global options of `acb`.
    pub fn new(acb: AdbCommandBuilder<'a>) -> (r: Self)
        ensures
            r@ == acb.options(),
            r.environment() == acb.environment(),
    {
        AdbForwardList(acb)
    }
}

impl<'a> AdbCommand<'a> for AdbForwardList<'a> {
    open spec fn arguments(&self) -> Seq<Seq<char>> {
        option_texts(self@) + forward_list_args()
    }

    open spec fn global_options(&self) -> Seq<OptionModel> {
        self@
    }

    open spec fn adb(&self) -> Adb {
        self.environment()
    }

    fn command_line(&self) -> (r: Vec<String>) {
        let v = start("forward");
        let v = with_arg(v, "--list");
        self.0.command_line(v)
    }

    fn builder(&self) -> (r: &AdbCommandBuilder<'a>) {
        &self.0
    }
}

/// A subcommand of `forward`.
///
/// `forward --no-rebind LOCAL REMOTE`: Forward socket connection without rebinding.
#[derive(Debug, Clone, PartialEq, Eq)]
pub struct AdbForwardNoRebind<'a> {
    acb: AdbCommandBuilder<'a>,
    /// `--no-rebind`: Whether to rebind the connection.
    no_rebind: bool,
    /// `LOCAL`: The local socket to forward.
    local: String,
    /// `REMOTE`: The remote socket to forward.
    remote: String,
}

/// A command `forward LOCAL REMOTE` as plain values: its global options and its own settings.
pub struct ForwardNoRebindModel {
    pub options: Seq<OptionModel>,
    pub no_rebind: bool,
    pub local: Seq<char>,
    pub remote: Seq<char>,
}

/// The arguments of a command `forward LOCAL REMOTE` after the global options.
pub open spec fn forward_no_rebind_args(m: ForwardNoRebindModel) -> Seq<Seq<char>> {
    seq!["forward"@] + flag(m.no_rebind, "--no-rebind"@) + seq![m.local] + seq![m.remote]
}

impl<'a> View for AdbForwardNoRebind<'a> {
    type V = ForwardNoRebindModel;

    closed spec fn view(&self) -> ForwardNoRebindModel {
        ForwardNoRebindModel {
            options: self.acb.options(),
            no_rebind: self.no_rebind,
            local: self.local@,
            remote: self.remote@,
        }
    }
}

impl<'a> AdbForwardNoRebind<'a> {
    /// The environment used in this command.
    pub closed spec fn environment(&self) -> Adb {
        self.acb.environment()
    }

    /// A command `forward LOCAL REMOTE` with the environment and the global options of `acb`.
    pub fn new(acb: AdbCommandBuilder<'a>, local: &str, remote: &str) -> (r: Self)
        ensures
            r@ == (ForwardNoRebindModel {
                options: acb.options(),
                no_rebind: false,
                local: local@,
                remote: remote@,
            }),
            r.environment() == acb.environment(),
    {
        Self { acb, no_rebind: false, local: owned(local), remote: owned(remote) }
    }

    /// `LOCAL`: The local socket to forward.
    ///
    /// The previous local socket will be overwritten.
    pub fn local(self, local: &str) -> (r: Self)
        ensures
            r@ == (ForwardNoRebindModel { local: local@, ..self@ }),
            r.environment() == self.environment(),
    {
        let mut r = self;
        r.local = owned(local);
        r
    }

    /// `REMOTE`: The remote socket to forward.
    ///
    /// The previous remote socket will be overwritten.
    pub fn remote(self, remote: &str) -> (r: Self)
        ensures
            r@ == (ForwardNoRebindModel { remote: remote@, ..self@ }),
            r.environment() == self.environment(),
    {
        let mut r = self;
        r.remote = owned(remote);
        r
    }

    /// `--no-rebind`: Whether to rebind the connection.
    pub fn no_rebind(self) -> (r: Self)
        ensures
            r@ == (ForwardNoRebindModel { no_rebind: true, ..self@ }),
            r.environment() == self.environment(),
    {
        let mut r = self;
        r.no_rebind = true;
        r
    }

}

impl<'a> AdbCommand<'a> for AdbForwardNoRebind<'a> {
    open spec fn arguments(&self) -> Seq<Seq<char>> {
        option_texts(self@.options) + forward_no_rebind_args(self@)
    }

    open spec fn global_options(&self) -> Seq<OptionModel> {
        self@.options
    }

    open spec fn adb(&self) -> Adb {
        self.environment()
    }

    fn command_line(&self) -> (r: Vec<String>) {
        let v = start("forward");
        let v = with_flag(v, self.no_rebind, "--no-rebind");
        let v = with_arg(v, self.local.as_str());
        let v = with_arg(v, self.remote.as_str());
        self.acb.command_line(v)
    }

    fn builder(&self) -> (r: &AdbCommandBuilder<'a>) {
        &self.acb
    }
}

/// A subcommand of `forward`.
///
/// `forward --remove LOCAL`: Remove specific forward socket connection.
#[derive(Debug, Clone, PartialEq, Eq)]
pub struct AdbForwardRemove<'a> {
    acb: AdbCommandBuilder<'a>,
    /// `LOCAL`: The local socket to remove.
    local: String,
}

/// A command `forward --remove` as plain values: its global options and its own settings.
pub struct ForwardRemoveModel {
    pub options: Seq<OptionModel>,
    pub local: Seq<char>,
}

/// The arguments of a command `forward --remove` after the global options.
pub open spec fn forward_remove_args(m: ForwardRemoveModel) -> Seq<Seq<char>> {
    seq!["forward"@] + seq!["--remove"@] + seq![m.local]
}

impl<'a> View for AdbForwardRemove<'a> {
    type V = ForwardRemoveModel;

    closed spec fn view(&self) -> ForwardRemoveModel {
        ForwardRemoveModel {
            options: self.acb.options(),
            local: self.local@,
        }
    }
}

impl<'a> AdbForwardRemove<'a> {
    /// The environment used in this command.
    pub closed spec fn environment(&self) -> Adb {
        self.acb.environment()
    }

    /// A command `forward --remove` with the environment and the global options of `acb`.
    pub fn new(acb: AdbCommandBuilder<'a>, local: &str) -> (r: Self)
        ensures
            r@ == (ForwardRemoveModel {
                options: acb.options(),
                local: local@,
            }),
            r.environment() == acb.environment(),
    {
        Self { acb, local: owned(local) }
    }

    /// `LOCAL`: The local socket to remove.
    ///
    /// The previous local socket will be overwritten.
    pub fn local(self, local: &str) -> (r: Self)
        ensures
            r@ == (ForwardRemoveModel { local: local@, ..self@ }),
            r.environment() == self.environment(),
    {
        let mut r = self;
        r.local = owned(local);
        r
    }

}

impl<'a> AdbCommand<'a> for AdbForwardRemove<'a> {
    open spec fn arguments(&self) -> Seq<Seq<char>> {
        option_texts(self@.options) + forward_remove_args(self@)
    }

    open spec fn global_options(&self) -> Seq<OptionModel> {
        self@.options
    }

    open spec fn adb(&self) -> Adb {
        self.environment()
    }

    fn command_line(&self) -> (r: Vec<String>) {
        let v = start("forward");
        let v = with_arg(v, "--remove");
        let v = with_arg(v, self.local.as_str());
        self.acb.command_line(v)
    }

    fn builder(&self) -> (r: &AdbCommandBuilder<'a>) {
        &self.acb
    }
}

/// A subcommand of `forward`.
///
/// `forward --remove-all`: Remove all forward socket connections.
#[derive(Debug, Clone, PartialEq, Eq)]
pub struct AdbForwardRemoveAll<'a>(AdbCommandBuilder<'a>);

/// The arguments of the command `forward --remove-all` after the global options.
pub open spec fn forward_remove_all_args() -> Seq<Seq<char>> {
    seq!["forward"@] + seq!["--remove-all"@]
}

impl<'a> View for AdbForwardRemoveAll<'a> {
    type V = Seq<OptionModel>;

    /// The global options of the command.
    closed spec fn view(&self) -> Seq<OptionModel> {
        self.0.options()
    }
}

impl<'a> AdbForwardRemoveAll<'a> {
    /// The environment used in this command.
    pub closed spec fn environment(&self) -> Adb {
        self.0.environment()
    }

    /// The command `forward --remove-all` with the environment and the global options of `acb`.
    pub fn new(acb: AdbCommandBuilder<'a>) -> (r: Self)
        ensures
            r@ == acb.options(),
            r.environment() == acb.environment(),
    {
        AdbForwardRemoveAll(acb)
    }
}

impl<'a> AdbCommand<'a> for AdbForwardRemoveAll<'a> {
    open spec fn arguments(&self) -> Seq<Seq<char>> {
        option_texts(self@) + forward_remove_all_args()
    }

    open spec fn global_options(&self) -> Seq<OptionModel> {
        self@
    }

    open spec fn adb(&self) -> Adb {
        self.environment()
    }

    fn command_line(&self) -> (r: Vec<String>) {
        let v = start("forward");
        let v = with_arg(v, "--remove-all");
        self.0.command_line(v)
    }

    fn builder(&self) -> (r: &AdbCommandBuilder<'a>) {
        &self.0
    }
}

/// `reverse`: the start of the commands that reverse socket connections.
#[derive(Debug, Clone, PartialEq, Eq)]
pub struct AdbReverse<'a>(AdbCommandBuilder<'a>);

impl<'a> View for AdbReverse<'a> {
    type V = Seq<OptionModel>;

    /// The global options of the command.
    closed spec fn view(&self) -> Seq<OptionModel> {
        self.0.options()
    }
}

impl<'a> AdbReverse<'a> {
    /// The environment used in this command.
    pub closed spec fn environment(&self) -> Adb {
        self.0.environment()
    }

    /// The start of the command, with the environment and the global options of `acb`.
    pub fn new(acb: AdbCommandBuilder<'a>) -> (r: Self)
        ensures
            r@ == acb.options(),
            r.environment() == acb.environment(),
    {
        AdbReverse(acb)
    }

    /// `reverse REMOTE LOCAL`: Reverse socket connection.
    pub fn arg(self, remote: &str, local: &str) -> (r: AdbReverseNoRebind<'a>)
        ensures
            r@ == (ReverseNoRebindModel {
                options: self@,
                no_rebind: false,
                remote: remote@,
                local: local@,
            }),
            r.environment() == self.environment(),
    {
        AdbReverseNoRebind::new(self.0, remote, local)
    }

    /// `reverse --list`: List all reverse socket connections from device.
    pub fn list(self) -> (r: AdbReverseList<'a>)
        ensures
            r@ == self@,
            r.environment() == self.environment(),
    {
        AdbReverseList::new(self.0)
    }

    /// `reverse --no-rebind REMOTE LOCAL`: Reverse socket connection, and fail if `REMOTE` is already reversed.
    pub fn no_rebind(self, remote: &str, local: &str) -> (r: AdbReverseNoRebind<'a>)
        ensures
            r@ == (ReverseNoRebindModel {
                options: self@,
                no_rebind: true,
                remote: remote@,
                local: local@,
            }),
            r.environment() == self.environment(),
    {
        AdbReverseNoRebind::new(self.0, remote, local).no_rebind()
    }

    /// `reverse --remove REMOTE`: Remove specific reverse socket connection.
    pub fn remove(self, remote: &str) -> (r: AdbReverseRemove<'a>)
        ensures
            r@ == (ReverseRemoveModel { options: self@, remote: remote@ }),
            r.environment() == self.environment(),
    {
        AdbReverseRemove::new(self.0, remote)
    }

    /// `reverse --remove-all`: Remove all reverse socket connections from device.
    pub fn remove_all(self) -> (r: AdbReverseRemoveAll<'a>)
        ensures
            r@ == self@,
            r.environment() == self.environment(),
    {
        AdbReverseRemoveAll::new(self.0)
    }
}

impl Adb {
    /// `reverse`: the start of the commands that reverse socket connections.
    pub fn reverse(&self) -> (r: AdbReverse<'_>)
        ensures
            r@ == Seq::<OptionModel>::empty(),
            r.environment() == *self,
    {
        AdbReverse::new(self.command())
    }
}

impl<'a> AdbCommandBuilder<'a> {
    /// `reverse`: the start of the commands that reverse socket connections.
    pub fn reverse(self) -> (r: AdbReverse<'a>)
        ensures
            r@ == self.options(),
            r.environment() == self.environment(),
    {
        AdbReverse::new(self)
    }
}

/// A subcommand of `reverse`.
///
/// `reverse --list`: List all reverse socket connections from device.
#[derive(Debug, Clone, PartialEq, Eq)]
pub struct AdbReverseList<'a>(AdbCommandBuilder<'a>);

/// The arguments of the command `reverse --list` after the global options.
pub open spec fn reverse_list_args() -> Seq<Seq<char>> {
    seq!["reverse"@] + seq!["--list"@]
}

impl<'a> View for AdbReverseList<'a> {
    type V = Seq<OptionModel>;

    /// The global options of the command.
    closed spec fn view(&self) -> Seq<OptionModel> {
        self.0.options()
    }
}

impl<'a> AdbReverseList<'a> {
    /// The environment used in this command.
    pub closed spec fn environment(&self) -> Adb {
        self.0.environment()
    }

    /// The command `reverse --list` with the environment and the global options of `acb`.
    pub fn new(acb: AdbCommandBuilder<'a>) -> (r: Self)
        ensures
            r@ == acb.options(),
            r.environment() == acb.environment(),
    {
        AdbReverseList(acb)
    }
}

impl<'a> AdbCommand<'a> for AdbReverseList<'a> {
    open spec fn arguments(&self) -> Seq<Seq<char>> {
        option_texts(self@) + reverse_list_args()
    }

    open spec fn global_options(&self) -> Seq<OptionModel> {
        self@
    }

    open spec fn adb(&self) -> Adb {
        self.environment()
    }

    fn command_line(&self) -> (r: Vec<String>) {
        let v = start("reverse");
        let v = with_arg(v, "--list");
        self.0.command_line(v)
    }

    fn builder(&self) -> (r: &AdbCommandBuilder<'a>) {
        &self.0
    }
}

/// A subcommand of `reverse`.
///
/// `reverse --no-rebind REMOTE LOCAL`: Reverse socket connection without rebinding.
#[derive(Debug, Clone, PartialEq, Eq)]
pub struct AdbReverseNoRebind<'a> {
    acb: AdbCommandBuilder<'a>,
    /// `--no-rebind`: Whether to rebind the connection.
    no_rebind: bool,
    /// `REMOTE`: The remote socket to reverse.
    remote: String,
    /// `LOCAL`: The local socket to reverse.
    local: String,
}

/// A command `reverse REMOTE LOCAL` as plain values: its global options and its own settings.
pub struct ReverseNoRebindModel {
    pub options: Seq<OptionModel>,
    pub no_rebind: bool,
    pub remote: Seq<char>,
    pub local: Seq<char>,
}

/// The arguments of a command `reverse REMOTE LOCAL` after the global options.
pub open spec fn reverse_no_rebind_args(m: ReverseNoRebindModel) -> Seq<Seq<char>> {
    seq!["reverse"@] + flag(m.no_rebind, "--no-rebind"@) + seq![m.remote] + seq![m.local]
}

impl<'a> View for AdbReverseNoRebind<'a> {
    type V = ReverseNoRebindModel;

    closed spec fn view(&self) -> ReverseNoRebindModel {
        ReverseNoRebindModel {
            options: self.acb.options(),
            no_rebind: self.no_rebind,
            remote: self.remote@,
            local: self.local@,
        }
    }
}

impl<'a> AdbReverseNoRebind<'a> {
    /// The environment used in this command.
    pub closed spec fn environment(&self) -> Adb {
        self.acb.environment()
    }

    /// A command `reverse REMOTE LOCAL` with the environment and the global options of `acb`.
    pub fn new(acb: AdbCommandBuilder<'a>, remote: &str, local: &str) -> (r: Self)
        ensures
            r@ == (ReverseNoRebindModel {
                options: acb.options(),
                no_rebind: false,
                remote: remote@,
                local: local@,
            }),
            r.environment() == acb.environment(),
    {
        Self { acb, no_rebind: false, remote: owned(remote), local: owned(local) }
    }

    /// `--no-rebind`: Whether to rebind the connection.
    pub fn no_rebind(self) -> (r: Self)
        ensures
            r@ == (ReverseNoRebindModel { no_rebind: true, ..self@ }),
            r.environment() == self.environment(),
    {
        let mut r = self;
        r.no_rebind = true;
        r
    }

    /// `REMOTE`: The remote socket to reverse.
    ///
    /// The previous remote socket will be overwritten.
    pub fn remote(self, remote: &str) -> (r: Self)
        ensures
            r@ == (ReverseNoRebindModel { remote: remote@, ..self@ }),
            r.environment() == self.environment(),
    {
        let mut r = self;
        r.remote = owned(remote);
        r
    }

    /// `LOCAL`: The local socket to reverse.
    ///
    /// The previous local socket will be overwritten.
    pub fn local(self, local: &str) -> (r: Self)
        ensures
            r@ == (ReverseNoRebindModel { local: local@, ..self@ }),
            r.environment() == self.environment(),
    {
        let mut r = self;
        r.local = owned(local);
        r
    }

}

impl<'a> AdbCommand<'a> for AdbReverseNoRebind<'a> {
    open spec fn arguments(&self) -> Seq<Seq<char>> {
        option_texts(self@.options) + reverse_no_rebind_args(self@)
    }

    open spec fn global_options(&self) -> Seq<OptionModel> {
        self@.options
    }

    open spec fn adb(&self) -> Adb {
        self.environment()
    }

    fn command_line(&self) -> (r: Vec<String>) {
        let v = start("reverse");
        let v = with_flag(v, self.no_rebind, "--no-rebind");
        let v = with_arg(v, self.remote.as_str());
        let v = with_arg(v, self.local.as_str());
        self.acb.command_line(v)
    }

    fn builder(&self) -> (r: &AdbCommandBuilder<'a>) {
        &self.acb
    }
}

/// A subcommand of `reverse`.
///
/// `reverse --remove REMOTE`: Remove specific reverse socket connection.
#[derive(Debug, Clone, PartialEq, Eq)]
pub struct AdbReverseRemove<'a> {
    acb: AdbCommandBuilder<'a>,
    /// `REMOTE`: The remote socket to remove.
    remote: String,
}

/// A command `reverse --remove` as plain values: its global options and its own settings.
pub struct ReverseRemoveModel {
    pub options: Seq<OptionModel>,
    pub remote: Seq<char>,
}

/// The arguments of a command `reverse --remove` after the global options.
pub open spec fn reverse_remove_args(m: ReverseRemoveModel) -> Seq<Seq<char>> {
    seq!["reverse"@] + seq!["--remove"@] + seq![m.remote]
}

impl<'a> View for AdbReverseRemove<'a> {
    type V = ReverseRemoveModel;

    closed spec fn view(&self) -> ReverseRemoveModel {
        ReverseRemoveModel {
            options: self.acb.options(),
            remote: self.remote@,
        }
    }
}

impl<'a> AdbReverseRemove<'a> {
    /// The environment used in this command.
    pub closed spec fn environment(&self) -> Adb {
        self.acb.environment()
    }

    /// A command `reverse --remove` with the environment and the global options of `acb`.
    pub fn new(acb: AdbCommandBuilder<'a>, remote: &str) -> (r: Self)
        ensures
            r@ == (ReverseRemoveModel {
                options: acb.options(),
                remote: remote@,
            }),
            r.environment() == acb.environment(),
    {
        Self { acb, remote: owned(remote) }
    }

    /// `REMOTE`: The remote socket to remove.
    ///
    /// The previous remote socket will be overwritten.
    pub fn remote(self, remote: &str) -> (r: Self)
        ensures
            r@ == (ReverseRemoveModel { remote: remote@, ..self@ }),
            r.environment() == self.environment(),
    {
        let mut r = self;
        r.remote = owned(remote);
        r
    }

}

impl<'a> AdbCommand<'a> for AdbReverseRemove<'a> {
    open spec fn arguments(&self) -> Seq<Seq<char>> {
        option_texts(self@.options) + reverse_remove_args(self@)
    }

    open spec fn global_options(&self) -> Seq<OptionModel> {
        self@.options
    }

    open spec fn adb(&self) -> Adb {
        self.environment()
    }

    fn command_line(&self) -> (r: Vec<String>) {
        let v = start("reverse");
        let v = with_arg(v, "--remove");
        let v = with_arg(v, self.remote.as_str());
        self.acb.command_line(v)
    }

    fn builder(&self) -> (r: &AdbCommandBuilder<'a>) {
        &self.acb
    }
}

/// A subcommand of `reverse`.
///
/// `reverse --remove-all`: Remove all reverse socket connections from device.
#[derive(Debug, Clone, PartialEq, Eq)]
pub struct AdbReverseRemoveAll<'a>(AdbCommandBuilder<'a>);

/// The arguments of the command `reverse --remove-all` after the global options.
pub open spec fn reverse_remove_all_args() -> Seq<Seq<char>> {
    seq!["reverse"@] + seq!["--remove-all"@]
}

impl<'a> View for AdbReverseRemoveAll<'a> {
    type V = Seq<OptionModel>;

    /// The global options of the command.
    closed spec fn view(&self) -> Seq<OptionModel> {
        self.0.options()
    }
}

impl<'a> AdbReverseRemoveAll<'a> {
    /// The environment used in this command.
    pub closed spec fn environment(&self) -> Adb {
        self.0.environment()
    }

    /// The command `reverse --remove-all` with the environment and the global options of `acb`.
    pub fn new(acb: AdbCommandBuilder<'a>) -> (r: Self)
        ensures
            r@ == acb.options(),
            r.environment() == acb.environment(),
    {
        AdbReverseRemoveAll(acb)
    }
}

impl<'a> AdbCommand<'a> for AdbReverseRemoveAll<'a> {
    open spec fn arguments(&self) -> Seq<Seq<char>> {
        option_texts(self@) + reverse_remove_all_args()
    }

    open spec fn global_options(&self) -> Seq<OptionModel> {
        self@
    }

    open spec fn adb(&self) -> Adb {
        self.environment()
    }

    fn command_line(&self) -> (r: Vec<String>) {
        let v = start("reverse");
        let v = with_arg(v, "--remove-all");
        self.0.command_line(v)
    }

    fn builder(&self) -> (r: &AdbCommandBuilder<'a>) {
        &self.0
    }
}

/// `mdns`: the start of the mdns commands.
#[derive(Debug, Clone, PartialEq, Eq)]
pub struct AdbMdns<'a>(AdbCommandBuilder<'a>);

impl<'a> View for AdbMdns<'a> {
    type V = Seq<OptionModel>;

    /// The global options of the command.
    closed spec fn view(&self) -> Seq<OptionModel> {
        self.0.options()
    }
}

impl<'a> AdbMdns<'a> {
    /// The environment used in this command.
    pub closed spec fn environment(&self) -> Adb {
        self.0.environment()
    }

    /// The start of the command, with the environment and the global options of `acb`.
    pub fn new(acb: AdbCommandBuilder<'a>) -> (r: Self)
        ensures
            r@ == acb.options(),
            r.environment() == acb.environment(),
    {
        AdbMdns(acb)
    }

    /// `mdns check`: Check if mdns discovery is available.
    pub fn check(self) -> (r: AdbMdnsCheck<'a>)
        ensures
            r@ == self@,
            r.environment() == self.environment(),
    {
        AdbMdnsCheck::new(self.0)
    }

    /// `mdns services`: List all discovered services.
    pub fn services(self) -> (r: AdbMdnsServices<'a>)
        ensures
            r@ == self@,
            r.environment() == self.environment(),
    {
        AdbMdnsServices::new(self.0)
    }
}

impl Adb {
    /// `mdns`: the start of the mdns commands.
    pub fn mdns(&self) -> (r: AdbMdns<'_>)
        ensures
            r@ == Seq::<OptionModel>::empty(),
            r.environment() == *self,
    {
        AdbMdns::new(self.command())
    }
}

impl<'a> AdbCommandBuilder<'a> {
    /// `mdns`: the start of the mdns commands.
    pub fn mdns(self) -> (r: AdbMdns<'a>)
        ensures
            r@ == self.options(),
            r.environment() == self.environment(),
    {
        AdbMdns::new(self)
    }
}

/// A subcommand of `mdns`.
///
/// `mdns check`: Check if mdns discovery is available.
#[derive(Debug, Clone, PartialEq, Eq)]
pub struct AdbMdnsCheck<'a>(AdbCommandBuilder<'a>);

/// The arguments of the command `mdns check` after the global options.
pub open spec fn mdns_check_args() -> Seq<Seq<char>> {
    seq!["mdns"@] + seq!["check"@]
}

impl<'a> View for AdbMdnsCheck<'a> {
    type V = Seq<OptionModel>;

    /// The global options of the command.
    closed spec fn view(&self) -> Seq<OptionModel> {
        self.0.options()
    }
}

impl<'a> AdbMdnsCheck<'a> {
    /// The environment used in this command.
    pub closed spec fn environment(&self) -> Adb {
        self.0.environment()
    }

    /// The command `mdns check` with the environment and the global options of `acb`.
    pub fn new(acb: AdbCommandBuilder<'a>) -> (r: Self)
        ensures
            r@ == acb.options(),
            r.environment() == acb.environment(),
    {
        AdbMdnsCheck(acb)
    }
}

impl<'a> AdbCommand<'a> for AdbMdnsCheck<'a> {
    open spec fn arguments(&self) -> Seq<Seq<char>> {
        option_texts(self@) + mdns_check_args()
    }

    open spec fn global_options(&self) -> Seq<OptionModel> {
        self@
    }

    open spec fn adb(&self) -> Adb {
        self.environment()
    }

    fn command_line(&self) -> (r: Vec<String>) {
        let v = start("mdns");
        let v = with_arg(v, "check");
        self.0.command_line(v)
    }

    fn builder(&self) -> (r: &AdbCommandBuilder<'a>) {
        &self.0
    }
}

/// A subcommand of `mdns`.
///
/// `mdns services`: List all discovered services.
#[derive(Debug, Clone, PartialEq, Eq)]
pub struct AdbMdnsServices<'a>(AdbCommandBuilder<'a>);

/// The arguments of the command `mdns services` after the global options.
pub open spec fn mdns_services_args() -> Seq<Seq<char>> {
    seq!["mdns"@] + seq!["services"@]
}

impl<'a> View for AdbMdnsServices<'a> {
    type V = Seq<OptionModel>;

    /// The global options of the command.
    closed spec fn view(&self) -> Seq<OptionModel> {
        self.0.options()
    }
}

impl<'a> AdbMdnsServices<'a> {
    /// The environment used in this command.
    pub closed spec fn environment(&self) -> Adb {
        self.0.environment()
    }

    /// The command `mdns services` with the environment and the global options of `acb`.
    pub fn new(acb: AdbCommandBuilder<'a>) -> (r: Self)
        ensures
            r@ == acb.options(),
            r.environment() == acb.environment(),
    {
        AdbMdnsServices(acb)
    }
}

impl<'a> AdbCommand<'a> for AdbMdnsServices<'a> {
    open spec fn arguments(&self) -> Seq<Seq<char>> {
        option_texts(self@) + mdns_services_args()
    }

    open spec fn global_options(&self) -> Seq<OptionModel> {
        self@
    }

    open spec fn adb(&self) -> Adb {
        self.environment()
    }

    fn command_line(&self) -> (r: Vec<String>) {
        let v = start("mdns");
        let v = with_arg(v, "services");
        self.0.command_line(v)
    }

    fn builder(&self) -> (r: &AdbCommandBuilder<'a>) {
        &self.0
    }
}

} // verus!
