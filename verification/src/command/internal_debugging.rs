//! Internal debugging commands.
//!
//! - `start-server`: Ensure that there is a server running.
//! - `kill-server`: Kill the server if it is running.
//! - `reconnect`: Close connection from host side to force reconnect.
//! - `reconnect device`: Close connection from device side to force reconnect.
//! - `reconnect offline`: Reset offline/unauthorized devices to force reconnect.

use vstd::prelude::*;
use crate::command::{option_texts, start, with_arg, AdbCommand, AdbCommandBuilder};
use crate::global_option::OptionModel;
use crate::Adb;

verus! {

/// `start-server`: Ensure that there is a server running.
#[derive(Debug, Clone, PartialEq, Eq)]
pub struct AdbStartServer<'a>(AdbCommandBuilder<'a>);

/// The arguments of the command `start-server` after the global options.
pub open spec fn start_server_args() -> Seq<Seq<char>> {
    seq!["start-server"@]
}

impl<'a> View for AdbStartServer<'a> {
    type V = Seq<OptionModel>;

    /// The global options of the command.
    closed spec fn view(&self) -> Seq<OptionModel> {
        self.0.options()
    }
}

impl<'a> AdbStartServer<'a> {
    /// The environment used in this command.
    pub closed spec fn environment(&self) -> Adb {
        self.0.environment()
    }

    /// The command `start-server` with the environment and the global options of `acb`.
    pub fn new(acb: AdbCommandBuilder<'a>) -> (r: Self)
        ensures
            r@ == acb.options(),
            r.environment() == acb.environment(),
    {
        AdbStartServer(acb)
    }
}

impl<'a> AdbCommand<'a> for AdbStartServer<'a> {
    open spec fn arguments(&self) -> Seq<Seq<char>> {
        option_texts(self@) + start_server_args()
    }

    open spec fn global_options(&self) -> Seq<OptionModel> {
        self@
    }

    open spec fn adb(&self) -> Adb {
        self.environment()
    }

    fn command_line(&self) -> (r: Vec<String>) {
        let v = start("start-server");
        self.0.command_line(v)
    }

    fn builder(&self) -> (r: &AdbCommandBuilder<'a>) {
        &self.0
    }
}

impl Adb {
    /// `start-server`: Ensure that there is a server running.
    pub fn start_server(&self) -> (r: AdbStartServer<'_>)
        ensures
            r@ == Seq::<OptionModel>::empty(),
            r.environment() == *self,
    {
        AdbStartServer::new(self.command())
    }
}

impl<'a> AdbCommandBuilder<'a> {
    /// `start-server`: Ensure that there is a server running.
    pub fn start_server(self) -> (r: AdbStartServer<'a>)
        ensures
            r@ == self.options(),
            r.environment() == self.environment(),
    {
        AdbStartServer::new(self)
    }
}

/// `kill-server`: Kill the server if it is running.
#[derive(Debug, Clone, PartialEq, Eq)]
pub struct AdbKillServer<'a>(AdbCommandBuilder<'a>);

/// The arguments of the command `kill-server` after the global options.
pub open spec fn kill_server_args() -> Seq<Seq<char>> {
    seq!["kill-server"@]
}

impl<'a> View for AdbKillServer<'a> {
    type V = Seq<OptionModel>;

    /// The global options of the command.
    closed spec fn view(&self) -> Seq<OptionModel> {
        self.0.options()
    }
}

impl<'a> AdbKillServer<'a> {
    /// The environment used in this command.
    pub closed spec fn environment(&self) -> Adb {
        self.0.environment()
    }

    /// The command `kill-server` with the environment and the global options of `acb`.
    pub fn new(acb: AdbCommandBuilder<'a>) -> (r: Self)
        ensures
            r@ == acb.options(),
            r.environment() == acb.environment(),
    {
        AdbKillServer(acb)
    }
}

impl<'a> AdbCommand<'a> for AdbKillServer<'a> {
    open spec fn arguments(&self) -> Seq<Seq<char>> {
        option_texts(self@) + kill_server_args()
    }

    open spec fn global_options(&self) -> Seq<OptionModel> {
        self@
    }

    open spec fn adb(&self) -> Adb {
        self.environment()
    }

    fn command_line(&self) -> (r: Vec<String>) {
        let v = start("kill-server");
        self.0.command_line(v)
    }

    fn builder(&self) -> (r: &AdbCommandBuilder<'a>) {
        &self.0
    }
}

impl Adb {
    /// `kill-server`: Kill the server if it is running.
    pub fn kill_server(&self) -> (r: AdbKillServer<'_>)
        ensures
            r@ == Seq::<OptionModel>::empty(),
            r.environment() == *self,
    {
        AdbKillServer::new(self.command())
    }
}

impl<'a> AdbCommandBuilder<'a> {
    /// `kill-server`: Kill the server if it is running.
    pub fn kill_server(self) -> (r: AdbKillServer<'a>)
        ensures
            r@ == self.options(),
            r.environment() == self.environment(),
    {
        AdbKillServer::new(self)
    }
}

/// `reconnect`: Close connection from host side to force reconnect.
#[derive(Debug, Clone, PartialEq, Eq)]
pub struct AdbReconnect<'a>(AdbCommandBuilder<'a>);

/// The arguments of the command `reconnect` after the global options.
pub open spec fn reconnect_args() -> Seq<Seq<char>> {
    seq!["reconnect"@]
}

impl<'a> View for AdbReconnect<'a> {
    type V = Seq<OptionModel>;

    /// The global options of the command.
    closed spec fn view(&self) -> Seq<OptionModel> {
        self.0.options()
    }
}

impl<'a> AdbReconnect<'a> {
    /// The environment used in this command.
    pub closed spec fn environment(&self) -> Adb {
        self.0.environment()
    }

    /// The command `reconnect` with the environment and the global options of `acb`.
    pub fn new(acb: AdbCommandBuilder<'a>) -> (r: Self)
        ensures
            r@ == acb.options(),
            r.environment() == acb.environment(),
    {
        AdbReconnect(acb)
    }

    /// `reconnect device`: Kick connection from device side to force reconnect.
    pub fn device(self) -> (r: AdbReconnectDevice<'a>)
        ensures
            r@ == self@,
            r.environment() == self.environment(),
    {
        AdbReconnectDevice::new(self.0)
    }

    /// `reconnect offline`: Reset offline/unauthorized devices to force reconnect.
    pub fn offline(self) -> (r: AdbReconnectOffline<'a>)
        ensures
            r@ == self@,
            r.environment() == self.environment(),
    {
        AdbReconnectOffline::new(self.0)
    }
}

impl<'a> AdbCommand<'a> for AdbReconnect<'a> {
    open spec fn arguments(&self) -> Seq<Seq<char>> {
        option_texts(self@) + reconnect_args()
    }

    open spec fn global_options(&self) -> Seq<OptionModel> {
        self@
    }

    open spec fn adb(&self) -> Adb {
        self.environment()
    }

    fn command_line(&self) -> (r: Vec<String>) {
        let v = start("reconnect");
        self.0.command_line(v)
    }

    fn builder(&self) -> (r: &AdbCommandBuilder<'a>) {
        &self.0
    }
}

impl Adb {
    /// `reconnect`: Close connection from host side to force reconnect.
    pub fn reconnect(&self) -> (r: AdbReconnect<'_>)
        ensures
            r@ == Seq::<OptionModel>::empty(),
            r.environment() == *self,
    {
        AdbReconnect::new(self.command())
    }
}

impl<'a> AdbCommandBuilder<'a> {
    /// `reconnect`: Close connection from host side to force reconnect.
    pub fn reconnect(self) -> (r: AdbReconnect<'a>)
        ensures
            r@ == self.options(),
            r.environment() == self.environment(),
    {
        AdbReconnect::new(self)
    }
}

/// `reconnect device`: Close connection from device side to force reconnect.
#[derive(Debug, Clone, PartialEq, Eq)]
pub struct AdbReconnectDevice<'a>(AdbCommandBuilder<'a>);

/// The arguments of the command `reconnect device` after the global options.
pub open spec fn reconnect_device_args() -> Seq<Seq<char>> {
    seq!["reconnect"@] + seq!["device"@]
}

impl<'a> View for AdbReconnectDevice<'a> {
    type V = Seq<OptionModel>;

    /// The global options of the command.
    closed spec fn view(&self) -> Seq<OptionModel> {
        self.0.options()
    }
}

impl<'a> AdbReconnectDevice<'a> {
    /// The environment used in this command.
    pub closed spec fn environment(&self) -> Adb {
        self.0.environment()
    }

    /// The command `reconnect device` with the environment and the global options of `acb`.
    pub fn new(acb: AdbCommandBuilder<'a>) -> (r: Self)
        ensures
            r@ == acb.options(),
            r.environment() == acb.environment(),
    {
        AdbReconnectDevice(acb)
    }
}

impl<'a> AdbCommand<'a> for AdbReconnectDevice<'a> {
    open spec fn arguments(&self) -> Seq<Seq<char>> {
        option_texts(self@) + reconnect_device_args()
    }

    open spec fn global_options(&self) -> Seq<OptionModel> {
        self@
    }

    open spec fn adb(&self) -> Adb {
        self.environment()
    }

    fn command_line(&self) -> (r: Vec<String>) {
        let v = start("reconnect");
        let v = with_arg(v, "device");
        self.0.command_line(v)
    }

    fn builder(&self) -> (r: &AdbCommandBuilder<'a>) {
        &self.0
    }
}

/// `reconnect offline`: Reset offline/unauthorized devices to force reconnect.
#[derive(Debug, Clone, PartialEq, Eq)]
pub struct AdbReconnectOffline<'a>(AdbCommandBuilder<'a>);

/// The arguments of the command `reconnect offline` after the global options.
pub open spec fn reconnect_offline_args() -> Seq<Seq<char>> {
    seq!["reconnect"@] + seq!["offline"@]
}

impl<'a> View for AdbReconnectOffline<'a> {
    type V = Seq<OptionModel>;

    /// The global options of the command.
    closed spec fn view(&self) -> Seq<OptionModel> {
        self.0.options()
    }
}

impl<'a> AdbReconnectOffline<'a> {
    /// The environment used in this command.
    pub closed spec fn environment(&self) -> Adb {
        self.0.environment()
    }

    /// The command `reconnect offline` with the environment and the global options of `acb`.
    pub fn new(acb: AdbCommandBuilder<'a>) -> (r: Self)
        ensures
            r@ == acb.options(),
            r.environment() == acb.environment(),
    {
        AdbReconnectOffline(acb)
    }
}

impl<'a> AdbCommand<'a> for AdbReconnectOffline<'a> {
    open spec fn arguments(&self) -> Seq<Seq<char>> {
        option_texts(self@) + reconnect_offline_args()
    }

    open spec fn global_options(&self) -> Seq<OptionModel> {
        self@
    }

    open spec fn adb(&self) -> Adb {
        self.environment()
    }

    fn command_line(&self) -> (r: Vec<String>) {
        let v = start("reconnect");
        let v = with_arg(v, "offline");
        self.0.command_line(v)
    }

    fn builder(&self) -> (r: &AdbCommandBuilder<'a>) {
        &self.0
    }
}

} // verus!
