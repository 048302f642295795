//! Scripting Commands
//!
//! - `wait-for [-TRANSPORT] -STATE...`: Wait for device to be in a given state.
//! - `get-state`: Print `offline` | `bootloader` | `device`.
//! - `get-serialno`: Print `SERIAL_NUMBER`.
//! - `get-devpath`: Print `DEVICE_PATH`.
//! - `remount [-R]`: Remount partitions read-write.
//! - `reboot [bootloader|recovery|sideload|sideload-auto-reboot]`: Reboot the device; defaults to booting system image but supports bootloader and recovery too.
//! - `sideload`: Reboots into recovery and automatically starts sideload mode.
//! - `sideload-auto-reboot`: Same as sideload but reboots after sideloading.
//! - `sideload OTAPACKAGE`: Sideload the given full OTA package `OTAPACKAGE`.
//! - `root`: Restart adbd with root permissions.
//! - `unroot`: Restart adbd without root permissions.
//! - `usb`: Restart adbd listening on USB.
//! - `tcpip PORT`: Restart adbd listening on TCP on `PORT`.

use vstd::prelude::*;
use crate::command::{
    borrowed, flag, optional, option_texts, owned, start, text_of, with_arg, with_flag,
    with_optional, AdbCommand, AdbCommandBuilder,
};
use crate::error::{described, AdbError, Failure};
use crate::global_option::OptionModel;
use crate::number::decimal_text;
use crate::socket::agrees;
use crate::text::{chars_of, is_text, push_text, string_of};
use crate::Adb;

verus! {

/// A device state to wait for.
#[derive(Debug, Clone, Copy, PartialEq, Eq, Hash, Structural)]
pub enum AdbWaitForState {
    /// `device`
    Device,
    /// `recovery`
    Recovery,
    /// `rescue`
    Rescue,
    /// `sideload`
    Sideload,
    /// `bootloader`
    Bootloader,
    /// `disconnect`
    Disconnect,
}

/// The word for a device state.
pub open spec fn wait_for_state_name(v: AdbWaitForState) -> Seq<char> {
    match v {
        AdbWaitForState::Device => "device"@,
        AdbWaitForState::Recovery => "recovery"@,
        AdbWaitForState::Rescue => "rescue"@,
        AdbWaitForState::Sideload => "sideload"@,
        AdbWaitForState::Bootloader => "bootloader"@,
        AdbWaitForState::Disconnect => "disconnect"@,
    }
}

/// What a word denotes as a device state.
pub open spec fn wait_for_state_parse(s: Seq<char>) -> Result<AdbWaitForState, Failure> {
    if s == "device"@ {
        Ok(AdbWaitForState::Device)
    }     else if s == "recovery"@ {
        Ok(AdbWaitForState::Recovery)
    }     else if s == "rescue"@ {
        Ok(AdbWaitForState::Rescue)
    }     else if s == "sideload"@ {
        Ok(AdbWaitForState::Sideload)
    }     else if s == "bootloader"@ {
        Ok(AdbWaitForState::Bootloader)
    }     else if s == "disconnect"@ {
        Ok(AdbWaitForState::Disconnect)
    } else {
        Err(described(s, "AdbDeviceState"@, "Unknown device state"@))
    }
}

impl View for AdbWaitForState {
    type V = AdbWaitForState;

    open spec fn view(&self) -> AdbWaitForState {
        *self
    }
}

impl AdbWaitForState {
    /// The word for the value.
    pub fn as_ref(&self) -> (r: &'static str)
        ensures
            r@ == wait_for_state_name(*self),
    {
        match self {
            AdbWaitForState::Device => "device",
            AdbWaitForState::Recovery => "recovery",
            AdbWaitForState::Rescue => "rescue",
            AdbWaitForState::Sideload => "sideload",
            AdbWaitForState::Bootloader => "bootloader",
            AdbWaitForState::Disconnect => "disconnect",
        }
    }

    /// The word for the value, as a string.
    pub fn to_string(&self) -> (r: String)
        ensures
            r@ == wait_for_state_name(*self),
    {
        owned(self.as_ref())
    }

    /// Reads the value from its word.
    pub fn from_str(s: &str) -> (r: Result<Self, AdbError>)
        ensures
            agrees(r, wait_for_state_parse(s@)),
    {
        let v = chars_of(s);
        if is_text(v.as_slice(), "device") {
            Ok(AdbWaitForState::Device)
        }         else if is_text(v.as_slice(), "recovery") {
            Ok(AdbWaitForState::Recovery)
        }         else if is_text(v.as_slice(), "rescue") {
            Ok(AdbWaitForState::Rescue)
        }         else if is_text(v.as_slice(), "sideload") {
            Ok(AdbWaitForState::Sideload)
        }         else if is_text(v.as_slice(), "bootloader") {
            Ok(AdbWaitForState::Bootloader)
        }         else if is_text(v.as_slice(), "disconnect") {
            Ok(AdbWaitForState::Disconnect)
        } else {
            Err(AdbError::invalid(v.as_slice(), "AdbDeviceState", "Unknown device state"))
        }
    }
}

/// The word for a device state is read back as that value.
pub proof fn lemma_wait_for_state_round_trip(v: AdbWaitForState)
    ensures
        wait_for_state_parse(wait_for_state_name(v)) == Ok::<AdbWaitForState, Failure>(v),
{
    reveal_strlit("device");
    reveal_strlit("recovery");
    reveal_strlit("rescue");
    reveal_strlit("sideload");
    reveal_strlit("bootloader");
    reveal_strlit("disconnect");
    let s = wait_for_state_name(v);
    match v {
        AdbWaitForState::Device => {
        },
        AdbWaitForState::Recovery => {
            assert(s != "device"@) by {
                assert(s.len() != "device"@.len() || exists|i: int| 0 <= i < s.len() && s[i] != "device"@[i]) by {
                }
            }
        },
        AdbWaitForState::Rescue => {
            assert(s != "device"@) by {
                assert(s.len() != "device"@.len() || exists|i: int| 0 <= i < s.len() && s[i] != "device"@[i]) by {
                    assert(s[0] != "device"@[0]);
                }
            }
            assert(s != "recovery"@) by {
                assert(s.len() != "recovery"@.len() || exists|i: int| 0 <= i < s.len() && s[i] != "recovery"@[i]) by {
                }
            }
        },
        AdbWaitForState::Sideload => {
            assert(s != "device"@) by {
                assert(s.len() != "device"@.len() || exists|i: int| 0 <= i < s.len() && s[i] != "device"@[i]) by {
                }
            }
            assert(s != "recovery"@) by {
                assert(s.len() != "recovery"@.len() || exists|i: int| 0 <= i < s.len() && s[i] != "recovery"@[i]) by {
                    assert(s[0] != "recovery"@[0]);
                }
            }
            assert(s != "rescue"@) by {
                assert(s.len() != "rescue"@.len() || exists|i: int| 0 <= i < s.len() && s[i] != "rescue"@[i]) by {
                }
            }
        },
        AdbWaitForState::Bootloader => {
            assert(s != "device"@) by {
                assert(s.len() != "device"@.len() || exists|i: int| 0 <= i < s.len() && s[i] != "device"@[i]) by {
                }
            }
            assert(s != "recovery"@) by {
                assert(s.len() != "recovery"@.len() || exists|i: int| 0 <= i < s.len() && s[i] != "recovery"@[i]) by {
                }
            }
            assert(s != "rescue"@) by {
                assert(s.len() != "rescue"@.len() || exists|i: int| 0 <= i < s.len() && s[i] != "rescue"@[i]) by {
                }
            }
            assert(s != "sideload"@) by {
                assert(s.len() != "sideload"@.len() || exists|i: int| 0 <= i < s.len() && s[i] != "sideload"@[i]) by {
                }
            }
        },
        AdbWaitForState::Disconnect => {
            assert(s != "device"@) by {
                assert(s.len() != "device"@.len() || exists|i: int| 0 <= i < s.len() && s[i] != "device"@[i]) by {
                }
            }
            assert(s != "recovery"@) by {
                assert(s.len() != "recovery"@.len() || exists|i: int| 0 <= i < s.len() && s[i] != "recovery"@[i]) by {
                }
            }
            assert(s != "rescue"@) by {
                assert(s.len() != "rescue"@.len() || exists|i: int| 0 <= i < s.len() && s[i] != "rescue"@[i]) by {
                }
            }
            assert(s != "sideload"@) by {
                assert(s.len() != "sideload"@.len() || exists|i: int| 0 <= i < s.len() && s[i] != "sideload"@[i]) by {
                }
            }
            assert(s != "bootloader"@) by {
                assert(s.len() != "bootloader"@.len() || exists|i: int| 0 <= i < s.len() && s[i] != "bootloader"@[i]) by {
                    assert(s[0] != "bootloader"@[0]);
                }
            }
        },
    }
}

/// The transport to wait for.
#[derive(Debug, Clone, Copy, PartialEq, Eq, Hash, Structural)]
pub enum AdbWaitForTransport {
    /// `usb`
    Usb,
    /// `local`
    Local,
    /// `any`
    Any,
}

/// The word for a transport.
pub open spec fn wait_for_transport_name(v: AdbWaitForTransport) -> Seq<char> {
    match v {
        AdbWaitForTransport::Usb => "usb"@,
        AdbWaitForTransport::Local => "local"@,
        AdbWaitForTransport::Any => "any"@,
    }
}

/// What a word denotes as a transport.
pub open spec fn wait_for_transport_parse(s: Seq<char>) -> Result<AdbWaitForTransport, Failure> {
    if s == "usb"@ {
        Ok(AdbWaitForTransport::Usb)
    }     else if s == "local"@ {
        Ok(AdbWaitForTransport::Local)
    }     else if s == "any"@ {
        Ok(AdbWaitForTransport::Any)
    } else {
        Err(described(s, "AdbWaitForTransport"@, "Unknown transport"@))
    }
}

impl View for AdbWaitForTransport {
    type V = AdbWaitForTransport;

    open spec fn view(&self) -> AdbWaitForTransport {
        *self
    }
}

impl AdbWaitForTransport {
    /// The word for the value.
    pub fn as_ref(&self) -> (r: &'static str)
        ensures
            r@ == wait_for_transport_name(*self),
    {
        match self {
            AdbWaitForTransport::Usb => "usb",
            AdbWaitForTransport::Local => "local",
            AdbWaitForTransport::Any => "any",
        }
    }

    /// The word for the value, as a string.
    pub fn to_string(&self) -> (r: String)
        ensures
            r@ == wait_for_transport_name(*self),
    {
        owned(self.as_ref())
    }

    /// Reads the value from its word.
    pub fn from_str(s: &str) -> (r: Result<Self, AdbError>)
        ensures
            agrees(r, wait_for_transport_parse(s@)),
    {
        let v = chars_of(s);
        if is_text(v.as_slice(), "usb") {
            Ok(AdbWaitForTransport::Usb)
        }         else if is_text(v.as_slice(), "local") {
            Ok(AdbWaitForTransport::Local)
        }         else if is_text(v.as_slice(), "any") {
            Ok(AdbWaitForTransport::Any)
        } else {
            Err(AdbError::invalid(v.as_slice(), "AdbWaitForTransport", "Unknown transport"))
        }
    }
}

/// The word for a transport is read back as that value.
pub proof fn lemma_wait_for_transport_round_trip(v: AdbWaitForTransport)
    ensures
        wait_for_transport_parse(wait_for_transport_name(v)) == Ok::<AdbWaitForTransport, Failure>(v),
{
    reveal_strlit("usb");
    reveal_strlit("local");
    reveal_strlit("any");
    let s = wait_for_transport_name(v);
    match v {
        AdbWaitForTransport::Usb => {
        },
        AdbWaitForTransport::Local => {
            assert(s != "usb"@) by {
                assert(s.len() != "usb"@.len() || exists|i: int| 0 <= i < s.len() && s[i] != "usb"@[i]) by {
                }
            }
        },
        AdbWaitForTransport::Any => {
            assert(s != "usb"@) by {
                assert(s.len() != "usb"@.len() || exists|i: int| 0 <= i < s.len() && s[i] != "usb"@[i]) by {
                    assert(s[0] != "usb"@[0]);
                }
            }
            assert(s != "local"@) by {
                assert(s.len() != "local"@.len() || exists|i: int| 0 <= i < s.len() && s[i] != "local"@[i]) by {
                }
            }
        },
    }
}

/// The one argument of a `wait-for` command: `wait-for`, the transport if one
/// is set, and the state, with hyphens between them.
pub open spec fn wait_for_text(transport: Option<AdbWaitForTransport>, state: AdbWaitForState) -> Seq<
    char,
> {
    match transport {
        Some(t) => "wait-for"@ + seq!['-'] + wait_for_transport_name(t) + seq!['-']
            + wait_for_state_name(state),
        None => "wait-for"@ + seq!['-'] + wait_for_state_name(state),
    }
}

/// The one argument of a `wait-for` command.
pub fn wait_for_arg(transport: Option<AdbWaitForTransport>, state: AdbWaitForState) -> (r: String)
    ensures
        r@ == wait_for_text(transport, state),
{
    let mut out: Vec<char> = Vec::new();
    push_text(&mut out, "wait-for");
    match transport {
        Some(t) => {
            out.push('-');
            push_text(&mut out, t.as_ref());
            out.push('-');
            push_text(&mut out, state.as_ref());
            assert(out@ =~= wait_for_text(transport, state));
        },
        None => {
            out.push('-');
            push_text(&mut out, state.as_ref());
            assert(out@ =~= wait_for_text(transport, state));
        },
    }
    string_of(out.as_slice())
}

/// The decimal numeral of `n`.
pub fn decimal_string(n: u16) -> (r: String)
    ensures
        r@ == decimal_text(n as nat),
{
    let mut out: Vec<char> = Vec::new();
    crate::number::push_decimal(&mut out, n as u32);
    assert(out@ =~= decimal_text(n as nat));
    string_of(out.as_slice())
}

/// - `wait-for [-TRANSPORT] -STATE...`: Wait for device to be in a given state.
///   - `STATE`: `device`, `recovery`, `rescue`, `sideload`, `bootloader`, or `disconnect`.
///   - `TRANSPORT`: `usb`, `local`, or `any` (default=`any`).
#[derive(Debug, Clone, PartialEq, Eq)]
pub struct AdbWaitFor<'a> {
    acb: AdbCommandBuilder<'a>,
    /// `STATE`: `device`, `recovery`, `rescue`, `sideload`, `bootloader`, or `disconnect`.
    state: AdbWaitForState,
    /// `TRANSPORT`: `usb`, `local`, or `any` (default=`any`).
    transport: Option<AdbWaitForTransport>,
}

/// A command `wait-for[-TRANSPORT]-STATE` as plain values: its global options and its own settings.
pub struct WaitForModel {
    pub options: Seq<OptionModel>,
    pub state: AdbWaitForState,
    pub transport: Option<AdbWaitForTransport>,
}

/// The arguments of a command `wait-for[-TRANSPORT]-STATE` after the global options.
pub open spec fn wait_for_args(m: WaitForModel) -> Seq<Seq<char>> {
    seq![wait_for_text(m.transport, m.state)]
}

impl<'a> View for AdbWaitFor<'a> {
    type V = WaitForModel;

    closed spec fn view(&self) -> WaitForModel {
        WaitForModel {
            options: self.acb.options(),
            state: self.state,
            transport: self.transport,
        }
    }
}

impl<'a> AdbWaitFor<'a> {
    /// The environment used in this command.
    pub closed spec fn environment(&self) -> Adb {
        self.acb.environment()
    }

    /// A command `wait-for[-TRANSPORT]-STATE` with the environment and the global options of `acb`.
    pub fn new(acb: AdbCommandBuilder<'a>, state: AdbWaitForState) -> (r: Self)
        ensures
            r@ == (WaitForModel {
                options: acb.options(),
                state: state,
                transport: None,
            }),
            r.environment() == acb.environment(),
    {
        Self { acb, state: state, transport: None }
    }

    /// `STATE`: `device`, `recovery`, `rescue`, `sideload`, `bootloader`, or `disconnect`.
    ///
    /// The previous state will be overwritten.
    pub fn state(self, state: AdbWaitForState) -> (r: Self)
        ensures
            r@ == (WaitForModel { state: state, ..self@ }),
            r.environment() == self.environment(),
    {
        let mut r = self;
        r.state = state;
        r
    }

    /// `TRANSPORT`: `usb`, `local`, or `any` (default=`any`).
    ///
    /// The previous transport will be overwritten.
    pub fn transport(self, transport: AdbWaitForTransport) -> (r: Self)
        ensures
            r@ == (WaitForModel { transport: Some(transport), ..self@ }),
            r.environment() == self.environment(),
    {
        let mut r = self;
        r.transport = Some(transport);
        r
    }

}

impl<'a> AdbCommand<'a> for AdbWaitFor<'a> {
    open spec fn arguments(&self) -> Seq<Seq<char>> {
        option_texts(self@.options) + wait_for_args(self@)
    }

    open spec fn global_options(&self) -> Seq<OptionModel> {
        self@.options
    }

    open spec fn adb(&self) -> Adb {
        self.environment()
    }

    fn command_line(&self) -> (r: Vec<String>) {
        let word = wait_for_arg(self.transport, self.state);
        let v = start(word.as_str());
        self.acb.command_line(v)
    }

    fn builder(&self) -> (r: &AdbCommandBuilder<'a>) {
        &self.acb
    }
}

impl Adb {
    /// - `wait-for [-TRANSPORT] -STATE...`: Wait for device to be in a given state.
    pub fn wait_for(&self, state: AdbWaitForState) -> (r: AdbWaitFor<'_>)
        ensures
            r@ == (WaitForModel {
                options: Seq::<OptionModel>::empty(),
                state: state,
                transport: None,
            }),
            r.environment() == *self,
    {
        AdbWaitFor::new(self.command(), state)
    }
}

impl<'a> AdbCommandBuilder<'a> {
    /// - `wait-for [-TRANSPORT] -STATE...`: Wait for device to be in a given state.
    pub fn wait_for(self, state: AdbWaitForState) -> (r: AdbWaitFor<'a>)
        ensures
            r@ == (WaitForModel {
                options: self.options(),
                state: state,
                transport: None,
            }),
            r.environment() == self.environment(),
    {
        AdbWaitFor::new(self, state)
    }
}

/// - `get-state`: Print `offline` | `bootloader` | `device`.
#[derive(Debug, Clone, PartialEq, Eq)]
pub struct AdbGetState<'a>(AdbCommandBuilder<'a>);

/// The arguments of the command `get-state` after the global options.
pub open spec fn get_state_args() -> Seq<Seq<char>> {
    seq!["get-state"@]
}

impl<'a> View for AdbGetState<'a> {
    type V = Seq<OptionModel>;

    /// The global options of the command.
    closed spec fn view(&self) -> Seq<OptionModel> {
        self.0.options()
    }
}

impl<'a> AdbGetState<'a> {
    /// The environment used in this command.
    pub closed spec fn environment(&self) -> Adb {
        self.0.environment()
    }

    /// The command `get-state` with the environment and the global options of `acb`.
    pub fn new(acb: AdbCommandBuilder<'a>) -> (r: Self)
        ensures
            r@ == acb.options(),
            r.environment() == acb.environment(),
    {
        AdbGetState(acb)
    }
}

impl<'a> AdbCommand<'a> for AdbGetState<'a> {
    open spec fn arguments(&self) -> Seq<Seq<char>> {
        option_texts(self@) + get_state_args()
    }

    open spec fn global_options(&self) -> Seq<OptionModel> {
        self@
    }

    open spec fn adb(&self) -> Adb {
        self.environment()
    }

    fn command_line(&self) -> (r: Vec<String>) {
        let v = start("get-state");
        self.0.command_line(v)
    }

    fn builder(&self) -> (r: &AdbCommandBuilder<'a>) {
        &self.0
    }
}

impl Adb {
    /// - `get-state`: Print `offline` | `bootloader` | `device`.
    pub fn get_state(&self) -> (r: AdbGetState<'_>)
        ensures
            r@ == Seq::<OptionModel>::empty(),
            r.environment() == *self,
    {
        AdbGetState::new(self.command())
    }
}

impl<'a> AdbCommandBuilder<'a> {
    /// - `get-state`: Print `offline` | `bootloader` | `device`.
    pub fn get_state(self) -> (r: AdbGetState<'a>)
        ensures
            r@ == self.options(),
            r.environment() == self.environment(),
    {
        AdbGetState::new(self)
    }
}

/// - `get-serialno`: Print `SERIAL_NUMBER`.
#[derive(Debug, Clone, PartialEq, Eq)]
pub struct AdbGetSerialNo<'a>(AdbCommandBuilder<'a>);

/// The arguments of the command `get-serialno` after the global options.
pub open spec fn get_serial_no_args() -> Seq<Seq<char>> {
    seq!["get-serialno"@]
}

impl<'a> View for AdbGetSerialNo<'a> {
    type V = Seq<OptionModel>;

    /// The global options of the command.
    closed spec fn view(&self) -> Seq<OptionModel> {
        self.0.options()
    }
}

impl<'a> AdbGetSerialNo<'a> {
    /// The environment used in this command.
    pub closed spec fn environment(&self) -> Adb {
        self.0.environment()
    }

    /// The command `get-serialno` with the environment and the global options of `acb`.
    pub fn new(acb: AdbCommandBuilder<'a>) -> (r: Self)
        ensures
            r@ == acb.options(),
            r.environment() == acb.environment(),
    {
        AdbGetSerialNo(acb)
    }
}

impl<'a> AdbCommand<'a> for AdbGetSerialNo<'a> {
    open spec fn arguments(&self) -> Seq<Seq<char>> {
        option_texts(self@) + get_serial_no_args()
    }

    open spec fn global_options(&self) -> Seq<OptionModel> {
        self@
    }

    open spec fn adb(&self) -> Adb {
        self.environment()
    }

    fn command_line(&self) -> (r: Vec<String>) {
        let v = start("get-serialno");
        self.0.command_line(v)
    }

    fn builder(&self) -> (r: &AdbCommandBuilder<'a>) {
        &self.0
    }
}

impl Adb {
    /// - `get-serialno`: Print `SERIAL_NUMBER`.
    pub fn get_serial_no(&self) -> (r: AdbGetSerialNo<'_>)
        ensures
            r@ == Seq::<OptionModel>::empty(),
            r.environment() == *self,
    {
        AdbGetSerialNo::new(self.command())
    }
}

impl<'a> AdbCommandBuilder<'a> {
    /// - `get-serialno`: Print `SERIAL_NUMBER`.
    pub fn get_serial_no(self) -> (r: AdbGetSerialNo<'a>)
        ensures
            r@ == self.options(),
            r.environment() == self.environment(),
    {
        AdbGetSerialNo::new(self)
    }
}

/// - `get-devpath`: Print `DEVICE_PATH`.
#[derive(Debug, Clone, PartialEq, Eq)]
pub struct AdbGetDevPath<'a>(AdbCommandBuilder<'a>);

/// The arguments of the command `get-devpath` after the global options.
pub open spec fn get_dev_path_args() -> Seq<Seq<char>> {
    seq!["get-devpath"@]
}

impl<'a> View for AdbGetDevPath<'a> {
    type V = Seq<OptionModel>;

    /// The global options of the command.
    closed spec fn view(&self) -> Seq<OptionModel> {
        self.0.options()
    }
}

impl<'a> AdbGetDevPath<'a> {
    /// The environment used in this command.
    pub closed spec fn environment(&self) -> Adb {
        self.0.environment()
    }

    /// The command `get-devpath` with the environment and the global options of `acb`.
    pub fn new(acb: AdbCommandBuilder<'a>) -> (r: Self)
        ensures
            r@ == acb.options(),
            r.environment() == acb.environment(),
    {
        AdbGetDevPath(acb)
    }
}

impl<'a> AdbCommand<'a> for AdbGetDevPath<'a> {
    open spec fn arguments(&self) -> Seq<Seq<char>> {
        option_texts(self@) + get_dev_path_args()
    }

    open spec fn global_options(&self) -> Seq<OptionModel> {
        self@
    }

    open spec fn adb(&self) -> Adb {
        self.environment()
    }

    fn command_line(&self) -> (r: Vec<String>) {
        let v = start("get-devpath");
        self.0.command_line(v)
    }

    fn builder(&self) -> (r: &AdbCommandBuilder<'a>) {
        &self.0
    }
}

impl Adb {
    /// - `get-devpath`: Print `DEVICE_PATH`.
    pub fn get_dev_path(&self) -> (r: AdbGetDevPath<'_>)
        ensures
            r@ == Seq::<OptionModel>::empty(),
            r.environment() == *self,
    {
        AdbGetDevPath::new(self.command())
    }
}

impl<'a> AdbCommandBuilder<'a> {
    /// - `get-devpath`: Print `DEVICE_PATH`.
    pub fn get_dev_path(self) -> (r: AdbGetDevPath<'a>)
        ensures
            r@ == self.options(),
            r.environment() == self.environment(),
    {
        AdbGetDevPath::new(self)
    }
}

/// - `remount [-R]`: Remount partitions read-write.
///   - `-R`: Automatically reboot the device.
#[derive(Debug, Clone, PartialEq, Eq)]
pub struct AdbRemount<'a> {
    acb: AdbCommandBuilder<'a>,
    /// `-R`: Automatically reboot the device.
    R: bool,
}

/// A command `remount` as plain values: its global options and its own settings.
pub struct RemountModel {
    pub options: Seq<OptionModel>,
    pub R: bool,
}

/// The arguments of a command `remount` after the global options.
pub open spec fn remount_args(m: RemountModel) -> Seq<Seq<char>> {
    seq!["remount"@] + flag(m.R, "-R"@)
}

impl<'a> View for AdbRemount<'a> {
    type V = RemountModel;

    closed spec fn view(&self) -> RemountModel {
        RemountModel {
            options: self.acb.options(),
            R: self.R,
        }
    }
}

impl<'a> AdbRemount<'a> {
    /// The environment used in this command.
    pub closed spec fn environment(&self) -> Adb {
        self.acb.environment()
    }

    /// A command `remount` with the environment and the global options of `acb`.
    pub fn new(acb: AdbCommandBuilder<'a>) -> (r: Self)
        ensures
            r@ == (RemountModel {
                options: acb.options(),
                R: false,
            }),
            r.environment() == acb.environment(),
    {
        Self { acb, R: false }
    }

    /// `-R`: Automatically reboot the device.
    ///
    /// The previous reboot option will be overwritten.
    #[allow(non_snake_case)]
    pub fn R(self, value: bool) -> (r: Self)
        ensures
            r@ == (RemountModel { R: value, ..self@ }),
            r.environment() == self.environment(),
    {
        let mut r = self;
        r.R = value;
        r
    }

}

impl<'a> AdbCommand<'a> for AdbRemount<'a> {
    open spec fn arguments(&self) -> Seq<Seq<char>> {
        option_texts(self@.options) + remount_args(self@)
    }

    open spec fn global_options(&self) -> Seq<OptionModel> {
        self@.options
    }

    open spec fn adb(&self) -> Adb {
        self.environment()
    }

    fn command_line(&self) -> (r: Vec<String>) {
        let v = start("remount");
        let v = with_flag(v, self.R, "-R");
        self.acb.command_line(v)
    }

    fn builder(&self) -> (r: &AdbCommandBuilder<'a>) {
        &self.acb
    }
}

impl Adb {
    /// - `remount [-R]`: Remount partitions read-write.
    pub fn remount(&self) -> (r: AdbRemount<'_>)
        ensures
            r@ == (RemountModel {
                options: Seq::<OptionModel>::empty(),
                R: false,
            }),
            r.environment() == *self,
    {
        AdbRemount::new(self.command())
    }
}

impl<'a> AdbCommandBuilder<'a> {
    /// - `remount [-R]`: Remount partitions read-write.
    pub fn remount(self) -> (r: AdbRemount<'a>)
        ensures
            r@ == (RemountModel {
                options: self.options(),
                R: false,
            }),
            r.environment() == self.environment(),
    {
        AdbRemount::new(self)
    }
}

/// The target to reboot.
#[derive(Debug, Clone, Copy, PartialEq, Eq, Hash, Structural)]
pub enum AdbRebootTarget {
    /// `bootloader`
    Bootloader,
    /// `recovery`
    Recovery,
    /// `sideload`
    Sideload,
    /// `sideload-auto-reboot`
    SideloadAutoReboot,
}

/// The word for a reboot target.
pub open spec fn reboot_target_name(v: AdbRebootTarget) -> Seq<char> {
    match v {
        AdbRebootTarget::Bootloader => "bootloader"@,
        AdbRebootTarget::Recovery => "recovery"@,
        AdbRebootTarget::Sideload => "sideload"@,
        AdbRebootTarget::SideloadAutoReboot => "sideload-auto-reboot"@,
    }
}

/// What a word denotes as a reboot target.
pub open spec fn reboot_target_parse(s: Seq<char>) -> Result<AdbRebootTarget, Failure> {
    if s == "bootloader"@ {
        Ok(AdbRebootTarget::Bootloader)
    }     else if s == "recovery"@ {
        Ok(AdbRebootTarget::Recovery)
    }     else if s == "sideload"@ {
        Ok(AdbRebootTarget::Sideload)
    }     else if s == "sideload-auto-reboot"@ {
        Ok(AdbRebootTarget::SideloadAutoReboot)
    } else {
        Err(described(s, "AdbRebootTarget"@, "Unknown reboot target"@))
    }
}

impl View for AdbRebootTarget {
    type V = AdbRebootTarget;

    open spec fn view(&self) -> AdbRebootTarget {
        *self
    }
}

impl AdbRebootTarget {
    /// The word for the value.
    pub fn as_ref(&self) -> (r: &'static str)
        ensures
            r@ == reboot_target_name(*self),
    {
        match self {
            AdbRebootTarget::Bootloader => "bootloader",
            AdbRebootTarget::Recovery => "recovery",
            AdbRebootTarget::Sideload => "sideload",
            AdbRebootTarget::SideloadAutoReboot => "sideload-auto-reboot",
        }
    }

    /// The word for the value, as a string.
    pub fn to_string(&self) -> (r: String)
        ensures
            r@ == reboot_target_name(*self),
    {
        owned(self.as_ref())
    }

    /// Reads the value from its word.
    pub fn from_str(s: &str) -> (r: Result<Self, AdbError>)
        ensures
            agrees(r, reboot_target_parse(s@)),
    {
        let v = chars_of(s);
        if is_text(v.as_slice(), "bootloader") {
            Ok(AdbRebootTarget::Bootloader)
        }         else if is_text(v.as_slice(), "recovery") {
            Ok(AdbRebootTarget::Recovery)
        }         else if is_text(v.as_slice(), "sideload") {
            Ok(AdbRebootTarget::Sideload)
        }         else if is_text(v.as_slice(), "sideload-auto-reboot") {
            Ok(AdbRebootTarget::SideloadAutoReboot)
        } else {
            Err(AdbError::invalid(v.as_slice(), "AdbRebootTarget", "Unknown reboot target"))
        }
    }
}

/// The word for a reboot target is read back as that value.
pub proof fn lemma_reboot_target_round_trip(v: AdbRebootTarget)
    ensures
        reboot_target_parse(reboot_target_name(v)) == Ok::<AdbRebootTarget, Failure>(v),
{
    reveal_strlit("bootloader");
    reveal_strlit("recovery");
    reveal_strlit("sideload");
    reveal_strlit("sideload-auto-reboot");
    let s = reboot_target_name(v);
    match v {
        AdbRebootTarget::Bootloader => {
        },
        AdbRebootTarget::Recovery => {
            assert(s != "bootloader"@) by {
                assert(s.len() != "bootloader"@.len() || exists|i: int| 0 <= i < s.len() && s[i] != "bootloader"@[i]) by {
                }
            }
        },
        AdbRebootTarget::Sideload => {
            assert(s != "bootloader"@) by {
                assert(s.len() != "bootloader"@.len() || exists|i: int| 0 <= i < s.len() && s[i] != "bootloader"@[i]) by {
                }
            }
            assert(s != "recovery"@) by {
                assert(s.len() != "recovery"@.len() || exists|i: int| 0 <= i < s.len() && s[i] != "recovery"@[i]) by {
                    assert(s[0] != "recovery"@[0]);
                }
            }
        },
        AdbRebootTarget::SideloadAutoReboot => {
            assert(s != "bootloader"@) by {
                assert(s.len() != "bootloader"@.len() || exists|i: int| 0 <= i < s.len() && s[i] != "bootloader"@[i]) by {
                }
            }
            assert(s != "recovery"@) by {
                assert(s.len() != "recovery"@.len() || exists|i: int| 0 <= i < s.len() && s[i] != "recovery"@[i]) by {
                }
            }
            assert(s != "sideload"@) by {
                assert(s.len() != "sideload"@.len() || exists|i: int| 0 <= i < s.len() && s[i] != "sideload"@[i]) by {
                }
            }
        },
    }
}

/// - `reboot [bootloader|recovery|sideload|sideload-auto-reboot]`: Reboot the device; defaults to booting system image but supports bootloader and recovery too.
#[derive(Debug, Clone, PartialEq, Eq)]
pub struct AdbReboot<'a> {
    acb: AdbCommandBuilder<'a>,
    /// The target to reboot, defaults to booting system image.
    target: Option<AdbRebootTarget>,
}

/// A command `reboot` as plain values: its global options and its own settings.
pub struct RebootModel {
    pub options: Seq<OptionModel>,
    pub target: Option<AdbRebootTarget>,
}

/// The arguments of a command `reboot` after the global options.
pub open spec fn reboot_args(m: RebootModel) -> Seq<Seq<char>> {
    seq!["reboot"@] + optional(
        match m.target {
            Some(v) => Some(reboot_target_name(v)),
            None => None,
        },
    )
}

impl<'a> View for AdbReboot<'a> {
    type V = RebootModel;

    closed spec fn view(&self) -> RebootModel {
        RebootModel {
            options: self.acb.options(),
            target: self.target,
        }
    }
}

impl<'a> AdbReboot<'a> {
    /// The environment used in this command.
    pub closed spec fn environment(&self) -> Adb {
        self.acb.environment()
    }

    /// A command `reboot` with the environment and the global options of `acb`.
    pub fn new(acb: AdbCommandBuilder<'a>) -> (r: Self)
        ensures
            r@ == (RebootModel {
                options: acb.options(),
                target: None,
            }),
            r.environment() == acb.environment(),
    {
        Self { acb, target: None }
    }

    /// The target to reboot.
    ///
    /// The previous target will be overwritten.
    pub fn target(self, target: AdbRebootTarget) -> (r: Self)
        ensures
            r@ == (RebootModel { target: Some(target), ..self@ }),
            r.environment() == self.environment(),
    {
        let mut r = self;
        r.target = Some(target);
        r
    }

}

impl<'a> AdbCommand<'a> for AdbReboot<'a> {
    open spec fn arguments(&self) -> Seq<Seq<char>> {
        option_texts(self@.options) + reboot_args(self@)
    }

    open spec fn global_options(&self) -> Seq<OptionModel> {
        self@.options
    }

    open spec fn adb(&self) -> Adb {
        self.environment()
    }

    fn command_line(&self) -> (r: Vec<String>) {
        let v = start("reboot");
        let v = with_optional(
            v,
            match self.target {
                Some(t) => Some(t.as_ref()),
                None => None,
            },
        );
        self.acb.command_line(v)
    }

    fn builder(&self) -> (r: &AdbCommandBuilder<'a>) {
        &self.acb
    }
}

impl Adb {
    /// - `reboot [bootloader|recovery|sideload|sideload-auto-reboot]`: Reboot the device; defaults to booting system image but supports bootloader and recovery too.
    pub fn reboot(&self) -> (r: AdbReboot<'_>)
        ensures
            r@ == (RebootModel {
                options: Seq::<OptionModel>::empty(),
                target: None,
            }),
            r.environment() == *self,
    {
        AdbReboot::new(self.command())
    }
}

impl<'a> AdbCommandBuilder<'a> {
    /// - `reboot [bootloader|recovery|sideload|sideload-auto-reboot]`: Reboot the device; defaults to booting system image but supports bootloader and recovery too.
    pub fn reboot(self) -> (r: AdbReboot<'a>)
        ensures
            r@ == (RebootModel {
                options: self.options(),
                target: None,
            }),
            r.environment() == self.environment(),
    {
        AdbReboot::new(self)
    }
}

/// - `sideload`: Reboots into recovery and automatically starts sideload mode.
/// - `sideload OTAPACKAGE`: Sideload the given full OTA package `OTAPACKAGE`.
#[derive(Debug, Clone, PartialEq, Eq)]
pub struct AdbSideload<'a> {
    acb: AdbCommandBuilder<'a>,
    /// The full OTA package to sideload.
    ota_package: Option<String>,
}

/// A command `sideload` as plain values: its global options and its own settings.
pub struct SideloadModel {
    pub options: Seq<OptionModel>,
    pub ota_package: Option<Seq<char>>,
}

/// The arguments of a command `sideload` after the global options.
pub open spec fn sideload_args(m: SideloadModel) -> Seq<Seq<char>> {
    seq!["sideload"@] + optional(m.ota_package)
}

impl<'a> View for AdbSideload<'a> {
    type V = SideloadModel;

    closed spec fn view(&self) -> SideloadModel {
        SideloadModel {
            options: self.acb.options(),
            ota_package: text_of(self.ota_package),
        }
    }
}

impl<'a> AdbSideload<'a> {
    /// The environment used in this command.
    pub closed spec fn environment(&self) -> Adb {
        self.acb.environment()
    }

    /// A command `sideload` with the environment and the global options of `acb`.
    pub fn new(acb: AdbCommandBuilder<'a>) -> (r: Self)
        ensures
            r@ == (SideloadModel {
                options: acb.options(),
                ota_package: None,
            }),
            r.environment() == acb.environment(),
    {
        Self { acb, ota_package: None }
    }

    /// The full OTA package to sideload.
    ///
    /// The previous OTA package will be overwritten.
    pub fn ota_package(self, ota_package: &str) -> (r: Self)
        ensures
            r@ == (SideloadModel { ota_package: Some(ota_package@), ..self@ }),
            r.environment() == self.environment(),
    {
        let mut r = self;
        r.ota_package = Some(owned(ota_package));
        r
    }

}

impl<'a> AdbCommand<'a> for AdbSideload<'a> {
    open spec fn arguments(&self) -> Seq<Seq<char>> {
        option_texts(self@.options) + sideload_args(self@)
    }

    open spec fn global_options(&self) -> Seq<OptionModel> {
        self@.options
    }

    open spec fn adb(&self) -> Adb {
        self.environment()
    }

    fn command_line(&self) -> (r: Vec<String>) {
        let v = start("sideload");
        let v = with_optional(v, borrowed(&self.ota_package));
        self.acb.command_line(v)
    }

    fn builder(&self) -> (r: &AdbCommandBuilder<'a>) {
        &self.acb
    }
}

impl Adb {
    /// - `sideload`: Reboots into recovery and automatically starts sideload mode.
    /// - `sideload OTAPACKAGE`: Sideload the given full OTA package `OTAPACKAGE`.
    pub fn sideload(&self) -> (r: AdbSideload<'_>)
        ensures
            r@ == (SideloadModel {
                options: Seq::<OptionModel>::empty(),
                ota_package: None,
            }),
            r.environment() == *self,
    {
        AdbSideload::new(self.command())
    }
}

impl<'a> AdbCommandBuilder<'a> {
    /// - `sideload`: Reboots into recovery and automatically starts sideload mode.
    /// - `sideload OTAPACKAGE`: Sideload the given full OTA package `OTAPACKAGE`.
    pub fn sideload(self) -> (r: AdbSideload<'a>)
        ensures
            r@ == (SideloadModel {
                options: self.options(),
                ota_package: None,
            }),
            r.environment() == self.environment(),
    {
        AdbSideload::new(self)
    }
}

/// - `sideload-auto-reboot`: Same as sideload but reboots after sideloading.
#[derive(Debug, Clone, PartialEq, Eq)]
pub struct AdbSideloadAutoReboot<'a>(AdbCommandBuilder<'a>);

/// The arguments of the command `sideload-auto-reboot` after the global options.
pub open spec fn sideload_auto_reboot_args() -> Seq<Seq<char>> {
    seq!["sideload-auto-reboot"@]
}

impl<'a> View for AdbSideloadAutoReboot<'a> {
    type V = Seq<OptionModel>;

    /// The global options of the command.
    closed spec fn view(&self) -> Seq<OptionModel> {
        self.0.options()
    }
}

impl<'a> AdbSideloadAutoReboot<'a> {
    /// The environment used in this command.
    pub closed spec fn environment(&self) -> Adb {
        self.0.environment()
    }

    /// The command `sideload-auto-reboot` with the environment and the global options of `acb`.
    pub fn new(acb: AdbCommandBuilder<'a>) -> (r: Self)
        ensures
            r@ == acb.options(),
            r.environment() == acb.environment(),
    {
        AdbSideloadAutoReboot(acb)
    }
}

impl<'a> AdbCommand<'a> for AdbSideloadAutoReboot<'a> {
    open spec fn arguments(&self) -> Seq<Seq<char>> {
        option_texts(self@) + sideload_auto_reboot_args()
    }

    open spec fn global_options(&self) -> Seq<OptionModel> {
        self@
    }

    open spec fn adb(&self) -> Adb {
        self.environment()
    }

    fn command_line(&self) -> (r: Vec<String>) {
        let v = start("sideload-auto-reboot");
        self.0.command_line(v)
    }

    fn builder(&self) -> (r: &AdbCommandBuilder<'a>) {
        &self.0
    }
}

impl Adb {
    /// - `sideload-auto-reboot`: Same as sideload but reboots after sideloading.
    pub fn sideload_auto_reboot(&self) -> (r: AdbSideloadAutoReboot<'_>)
        ensures
            r@ == Seq::<OptionModel>::empty(),
            r.environment() == *self,
    {
        AdbSideloadAutoReboot::new(self.command())
    }
}

impl<'a> AdbCommandBuilder<'a> {
    /// - `sideload-auto-reboot`: Same as sideload but reboots after sideloading.
    pub fn sideload_auto_reboot(self) -> (r: AdbSideloadAutoReboot<'a>)
        ensures
            r@ == self.options(),
            r.environment() == self.environment(),
    {
        AdbSideloadAutoReboot::new(self)
    }
}

/// - `root`: Restart adbd with root permissions.
#[derive(Debug, Clone, PartialEq, Eq)]
pub struct AdbRoot<'a>(AdbCommandBuilder<'a>);

/// The arguments of the command `root` after the global options.
pub open spec fn root_args() -> Seq<Seq<char>> {
    seq!["root"@]
}

impl<'a> View for AdbRoot<'a> {
    type V = Seq<OptionModel>;

    /// The global options of the command.
    closed spec fn view(&self) -> Seq<OptionModel> {
        self.0.options()
    }
}

impl<'a> AdbRoot<'a> {
    /// The environment used in this command.
    pub closed spec fn environment(&self) -> Adb {
        self.0.environment()
    }

    /// The command `root` with the environment and the global options of `acb`.
    pub fn new(acb: AdbCommandBuilder<'a>) -> (r: Self)
        ensures
            r@ == acb.options(),
            r.environment() == acb.environment(),
    {
        AdbRoot(acb)
    }
}

impl<'a> AdbCommand<'a> for AdbRoot<'a> {
    open spec fn arguments(&self) -> Seq<Seq<char>> {
        option_texts(self@) + root_args()
    }

    open spec fn global_options(&self) -> Seq<OptionModel> {
        self@
    }

    open spec fn adb(&self) -> Adb {
        self.environment()
    }

    fn command_line(&self) -> (r: Vec<String>) {
        let v = start("root");
        self.0.command_line(v)
    }

    fn builder(&self) -> (r: &AdbCommandBuilder<'a>) {
        &self.0
    }
}

impl Adb {
    /// - `root`: Restart adbd with root permissions.
    pub fn root(&self) -> (r: AdbRoot<'_>)
        ensures
            r@ == Seq::<OptionModel>::empty(),
            r.environment() == *self,
    {
        AdbRoot::new(self.command())
    }
}

impl<'a> AdbCommandBuilder<'a> {
    /// - `root`: Restart adbd with root permissions.
    pub fn root(self) -> (r: AdbRoot<'a>)
        ensures
            r@ == self.options(),
            r.environment() == self.environment(),
    {
        AdbRoot::new(self)
    }
}

/// - `unroot`: Restart adbd without root permissions.
#[derive(Debug, Clone, PartialEq, Eq)]
pub struct AdbUnroot<'a>(AdbCommandBuilder<'a>);

/// The arguments of the command `unroot` after the global options.
pub open spec fn unroot_args() -> Seq<Seq<char>> {
    seq!["unroot"@]
}

impl<'a> View for AdbUnroot<'a> {
    type V = Seq<OptionModel>;

    /// The global options of the command.
    closed spec fn view(&self) -> Seq<OptionModel> {
        self.0.options()
    }
}

impl<'a> AdbUnroot<'a> {
    /// The environment used in this command.
    pub closed spec fn environment(&self) -> Adb {
        self.0.environment()
    }

    /// The command `unroot` with the environment and the global options of `acb`.
    pub fn new(acb: AdbCommandBuilder<'a>) -> (r: Self)
        ensures
            r@ == acb.options(),
            r.environment() == acb.environment(),
    {
        AdbUnroot(acb)
    }
}

impl<'a> AdbCommand<'a> for AdbUnroot<'a> {
    open spec fn arguments(&self) -> Seq<Seq<char>> {
        option_texts(self@) + unroot_args()
    }

    open spec fn global_options(&self) -> Seq<OptionModel> {
        self@
    }

    open spec fn adb(&self) -> Adb {
        self.environment()
    }

    fn command_line(&self) -> (r: Vec<String>) {
        let v = start("unroot");
        self.0.command_line(v)
    }

    fn builder(&self) -> (r: &AdbCommandBuilder<'a>) {
        &self.0
    }
}

impl Adb {
    /// - `unroot`: Restart adbd without root permissions.
    pub fn unroot(&self) -> (r: AdbUnroot<'_>)
        ensures
            r@ == Seq::<OptionModel>::empty(),
            r.environment() == *self,
    {
        AdbUnroot::new(self.command())
    }
}

impl<'a> AdbCommandBuilder<'a> {
    /// - `unroot`: Restart adbd without root permissions.
    pub fn unroot(self) -> (r: AdbUnroot<'a>)
        ensures
            r@ == self.options(),
            r.environment() == self.environment(),
    {
        AdbUnroot::new(self)
    }
}

/// - `usb`: Restart adbd listening on USB.
#[derive(Debug, Clone, PartialEq, Eq)]
pub struct AdbUsb<'a>(AdbCommandBuilder<'a>);

/// The arguments of the command `usb` after the global options.
pub open spec fn usb_args() -> Seq<Seq<char>> {
    seq!["usb"@]
}

impl<'a> View for AdbUsb<'a> {
    type V = Seq<OptionModel>;

    /// The global options of the command.
    closed spec fn view(&self) -> Seq<OptionModel> {
        self.0.options()
    }
}

impl<'a> AdbUsb<'a> {
    /// The environment used in this command.
    pub closed spec fn environment(&self) -> Adb {
        self.0.environment()
    }

    /// The command `usb` with the environment and the global options of `acb`.
    pub fn new(acb: AdbCommandBuilder<'a>) -> (r: Self)
        ensures
            r@ == acb.options(),
            r.environment() == acb.environment(),
    {
        AdbUsb(acb)
    }
}

impl<'a> AdbCommand<'a> for AdbUsb<'a> {
    open spec fn arguments(&self) -> Seq<Seq<char>> {
        option_texts(self@) + usb_args()
    }

    open spec fn global_options(&self) -> Seq<OptionModel> {
        self@
    }

    open spec fn adb(&self) -> Adb {
        self.environment()
    }

    fn command_line(&self) -> (r: Vec<String>) {
        let v = start("usb");
        self.0.command_line(v)
    }

    fn builder(&self) -> (r: &AdbCommandBuilder<'a>) {
        &self.0
    }
}

impl Adb {
    /// The command `usb`.
    pub fn restart_usb(&self) -> (r: AdbUsb<'_>)
        ensures
            r@ == Seq::<OptionModel>::empty(),
            r.environment() == *self,
    {
        AdbUsb::new(self.command())
    }
}

impl<'a> AdbCommandBuilder<'a> {
    /// The command `usb`.
    pub fn restart_usb(self) -> (r: AdbUsb<'a>)
        ensures
            r@ == self.options(),
            r.environment() == self.environment(),
    {
        AdbUsb::new(self)
    }
}

/// - `tcpip PORT`: Restart adbd listening on TCP on `PORT`.
#[derive(Debug, Clone, PartialEq, Eq)]
pub struct AdbTcpIp<'a> {
    acb: AdbCommandBuilder<'a>,
    /// The port to listen on.
    port: u16,
}

/// A command `tcpip` as plain values: its global options and its own settings.
pub struct TcpIpModel {
    pub options: Seq<OptionModel>,
    pub port: u16,
}

/// The arguments of a command `tcpip` after the global options.
pub open spec fn tcp_ip_args(m: TcpIpModel) -> Seq<Seq<char>> {
    seq!["tcpip"@] + seq![decimal_text(m.port as nat)]
}

impl<'a> View for AdbTcpIp<'a> {
    type V = TcpIpModel;

    closed spec fn view(&self) -> TcpIpModel {
        TcpIpModel {
            options: self.acb.options(),
            port: self.port,
        }
    }
}

impl<'a> AdbTcpIp<'a> {
    /// The environment used in this command.
    pub closed spec fn environment(&self) -> Adb {
        self.acb.environment()
    }

    /// A command `tcpip` with the environment and the global options of `acb`.
    pub fn new(acb: AdbCommandBuilder<'a>, port: u16) -> (r: Self)
        ensures
            r@ == (TcpIpModel {
                options: acb.options(),
                port: port,
            }),
            r.environment() == acb.environment(),
    {
        Self { acb, port: port }
    }

    /// The port to listen on.
    ///
    /// The previous port will be overwritten.
    pub fn port(self, port: u16) -> (r: Self)
        ensures
            r@ == (TcpIpModel { port: port, ..self@ }),
            r.environment() == self.environment(),
    {
        let mut r = self;
        r.port = port;
        r
    }

}

impl<'a> AdbCommand<'a> for AdbTcpIp<'a> {
    open spec fn arguments(&self) -> Seq<Seq<char>> {
        option_texts(self@.options) + tcp_ip_args(self@)
    }

    open spec fn global_options(&self) -> Seq<OptionModel> {
        self@.options
    }

    open spec fn adb(&self) -> Adb {
        self.environment()
    }

    fn command_line(&self) -> (r: Vec<String>) {
        let v = start("tcpip");
        let port = decimal_string(self.port);
        let v = with_arg(v, port.as_str());
        self.acb.command_line(v)
    }

    fn builder(&self) -> (r: &AdbCommandBuilder<'a>) {
        &self.acb
    }
}

impl Adb {
    /// The command `tcpip`.
    pub fn restart_tcp_ip(&self, port: u16) -> (r: AdbTcpIp<'_>)
        ensures
            r@ == (TcpIpModel {
                options: Seq::<OptionModel>::empty(),
                port: port,
            }),
            r.environment() == *self,
    {
        AdbTcpIp::new(self.command(), port)
    }
}

impl<'a> AdbCommandBuilder<'a> {
    /// The command `tcpip`.
    pub fn restart_tcp_ip(self, port: u16) -> (r: AdbTcpIp<'a>)
        ensures
            r@ == (TcpIpModel {
                options: self.options(),
                port: port,
            }),
            r.environment() == self.environment(),
    {
        AdbTcpIp::new(self, port)
    }
}

} // verus!
