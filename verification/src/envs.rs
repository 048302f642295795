//! Environment variables of adb.
//!
//! [`AdbEnvs`] stores the values of adb environment variables used when
//! building and executing adb commands. Each variable has a type of its own,
//! with the text form in which the environment holds it:
//!
//! - [`AdbTrace`]: Comma (or space) separated list of debug info to log.
//! - [`AdbVendorKeys`]: Colon-separated list of keys (files or directories).
//! - [`AndroidSerial`]: Serial number to connect to.
//! - [`AndroidLogTags`]: Tags to be used by logcat.
//! - [`AdbLocalTransportMaxPort`]: Max emulator scan port (default 5585, 16 emulators).
//! - [`AdbMdnsAutoConnect`]: Comma-separated list of mdns services to allow auto-connect.
//! - [`AdbMdnsOpenScreen`]: `1` forces the mDNS backend to openscreen.
//! - [`AdbLibusb`]: `1` enables libusb, `0` the backend of adb itself.

use vstd::prelude::*;
use crate::error::{described, AdbError, Failure};
use crate::number::{decimal_text, parse_unsigned, push_decimal, read_unsigned};
use crate::scan::{
    join, lemma_join_push, push_joined, split, split_at_char, split_at_either, split_either,
    strings_of, texts, views,
};
use crate::socket::agrees;
use crate::text::{chars_of, is_text, push_text, string_of};

verus! {

/// The possible values of `$ADB_TRACE`.
#[derive(Debug, Clone, Copy, PartialEq, Eq, Hash, Structural)]
pub enum AdbTraceEnum {
    All,
    Adb,
    Sockets,
    Packets,
    Rwx,
    Usb,
    Sync,
    Sysdeps,
    Transport,
    Jdwp,
    Services,
    Auth,
    Fdevent,
    Shell,
    Incremental,
    Mdns,
}

/// The word for a trace value.
pub open spec fn trace_name(t: AdbTraceEnum) -> Seq<char> {
    match t {
        AdbTraceEnum::All => "all"@,
        AdbTraceEnum::Adb => "adb"@,
        AdbTraceEnum::Sockets => "sockets"@,
        AdbTraceEnum::Packets => "packets"@,
        AdbTraceEnum::Rwx => "rwx"@,
        AdbTraceEnum::Usb => "usb"@,
        AdbTraceEnum::Sync => "sync"@,
        AdbTraceEnum::Sysdeps => "sysdeps"@,
        AdbTraceEnum::Transport => "transport"@,
        AdbTraceEnum::Jdwp => "jdwp"@,
        AdbTraceEnum::Services => "services"@,
        AdbTraceEnum::Auth => "auth"@,
        AdbTraceEnum::Fdevent => "fdevent"@,
        AdbTraceEnum::Shell => "shell"@,
        AdbTraceEnum::Incremental => "incremental"@,
        AdbTraceEnum::Mdns => "mdns"@,
    }
}

/// The trace value that a word names, if any.
pub open spec fn trace_of(s: Seq<char>) -> Option<AdbTraceEnum> {
    if s == "all"@ {
        Some(AdbTraceEnum::All)
    } else if s == "adb"@ {
        Some(AdbTraceEnum::Adb)
    } else if s == "sockets"@ {
        Some(AdbTraceEnum::Sockets)
    } else if s == "packets"@ {
        Some(AdbTraceEnum::Packets)
    } else if s == "rwx"@ {
        Some(AdbTraceEnum::Rwx)
    } else if s == "usb"@ {
        Some(AdbTraceEnum::Usb)
    } else if s == "sync"@ {
        Some(AdbTraceEnum::Sync)
    } else if s == "sysdeps"@ {
        Some(AdbTraceEnum::Sysdeps)
    } else if s == "transport"@ {
        Some(AdbTraceEnum::Transport)
    } else if s == "jdwp"@ {
        Some(AdbTraceEnum::Jdwp)
    } else if s == "services"@ {
        Some(AdbTraceEnum::Services)
    } else if s == "auth"@ {
        Some(AdbTraceEnum::Auth)
    } else if s == "fdevent"@ {
        Some(AdbTraceEnum::Fdevent)
    } else if s == "shell"@ {
        Some(AdbTraceEnum::Shell)
    } else if s == "incremental"@ {
        Some(AdbTraceEnum::Incremental)
    } else if s == "mdns"@ {
        Some(AdbTraceEnum::Mdns)
    } else {
        None
    }
}

/// What a word denotes as a trace value.
pub open spec fn trace_parse(s: Seq<char>) -> Result<AdbTraceEnum, Failure> {
    match trace_of(s) {
        Some(t) => Ok(t),
        None => Err(described(s, "AdbTrace"@, "Unknown adb trace"@)),
    }
}

impl View for AdbTraceEnum {
    type V = AdbTraceEnum;

    open spec fn view(&self) -> AdbTraceEnum {
        *self
    }
}

impl AdbTraceEnum {
    /// The word for the value.
    pub fn as_ref(&self) -> (r: &'static str)
        ensures
            r@ == trace_name(*self),
    {
        match self {
            Self::All => "all",
            Self::Adb => "adb",
            Self::Sockets => "sockets",
            Self::Packets => "packets",
            Self::Rwx => "rwx",
            Self::Usb => "usb",
            Self::Sync => "sync",
            Self::Sysdeps => "sysdeps",
            Self::Transport => "transport",
            Self::Jdwp => "jdwp",
            Self::Services => "services",
            Self::Auth => "auth",
            Self::Fdevent => "fdevent",
            Self::Shell => "shell",
            Self::Incremental => "incremental",
            Self::Mdns => "mdns",
        }
    }

    /// The word for the value, as a string.
    pub fn to_string(&self) -> (r: String)
        ensures
            r@ == trace_name(*self),
    {
        string_of(chars_of(self.as_ref()).as_slice())
    }

    /// Reads a trace value from its word.
    pub fn parse(s: &[char]) -> (r: Result<Self, AdbError>)
        ensures
            agrees(r, trace_parse(s@)),
    {
        if is_text(s, "all") {
            Ok(Self::All)
        } else if is_text(s, "adb") {
            Ok(Self::Adb)
        } else if is_text(s, "sockets") {
            Ok(Self::Sockets)
        } else if is_text(s, "packets") {
            Ok(Self::Packets)
        } else if is_text(s, "rwx") {
            Ok(Self::Rwx)
        } else if is_text(s, "usb") {
            Ok(Self::Usb)
        } else if is_text(s, "sync") {
            Ok(Self::Sync)
        } else if is_text(s, "sysdeps") {
            Ok(Self::Sysdeps)
        } else if is_text(s, "transport") {
            Ok(Self::Transport)
        } else if is_text(s, "jdwp") {
            Ok(Self::Jdwp)
        } else if is_text(s, "services") {
            Ok(Self::Services)
        } else if is_text(s, "auth") {
            Ok(Self::Auth)
        } else if is_text(s, "fdevent") {
            Ok(Self::Fdevent)
        } else if is_text(s, "shell") {
            Ok(Self::Shell)
        } else if is_text(s, "incremental") {
            Ok(Self::Incremental)
        } else if is_text(s, "mdns") {
            Ok(Self::Mdns)
        } else {
            Err(AdbError::invalid(s, "AdbTrace", "Unknown adb trace"))
        }
    }

    /// Reads a trace value from a string.
    pub fn from_str(s: &str) -> (r: Result<Self, AdbError>)
        ensures
            agrees(r, trace_parse(s@)),
    {
        let v = chars_of(s);
        Self::parse(v.as_slice())
    }
}

/// `$ADB_TRACE`: Comma (or space) separated list of debug info to log.
#[derive(Debug, Clone, PartialEq, Eq, Hash, Default)]
pub struct AdbTrace(pub Vec<AdbTraceEnum>);

/// `$ADB_VENDOR_KEYS`: Colon-separated list of keys (files or directories).
#[derive(Debug, Clone, PartialEq, Eq, Hash, Default)]
pub struct AdbVendorKeys(pub Vec<String>);

/// `$ANDROID_SERIAL`: Serial number to connect to (see -s).
#[derive(Debug, Clone, PartialEq, Eq, Hash, Default)]
pub struct AndroidSerial(pub String);

/// `$ANDROID_LOG_TAGS`: Tags to be used by logcat (see `logcat --help`).
#[derive(Debug, Clone, PartialEq, Eq, Hash, Default)]
pub struct AndroidLogTags(pub String);

/// `$ADB_LOCAL_TRANSPORT_MAX_PORT`: Max emulator scan port (default 5585, 16 emulators).
#[derive(Debug, Clone, Copy, PartialEq, Eq, PartialOrd, Ord, Hash)]
pub struct AdbLocalTransportMaxPort(pub u16);

/// `$ADB_MDNS_AUTO_CONNECT`: Comma-separated list of mdns services to allow
/// auto-connect (default adb-tls-connect).
#[derive(Debug, Clone, PartialEq, Eq, Hash, Default)]
pub struct AdbMdnsAutoConnect(pub Vec<String>);

/// `$ADB_MDNS_OPENSCREEN`: If set to `1`, forces the mDNS backend to openscreen.
#[derive(Debug, Clone, Copy, PartialEq, Eq, Hash, Default)]
pub struct AdbMdnsOpenScreen(pub bool);

/// `$ADB_LIBUSB`: `1` to enable libusb, `0` to enable the backend of adb itself.
#[derive(Debug, Clone, Copy, PartialEq, Eq, Hash, Default)]
pub struct AdbLibusb(pub bool);

impl View for AdbTrace {
    type V = Seq<AdbTraceEnum>;

    open spec fn view(&self) -> Seq<AdbTraceEnum> {
        self.0@
    }
}

impl View for AdbVendorKeys {
    type V = Seq<Seq<char>>;

    open spec fn view(&self) -> Seq<Seq<char>> {
        texts(self.0@)
    }
}

impl View for AndroidSerial {
    type V = Seq<char>;

    open spec fn view(&self) -> Seq<char> {
        self.0@
    }
}

impl View for AndroidLogTags {
    type V = Seq<char>;

    open spec fn view(&self) -> Seq<char> {
        self.0@
    }
}

impl View for AdbLocalTransportMaxPort {
    type V = u16;

    open spec fn view(&self) -> u16 {
        self.0
    }
}

impl View for AdbMdnsAutoConnect {
    type V = Seq<Seq<char>>;

    open spec fn view(&self) -> Seq<Seq<char>> {
        texts(self.0@)
    }
}

impl View for AdbMdnsOpenScreen {
    type V = bool;

    open spec fn view(&self) -> bool {
        self.0
    }
}

impl View for AdbLibusb {
    type V = bool;

    open spec fn view(&self) -> bool {
        self.0
    }
}

/// The trace values that the words denote, or the failure of the first word
/// that names none.
pub open spec fn trace_list(words: Seq<Seq<char>>) -> Result<Seq<AdbTraceEnum>, Failure>
    decreases words.len(),
{
    if words.len() == 0 {
        Ok(Seq::empty())
    } else {
        match trace_list(words.drop_last()) {
            Err(f) => Err(f),
            Ok(v) => match trace_parse(words.last()) {
                Ok(t) => Ok(v.push(t)),
                Err(f) => Err(f),
            },
        }
    }
}

/// What a text denotes as a list of trace values: its words, between spaces
/// and commas, each a trace value.
pub open spec fn adb_trace_parse(s: Seq<char>) -> Result<Seq<AdbTraceEnum>, Failure> {
    trace_list(split_either(s, ' ', ','))
}

/// The words of the trace values.
pub open spec fn trace_names(v: Seq<AdbTraceEnum>) -> Seq<Seq<char>> {
    Seq::new(v.len(), |i: int| trace_name(v[i]))
}

/// The text of a list of trace values: their words with commas between them.
pub open spec fn adb_trace_text(v: Seq<AdbTraceEnum>) -> Seq<char> {
    join(trace_names(v), ',')
}

/// What a text denotes as a port.
pub open spec fn max_port_parse(s: Seq<char>) -> Result<u16, Failure> {
    match parse_unsigned(s, 65535) {
        Some(p) => Ok(p as u16),
        None => Err(described(s, "u16"@, "Invalid port"@)),
    }
}

/// What a text denotes as the libusb switch.
pub open spec fn libusb_parse(s: Seq<char>) -> Result<bool, Failure> {
    if s == "1"@ {
        Ok(true)
    } else if s == "0"@ {
        Ok(false)
    } else {
        Err(described(s, "AdbLibUsb"@, "Invalid value"@))
    }
}

/// The text of a switch: `1` for on, `0` for off.
pub open spec fn switch_text(on: bool) -> Seq<char> {
    if on {
        "1"@
    } else {
        "0"@
    }
}

impl AdbTrace {
    /// The name of the environment variable.
    pub const NAME: &'static str = "ADB_TRACE";

    /// Reads the list from the text of the variable.
    pub fn from_str(s: &str) -> (r: Result<Self, AdbError>)
        ensures
            agrees(r, adb_trace_parse(s@)),
    {
        let v = chars_of(s);
        let words = split_at_either(v.as_slice(), ' ', ',');
        let ghost ws = views(words@);
        let mut out: Vec<AdbTraceEnum> = Vec::new();
        let mut i: usize = 0;
        assert(ws.take(0) =~= Seq::<Seq<char>>::empty());
        while i < words.len()
            invariant
                i <= words.len(),
                ws == views(words@),
                ws == split_either(s@, ' ', ','),
                trace_list(ws.take(i as int)) == Ok::<Seq<AdbTraceEnum>, Failure>(out@),
            decreases words.len() - i,
        {
            assert(ws[i as int] == words@[i as int]@);
            proof {
                let upto = ws.take(i + 1);
                assert(upto.drop_last() =~= ws.take(i as int));
                assert(upto.last() == ws[i as int]);
            }
            match AdbTraceEnum::parse(words[i].as_slice()) {
                Ok(t) => {
                    out.push(t);
                },
                Err(e) => {
                    proof {
                        lemma_trace_list_fails(ws, i + 1);
                    }
                    return Err(e);
                },
            }
            i += 1;
        }
        assert(ws.take(words.len() as int) =~= ws);
        Ok(AdbTrace(out))
    }

    /// The text of the variable.
    pub fn to_string(&self) -> (r: String)
        ensures
            r@ == adb_trace_text(self@),
    {
        let mut out: Vec<char> = Vec::new();
        let mut i: usize = 0;
        assert(trace_names(self@.take(0)) =~= Seq::<Seq<char>>::empty());
        assert(out@ =~= adb_trace_text(self@.take(0)));
        while i < self.0.len()
            invariant
                i <= self.0.len(),
                out@ == adb_trace_text(self@.take(i as int)),
            decreases self.0.len() - i,
        {
            let ghost before = trace_names(self@.take(i as int));
            proof {
                assert(trace_names(self@.take(i + 1)) =~= before.push(
                    trace_name(self@[i as int]),
                ));
                lemma_join_push(before, trace_name(self@[i as int]), ',');
            }
            if i > 0 {
                out.push(',');
            }
            push_text(&mut out, self.0[i].as_ref());
            assert(out@ =~= adb_trace_text(self@.take(i + 1)));
            i += 1;
        }
        assert(self@.take(self.0.len() as int) =~= self@);
        string_of(out.as_slice())
    }
}

/// Where the first words already hold one that names no trace value, the
/// whole list fails as they do.
pub proof fn lemma_trace_list_fails(words: Seq<Seq<char>>, k: int)
    requires
        0 <= k <= words.len(),
        trace_list(words.take(k)) is Err,
    ensures
        trace_list(words) == trace_list(words.take(k)),
    decreases words.len() - k,
{
    if k == words.len() {
        assert(words.take(k) =~= words);
    } else {
        let next = words.take(k + 1);
        assert(next.drop_last() =~= words.take(k));
        lemma_trace_list_fails(words, k + 1);
    }
}

impl AdbVendorKeys {
    /// The name of the environment variable.
    pub const NAME: &'static str = "ADB_VENDOR_KEYS";

    /// Reads the keys from the text of the variable: its parts between colons.
    pub fn from_str(s: &str) -> (r: Result<Self, AdbError>)
        ensures
            r is Ok,
            r->Ok_0@ == split(s@, ':'),
    {
        let v = chars_of(s);
        let parts = split_at_char(v.as_slice(), ':');
        Ok(AdbVendorKeys(strings_of(&parts)))
    }

    /// The text of the variable: the keys with colons between them.
    pub fn to_string(&self) -> (r: String)
        ensures
            r@ == join(self@, ':'),
    {
        let mut out: Vec<char> = Vec::new();
        push_joined(&mut out, self.0.as_slice(), ':');
        assert(out@ =~= join(self@, ':'));
        string_of(out.as_slice())
    }
}

impl AdbMdnsAutoConnect {
    /// The name of the environment variable.
    pub const NAME: &'static str = "ADB_MDNS_AUTO_CONNECT";

    /// Reads the services from the text of the variable: its parts between commas.
    pub fn from_str(s: &str) -> (r: Result<Self, AdbError>)
        ensures
            r is Ok,
            r->Ok_0@ == split(s@, ','),
    {
        let v = chars_of(s);
        let parts = split_at_char(v.as_slice(), ',');
        Ok(AdbMdnsAutoConnect(strings_of(&parts)))
    }

    /// The text of the variable: the services with commas between them.
    pub fn to_string(&self) -> (r: String)
        ensures
            r@ == join(self@, ','),
    {
        let mut out: Vec<char> = Vec::new();
        push_joined(&mut out, self.0.as_slice(), ',');
        assert(out@ =~= join(self@, ','));
        string_of(out.as_slice())
    }
}

impl AndroidSerial {
    /// The name of the environment variable.
    pub const NAME: &'static str = "ANDROID_SERIAL";

    /// Reads the serial number: the text of the variable as it is.
    pub fn from_str(s: &str) -> (r: Result<Self, AdbError>)
        ensures
            r is Ok,
            r->Ok_0@ == s@,
    {
        Ok(AndroidSerial(string_of(chars_of(s).as_slice())))
    }

    /// The text of the variable.
    pub fn to_string(&self) -> (r: String)
        ensures
            r@ == self@,
    {
        self.0.clone()
    }
}

impl AndroidLogTags {
    /// The name of the environment variable.
    pub const NAME: &'static str = "ANDROID_LOG_TAGS";

    /// Reads the tags: the text of the variable as it is.
    pub fn from_str(s: &str) -> (r: Result<Self, AdbError>)
        ensures
            r is Ok,
            r->Ok_0@ == s@,
    {
        Ok(AndroidLogTags(string_of(chars_of(s).as_slice())))
    }

    /// The text of the variable.
    pub fn to_string(&self) -> (r: String)
        ensures
            r@ == self@,
    {
        self.0.clone()
    }
}

impl AdbLocalTransportMaxPort {
    /// The name of the environment variable.
    pub const NAME: &'static str = "ADB_LOCAL_TRANSPORT_MAX_PORT";

    /// Reads the port from the text of the variable.
    pub fn from_str(s: &str) -> (r: Result<Self, AdbError>)
        ensures
            agrees(r, max_port_parse(s@)),
    {
        let v = chars_of(s);
        match read_unsigned(v.as_slice(), 65535) {
            Some(p) => Ok(AdbLocalTransportMaxPort(p as u16)),
            None => Err(AdbError::invalid(v.as_slice(), "u16", "Invalid port")),
        }
    }

    /// The text of the variable.
    pub fn to_string(&self) -> (r: String)
        ensures
            r@ == decimal_text(self@ as nat),
    {
        let mut out: Vec<char> = Vec::new();
        push_decimal(&mut out, self.0 as u32);
        assert(out@ =~= decimal_text(self@ as nat));
        string_of(out.as_slice())
    }
}

impl Default for AdbLocalTransportMaxPort {
    /// The port 5585: sixteen emulators.
    fn default() -> (r: Self)
        ensures
            r@ == 5585,
    {
        Self(5585)
    }
}

impl AdbMdnsOpenScreen {
    /// The name of the environment variable.
    pub const NAME: &'static str = "ADB_MDNS_OPENSCREEN";

    /// Reads the switch: on for the text `1`, off for any other.
    pub fn from_str(s: &str) -> (r: Result<Self, AdbError>)
        ensures
            r is Ok,
            r->Ok_0@ == (s@ == "1"@),
    {
        let v = chars_of(s);
        Ok(AdbMdnsOpenScreen(is_text(v.as_slice(), "1")))
    }

    /// The text of the variable.
    pub fn to_string(&self) -> (r: String)
        ensures
            r@ == switch_text(self@),
    {
        if self.0 {
            string_of(chars_of("1").as_slice())
        } else {
            string_of(chars_of("0").as_slice())
        }
    }
}

impl AdbLibusb {
    /// The name of the environment variable.
    pub const NAME: &'static str = "ADB_LIBUSB";

    /// Reads the switch: on for `1`, off for `0`.
    pub fn from_str(s: &str) -> (r: Result<Self, AdbError>)
        ensures
            agrees(r, libusb_parse(s@)),
    {
        let v = chars_of(s);
        if is_text(v.as_slice(), "1") {
            Ok(AdbLibusb(true))
        } else if is_text(v.as_slice(), "0") {
            Ok(AdbLibusb(false))
        } else {
            Err(AdbError::invalid(v.as_slice(), "AdbLibUsb", "Invalid value"))
        }
    }

    /// The text of the variable.
    pub fn to_string(&self) -> (r: String)
        ensures
            r@ == switch_text(self@),
    {
        if self.0 {
            string_of(chars_of("1").as_slice())
        } else {
            string_of(chars_of("0").as_slice())
        }
    }
}


/// The values of adb environment variables used when building and executing adb commands.
///
/// A value may be `None`: the variable is then removed from the command's environment.
#[derive(Debug, Clone, PartialEq, Eq, Hash)]
pub struct AdbEnvs {
    /// `$ADB_TRACE`: Comma (or space) separated list of debug info to log.
    adb_trace: Option<AdbTrace>,
    /// `$ADB_VENDOR_KEYS`: Colon-separated list of keys (files or directories).
    adb_vendor_keys: Option<AdbVendorKeys>,
    /// `$ANDROID_SERIAL`: Serial number to connect to.
    android_serial: Option<AndroidSerial>,
    /// `$ANDROID_LOG_TAGS`: Tags to be used by logcat (see `logcat --help`).
    android_log_tags: Option<AndroidLogTags>,
    /// `$ADB_LOCAL_TRANSPORT_MAX_PORT`: Max emulator scan port (default 5585, 16 emulators).
    adb_local_transport_max_port: Option<AdbLocalTransportMaxPort>,
    /// `$ADB_MDNS_AUTO_CONNECT`: Comma-separated list of mdns services to allow auto-connect.
    adb_mdns_auto_connect: Option<AdbMdnsAutoConnect>,
    /// `$ADB_MDNS_OPENSCREEN`: If set to `1`, forces the mDNS backend to openscreen.
    adb_mdns_openscreen: Option<AdbMdnsOpenScreen>,
    /// `$ADB_LIBUSB`: `1` to enable libusb, `0` to enable the backend of adb itself.
    adb_libusb: Option<AdbLibusb>,
}

/// The values of the adb environment variables, as plain values.
pub struct EnvsModel {
    pub adb_trace: Option<Seq<AdbTraceEnum>>,
    pub adb_vendor_keys: Option<Seq<Seq<char>>>,
    pub android_serial: Option<Seq<char>>,
    pub android_log_tags: Option<Seq<char>>,
    pub adb_local_transport_max_port: Option<u16>,
    pub adb_mdns_auto_connect: Option<Seq<Seq<char>>>,
    pub adb_mdns_openscreen: Option<bool>,
    pub adb_libusb: Option<bool>,
}

impl View for AdbEnvs {
    type V = EnvsModel;

    closed spec fn view(&self) -> EnvsModel {
        EnvsModel {
            adb_trace: match self.adb_trace {
                Some(t) => Some(t@),
                None => None,
            },
            adb_vendor_keys: match self.adb_vendor_keys {
                Some(t) => Some(t@),
                None => None,
            },
            android_serial: match self.android_serial {
                Some(t) => Some(t@),
                None => None,
            },
            android_log_tags: match self.android_log_tags {
                Some(t) => Some(t@),
                None => None,
            },
            adb_local_transport_max_port: match self.adb_local_transport_max_port {
                Some(t) => Some(t@),
                None => None,
            },
            adb_mdns_auto_connect: match self.adb_mdns_auto_connect {
                Some(t) => Some(t@),
                None => None,
            },
            adb_mdns_openscreen: match self.adb_mdns_openscreen {
                Some(t) => Some(t@),
                None => None,
            },
            adb_libusb: match self.adb_libusb {
                Some(t) => Some(t@),
                None => None,
            },
        }
    }
}

/// No variable is set.
pub open spec fn no_envs() -> EnvsModel {
    EnvsModel {
        adb_trace: None,
        adb_vendor_keys: None,
        android_serial: None,
        android_log_tags: None,
        adb_local_transport_max_port: None,
        adb_mdns_auto_connect: None,
        adb_mdns_openscreen: None,
        adb_libusb: None,
    }
}

/// The value that an environment gives to a name: that of the first entry
/// with that name.
pub open spec fn env_lookup(env: Seq<(Seq<char>, Seq<char>)>, name: Seq<char>) -> Option<
    Seq<char>,
>
    decreases env.len(),
{
    if env.len() == 0 {
        None
    } else if env[0].0 == name {
        Some(env[0].1)
    } else {
        env_lookup(env.skip(1), name)
    }
}

/// An environment as plain values: names with their values.
pub open spec fn env_model(env: Seq<(String, String)>) -> Seq<(Seq<char>, Seq<char>)> {
    Seq::new(env.len(), |i: int| (env[i].0@, env[i].1@))
}

/// What an environment gives for the adb variables. A variable that is not in
/// the environment has no value. The first variable, in the order of the
/// fields, whose text cannot be read makes the whole fail.
pub open spec fn envs_parse(env: Seq<(Seq<char>, Seq<char>)>) -> Result<EnvsModel, Failure> {
    let trace = match env_lookup(env, "ADB_TRACE"@) {
        Some(t) => match adb_trace_parse(t) {
            Ok(v) => Ok(Some(v)),
            Err(f) => Err(f),
        },
        None => Ok(None),
    };
    let port = match env_lookup(env, "ADB_LOCAL_TRANSPORT_MAX_PORT"@) {
        Some(t) => match max_port_parse(t) {
            Ok(v) => Ok(Some(v)),
            Err(f) => Err(f),
        },
        None => Ok(None),
    };
    let libusb = match env_lookup(env, "ADB_LIBUSB"@) {
        Some(t) => match libusb_parse(t) {
            Ok(v) => Ok(Some(v)),
            Err(f) => Err(f),
        },
        None => Ok(None),
    };
    match (trace, port, libusb) {
        (Err(f), _, _) => Err(f),
        (Ok(_), Err(f), _) => Err(f),
        (Ok(_), Ok(_), Err(f)) => Err(f),
        (Ok(t), Ok(p), Ok(l)) => Ok(
            EnvsModel {
                adb_trace: t,
                adb_vendor_keys: match env_lookup(env, "ADB_VENDOR_KEYS"@) {
                    Some(t) => Some(split(t, ':')),
                    None => None,
                },
                android_serial: env_lookup(env, "ANDROID_SERIAL"@),
                android_log_tags: env_lookup(env, "ANDROID_LOG_TAGS"@),
                adb_local_transport_max_port: p,
                adb_mdns_auto_connect: match env_lookup(env, "ADB_MDNS_AUTO_CONNECT"@) {
                    Some(t) => Some(split(t, ',')),
                    None => None,
                },
                adb_mdns_openscreen: match env_lookup(env, "ADB_MDNS_OPENSCREEN"@) {
                    Some(t) => Some(t == "1"@),
                    None => None,
                },
                adb_libusb: l,
            },
        ),
    }
}

/// What the values do to a command's environment: for each variable, in the
/// order of the fields, its name with its text, or with nothing where it is
/// to be removed.
pub open spec fn env_assignments(m: EnvsModel) -> Seq<(Seq<char>, Option<Seq<char>>)> {
    seq![
        ("ADB_TRACE"@, match m.adb_trace {
            Some(v) => Some(adb_trace_text(v)),
            None => None,
        }),
        ("ADB_VENDOR_KEYS"@, match m.adb_vendor_keys {
            Some(v) => Some(join(v, ':')),
            None => None,
        }),
        ("ANDROID_SERIAL"@, m.android_serial),
        ("ANDROID_LOG_TAGS"@, m.android_log_tags),
        ("ADB_LOCAL_TRANSPORT_MAX_PORT"@, match m.adb_local_transport_max_port {
            Some(v) => Some(decimal_text(v as nat)),
            None => None,
        }),
        ("ADB_MDNS_AUTO_CONNECT"@, match m.adb_mdns_auto_connect {
            Some(v) => Some(join(v, ',')),
            None => None,
        }),
        ("ADB_MDNS_OPENSCREEN"@, match m.adb_mdns_openscreen {
            Some(v) => Some(switch_text(v)),
            None => None,
        }),
        ("ADB_LIBUSB"@, match m.adb_libusb {
            Some(v) => Some(switch_text(v)),
            None => None,
        }),
    ]
}

/// The assignments as plain values.
pub open spec fn assignments_model(v: Seq<(&'static str, Option<String>)>) -> Seq<
    (Seq<char>, Option<Seq<char>>),
> {
    Seq::new(
        v.len(),
        |i: int|
            (v[i].0@, match v[i].1 {
                Some(t) => Some(t@),
                None => None,
            }),
    )
}

/// The value that `env` gives to `name`.
pub fn lookup<'a>(env: &'a [(String, String)], name: &str) -> (r: Option<&'a str>)
    ensures
        match env_lookup(env_model(env@), name@) {
            Some(v) => r is Some && r->0@ == v,
            None => r is None,
        },
{
    let mut i: usize = 0;
    assert(env_model(env@).skip(0) =~= env_model(env@));
    while i < env.len()
        invariant
            i <= env.len(),
            env_lookup(env_model(env@), name@) == env_lookup(env_model(env@).skip(i as int), name@),
        decreases env.len() - i,
    {
        let ghost rest = env_model(env@).skip(i as int);
        assert(rest[0] == (env@[i as int].0@, env@[i as int].1@));
        assert(rest.skip(1) =~= env_model(env@).skip(i + 1));
        let key = chars_of(env[i].0.as_str());
        if is_text(key.as_slice(), name) {
            return Some(env[i].1.as_str());
        }
        i += 1;
    }
    None
}

impl Default for AdbEnvs {
    /// No variable is set: a command removes all of them from its environment.
    fn default() -> (r: Self)
        ensures
            r@ == no_envs(),
    {
        AdbEnvs {
            adb_trace: None,
            adb_vendor_keys: None,
            android_serial: None,
            android_log_tags: None,
            adb_local_transport_max_port: None,
            adb_mdns_auto_connect: None,
            adb_mdns_openscreen: None,
            adb_libusb: None,
        }
    }
}

impl AdbEnvs {
    /// Creates a new [`AdbEnvs`] instance with the values that the environment
    /// `env` gives: names with their values, the first entry of a name counting.
    ///
    /// If you want an empty environment, use [`AdbEnvs::default`] instead.
    pub fn new(env: &[(String, String)]) -> (r: Result<Self, AdbError>)
        ensures
            agrees(r, envs_parse(env_model(env@))),
    {
        let adb_trace = match lookup(env, "ADB_TRACE") {
            Some(t) => match AdbTrace::from_str(t) {
                Ok(v) => Some(v),
                Err(e) => {
                    return Err(e);
                },
            },
            None => None,
        };
        let adb_vendor_keys = match lookup(env, "ADB_VENDOR_KEYS") {
            Some(t) => match AdbVendorKeys::from_str(t) {
                Ok(v) => Some(v),
                Err(e) => {
                    return Err(e);
                },
            },
            None => None,
        };
        let android_serial = match lookup(env, "ANDROID_SERIAL") {
            Some(t) => match AndroidSerial::from_str(t) {
                Ok(v) => Some(v),
                Err(e) => {
                    return Err(e);
                },
            },
            None => None,
        };
        let android_log_tags = match lookup(env, "ANDROID_LOG_TAGS") {
            Some(t) => match AndroidLogTags::from_str(t) {
                Ok(v) => Some(v),
                Err(e) => {
                    return Err(e);
                },
            },
            None => None,
        };
        let adb_local_transport_max_port = match lookup(env, "ADB_LOCAL_TRANSPORT_MAX_PORT") {
            Some(t) => match AdbLocalTransportMaxPort::from_str(t) {
                Ok(v) => Some(v),
                Err(e) => {
                    return Err(e);
                },
            },
            None => None,
        };
        let adb_mdns_auto_connect = match lookup(env, "ADB_MDNS_AUTO_CONNECT") {
            Some(t) => match AdbMdnsAutoConnect::from_str(t) {
                Ok(v) => Some(v),
                Err(e) => {
                    return Err(e);
                },
            },
            None => None,
        };
        let adb_mdns_openscreen = match lookup(env, "ADB_MDNS_OPENSCREEN") {
            Some(t) => match AdbMdnsOpenScreen::from_str(t) {
                Ok(v) => Some(v),
                Err(e) => {
                    return Err(e);
                },
            },
            None => None,
        };
        let adb_libusb = match lookup(env, "ADB_LIBUSB") {
            Some(t) => match AdbLibusb::from_str(t) {
                Ok(v) => Some(v),
                Err(e) => {
                    return Err(e);
                },
            },
            None => None,
        };
        Ok(
            AdbEnvs {
                adb_trace,
                adb_vendor_keys,
                android_serial,
                android_log_tags,
                adb_local_transport_max_port,
                adb_mdns_auto_connect,
                adb_mdns_openscreen,
                adb_libusb,
            },
        )
    }

    /// What the values do to a command's environment: for each variable its
    /// name with its text, or with nothing where the variable is to be removed.
    pub fn apply(&self) -> (r: Vec<(&'static str, Option<String>)>)
        ensures
            assignments_model(r@) == env_assignments(self@),
    {
        let mut out: Vec<(&'static str, Option<String>)> = Vec::new();
        out.push(
            (AdbTrace::NAME, match &self.adb_trace {
                Some(t) => Some(t.to_string()),
                None => None,
            }),
        );
        out.push(
            (AdbVendorKeys::NAME, match &self.adb_vendor_keys {
                Some(t) => Some(t.to_string()),
                None => None,
            }),
        );
        out.push(
            (AndroidSerial::NAME, match &self.android_serial {
                Some(t) => Some(t.to_string()),
                None => None,
            }),
        );
        out.push(
            (AndroidLogTags::NAME, match &self.android_log_tags {
                Some(t) => Some(t.to_string()),
                None => None,
            }),
        );
        out.push(
            (AdbLocalTransportMaxPort::NAME, match &self.adb_local_transport_max_port {
                Some(t) => Some(t.to_string()),
                None => None,
            }),
        );
        out.push(
            (AdbMdnsAutoConnect::NAME, match &self.adb_mdns_auto_connect {
                Some(t) => Some(t.to_string()),
                None => None,
            }),
        );
        out.push(
            (AdbMdnsOpenScreen::NAME, match &self.adb_mdns_openscreen {
                Some(t) => Some(t.to_string()),
                None => None,
            }),
        );
        out.push(
            (AdbLibusb::NAME, match &self.adb_libusb {
                Some(t) => Some(t.to_string()),
                None => None,
            }),
        );
        assert(assignments_model(out@) =~= env_assignments(self@));
        out
    }

    /// `$ADB_TRACE`: Comma (or space) separated list of debug info to log.
    ///
    /// If the environment variable is not set, returns `None`.
    pub fn adb_trace(&self) -> (r: Option<&[AdbTraceEnum]>)
        ensures
            match self@.adb_trace {
                Some(v) => r is Some && r->0@ == v,
                None => r is None,
            },
    {
        match &self.adb_trace {
            Some(t) => Some(t.0.as_slice()),
            None => None,
        }
    }

    /// `$ADB_TRACE`: Comma (or space) separated list of debug info to log.
    ///
    /// Replaces the old value with the given value, returning the old value.
    pub fn set_adb_trace(&mut self, value: Vec<AdbTraceEnum>) -> (r: Option<AdbTrace>)
        ensures
            final(self)@ == (EnvsModel { adb_trace: Some(value@), ..old(self)@ }),
            match old(self)@.adb_trace {
                Some(v) => r is Some && r->0@ == v,
                None => r is None,
            },
    {
        let before = self.adb_trace.take();
        self.adb_trace = Some(AdbTrace(value));
        before
    }

    /// `$ADB_TRACE`: Comma (or space) separated list of debug info to log.
    ///
    /// Removes the environment variable, returning the old value.
    pub fn remove_adb_trace(&mut self) -> (r: Option<AdbTrace>)
        ensures
            final(self)@ == (EnvsModel { adb_trace: None, ..old(self)@ }),
            match old(self)@.adb_trace {
                Some(v) => r is Some && r->0@ == v,
                None => r is None,
            },
    {
        self.adb_trace.take()
    }

    /// `$ADB_VENDOR_KEYS`: Colon-separated list of keys (files or directories).
    ///
    /// If the environment variable is not set, returns `None`.
    pub fn adb_vendor_keys(&self) -> (r: Option<&[String]>)
        ensures
            match self@.adb_vendor_keys {
                Some(v) => r is Some && texts(r->0@) == v,
                None => r is None,
            },
    {
        match &self.adb_vendor_keys {
            Some(t) => Some(t.0.as_slice()),
            None => None,
        }
    }

    /// `$ADB_VENDOR_KEYS`: Colon-separated list of keys (files or directories).
    ///
    /// Replaces the old value with the given value, returning the old value.
    pub fn set_adb_vendor_keys(&mut self, value: Vec<String>) -> (r: Option<AdbVendorKeys>)
        ensures
            final(self)@ == (EnvsModel { adb_vendor_keys: Some(texts(value@)), ..old(self)@ }),
            match old(self)@.adb_vendor_keys {
                Some(v) => r is Some && r->0@ == v,
                None => r is None,
            },
    {
        let before = self.adb_vendor_keys.take();
        self.adb_vendor_keys = Some(AdbVendorKeys(value));
        before
    }

    /// `$ADB_VENDOR_KEYS`: Colon-separated list of keys (files or directories).
    ///
    /// Removes the environment variable, returning the old value.
    pub fn remove_adb_vendor_keys(&mut self) -> (r: Option<AdbVendorKeys>)
        ensures
            final(self)@ == (EnvsModel { adb_vendor_keys: None, ..old(self)@ }),
            match old(self)@.adb_vendor_keys {
                Some(v) => r is Some && r->0@ == v,
                None => r is None,
            },
    {
        self.adb_vendor_keys.take()
    }

    /// `$ANDROID_SERIAL`: Serial number to connect to.
    ///
    /// If the environment variable is not set, returns `None`.
    pub fn android_serial(&self) -> (r: Option<&str>)
        ensures
            match self@.android_serial {
                Some(v) => r is Some && r->0@ == v,
                None => r is None,
            },
    {
        match &self.android_serial {
            Some(t) => Some(t.0.as_str()),
            None => None,
        }
    }

    /// `$ANDROID_SERIAL`: Serial number to connect to.
    ///
    /// Replaces the old value with the given value, returning the old value.
    pub fn set_android_serial(&mut self, value: String) -> (r: Option<AndroidSerial>)
        ensures
            final(self)@ == (EnvsModel { android_serial: Some(value@), ..old(self)@ }),
            match old(self)@.android_serial {
                Some(v) => r is Some && r->0@ == v,
                None => r is None,
            },
    {
        let before = self.android_serial.take();
        self.android_serial = Some(AndroidSerial(value));
        before
    }

    /// `$ANDROID_SERIAL`: Serial number to connect to.
    ///
    /// Removes the environment variable, returning the old value.
    pub fn remove_android_serial(&mut self) -> (r: Option<AndroidSerial>)
        ensures
            final(self)@ == (EnvsModel { android_serial: None, ..old(self)@ }),
            match old(self)@.android_serial {
                Some(v) => r is Some && r->0@ == v,
                None => r is None,
            },
    {
        self.android_serial.take()
    }

    /// `$ANDROID_LOG_TAGS`: Tags to be used by logcat (see `logcat --help`).
    ///
    /// If the environment variable is not set, returns `None`.
    pub fn android_log_tags(&self) -> (r: Option<&str>)
        ensures
            match self@.android_log_tags {
                Some(v) => r is Some && r->0@ == v,
                None => r is None,
            },
    {
        match &self.android_log_tags {
            Some(t) => Some(t.0.as_str()),
            None => None,
        }
    }

    /// `$ANDROID_LOG_TAGS`: Tags to be used by logcat (see `logcat --help`).
    ///
    /// Replaces the old value with the given value, returning the old value.
    pub fn set_android_log_tags(&mut self, value: String) -> (r: Option<AndroidLogTags>)
        ensures
            final(self)@ == (EnvsModel { android_log_tags: Some(value@), ..old(self)@ }),
            match old(self)@.android_log_tags {
                Some(v) => r is Some && r->0@ == v,
                None => r is None,
            },
    {
        let before = self.android_log_tags.take();
        self.android_log_tags = Some(AndroidLogTags(value));
        before
    }

    /// `$ANDROID_LOG_TAGS`: Tags to be used by logcat (see `logcat --help`).
    ///
    /// Removes the environment variable, returning the old value.
    pub fn remove_android_log_tags(&mut self) -> (r: Option<AndroidLogTags>)
        ensures
            final(self)@ == (EnvsModel { android_log_tags: None, ..old(self)@ }),
            match old(self)@.android_log_tags {
                Some(v) => r is Some && r->0@ == v,
                None => r is None,
            },
    {
        self.android_log_tags.take()
    }

    /// `$ADB_LOCAL_TRANSPORT_MAX_PORT`: Max emulator scan port (default 5585, 16 emulators).
    ///
    /// If the environment variable is not set, returns `None`.
    pub fn adb_local_transport_max_port(&self) -> (r: Option<u16>)
        ensures
            match self@.adb_local_transport_max_port {
                Some(v) => r is Some && r->0 == v,
                None => r is None,
            },
    {
        match &self.adb_local_transport_max_port {
            Some(t) => Some(t.0),
            None => None,
        }
    }

    /// `$ADB_LOCAL_TRANSPORT_MAX_PORT`: Max emulator scan port (default 5585, 16 emulators).
    ///
    /// Replaces the old value with the given value, returning the old value.
    pub fn set_adb_local_transport_max_port(&mut self, value: u16) -> (r: Option<AdbLocalTransportMaxPort>)
        ensures
            final(self)@ == (EnvsModel { adb_local_transport_max_port: Some(value), ..old(self)@ }),
            match old(self)@.adb_local_transport_max_port {
                Some(v) => r is Some && r->0@ == v,
                None => r is None,
            },
    {
        let before = self.adb_local_transport_max_port.take();
        self.adb_local_transport_max_port = Some(AdbLocalTransportMaxPort(value));
        before
    }

    /// `$ADB_LOCAL_TRANSPORT_MAX_PORT`: Max emulator scan port (default 5585, 16 emulators).
    ///
    /// Removes the environment variable, returning the old value.
    pub fn remove_adb_local_transport_max_port(&mut self) -> (r: Option<AdbLocalTransportMaxPort>)
        ensures
            final(self)@ == (EnvsModel { adb_local_transport_max_port: None, ..old(self)@ }),
            match old(self)@.adb_local_transport_max_port {
                Some(v) => r is Some && r->0@ == v,
                None => r is None,
            },
    {
        self.adb_local_transport_max_port.take()
    }

    /// `$ADB_MDNS_AUTO_CONNECT`: Comma-separated list of mdns services to allow auto-connect.
    ///
    /// If the environment variable is not set, returns `None`.
    pub fn adb_mdns_auto_connect(&self) -> (r: Option<&[String]>)
        ensures
            match self@.adb_mdns_auto_connect {
                Some(v) => r is Some && texts(r->0@) == v,
                None => r is None,
            },
    {
        match &self.adb_mdns_auto_connect {
            Some(t) => Some(t.0.as_slice()),
            None => None,
        }
    }

    /// `$ADB_MDNS_AUTO_CONNECT`: Comma-separated list of mdns services to allow auto-connect.
    ///
    /// Replaces the old value with the given value, returning the old value.
    pub fn set_adb_mdns_auto_connect(&mut self, value: Vec<String>) -> (r: Option<AdbMdnsAutoConnect>)
        ensures
            final(self)@ == (EnvsModel { adb_mdns_auto_connect: Some(texts(value@)), ..old(self)@ }),
            match old(self)@.adb_mdns_auto_connect {
                Some(v) => r is Some && r->0@ == v,
                None => r is None,
            },
    {
        let before = self.adb_mdns_auto_connect.take();
        self.adb_mdns_auto_connect = Some(AdbMdnsAutoConnect(value));
        before
    }

    /// `$ADB_MDNS_AUTO_CONNECT`: Comma-separated list of mdns services to allow auto-connect.
    ///
    /// Removes the environment variable, returning the old value.
    pub fn remove_adb_mdns_auto_connect(&mut self) -> (r: Option<AdbMdnsAutoConnect>)
        ensures
            final(self)@ == (EnvsModel { adb_mdns_auto_connect: None, ..old(self)@ }),
            match old(self)@.adb_mdns_auto_connect {
                Some(v) => r is Some && r->0@ == v,
                None => r is None,
            },
    {
        self.adb_mdns_auto_connect.take()
    }

    /// `$ADB_MDNS_OPENSCREEN`: If set to `1`, forces the mDNS backend to openscreen.
    ///
    /// If the environment variable is not set, returns `None`.
    pub fn adb_mdns_openscreen(&self) -> (r: Option<bool>)
        ensures
            match self@.adb_mdns_openscreen {
                Some(v) => r is Some && r->0 == v,
                None => r is None,
            },
    {
        match &self.adb_mdns_openscreen {
            Some(t) => Some(t.0),
            None => None,
        }
    }

    /// `$ADB_MDNS_OPENSCREEN`: If set to `1`, forces the mDNS backend to openscreen.
    ///
    /// Replaces the old value with the given value, returning the old value.
    pub fn set_adb_mdns_openscreen(&mut self, value: bool) -> (r: Option<AdbMdnsOpenScreen>)
        ensures
            final(self)@ == (EnvsModel { adb_mdns_openscreen: Some(value), ..old(self)@ }),
            match old(self)@.adb_mdns_openscreen {
                Some(v) => r is Some && r->0@ == v,
                None => r is None,
            },
    {
        let before = self.adb_mdns_openscreen.take();
        self.adb_mdns_openscreen = Some(AdbMdnsOpenScreen(value));
        before
    }

    /// `$ADB_MDNS_OPENSCREEN`: If set to `1`, forces the mDNS backend to openscreen.
    ///
    /// Removes the environment variable, returning the old value.
    pub fn remove_adb_mdns_openscreen(&mut self) -> (r: Option<AdbMdnsOpenScreen>)
        ensures
            final(self)@ == (EnvsModel { adb_mdns_openscreen: None, ..old(self)@ }),
            match old(self)@.adb_mdns_openscreen {
                Some(v) => r is Some && r->0@ == v,
                None => r is None,
            },
    {
        self.adb_mdns_openscreen.take()
    }

    /// `$ADB_LIBUSB`: `1` to enable libusb, `0` to enable the backend of adb itself.
    ///
    /// If the environment variable is not set, returns `None`.
    pub fn adb_libusb(&self) -> (r: Option<bool>)
        ensures
            match self@.adb_libusb {
                Some(v) => r is Some && r->0 == v,
                None => r is None,
            },
    {
        match &self.adb_libusb {
            Some(t) => Some(t.0),
            None => None,
        }
    }

    /// `$ADB_LIBUSB`: `1` to enable libusb, `0` to enable the backend of adb itself.
    ///
    /// Replaces the old value with the given value, returning the old value.
    pub fn set_adb_libusb(&mut self, value: bool) -> (r: Option<AdbLibusb>)
        ensures
            final(self)@ == (EnvsModel { adb_libusb: Some(value), ..old(self)@ }),
            match old(self)@.adb_libusb {
                Some(v) => r is Some && r->0@ == v,
                None => r is None,
            },
    {
        let before = self.adb_libusb.take();
        self.adb_libusb = Some(AdbLibusb(value));
        before
    }

    /// `$ADB_LIBUSB`: `1` to enable libusb, `0` to enable the backend of adb itself.
    ///
    /// Removes the environment variable, returning the old value.
    pub fn remove_adb_libusb(&mut self) -> (r: Option<AdbLibusb>)
        ensures
            final(self)@ == (EnvsModel { adb_libusb: None, ..old(self)@ }),
            match old(self)@.adb_libusb {
                Some(v) => r is Some && r->0@ == v,
                None => r is None,
            },
    {
        self.adb_libusb.take()
    }
}

} // verus!
