//! The global options of the `adb` command.
//!
//! A global option is written as a flag, or as a flag, white space and a
//! value. White space around the whole text does not count.

use vstd::prelude::*;
use vstd::slice::slice_subrange;
use crate::error::{caused, described, of_kind, AdbError, Failure, ParseErrorKind, ParseSource};
use crate::ip::{ip_parse, ip_text, IpAddr, IpModel};
use crate::number::{decimal_text, parse_unsigned, push_decimal, read_unsigned};
use crate::scan::{all_space, find_space, first_space, lemma_trim_padded, trim, trimmed};
use crate::socket::{agrees, tcp_parse, tcp_text, Tcp, TcpModel};
use crate::text::{chars_of, is_text, push_text, string_of};

verus! {

/// The global options of the `adb` command.
#[derive(Debug, Clone, PartialEq, Eq, Hash)]
pub enum AdbGlobalOption {
    /// `-a`: Listen on all network interfaces, not just localhost.
    ListenAll,
    /// `-d`: Use USB device (error if multiple devices connected).
    Usb,
    /// `-e`: Use TCP/IP device (error if multiple TCP/IP devices available).
    TcpIp,
    /// `-s SERIAL`: Use device with given SERIAL (overrides $ANDROID_SERIAL).
    Serial(String),
    /// `-t ID`: Use device with given transport id.
    TransportId(String),
    /// `-H`: Name of adb server host. Default is `localhost`.
    Host(IpAddr),
    /// `-P *PORT`: Smart socket PORT of adb server. Default is `5037`.
    Port(u16),
    /// `-L SOCKET`: Listen on given socket for adb server. Default is `tcp:localhost:5037`.
    Listen(Tcp),
    /// `--one-device SERIAL | USB`: Server will only connect to one USB device,
    /// specified by a SERIAL number or USB device address
    /// (only with `start-server` or `server nodaemon`).
    OneDevice(String),
    /// `--exit-on-write-error`: Exit if stdout is closed.
    ExitOnWriteError,
}

/// A global option as plain values.
pub enum OptionModel {
    ListenAll,
    Usb,
    TcpIp,
    Serial(Seq<char>),
    TransportId(Seq<char>),
    Host(IpModel),
    Port(u16),
    Listen(TcpModel),
    OneDevice(Seq<char>),
    ExitOnWriteError,
}

/// The kind of a global option: which option it is, whatever its value.
#[derive(Debug, Clone, Copy, PartialEq, Eq, Hash, Structural)]
pub enum OptionKind {
    ListenAll,
    Usb,
    TcpIp,
    Serial,
    TransportId,
    Host,
    Port,
    Listen,
    OneDevice,
    ExitOnWriteError,
}

impl OptionKind {
    /// The place of the kind in the order in which the global options of a
    /// command are written: the order in which adb lists them.
    pub open spec fn place(self) -> int {
        match self {
            OptionKind::ListenAll => 0,
            OptionKind::Usb => 1,
            OptionKind::TcpIp => 2,
            OptionKind::Serial => 3,
            OptionKind::TransportId => 4,
            OptionKind::Host => 5,
            OptionKind::Port => 6,
            OptionKind::Listen => 7,
            OptionKind::OneDevice => 8,
            OptionKind::ExitOnWriteError => 9,
        }
    }

    /// The place of the kind in the order in which the global options of a
    /// command are written.
    pub fn rank(&self) -> (r: u8)
        ensures
            r == self.place(),
    {
        match self {
            OptionKind::ListenAll => 0,
            OptionKind::Usb => 1,
            OptionKind::TcpIp => 2,
            OptionKind::Serial => 3,
            OptionKind::TransportId => 4,
            OptionKind::Host => 5,
            OptionKind::Port => 6,
            OptionKind::Listen => 7,
            OptionKind::OneDevice => 8,
            OptionKind::ExitOnWriteError => 9,
        }
    }
}

impl OptionModel {
    /// The kind of the option.
    pub open spec fn kind(self) -> OptionKind {
        match self {
            OptionModel::ListenAll => OptionKind::ListenAll,
            OptionModel::Usb => OptionKind::Usb,
            OptionModel::TcpIp => OptionKind::TcpIp,
            OptionModel::Serial(_) => OptionKind::Serial,
            OptionModel::TransportId(_) => OptionKind::TransportId,
            OptionModel::Host(_) => OptionKind::Host,
            OptionModel::Port(_) => OptionKind::Port,
            OptionModel::Listen(_) => OptionKind::Listen,
            OptionModel::OneDevice(_) => OptionKind::OneDevice,
            OptionModel::ExitOnWriteError => OptionKind::ExitOnWriteError,
        }
    }
}

impl View for AdbGlobalOption {
    type V = OptionModel;

    open spec fn view(&self) -> OptionModel {
        match self {
            AdbGlobalOption::ListenAll => OptionModel::ListenAll,
            AdbGlobalOption::Usb => OptionModel::Usb,
            AdbGlobalOption::TcpIp => OptionModel::TcpIp,
            AdbGlobalOption::Serial(s) => OptionModel::Serial(s@),
            AdbGlobalOption::TransportId(s) => OptionModel::TransportId(s@),
            AdbGlobalOption::Host(ip) => OptionModel::Host(ip@),
            AdbGlobalOption::Port(p) => OptionModel::Port(*p),
            AdbGlobalOption::Listen(t) => OptionModel::Listen(t@),
            AdbGlobalOption::OneDevice(s) => OptionModel::OneDevice(s@),
            AdbGlobalOption::ExitOnWriteError => OptionModel::ExitOnWriteError,
        }
    }
}

/// The text of a global option: the flag, and for an option with a value one
/// space and the value.
pub open spec fn option_text(m: OptionModel) -> Seq<char> {
    match m {
        OptionModel::ListenAll => "-a"@,
        OptionModel::Usb => "-d"@,
        OptionModel::TcpIp => "-e"@,
        OptionModel::Serial(s) => "-s"@ + seq![' '] + s,
        OptionModel::TransportId(s) => "-t"@ + seq![' '] + s,
        OptionModel::Host(ip) => "-H"@ + seq![' '] + ip_text(ip),
        OptionModel::Port(p) => "-P"@ + seq![' '] + decimal_text(p as nat),
        OptionModel::Listen(t) => "-L"@ + seq![' '] + tcp_text(t),
        OptionModel::OneDevice(s) => "--one-device"@ + seq![' '] + s,
        OptionModel::ExitOnWriteError => "--exit-on-write-error"@,
    }
}

/// The failure for a flag that came without its value.
pub open spec fn missing_value(s: Seq<char>) -> Failure {
    of_kind(described(s, "AdbGlobalOption"@, "missing value"@), ParseErrorKind::MissingValue)
}

/// The failure for a flag that is no global option.
pub open spec fn unknown_option(flag: Seq<char>) -> Failure {
    of_kind(described(flag, "AdbGlobalOption"@, "unknown option"@), ParseErrorKind::UnknownOption)
}

/// The failure for a value that is not of the kind that its flag takes.
pub open spec fn invalid_value(value: Seq<char>, target: Seq<char>, source: ParseSource)
    -> Failure {
    of_kind(caused(value, target, source), ParseErrorKind::InvalidValue)
}

/// The option with no value that the text spells, if any.
pub open spec fn plain_option(t: Seq<char>) -> Option<OptionModel> {
    if t == "-a"@ {
        Some(OptionModel::ListenAll)
    } else if t == "-d"@ {
        Some(OptionModel::Usb)
    } else if t == "-e"@ {
        Some(OptionModel::TcpIp)
    } else if t == "--exit-on-write-error"@ {
        Some(OptionModel::ExitOnWriteError)
    } else {
        None
    }
}

/// What a flag with its value denotes, no name being resolved.
pub open spec fn valued_option(flag: Seq<char>, value: Seq<char>) -> Result<OptionModel, Failure> {
    if flag == "-s"@ {
        Ok(OptionModel::Serial(value))
    } else if flag == "-t"@ {
        Ok(OptionModel::TransportId(value))
    } else if flag == "-H"@ {
        match ip_parse(value) {
            Some(ip) => Ok(OptionModel::Host(ip)),
            None => Err(invalid_value(value, "IpAddr"@, ParseSource::Address)),
        }
    } else if flag == "-P"@ {
        match parse_unsigned(value, 65535) {
            Some(p) => Ok(OptionModel::Port(p as u16)),
            None => Err(invalid_value(value, "port (u16)"@, ParseSource::Integer)),
        }
    } else if flag == "-L"@ {
        match tcp_parse(value) {
            Ok(t) => Ok(OptionModel::Listen(t)),
            Err(f) => Err(f),
        }
    } else if flag == "--one-device"@ {
        Ok(OptionModel::OneDevice(value))
    } else {
        Err(unknown_option(flag))
    }
}

/// The flag of a trimmed text: what stands before its first white space.
pub open spec fn flag_of(t: Seq<char>) -> Seq<char> {
    t.take(first_space(t))
}

/// The value of a trimmed text: what stands after its first white space,
/// trimmed again.
pub open spec fn value_of(t: Seq<char>) -> Seq<char> {
    trim(t.skip(first_space(t) + 1))
}

/// Whether the text is one of the six flags that take a value.
pub open spec fn takes_value(flag: Seq<char>) -> bool {
    flag == "-s"@ || flag == "-t"@ || flag == "-H"@ || flag == "-P"@ || flag == "-L"@ || flag
        == "--one-device"@
}

/// What a trimmed text denotes, no name being resolved.
pub open spec fn trimmed_option_parse(t: Seq<char>) -> Result<OptionModel, Failure> {
    match plain_option(t) {
        Some(m) => Ok(m),
        None => if first_space(t) >= t.len() {
            if takes_value(t) {
                Err(missing_value(t))
            } else {
                Err(unknown_option(t))
            }
        } else {
            valued_option(flag_of(t), value_of(t))
        },
    }
}

/// What a text denotes as a global option, no name being resolved.
///
/// The text is trimmed. One of the four flags without a value is that option.
/// A text without white space is a flag alone: a flag that takes a value
/// misses it, and any other text is no option. In a text with white space,
/// what stands before the first white space is the flag, and what stands
/// after it, trimmed, is the value. A failure carries the trimmed text or the
/// part of it that could not be read.
pub open spec fn option_parse(s: Seq<char>) -> Result<OptionModel, Failure> {
    trimmed_option_parse(trim(s))
}

impl AdbGlobalOption {
    /// The kind of the option.
    pub fn kind(&self) -> (k: OptionKind)
        ensures
            k == self@.kind(),
    {
        match self {
            AdbGlobalOption::ListenAll => OptionKind::ListenAll,
            AdbGlobalOption::Usb => OptionKind::Usb,
            AdbGlobalOption::TcpIp => OptionKind::TcpIp,
            AdbGlobalOption::Serial(_) => OptionKind::Serial,
            AdbGlobalOption::TransportId(_) => OptionKind::TransportId,
            AdbGlobalOption::Host(_) => OptionKind::Host,
            AdbGlobalOption::Port(_) => OptionKind::Port,
            AdbGlobalOption::Listen(_) => OptionKind::Listen,
            AdbGlobalOption::OneDevice(_) => OptionKind::OneDevice,
            AdbGlobalOption::ExitOnWriteError => OptionKind::ExitOnWriteError,
        }
    }

    /// A copy of the option.
    pub fn duplicate(&self) -> (r: Self)
        ensures
            r@ == self@,
    {
        match self {
            AdbGlobalOption::ListenAll => AdbGlobalOption::ListenAll,
            AdbGlobalOption::Usb => AdbGlobalOption::Usb,
            AdbGlobalOption::TcpIp => AdbGlobalOption::TcpIp,
            AdbGlobalOption::Serial(s) => AdbGlobalOption::Serial(s.clone()),
            AdbGlobalOption::TransportId(s) => AdbGlobalOption::TransportId(s.clone()),
            AdbGlobalOption::Host(ip) => AdbGlobalOption::Host(*ip),
            AdbGlobalOption::Port(p) => AdbGlobalOption::Port(*p),
            AdbGlobalOption::Listen(t) => AdbGlobalOption::Listen(*t),
            AdbGlobalOption::OneDevice(s) => AdbGlobalOption::OneDevice(s.clone()),
            AdbGlobalOption::ExitOnWriteError => AdbGlobalOption::ExitOnWriteError,
        }
    }

    /// The text of the option.
    pub fn to_string(&self) -> (r: String)
        ensures
            r@ == option_text(self@),
    {
        let mut out: Vec<char> = Vec::new();
        match self {
            AdbGlobalOption::ListenAll => {
                push_text(&mut out, "-a");
            },
            AdbGlobalOption::Usb => {
                push_text(&mut out, "-d");
            },
            AdbGlobalOption::TcpIp => {
                push_text(&mut out, "-e");
            },
            AdbGlobalOption::Serial(s) => {
                push_text(&mut out, "-s");
                out.push(' ');
                push_text(&mut out, s.as_str());
            },
            AdbGlobalOption::TransportId(s) => {
                push_text(&mut out, "-t");
                out.push(' ');
                push_text(&mut out, s.as_str());
            },
            AdbGlobalOption::Host(ip) => {
                push_text(&mut out, "-H");
                out.push(' ');
                ip.push_text(&mut out);
            },
            AdbGlobalOption::Port(p) => {
                push_text(&mut out, "-P");
                out.push(' ');
                push_decimal(&mut out, *p as u32);
            },
            AdbGlobalOption::Listen(t) => {
                push_text(&mut out, "-L");
                out.push(' ');
                t.push_text(&mut out);
            },
            AdbGlobalOption::OneDevice(s) => {
                push_text(&mut out, "--one-device");
                out.push(' ');
                push_text(&mut out, s.as_str());
            },
            AdbGlobalOption::ExitOnWriteError => {
                push_text(&mut out, "--exit-on-write-error");
            },
        }
        assert(out@ =~= option_text(self@));
        string_of(out.as_slice())
    }

    /// Reads one of the four options without a value.
    fn parse_plain(t: &[char]) -> (r: Option<Self>)
        ensures
            match plain_option(t@) {
                Some(m) => r is Some && r->0@ == m,
                None => r is None,
            },
    {
        if is_text(t, "-a") {
            Some(AdbGlobalOption::ListenAll)
        } else if is_text(t, "-d") {
            Some(AdbGlobalOption::Usb)
        } else if is_text(t, "-e") {
            Some(AdbGlobalOption::TcpIp)
        } else if is_text(t, "--exit-on-write-error") {
            Some(AdbGlobalOption::ExitOnWriteError)
        } else {
            None
        }
    }

    /// Whether the text is one of the six flags that take a value.
    fn takes_value(flag: &[char]) -> (r: bool)
        ensures
            r == takes_value(flag@),
    {
        is_text(flag, "-s") || is_text(flag, "-t") || is_text(flag, "-H") || is_text(flag, "-P")
            || is_text(flag, "-L") || is_text(flag, "--one-device")
    }

    /// Reads an option from its flag and its value, no name being resolved.
    fn parse_valued(flag: &[char], value: &[char]) -> (r: Result<Self, AdbError>)
        ensures
            agrees(r, valued_option(flag@, value@)),
    {
        if is_text(flag, "-s") {
            Ok(AdbGlobalOption::Serial(string_of(value)))
        } else if is_text(flag, "-t") {
            Ok(AdbGlobalOption::TransportId(string_of(value)))
        } else if is_text(flag, "-H") {
            match IpAddr::parse(value) {
                Some(ip) => Ok(AdbGlobalOption::Host(ip)),
                None => Err(
                    AdbError::caused_by(value, "IpAddr", ParseSource::Address).with_kind(
                        ParseErrorKind::InvalidValue,
                    ),
                ),
            }
        } else if is_text(flag, "-P") {
            match read_unsigned(value, 65535) {
                Some(p) => Ok(AdbGlobalOption::Port(p as u16)),
                None => Err(
                    AdbError::caused_by(value, "port (u16)", ParseSource::Integer).with_kind(
                        ParseErrorKind::InvalidValue,
                    ),
                ),
            }
        } else if is_text(flag, "-L") {
            match Tcp::parse(value) {
                Ok(t) => Ok(AdbGlobalOption::Listen(t)),
                Err(e) => Err(e),
            }
        } else if is_text(flag, "--one-device") {
            Ok(AdbGlobalOption::OneDevice(string_of(value)))
        } else {
            Err(
                AdbError::invalid(flag, "AdbGlobalOption", "unknown option").with_kind(
                    ParseErrorKind::UnknownOption,
                ),
            )
        }
    }

    /// Reads a global option from its text, no name being resolved.
    pub fn parse(s: &[char]) -> (r: Result<Self, AdbError>)
        ensures
            agrees(r, option_parse(s@)),
    {
        let t = trimmed(s);
        if let Some(option) = AdbGlobalOption::parse_plain(t.as_slice()) {
            return Ok(option);
        }
        let at = find_space(t.as_slice());
        if at >= t.len() {
            if AdbGlobalOption::takes_value(t.as_slice()) {
                return Err(
                    AdbError::invalid(t.as_slice(), "AdbGlobalOption", "missing value").with_kind(
                        ParseErrorKind::MissingValue,
                    ),
                );
            } else {
                return Err(
                    AdbError::invalid(t.as_slice(), "AdbGlobalOption", "unknown option").with_kind(
                        ParseErrorKind::UnknownOption,
                    ),
                );
            }
        }
        let flag = slice_subrange(t.as_slice(), 0, at);
        let rest = slice_subrange(t.as_slice(), at + 1, t.len());
        assert(flag@ =~= flag_of(t@));
        assert(rest@ =~= t@.skip(at + 1));
        let value = trimmed(rest);
        AdbGlobalOption::parse_valued(flag, value.as_slice())
    }

    /// Reads a global option from a string, no name being resolved.
    pub fn from_str(s: &str) -> (r: Result<Self, AdbError>)
        ensures
            agrees(r, option_parse(s@)),
    {
        let v = chars_of(s);
        AdbGlobalOption::parse(v.as_slice())
    }
}


/// White space before and after a text does not change what it denotes as a
/// global option: the same option, or the same failure.
pub proof fn lemma_option_padding(left: Seq<char>, s: Seq<char>, right: Seq<char>)
    requires
        all_space(left),
        all_space(right),
    ensures
        option_parse(left + s + right) == option_parse(s),
{
    lemma_trim_padded(left, s, right);
}

} // verus!
