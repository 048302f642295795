//! The socket families of `adb`: their values, their text forms, and the
//! reading of a text into a value.
//!
//! Every text starts with the family's tag and a colon. What follows the colon
//! depends on the family: a port, an address or both for `tcp`; a name for the
//! local sockets and the devices; a number for `jdwp` and `acceptfd`; two
//! numbers with a colon between them for `vsock`.

use vstd::prelude::*;
use vstd::slice::slice_subrange;
use crate::error::{caused, described, AdbError, Failure, ParseSource};
use crate::ip::{
    ip_text, ipv4_parse, ipv6_parse, socket_addr_parse, IpAddr, IpModel, Ipv4Addr, Ipv6Addr,
    SocketAddr,
};
use crate::number::{decimal_text, parse_unsigned, push_decimal, read_unsigned};
use crate::scan::{find_char, split_once};
use crate::text::{chars_of, is_text, push_text, string_of};

verus! {

/// A TCP socket: an address, a port, or both.
///
/// The text is `tcp:` and the port, the address, or the address, a colon and
/// the port. An IPv6 address stands in square brackets where a port follows.
///
/// The value with neither stands for no socket: its text is empty, and no
/// text is read as it.
#[derive(Copy, Clone, Eq, PartialEq, Ord, PartialOrd, Hash, Debug)]
pub struct Tcp {
    /// The IP address of the host.
    pub ip: Option<IpAddr>,
    /// The port number.
    pub port: Option<u16>,
}

/// A Unix domain socket in the abstract namespace: `localabstract:<name>`.
#[derive(Clone, Eq, PartialEq, Ord, PartialOrd, Hash, Debug)]
pub struct LocalAbstract(pub String);

/// A Unix domain socket in the reserved namespace: `localreserved:<name>`.
#[derive(Clone, Eq, PartialEq, Ord, PartialOrd, Hash, Debug)]
pub struct LocalReserved(pub String);

/// A Unix domain socket in the file system: `localfilesystem:<name>`.
#[derive(Clone, Eq, PartialEq, Ord, PartialOrd, Hash, Debug)]
pub struct LocalFileSystem(pub String);

/// A character device: `dev:<name>`.
#[derive(Clone, Eq, PartialEq, Ord, PartialOrd, Hash, Debug)]
pub struct Dev(pub String);

/// A character device opened in raw mode: `dev-raw:<name>`.
#[derive(Clone, Eq, PartialEq, Ord, PartialOrd, Hash, Debug)]
pub struct DevRaw(pub String);

/// A Java Debug Wire Protocol process: `jdwp:<pid>`.
#[derive(Copy, Clone, Eq, PartialEq, Ord, PartialOrd, Hash, Debug)]
pub struct Jdwp(pub u32);

/// A VSOCK address: `vsock:<cid>:<port>`.
#[derive(Copy, Clone, Eq, PartialEq, Ord, PartialOrd, Hash, Debug)]
pub struct Vsock {
    pub cid: u32,
    pub port: u32,
}

/// A file descriptor for a socket: `acceptfd:<fd>`.
#[derive(Copy, Clone, Eq, PartialEq, Ord, PartialOrd, Hash, Debug)]
pub struct AcceptFd(pub u32);

/// The address family of the `adb` command.
#[derive(Clone, Eq, PartialEq, Ord, PartialOrd, Hash, Debug)]
pub enum AdbSocketFamily {
    Tcp(Tcp),
    LocalAbstract(LocalAbstract),
    LocalReserved(LocalReserved),
    LocalFileSystem(LocalFileSystem),
    Dev(Dev),
    DevRaw(DevRaw),
    Jdwp(Jdwp),
    Vsock(Vsock),
    AcceptFd(AcceptFd),
}

/// A TCP socket as plain values.
pub struct TcpModel {
    pub ip: Option<IpModel>,
    pub port: Option<u16>,
}

/// A socket of any family as plain values.
pub enum SocketModel {
    Tcp(TcpModel),
    LocalAbstract(Seq<char>),
    LocalReserved(Seq<char>),
    LocalFileSystem(Seq<char>),
    Dev(Seq<char>),
    DevRaw(Seq<char>),
    Jdwp(u32),
    Vsock { cid: u32, port: u32 },
    AcceptFd(u32),
}

impl TcpModel {
    /// An address or a port is present, and the address is well formed.
    pub open spec fn valid(self) -> bool {
        &&& self.ip is Some || self.port is Some
        &&& self.ip is Some ==> self.ip->0.well_formed()
    }
}

impl SocketModel {
    /// A TCP socket has an address or a port; a name is not empty.
    pub open spec fn valid(self) -> bool {
        match self {
            SocketModel::Tcp(t) => t.valid(),
            SocketModel::LocalAbstract(n) => n.len() > 0,
            SocketModel::LocalReserved(n) => n.len() > 0,
            SocketModel::LocalFileSystem(n) => n.len() > 0,
            SocketModel::Dev(n) => n.len() > 0,
            SocketModel::DevRaw(n) => n.len() > 0,
            _ => true,
        }
    }
}

impl View for Tcp {
    type V = TcpModel;

    open spec fn view(&self) -> TcpModel {
        TcpModel {
            ip: match self.ip {
                Some(a) => Some(a@),
                None => None,
            },
            port: self.port,
        }
    }
}

impl View for LocalAbstract {
    type V = Seq<char>;

    open spec fn view(&self) -> Seq<char> {
        self.0@
    }
}

impl View for LocalReserved {
    type V = Seq<char>;

    open spec fn view(&self) -> Seq<char> {
        self.0@
    }
}

impl View for LocalFileSystem {
    type V = Seq<char>;

    open spec fn view(&self) -> Seq<char> {
        self.0@
    }
}

impl View for Dev {
    type V = Seq<char>;

    open spec fn view(&self) -> Seq<char> {
        self.0@
    }
}

impl View for DevRaw {
    type V = Seq<char>;

    open spec fn view(&self) -> Seq<char> {
        self.0@
    }
}

impl View for Jdwp {
    type V = u32;

    open spec fn view(&self) -> u32 {
        self.0
    }
}

impl View for AcceptFd {
    type V = u32;

    open spec fn view(&self) -> u32 {
        self.0
    }
}

impl View for Vsock {
    type V = (u32, u32);

    open spec fn view(&self) -> (u32, u32) {
        (self.cid, self.port)
    }
}

impl View for AdbSocketFamily {
    type V = SocketModel;

    open spec fn view(&self) -> SocketModel {
        match self {
            AdbSocketFamily::Tcp(t) => SocketModel::Tcp(t@),
            AdbSocketFamily::LocalAbstract(n) => SocketModel::LocalAbstract(n@),
            AdbSocketFamily::LocalReserved(n) => SocketModel::LocalReserved(n@),
            AdbSocketFamily::LocalFileSystem(n) => SocketModel::LocalFileSystem(n@),
            AdbSocketFamily::Dev(n) => SocketModel::Dev(n@),
            AdbSocketFamily::DevRaw(n) => SocketModel::DevRaw(n@),
            AdbSocketFamily::Jdwp(n) => SocketModel::Jdwp(n@),
            AdbSocketFamily::Vsock(v) => SocketModel::Vsock { cid: v.cid, port: v.port },
            AdbSocketFamily::AcceptFd(n) => SocketModel::AcceptFd(n@),
        }
    }
}

/// Whether an outcome of reading is the one that the grammar gives: the same
/// value, or the same failure.
pub open spec fn agrees<T: View>(r: Result<T, AdbError>, m: Result<T::V, Failure>) -> bool {
    match m {
        Ok(v) => r is Ok && r->Ok_0@ == v,
        Err(f) => r is Err && r->Err_0@ == f,
    }
}

/// What follows a tag in a text.
pub enum Tagged {
    /// The text does not start with the tag and a colon.
    Absent,
    /// Nothing follows the colon.
    Empty,
    /// The text after the colon.
    Value(Seq<char>),
}

/// What follows the tag `key` in `s`. The tag is all that stands before the
/// first colon.
pub open spec fn tagged(s: Seq<char>, key: Seq<char>) -> Tagged {
    match split_once(s, ':') {
        Some((k, v)) => if k == key {
            if v.len() == 0 {
                Tagged::Empty
            } else {
                Tagged::Value(v)
            }
        } else {
            Tagged::Absent
        },
        None => Tagged::Absent,
    }
}

/// The text `tcp:`.
pub open spec fn tcp_tag() -> Seq<char> {
    seq!['t', 'c', 'p', ':']
}

/// The text of a TCP socket. An IPv6 address is in square brackets where a
/// port follows it, and without them where it stands alone. The socket with
/// neither address nor port has the empty text.
pub open spec fn tcp_text(t: TcpModel) -> Seq<char> {
    match (t.ip, t.port) {
        (Some(IpModel::V4(o)), Some(p)) => tcp_tag() + ip_text(IpModel::V4(o)) + seq![':']
            + decimal_text(p as nat),
        (Some(IpModel::V6(g)), Some(p)) => tcp_tag() + seq!['['] + ip_text(IpModel::V6(g)) + seq![
            ']',
            ':',
        ] + decimal_text(p as nat),
        (Some(IpModel::V4(o)), None) => tcp_tag() + ip_text(IpModel::V4(o)),
        (Some(IpModel::V6(g)), None) => tcp_tag() + ip_text(IpModel::V6(g)),
        (None, Some(p)) => tcp_tag() + decimal_text(p as nat),
        (None, None) => Seq::empty(),
    }
}

/// What the part after `tcp:` denotes. In this order: a port; an address with
/// a port, where an IPv6 address is in square brackets; an IPv4 address; an
/// IPv6 address; an IPv6 address in square brackets.
pub open spec fn tcp_value_parse(v: Seq<char>) -> Result<TcpModel, Failure> {
    if parse_unsigned(v, 65535) is Some {
        Ok(TcpModel { ip: None, port: Some(parse_unsigned(v, 65535)->0 as u16) })
    } else if socket_addr_parse(v) is Some {
        let address = socket_addr_parse(v)->0;
        Ok(TcpModel { ip: Some(address.0), port: Some(address.1) })
    } else if ipv4_parse(v) is Some {
        Ok(TcpModel { ip: Some(IpModel::V4(ipv4_parse(v)->0)), port: None })
    } else if ipv6_parse(v) is Some {
        Ok(TcpModel { ip: Some(IpModel::V6(ipv6_parse(v)->0)), port: None })
    } else if v.len() >= 2 && v[0] == '[' && v.last() == ']' {
        match ipv6_parse(v.subrange(1, v.len() - 1)) {
            Some(g) => Ok(TcpModel { ip: Some(IpModel::V6(g)), port: None }),
            None => Err(caused(v, "Ipv6Addr"@, ParseSource::Address)),
        }
    } else {
        Err(
            described(
                v,
                "Tcp"@,
                "neither a port nor an address; before a port, an ipv6 address must be enclosed in square brackets"@,
            ),
        )
    }
}

/// What a text denotes as a TCP socket: `tcp:`, then a part that is not empty.
///
/// An IPv6 address needs square brackets only where a port follows it.
/// Alone it is read with or without them: `tcp:::1` and `tcp:[::1]` are the
/// same socket.
///
/// Take care with a port after an IPv6 address: without the brackets the
/// whole text is the address. `tcp:::1:5555` is the address `::1:5555`
/// without a port, and it is no failure; the address `::1` with the port 5555
/// is `tcp:[::1]:5555`.
pub open spec fn tcp_parse(s: Seq<char>) -> Result<TcpModel, Failure> {
    if s.len() > 4 && s.take(4) == tcp_tag() {
        tcp_value_parse(s.skip(4))
    } else {
        Err(
            described(
                s,
                "Tcp"@,
                "incomplete or invalid tcp syntax, expected `tcp:[host:[port]]`"@,
            ),
        )
    }
}

/// What a text denotes as a named socket or device of the family `key`.
pub open spec fn name_parse(
    s: Seq<char>,
    key: Seq<char>,
    target: Seq<char>,
    missing: Seq<char>,
    syntax: Seq<char>,
) -> Result<Seq<char>, Failure> {
    match tagged(s, key) {
        Tagged::Value(v) => Ok(v),
        Tagged::Empty => Err(described(s, target, missing)),
        Tagged::Absent => Err(described(s, target, syntax)),
    }
}

/// What a text denotes as a numbered socket of the family `key`.
pub open spec fn number_parse(
    s: Seq<char>,
    key: Seq<char>,
    target: Seq<char>,
    number: Seq<char>,
    missing: Seq<char>,
    syntax: Seq<char>,
) -> Result<u32, Failure> {
    match tagged(s, key) {
        Tagged::Value(v) => match parse_unsigned(v, 0xffff_ffff) {
            Some(n) => Ok(n as u32),
            None => Err(caused(v, number, ParseSource::Integer)),
        },
        Tagged::Empty => Err(described(s, target, missing)),
        Tagged::Absent => Err(described(s, target, syntax)),
    }
}

/// What a text denotes as a socket in the abstract namespace: `localabstract:`
/// and a name that is not empty.
pub open spec fn local_abstract_parse(s: Seq<char>) -> Result<Seq<char>, Failure> {
    name_parse(
        s,
        "localabstract"@,
        "LocalAbstract"@,
        "missing unix domain socket name (string)"@,
        "invalid syntax, expected `localabstract:<unix domain socket name (string)>`"@,
    )
}

/// What a text denotes as a socket in the reserved namespace: `localreserved:`
/// and a name that is not empty.
pub open spec fn local_reserved_parse(s: Seq<char>) -> Result<Seq<char>, Failure> {
    name_parse(
        s,
        "localreserved"@,
        "LocalReserved"@,
        "missing unix domain socket name (string)"@,
        "invalid syntax, expected `localreserved:<unix domain socket name (string)>`"@,
    )
}

/// What a text denotes as a socket in the file system: `localfilesystem:` and
/// a name that is not empty.
pub open spec fn local_file_system_parse(s: Seq<char>) -> Result<Seq<char>, Failure> {
    name_parse(
        s,
        "localfilesystem"@,
        "LocalFileSystem"@,
        "missing unix domain socket name (string)"@,
        "invalid syntax, expected `localfilesystem:<unix domain socket name (string)>`"@,
    )
}

/// What a text denotes as a character device: `dev:` and a name that is not empty.
pub open spec fn dev_parse(s: Seq<char>) -> Result<Seq<char>, Failure> {
    name_parse(
        s,
        "dev"@,
        "Dev"@,
        "missing character device name (string)"@,
        "invalid syntax, expected `dev:<character device name (string)>`"@,
    )
}

/// What a text denotes as a character device in raw mode: `dev-raw:` and a
/// name that is not empty.
pub open spec fn dev_raw_parse(s: Seq<char>) -> Result<Seq<char>, Failure> {
    name_parse(
        s,
        "dev-raw"@,
        "DevRaw"@,
        "missing character device name (string)"@,
        "invalid syntax, expected `dev-raw:<character device name (string)>`"@,
    )
}

/// What a text denotes as a debuggable process: `jdwp:` and the process id.
pub open spec fn jdwp_parse(s: Seq<char>) -> Result<u32, Failure> {
    number_parse(
        s,
        "jdwp"@,
        "Jdwp"@,
        "process pid (u32)"@,
        "missing process pid (u32)"@,
        "invalid syntax, expected `jdwp:<process pid (u32)>`"@,
    )
}

/// What a text denotes as a socket file descriptor: `acceptfd:` and the
/// descriptor.
pub open spec fn accept_fd_parse(s: Seq<char>) -> Result<u32, Failure> {
    number_parse(
        s,
        "acceptfd"@,
        "AcceptFd"@,
        "fd (u32)"@,
        "missing fd (u32)"@,
        "invalid syntax, expected `acceptfd:<fd (u32)>`"@,
    )
}

/// What a text denotes as a VSOCK address: `vsock:`, the cid, a colon, the port.
pub open spec fn vsock_parse(s: Seq<char>) -> Result<(u32, u32), Failure> {
    match tagged(s, "vsock"@) {
        Tagged::Value(v) => match split_once(v, ':') {
            Some((cid, port)) => match parse_unsigned(cid, 0xffff_ffff) {
                Some(c) => match parse_unsigned(port, 0xffff_ffff) {
                    Some(p) => Ok((c as u32, p as u32)),
                    None => Err(caused(port, "port (u32)"@, ParseSource::Integer)),
                },
                None => Err(caused(cid, "cid (u32)"@, ParseSource::Integer)),
            },
            None => Err(described(v, "Vsock"@, "missing port"@)),
        },
        Tagged::Empty => Err(described(s, "Vsock"@, "missing cid and port"@)),
        Tagged::Absent => Err(
            described(s, "Vsock"@, "invalid syntax, expected `vsock:<cid>:<port>`"@),
        ),
    }
}

/// The text of a socket of any family.
pub open spec fn socket_text(m: SocketModel) -> Seq<char> {
    match m {
        SocketModel::Tcp(t) => tcp_text(t),
        SocketModel::LocalAbstract(n) => "localabstract"@ + seq![':'] + n,
        SocketModel::LocalReserved(n) => "localreserved"@ + seq![':'] + n,
        SocketModel::LocalFileSystem(n) => "localfilesystem"@ + seq![':'] + n,
        SocketModel::Dev(n) => "dev"@ + seq![':'] + n,
        SocketModel::DevRaw(n) => "dev-raw"@ + seq![':'] + n,
        SocketModel::Jdwp(n) => "jdwp"@ + seq![':'] + decimal_text(n as nat),
        SocketModel::Vsock { cid, port } => "vsock"@ + seq![':'] + decimal_text(cid as nat) + seq![
            ':',
        ] + decimal_text(port as nat),
        SocketModel::AcceptFd(n) => "acceptfd"@ + seq![':'] + decimal_text(n as nat),
    }
}

/// What a text denotes as a socket of any family: the first family, in the
/// order of the variants, that reads it.
pub open spec fn socket_parse(s: Seq<char>) -> Result<SocketModel, Failure> {
    if tcp_parse(s) is Ok {
        Ok(SocketModel::Tcp(tcp_parse(s)->Ok_0))
    } else if local_abstract_parse(s) is Ok {
        Ok(SocketModel::LocalAbstract(local_abstract_parse(s)->Ok_0))
    } else if local_reserved_parse(s) is Ok {
        Ok(SocketModel::LocalReserved(local_reserved_parse(s)->Ok_0))
    } else if local_file_system_parse(s) is Ok {
        Ok(SocketModel::LocalFileSystem(local_file_system_parse(s)->Ok_0))
    } else if dev_parse(s) is Ok {
        Ok(SocketModel::Dev(dev_parse(s)->Ok_0))
    } else if dev_raw_parse(s) is Ok {
        Ok(SocketModel::DevRaw(dev_raw_parse(s)->Ok_0))
    } else if jdwp_parse(s) is Ok {
        Ok(SocketModel::Jdwp(jdwp_parse(s)->Ok_0))
    } else if vsock_parse(s) is Ok {
        let pair = vsock_parse(s)->Ok_0;
        Ok(SocketModel::Vsock { cid: pair.0, port: pair.1 })
    } else if accept_fd_parse(s) is Ok {
        Ok(SocketModel::AcceptFd(accept_fd_parse(s)->Ok_0))
    } else {
        Err(described(s, "AdbSocketFamily"@, "invalid syntax"@))
    }
}


/// Where the part after the tag `key` starts in `s`, if `s` starts with the
/// tag and a colon.
fn after_tag(s: &[char], key: &str) -> (r: Option<usize>)
    ensures
        match tagged(s@, key@) {
            Tagged::Absent => r is None,
            Tagged::Empty => r == Some(s.len()),
            Tagged::Value(v) => r is Some && r->0 < s.len() && v == s@.skip(r->0 as int),
        },
{
    let colon = find_char(s, ':');
    if colon < s.len() {
        let k = slice_subrange(s, 0, colon);
        assert(k@ =~= s@.take(colon as int));
        if is_text(k, key) {
            Some(colon + 1)
        } else {
            None
        }
    } else {
        None
    }
}

/// Reads a named socket or device of the family `key`.
fn read_name(
    s: &[char],
    key: &'static str,
    target: &'static str,
    missing: &'static str,
    syntax: &'static str,
) -> (r: Result<String, AdbError>)
    ensures
        agrees(r, name_parse(s@, key@, target@, missing@, syntax@)),
{
    match after_tag(s, key) {
        Some(at) => {
            if at < s.len() {
                let v = slice_subrange(s, at, s.len());
                assert(v@ =~= s@.skip(at as int));
                Ok(string_of(v))
            } else {
                Err(AdbError::invalid(s, target, missing))
            }
        },
        None => Err(AdbError::invalid(s, target, syntax)),
    }
}

/// Reads a numbered socket of the family `key`.
fn read_number(
    s: &[char],
    key: &'static str,
    target: &'static str,
    number: &'static str,
    missing: &'static str,
    syntax: &'static str,
) -> (r: Result<u32, AdbError>)
    ensures
        agrees(r, number_parse(s@, key@, target@, number@, missing@, syntax@)),
{
    match after_tag(s, key) {
        Some(at) => {
            if at < s.len() {
                let v = slice_subrange(s, at, s.len());
                assert(v@ =~= s@.skip(at as int));
                match read_unsigned(v, 0xffff_ffff) {
                    Some(n) => Ok(n),
                    None => Err(AdbError::caused_by(v, number, ParseSource::Integer)),
                }
            } else {
                Err(AdbError::invalid(s, target, missing))
            }
        },
        None => Err(AdbError::invalid(s, target, syntax)),
    }
}

/// The text of a named socket or device: the tag, a colon, the name.
fn write_name(key: &str, name: &str) -> (r: String)
    ensures
        r@ == key@ + seq![':'] + name@,
{
    let mut out: Vec<char> = Vec::new();
    push_text(&mut out, key);
    out.push(':');
    push_text(&mut out, name);
    assert(out@ =~= key@ + seq![':'] + name@);
    string_of(out.as_slice())
}

/// The text of a numbered socket: the tag, a colon, the number.
fn write_number(key: &str, n: u32) -> (r: String)
    ensures
        r@ == key@ + seq![':'] + decimal_text(n as nat),
{
    let mut out: Vec<char> = Vec::new();
    push_text(&mut out, key);
    out.push(':');
    push_decimal(&mut out, n);
    assert(out@ =~= key@ + seq![':'] + decimal_text(n as nat));
    string_of(out.as_slice())
}

impl Tcp {
    /// Creates a new `Tcp` socket with the given IP address and port number.
    pub fn new(host: IpAddr, port: u16) -> (r: Self)
        ensures
            r@ == (TcpModel { ip: Some(host@), port: Some(port) }),
    {
        Self { ip: Some(host), port: Some(port) }
    }

    /// Creates a new `Tcp` socket with the given IP address.
    pub fn with_ip(host: IpAddr) -> (r: Self)
        ensures
            r@ == (TcpModel { ip: Some(host@), port: None }),
    {
        Self { ip: Some(host), port: None }
    }

    /// Creates a new `Tcp` socket with the given IPv4 address.
    pub fn with_ipv4(host: Ipv4Addr) -> (r: Self)
        ensures
            r@ == (TcpModel { ip: Some(IpModel::V4(host@)), port: None }),
    {
        Self { ip: Some(IpAddr::V4(host)), port: None }
    }

    /// Creates a new `Tcp` socket with the given IPv6 address.
    pub fn with_ipv6(host: Ipv6Addr) -> (r: Self)
        ensures
            r@ == (TcpModel { ip: Some(IpModel::V6(host@)), port: None }),
    {
        Self { ip: Some(IpAddr::V6(host)), port: None }
    }

    /// Creates a new `Tcp` socket with the given port number.
    pub fn with_port(port: u16) -> (r: Self)
        ensures
            r@ == (TcpModel { ip: None, port: Some(port) }),
    {
        Self { ip: None, port: Some(port) }
    }

    /// Appends the text of the socket to `out`.
    pub fn push_text(&self, out: &mut Vec<char>)
        ensures
            final(out)@ == old(out)@ + tcp_text(self@),
    {
        proof {
            reveal_strlit("tcp:");
            assert("tcp:"@ =~= tcp_tag());
        }
        match (self.ip, self.port) {
            (Some(IpAddr::V4(a)), Some(port)) => {
                push_text(out, "tcp:");
                a.push_text(out);
                out.push(':');
                push_decimal(out, port as u32);
                assert(out@ =~= old(out)@ + tcp_text(self@));
            },
            (Some(IpAddr::V6(a)), Some(port)) => {
                push_text(out, "tcp:");
                out.push('[');
                a.push_text(out);
                out.push(']');
                out.push(':');
                push_decimal(out, port as u32);
                assert(out@ =~= old(out)@ + tcp_text(self@));
            },
            (Some(IpAddr::V4(a)), None) => {
                push_text(out, "tcp:");
                a.push_text(out);
                assert(out@ =~= old(out)@ + tcp_text(self@));
            },
            (Some(IpAddr::V6(a)), None) => {
                push_text(out, "tcp:");
                a.push_text(out);
                assert(out@ =~= old(out)@ + tcp_text(self@));
            },
            (None, Some(port)) => {
                push_text(out, "tcp:");
                push_decimal(out, port as u32);
                assert(out@ =~= old(out)@ + tcp_text(self@));
            },
            (None, None) => {
                assert(out@ =~= old(out)@ + tcp_text(self@));
            },
        }
    }

    /// The text of the socket.
    pub fn to_string(&self) -> (r: String)
        ensures
            r@ == tcp_text(self@),
    {
        let mut out: Vec<char> = Vec::new();
        self.push_text(&mut out);
        assert(out@ =~= tcp_text(self@));
        string_of(out.as_slice())
    }

    /// Reads the part after `tcp:`.
    fn parse_value(v: &[char]) -> (r: Result<Self, AdbError>)
        ensures
            agrees(r, tcp_value_parse(v@)),
    {
        if let Some(port) = read_unsigned(v, 65535) {
            return Ok(Tcp { ip: None, port: Some(port as u16) });
        }
        if let Some(address) = SocketAddr::parse(v) {
            return Ok(Tcp { ip: Some(address.ip), port: Some(address.port) });
        }
        if let Some(a) = Ipv4Addr::parse(v) {
            return Ok(Tcp { ip: Some(IpAddr::V4(a)), port: None });
        }
        if let Some(a) = Ipv6Addr::parse(v) {
            return Ok(Tcp { ip: Some(IpAddr::V6(a)), port: None });
        }
        if v.len() >= 2 && v[0] == '[' && v[v.len() - 1] == ']' {
            let inner = slice_subrange(v, 1, v.len() - 1);
            match Ipv6Addr::parse(inner) {
                Some(a) => Ok(Tcp { ip: Some(IpAddr::V6(a)), port: None }),
                None => Err(AdbError::caused_by(v, "Ipv6Addr", ParseSource::Address)),
            }
        } else {
            Err(
                AdbError::invalid(
                    v,
                    "Tcp",
                    "neither a port nor an address; before a port, an ipv6 address must be enclosed in square brackets",
                ),
            )
        }
    }

    /// Reads a socket from its text, without resolving any name.
    pub fn parse(s: &[char]) -> (r: Result<Self, AdbError>)
        ensures
            agrees(r, tcp_parse(s@)),
    {
        if s.len() > 4 && is_text(slice_subrange(s, 0, 4), "tcp:") {
            proof {
                reveal_strlit("tcp:");
                assert("tcp:"@ =~= tcp_tag());
                assert(s@.take(4) =~= s@.subrange(0, 4));
            }
            let v = slice_subrange(s, 4, s.len());
            assert(v@ =~= s@.skip(4));
            Tcp::parse_value(v)
        } else {
            proof {
                reveal_strlit("tcp:");
                assert("tcp:"@ =~= tcp_tag());
                if s.len() > 4 {
                    assert(s@.take(4) =~= s@.subrange(0, 4));
                }
            }
            Err(
                AdbError::invalid(
                    s,
                    "Tcp",
                    "incomplete or invalid tcp syntax, expected `tcp:[host:[port]]`",
                ),
            )
        }
    }

    /// Reads a socket from a string, without resolving any name.
    pub fn from_str(s: &str) -> (r: Result<Self, AdbError>)
        ensures
            agrees(r, tcp_parse(s@)),
    {
        let v = chars_of(s);
        Tcp::parse(v.as_slice())
    }
}

impl LocalAbstract {
    /// Reads a socket from its text.
    pub fn parse(s: &[char]) -> (r: Result<Self, AdbError>)
        ensures
            agrees(r, local_abstract_parse(s@)),
    {
        match read_name(
            s,
            "localabstract",
            "LocalAbstract",
            "missing unix domain socket name (string)",
            "invalid syntax, expected `localabstract:<unix domain socket name (string)>`",
        ) {
            Ok(n) => Ok(LocalAbstract(n)),
            Err(e) => Err(e),
        }
    }

    /// Reads a socket from a string.
    pub fn from_str(s: &str) -> (r: Result<Self, AdbError>)
        ensures
            agrees(r, local_abstract_parse(s@)),
    {
        let v = chars_of(s);
        LocalAbstract::parse(v.as_slice())
    }

    /// The text of the socket.
    pub fn to_string(&self) -> (r: String)
        ensures
            r@ == socket_text(SocketModel::LocalAbstract(self@)),
    {
        write_name("localabstract", self.0.as_str())
    }
}

impl LocalReserved {
    /// Reads a socket from its text.
    pub fn parse(s: &[char]) -> (r: Result<Self, AdbError>)
        ensures
            agrees(r, local_reserved_parse(s@)),
    {
        match read_name(
            s,
            "localreserved",
            "LocalReserved",
            "missing unix domain socket name (string)",
            "invalid syntax, expected `localreserved:<unix domain socket name (string)>`",
        ) {
            Ok(n) => Ok(LocalReserved(n)),
            Err(e) => Err(e),
        }
    }

    /// Reads a socket from a string.
    pub fn from_str(s: &str) -> (r: Result<Self, AdbError>)
        ensures
            agrees(r, local_reserved_parse(s@)),
    {
        let v = chars_of(s);
        LocalReserved::parse(v.as_slice())
    }

    /// The text of the socket.
    pub fn to_string(&self) -> (r: String)
        ensures
            r@ == socket_text(SocketModel::LocalReserved(self@)),
    {
        write_name("localreserved", self.0.as_str())
    }
}

impl LocalFileSystem {
    /// Reads a socket from its text.
    pub fn parse(s: &[char]) -> (r: Result<Self, AdbError>)
        ensures
            agrees(r, local_file_system_parse(s@)),
    {
        match read_name(
            s,
            "localfilesystem",
            "LocalFileSystem",
            "missing unix domain socket name (string)",
            "invalid syntax, expected `localfilesystem:<unix domain socket name (string)>`",
        ) {
            Ok(n) => Ok(LocalFileSystem(n)),
            Err(e) => Err(e),
        }
    }

    /// Reads a socket from a string.
    pub fn from_str(s: &str) -> (r: Result<Self, AdbError>)
        ensures
            agrees(r, local_file_system_parse(s@)),
    {
        let v = chars_of(s);
        LocalFileSystem::parse(v.as_slice())
    }

    /// The text of the socket.
    pub fn to_string(&self) -> (r: String)
        ensures
            r@ == socket_text(SocketModel::LocalFileSystem(self@)),
    {
        write_name("localfilesystem", self.0.as_str())
    }
}

impl Dev {
    /// Reads a device from its text.
    pub fn parse(s: &[char]) -> (r: Result<Self, AdbError>)
        ensures
            agrees(r, dev_parse(s@)),
    {
        match read_name(
            s,
            "dev",
            "Dev",
            "missing character device name (string)",
            "invalid syntax, expected `dev:<character device name (string)>`",
        ) {
            Ok(n) => Ok(Dev(n)),
            Err(e) => Err(e),
        }
    }

    /// Reads a device from a string.
    pub fn from_str(s: &str) -> (r: Result<Self, AdbError>)
        ensures
            agrees(r, dev_parse(s@)),
    {
        let v = chars_of(s);
        Dev::parse(v.as_slice())
    }

    /// The text of the device.
    pub fn to_string(&self) -> (r: String)
        ensures
            r@ == socket_text(SocketModel::Dev(self@)),
    {
        write_name("dev", self.0.as_str())
    }
}

impl DevRaw {
    /// Reads a device from its text.
    pub fn parse(s: &[char]) -> (r: Result<Self, AdbError>)
        ensures
            agrees(r, dev_raw_parse(s@)),
    {
        match read_name(
            s,
            "dev-raw",
            "DevRaw",
            "missing character device name (string)",
            "invalid syntax, expected `dev-raw:<character device name (string)>`",
        ) {
            Ok(n) => Ok(DevRaw(n)),
            Err(e) => Err(e),
        }
    }

    /// Reads a device from a string.
    pub fn from_str(s: &str) -> (r: Result<Self, AdbError>)
        ensures
            agrees(r, dev_raw_parse(s@)),
    {
        let v = chars_of(s);
        DevRaw::parse(v.as_slice())
    }

    /// The text of the device.
    pub fn to_string(&self) -> (r: String)
        ensures
            r@ == socket_text(SocketModel::DevRaw(self@)),
    {
        write_name("dev-raw", self.0.as_str())
    }
}

impl Jdwp {
    /// Reads a process from its text.
    pub fn parse(s: &[char]) -> (r: Result<Self, AdbError>)
        ensures
            agrees(r, jdwp_parse(s@)),
    {
        match read_number(
            s,
            "jdwp",
            "Jdwp",
            "process pid (u32)",
            "missing process pid (u32)",
            "invalid syntax, expected `jdwp:<process pid (u32)>`",
        ) {
            Ok(n) => Ok(Jdwp(n)),
            Err(e) => Err(e),
        }
    }

    /// Reads a process from a string.
    pub fn from_str(s: &str) -> (r: Result<Self, AdbError>)
        ensures
            agrees(r, jdwp_parse(s@)),
    {
        let v = chars_of(s);
        Jdwp::parse(v.as_slice())
    }

    /// The text of the process.
    pub fn to_string(&self) -> (r: String)
        ensures
            r@ == socket_text(SocketModel::Jdwp(self@)),
    {
        write_number("jdwp", self.0)
    }
}

impl AcceptFd {
    /// Reads a file descriptor from its text.
    pub fn parse(s: &[char]) -> (r: Result<Self, AdbError>)
        ensures
            agrees(r, accept_fd_parse(s@)),
    {
        match read_number(
            s,
            "acceptfd",
            "AcceptFd",
            "fd (u32)",
            "missing fd (u32)",
            "invalid syntax, expected `acceptfd:<fd (u32)>`",
        ) {
            Ok(n) => Ok(AcceptFd(n)),
            Err(e) => Err(e),
        }
    }

    /// Reads a file descriptor from a string.
    pub fn from_str(s: &str) -> (r: Result<Self, AdbError>)
        ensures
            agrees(r, accept_fd_parse(s@)),
    {
        let v = chars_of(s);
        AcceptFd::parse(v.as_slice())
    }

    /// The text of the file descriptor.
    pub fn to_string(&self) -> (r: String)
        ensures
            r@ == socket_text(SocketModel::AcceptFd(self@)),
    {
        write_number("acceptfd", self.0)
    }
}

impl Vsock {
    /// Reads an address from its text.
    pub fn parse(s: &[char]) -> (r: Result<Self, AdbError>)
        ensures
            agrees(r, vsock_parse(s@)),
    {
        match after_tag(s, "vsock") {
            Some(at) => {
                if at < s.len() {
                    let v = slice_subrange(s, at, s.len());
                    assert(v@ =~= s@.skip(at as int));
                    let colon = find_char(v, ':');
                    if colon < v.len() {
                        let cid = slice_subrange(v, 0, colon);
                        let port = slice_subrange(v, colon + 1, v.len());
                        assert(cid@ =~= v@.take(colon as int));
                        assert(port@ =~= v@.skip(colon + 1));
                        match read_unsigned(cid, 0xffff_ffff) {
                            Some(c) => match read_unsigned(port, 0xffff_ffff) {
                                Some(p) => Ok(Vsock { cid: c, port: p }),
                                None => Err(
                                    AdbError::caused_by(port, "port (u32)", ParseSource::Integer),
                                ),
                            },
                            None => Err(
                                AdbError::caused_by(cid, "cid (u32)", ParseSource::Integer),
                            ),
                        }
                    } else {
                        Err(AdbError::invalid(v, "Vsock", "missing port"))
                    }
                } else {
                    Err(AdbError::invalid(s, "Vsock", "missing cid and port"))
                }
            },
            None => Err(
                AdbError::invalid(s, "Vsock", "invalid syntax, expected `vsock:<cid>:<port>`"),
            ),
        }
    }

    /// Reads an address from a string.
    pub fn from_str(s: &str) -> (r: Result<Self, AdbError>)
        ensures
            agrees(r, vsock_parse(s@)),
    {
        let v = chars_of(s);
        Vsock::parse(v.as_slice())
    }

    /// The text of the address.
    pub fn to_string(&self) -> (r: String)
        ensures
            r@ == socket_text(SocketModel::Vsock { cid: self.cid, port: self.port }),
    {
        let mut out: Vec<char> = Vec::new();
        push_text(&mut out, "vsock");
        out.push(':');
        push_decimal(&mut out, self.cid);
        out.push(':');
        push_decimal(&mut out, self.port);
        assert(out@ =~= socket_text(SocketModel::Vsock { cid: self.cid, port: self.port }));
        string_of(out.as_slice())
    }
}

impl AdbSocketFamily {
    /// Reads a socket of any family from its text.
    pub fn parse(s: &[char]) -> (r: Result<Self, AdbError>)
        ensures
            agrees(r, socket_parse(s@)),
    {
        if let Ok(v) = Tcp::parse(s) {
            return Ok(AdbSocketFamily::Tcp(v));
        }
        if let Ok(v) = LocalAbstract::parse(s) {
            return Ok(AdbSocketFamily::LocalAbstract(v));
        }
        if let Ok(v) = LocalReserved::parse(s) {
            return Ok(AdbSocketFamily::LocalReserved(v));
        }
        if let Ok(v) = LocalFileSystem::parse(s) {
            return Ok(AdbSocketFamily::LocalFileSystem(v));
        }
        if let Ok(v) = Dev::parse(s) {
            return Ok(AdbSocketFamily::Dev(v));
        }
        if let Ok(v) = DevRaw::parse(s) {
            return Ok(AdbSocketFamily::DevRaw(v));
        }
        if let Ok(v) = Jdwp::parse(s) {
            return Ok(AdbSocketFamily::Jdwp(v));
        }
        if let Ok(v) = Vsock::parse(s) {
            return Ok(AdbSocketFamily::Vsock(v));
        }
        if let Ok(v) = AcceptFd::parse(s) {
            return Ok(AdbSocketFamily::AcceptFd(v));
        }
        Err(AdbError::invalid(s, "AdbSocketFamily", "invalid syntax"))
    }

    /// Reads a socket of any family from a string.
    pub fn from_str(s: &str) -> (r: Result<Self, AdbError>)
        ensures
            agrees(r, socket_parse(s@)),
    {
        let v = chars_of(s);
        AdbSocketFamily::parse(v.as_slice())
    }

    /// The text of the socket.
    pub fn to_string(&self) -> (r: String)
        ensures
            r@ == socket_text(self@),
    {
        match self {
            AdbSocketFamily::Tcp(inner) => inner.to_string(),
            AdbSocketFamily::LocalAbstract(inner) => inner.to_string(),
            AdbSocketFamily::LocalReserved(inner) => inner.to_string(),
            AdbSocketFamily::LocalFileSystem(inner) => inner.to_string(),
            AdbSocketFamily::Dev(inner) => inner.to_string(),
            AdbSocketFamily::DevRaw(inner) => inner.to_string(),
            AdbSocketFamily::Jdwp(inner) => inner.to_string(),
            AdbSocketFamily::Vsock(inner) => inner.to_string(),
            AdbSocketFamily::AcceptFd(inner) => inner.to_string(),
        }
    }
}

impl From<SocketAddr> for Tcp {
    /// The socket with the address and the port of `v`.
    fn from(v: SocketAddr) -> (r: Self) {
        Tcp { ip: Some(v.ip), port: Some(v.port) }
    }
}

impl vstd::std_specs::convert::FromSpecImpl<SocketAddr> for Tcp {
    open spec fn obeys_from_spec() -> bool {
        true
    }

    open spec fn from_spec(v: SocketAddr) -> Self {
        Tcp { ip: Some(v.ip), port: Some(v.port) }
    }
}

impl From<IpAddr> for Tcp {
    /// The socket with the address `v` and no port.
    fn from(v: IpAddr) -> (r: Self) {
        Tcp { ip: Some(v), port: None }
    }
}

impl vstd::std_specs::convert::FromSpecImpl<IpAddr> for Tcp {
    open spec fn obeys_from_spec() -> bool {
        true
    }

    open spec fn from_spec(v: IpAddr) -> Self {
        Tcp { ip: Some(v), port: None }
    }
}

impl From<Ipv4Addr> for Tcp {
    /// The socket with the IPv4 address `v` and no port.
    fn from(v: Ipv4Addr) -> (r: Self) {
        Tcp { ip: Some(IpAddr::V4(v)), port: None }
    }
}

impl vstd::std_specs::convert::FromSpecImpl<Ipv4Addr> for Tcp {
    open spec fn obeys_from_spec() -> bool {
        true
    }

    open spec fn from_spec(v: Ipv4Addr) -> Self {
        Tcp { ip: Some(IpAddr::V4(v)), port: None }
    }
}

impl From<Ipv6Addr> for Tcp {
    /// The socket with the IPv6 address `v` and no port.
    fn from(v: Ipv6Addr) -> (r: Self) {
        Tcp { ip: Some(IpAddr::V6(v)), port: None }
    }
}

impl vstd::std_specs::convert::FromSpecImpl<Ipv6Addr> for Tcp {
    open spec fn obeys_from_spec() -> bool {
        true
    }

    open spec fn from_spec(v: Ipv6Addr) -> Self {
        Tcp { ip: Some(IpAddr::V6(v)), port: None }
    }
}

impl From<u16> for Tcp {
    /// The socket with the port `v` and no address.
    fn from(v: u16) -> (r: Self) {
        Tcp { ip: None, port: Some(v) }
    }
}

impl vstd::std_specs::convert::FromSpecImpl<u16> for Tcp {
    open spec fn obeys_from_spec() -> bool {
        true
    }

    open spec fn from_spec(v: u16) -> Self {
        Tcp { ip: None, port: Some(v) }
    }
}

impl From<Tcp> for AdbSocketFamily {
    /// The socket as one of any family.
    fn from(v: Tcp) -> (r: Self) {
        AdbSocketFamily::Tcp(v)
    }
}

impl vstd::std_specs::convert::FromSpecImpl<Tcp> for AdbSocketFamily {
    open spec fn obeys_from_spec() -> bool {
        true
    }

    open spec fn from_spec(v: Tcp) -> Self {
        AdbSocketFamily::Tcp(v)
    }
}

impl From<LocalAbstract> for AdbSocketFamily {
    /// The socket as one of any family.
    fn from(v: LocalAbstract) -> (r: Self) {
        AdbSocketFamily::LocalAbstract(v)
    }
}

impl vstd::std_specs::convert::FromSpecImpl<LocalAbstract> for AdbSocketFamily {
    open spec fn obeys_from_spec() -> bool {
        true
    }

    open spec fn from_spec(v: LocalAbstract) -> Self {
        AdbSocketFamily::LocalAbstract(v)
    }
}

impl From<LocalReserved> for AdbSocketFamily {
    /// The socket as one of any family.
    fn from(v: LocalReserved) -> (r: Self) {
        AdbSocketFamily::LocalReserved(v)
    }
}

impl vstd::std_specs::convert::FromSpecImpl<LocalReserved> for AdbSocketFamily {
    open spec fn obeys_from_spec() -> bool {
        true
    }

    open spec fn from_spec(v: LocalReserved) -> Self {
        AdbSocketFamily::LocalReserved(v)
    }
}

impl From<LocalFileSystem> for AdbSocketFamily {
    /// The socket as one of any family.
    fn from(v: LocalFileSystem) -> (r: Self) {
        AdbSocketFamily::LocalFileSystem(v)
    }
}

impl vstd::std_specs::convert::FromSpecImpl<LocalFileSystem> for AdbSocketFamily {
    open spec fn obeys_from_spec() -> bool {
        true
    }

    open spec fn from_spec(v: LocalFileSystem) -> Self {
        AdbSocketFamily::LocalFileSystem(v)
    }
}

impl From<Dev> for AdbSocketFamily {
    /// The socket as one of any family.
    fn from(v: Dev) -> (r: Self) {
        AdbSocketFamily::Dev(v)
    }
}

impl vstd::std_specs::convert::FromSpecImpl<Dev> for AdbSocketFamily {
    open spec fn obeys_from_spec() -> bool {
        true
    }

    open spec fn from_spec(v: Dev) -> Self {
        AdbSocketFamily::Dev(v)
    }
}

impl From<DevRaw> for AdbSocketFamily {
    /// The socket as one of any family.
    fn from(v: DevRaw) -> (r: Self) {
        AdbSocketFamily::DevRaw(v)
    }
}

impl vstd::std_specs::convert::FromSpecImpl<DevRaw> for AdbSocketFamily {
    open spec fn obeys_from_spec() -> bool {
        true
    }

    open spec fn from_spec(v: DevRaw) -> Self {
        AdbSocketFamily::DevRaw(v)
    }
}

impl From<Jdwp> for AdbSocketFamily {
    /// The socket as one of any family.
    fn from(v: Jdwp) -> (r: Self) {
        AdbSocketFamily::Jdwp(v)
    }
}

impl vstd::std_specs::convert::FromSpecImpl<Jdwp> for AdbSocketFamily {
    open spec fn obeys_from_spec() -> bool {
        true
    }

    open spec fn from_spec(v: Jdwp) -> Self {
        AdbSocketFamily::Jdwp(v)
    }
}

impl From<Vsock> for AdbSocketFamily {
    /// The socket as one of any family.
    fn from(v: Vsock) -> (r: Self) {
        AdbSocketFamily::Vsock(v)
    }
}

impl vstd::std_specs::convert::FromSpecImpl<Vsock> for AdbSocketFamily {
    open spec fn obeys_from_spec() -> bool {
        true
    }

    open spec fn from_spec(v: Vsock) -> Self {
        AdbSocketFamily::Vsock(v)
    }
}

impl From<AcceptFd> for AdbSocketFamily {
    /// The socket as one of any family.
    fn from(v: AcceptFd) -> (r: Self) {
        AdbSocketFamily::AcceptFd(v)
    }
}

impl vstd::std_specs::convert::FromSpecImpl<AcceptFd> for AdbSocketFamily {
    open spec fn obeys_from_spec() -> bool {
        true
    }

    open spec fn from_spec(v: AcceptFd) -> Self {
        AdbSocketFamily::AcceptFd(v)
    }
}

} // verus!
