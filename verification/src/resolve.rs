//! Reading a TCP socket or a global option whose host may be a name.
//!
//! Looking a name up blocks and depends on the network, so it is not done
//! here. A function of this module is given the answers of the lookups made
//! so far and returns the next step: the question to ask, or the outcome.
//! The caller asks, adds the answer to the list, and calls the function again.
//! No more than two questions are ever asked for one text.

use vstd::prelude::*;
use vstd::slice::slice_subrange;
use crate::command::{with_option, AdbCommandBuilder};
use crate::error::{caused, described, of_kind, AdbError, Failure, ParseErrorKind, ParseSource};
use crate::global_option::{
    flag_of, plain_option, trimmed_option_parse, value_of, AdbGlobalOption, OptionModel,
};
use crate::ip::{IpModel, SocketAddr};
use crate::scan::{find_space, first_space, trim, trimmed};
use crate::socket::{tcp_parse, tcp_tag, Tcp, TcpModel};
use crate::text::{chars_of, is_text, push_chars, push_text, string_of};
use crate::Adb;

verus! {

/// The answer of a name resolver to one question.
#[derive(Debug, Clone, PartialEq, Eq)]
pub enum Lookup {
    /// The resolver failed.
    Failed,
    /// The addresses that the resolver found, in its order. There may be none.
    Found(Vec<SocketAddr>),
}

/// An answer as plain values.
pub enum LookupModel {
    Failed,
    Found(Seq<(IpModel, u16)>),
}

/// The addresses as plain values.
pub open spec fn address_models(v: Seq<SocketAddr>) -> Seq<(IpModel, u16)> {
    Seq::new(v.len(), |i: int| v[i]@)
}

impl View for Lookup {
    type V = LookupModel;

    open spec fn view(&self) -> LookupModel {
        match self {
            Lookup::Failed => LookupModel::Failed,
            Lookup::Found(v) => LookupModel::Found(address_models(v@)),
        }
    }
}

/// The answers as plain values.
pub open spec fn lookup_models(v: Seq<Lookup>) -> Seq<LookupModel> {
    Seq::new(v.len(), |i: int| v[i]@)
}

/// The next step of a reading that may need a name looked up.
#[derive(Debug, PartialEq, Eq)]
pub enum Step<T> {
    /// The name to look up next, with its port.
    Ask(String),
    /// The reading is over.
    Done(Result<T, AdbError>),
}

/// A step as plain values.
pub enum StepModel<V> {
    Ask(Seq<char>),
    Done(Result<V, Failure>),
}

impl<T: View> View for Step<T> {
    type V = StepModel<T::V>;

    open spec fn view(&self) -> StepModel<T::V> {
        match self {
            Step::Ask(q) => StepModel::Ask(q@),
            Step::Done(Ok(v)) => StepModel::Done(Ok(v@)),
            Step::Done(Err(e)) => StepModel::Done(Err(e@)),
        }
    }
}

/// The index of the first IPv4 address among `a`, or `a.len()` when there is none.
pub open spec fn first_ipv4(a: Seq<(IpModel, u16)>) -> int
    decreases a.len(),
{
    if a.len() == 0 || a[0].0 is V4 {
        0
    } else {
        1 + first_ipv4(a.skip(1))
    }
}

/// The address to use among those that a resolver found: the first IPv4
/// address if there is one, else the first address.
pub open spec fn preferred(a: Seq<(IpModel, u16)>) -> Option<(IpModel, u16)> {
    if a.len() == 0 {
        None
    } else if first_ipv4(a) < a.len() {
        Some(a[first_ipv4(a)])
    } else {
        Some(a[0])
    }
}

/// What `first_ipv4` returns.
pub proof fn lemma_first_ipv4(a: Seq<(IpModel, u16)>)
    ensures
        0 <= first_ipv4(a) <= a.len(),
        forall|j: int| 0 <= j < first_ipv4(a) ==> !(a[j].0 is V4),
        first_ipv4(a) < a.len() ==> a[first_ipv4(a)].0 is V4,
    decreases a.len(),
{
    if a.len() == 0 || a[0].0 is V4 {
    } else {
        let t = a.skip(1);
        lemma_first_ipv4(t);
        assert forall|j: int| 0 <= j < first_ipv4(a) implies !(a[j].0 is V4) by {
            if j > 0 {
                assert(a[j] == t[j - 1]);
            }
        }
    }
}

/// An index with the defining property of `first_ipv4` is `first_ipv4`.
pub proof fn lemma_first_ipv4_is(a: Seq<(IpModel, u16)>, i: int)
    requires
        0 <= i <= a.len(),
        forall|j: int| 0 <= j < i ==> !(a[j].0 is V4),
        i < a.len() ==> a[i].0 is V4,
    ensures
        first_ipv4(a) == i,
{
    lemma_first_ipv4(a);
    let f = first_ipv4(a);
    if f < i {
        assert(a[f].0 is V4);
    } else if i < f {
        assert(a[i].0 is V4);
    }
}

/// The failure of a lookup that the resolver could not make.
pub open spec fn lookup_failed(query: Seq<char>) -> Failure {
    of_kind(caused(query, "SocketAddr"@, ParseSource::Resolver), ParseErrorKind::ResolutionFailed)
}

/// The failure of a lookup that found no address.
pub open spec fn nothing_found(query: Seq<char>) -> Failure {
    of_kind(
        described(query, "SocketAddr"@, "no socket addresses found"@),
        ParseErrorKind::ResolutionFailed,
    )
}

/// The socket that an answer gives for a question: the preferred address
/// with its port.
pub open spec fn resolved(query: Seq<char>, answer: LookupModel) -> Result<TcpModel, Failure> {
    match answer {
        LookupModel::Failed => Err(lookup_failed(query)),
        LookupModel::Found(a) => match preferred(a) {
            Some(address) => Ok(TcpModel { ip: Some(address.0), port: Some(address.1) }),
            None => Err(nothing_found(query)),
        },
    }
}

/// The name in a text: the text without `tcp:` in front, if it has that.
pub open spec fn host_name(host: Seq<char>) -> Seq<char> {
    if host.len() >= 4 && host.take(4) == tcp_tag() {
        host.skip(4)
    } else {
        host
    }
}

/// The second question for a name: the name with the port 0, for a name that
/// came without a port.
pub open spec fn with_port_zero(name: Seq<char>) -> Seq<char> {
    name + seq![':', '0']
}

/// The next step of reading `host` as a TCP socket, given the answers so far.
///
/// A text that the grammar of TCP sockets reads needs no lookup. Any other
/// text is looked up as it is, without `tcp:` in front. If that gives a
/// socket, it is the outcome. If not, the text is looked up once more with
/// the port 0: the address found then is the outcome, without a port. If the
/// second lookup fails too, the outcome is the failure of the first.
pub open spec fn host_step(host: Seq<char>, answers: Seq<LookupModel>) -> StepModel<TcpModel> {
    let name = host_name(host);
    if tcp_parse(host) is Ok {
        StepModel::Done(Ok(tcp_parse(host)->Ok_0))
    } else if answers.len() == 0 {
        StepModel::Ask(name)
    } else {
        match resolved(name, answers[0]) {
            Ok(t) => StepModel::Done(Ok(t)),
            Err(first) => if answers.len() == 1 {
                StepModel::Ask(with_port_zero(name))
            } else {
                match resolved(with_port_zero(name), answers[1]) {
                    Ok(t) => StepModel::Done(Ok(TcpModel { ip: t.ip, port: None })),
                    Err(_) => StepModel::Done(Err(first)),
                }
            },
        }
    }
}

/// Whether a failure is one of resolution.
pub open spec fn is_resolution_failure(f: Failure) -> bool {
    f matches Failure::Parse(p) && p.kind == ParseErrorKind::ResolutionFailed
}

/// A text that is no TCP socket never ends in a failure of format: where the
/// reading is over and failed, it failed at resolution. And within two
/// answers the reading is over.
pub proof fn lemma_unresolved_is_resolution_failure(host: Seq<char>, answers: Seq<LookupModel>)
    requires
        tcp_parse(host) is Err,
    ensures
        forall|f: Failure|
            host_step(host, answers) == StepModel::<TcpModel>::Done(Err(f))
                ==> is_resolution_failure(f),
        answers.len() >= 2 ==> host_step(host, answers) is Done,
        answers.len() >= 1 && resolved(host_name(host), answers[0]) is Ok ==> host_step(
            host,
            answers,
        ) == StepModel::Done(resolved(host_name(host), answers[0])),
{
}

/// The failure for a value of `-H` that gives a port and no address.
pub open spec fn missing_ip(value: Seq<char>) -> Failure {
    of_kind(described(value, "IpAddr"@, "missing ip"@), ParseErrorKind::InvalidValue)
}

/// The next step of reading the value of `-H`, given the answers so far: the
/// value is read as the host of a TCP socket.
pub open spec fn host_value_step(value: Seq<char>, answers: Seq<LookupModel>) -> StepModel<
    OptionModel,
> {
    match host_step(tcp_tag() + value, answers) {
        StepModel::Ask(q) => StepModel::Ask(q),
        StepModel::Done(Ok(t)) => match t.ip {
            Some(ip) => StepModel::Done(Ok(OptionModel::Host(ip))),
            None => StepModel::Done(Err(missing_ip(value))),
        },
        StepModel::Done(Err(f)) => StepModel::Done(Err(f)),
    }
}

/// The next step of reading the value of `-L`, given the answers so far.
pub open spec fn listen_value_step(value: Seq<char>, answers: Seq<LookupModel>) -> StepModel<
    OptionModel,
> {
    match host_step(value, answers) {
        StepModel::Ask(q) => StepModel::Ask(q),
        StepModel::Done(Ok(t)) => StepModel::Done(Ok(OptionModel::Listen(t))),
        StepModel::Done(Err(f)) => StepModel::Done(Err(f)),
    }
}

/// The next step of reading a text as a global option whose host may be a
/// name, given the answers so far. Only the values of `-H` and `-L` are ever
/// looked up; any other text is read as without lookups.
pub open spec fn option_step(s: Seq<char>, answers: Seq<LookupModel>) -> StepModel<OptionModel> {
    let t = trim(s);
    if plain_option(t) is None && first_space(t) < t.len() && flag_of(t) == "-H"@ {
        host_value_step(value_of(t), answers)
    } else if plain_option(t) is None && first_space(t) < t.len() && flag_of(t) == "-L"@ {
        listen_value_step(value_of(t), answers)
    } else {
        StepModel::Done(trimmed_option_parse(t))
    }
}

impl Lookup {
    /// The address to use: the first IPv4 address if there is one, else the
    /// first address; none if the resolver failed or found none.
    pub fn pick(&self) -> (r: Option<SocketAddr>)
        ensures
            match self@ {
                LookupModel::Failed => r is None,
                LookupModel::Found(a) => match preferred(a) {
                    Some(m) => r is Some && r->0@ == m,
                    None => r is None,
                },
            },
    {
        match self {
            Lookup::Failed => None,
            Lookup::Found(v) => {
                if v.len() == 0 {
                    return None;
                }
                let ghost a = address_models(v@);
                let mut i: usize = 0;
                while i < v.len()
                    invariant
                        i <= v.len(),
                        a == address_models(v@),
                        self@ == LookupModel::Found(a),
                        forall|j: int| 0 <= j < i ==> !(a[j].0 is V4),
                    decreases v.len() - i,
                {
                    assert(a[i as int] == v@[i as int]@);
                    if v[i].is_ipv4() {
                        proof {
                            lemma_first_ipv4_is(a, i as int);
                            assert(preferred(a) == Some(a[i as int]));
                        }
                        return Some(v[i]);
                    }
                    i += 1;
                }
                proof {
                    lemma_first_ipv4_is(a, i as int);
                    assert(a[0] == v@[0]@);
                }
                Some(v[0])
            },
        }
    }

    /// The socket that this answer gives for the question `query`.
    pub fn resolve(&self, query: &[char]) -> (r: Result<Tcp, AdbError>)
        ensures
            crate::socket::agrees(r, resolved(query@, self@)),
    {
        match self {
            Lookup::Failed => Err(
                AdbError::caused_by(query, "SocketAddr", ParseSource::Resolver).with_kind(
                    ParseErrorKind::ResolutionFailed,
                ),
            ),
            Lookup::Found(_) => match self.pick() {
                Some(address) => Ok(Tcp { ip: Some(address.ip), port: Some(address.port) }),
                None => Err(
                    AdbError::invalid(query, "SocketAddr", "no socket addresses found").with_kind(
                        ParseErrorKind::ResolutionFailed,
                    ),
                ),
            },
        }
    }
}

impl Tcp {
    /// The next step of reading `host` as a socket whose host may be a name,
    /// given the answers of the lookups made so far.
    ///
    /// The first address that is an IPv4 one is preferred among the addresses
    /// that a lookup finds.
    pub fn from_host(host: &str, answers: &[Lookup]) -> (r: Step<Self>)
        ensures
            r@ == host_step(host@, lookup_models(answers@)),
    {
        let h = chars_of(host);
        Tcp::host_chars_step(h.as_slice(), answers)
    }

    /// The next step of reading the text `h` as a socket whose host may be a name.
    pub fn host_chars_step(h: &[char], answers: &[Lookup]) -> (r: Step<Self>)
        ensures
            r@ == host_step(h@, lookup_models(answers@)),
    {
        if let Ok(t) = Tcp::parse(h) {
            return Step::Done(Ok(t));
        }
        proof {
            reveal_strlit("tcp:");
            assert("tcp:"@ =~= tcp_tag());
            if h.len() >= 4 {
                assert(h@.take(4) =~= h@.subrange(0, 4));
            }
        }
        let name = if h.len() >= 4 && is_text(slice_subrange(h, 0, 4), "tcp:") {
            slice_subrange(h, 4, h.len())
        } else {
            h
        };
        assert(name@ =~= host_name(h@));
        if answers.len() == 0 {
            return Step::Ask(string_of(name));
        }
        assert(lookup_models(answers@)[0] == answers@[0]@);
        match answers[0].resolve(name) {
            Ok(t) => Step::Done(Ok(t)),
            Err(first) => {
                let mut retry: Vec<char> = Vec::new();
                push_chars(&mut retry, name);
                retry.push(':');
                retry.push('0');
                assert(retry@ =~= with_port_zero(name@));
                if answers.len() == 1 {
                    return Step::Ask(string_of(retry.as_slice()));
                }
                assert(lookup_models(answers@)[1] == answers@[1]@);
                match answers[1].resolve(retry.as_slice()) {
                    Ok(t) => Step::Done(Ok(Tcp { ip: t.ip, port: None })),
                    Err(_) => Step::Done(Err(first)),
                }
            },
        }
    }
}

impl AdbGlobalOption {
    /// The next step of reading the value of `-H`.
    fn host_value(value: &[char], answers: &[Lookup]) -> (r: Step<Self>)
        ensures
            r@ == host_value_step(value@, lookup_models(answers@)),
    {
        let mut text: Vec<char> = Vec::new();
        proof {
            reveal_strlit("tcp:");
            assert("tcp:"@ =~= tcp_tag());
        }
        push_text(&mut text, "tcp:");
        push_chars(&mut text, value);
        assert(text@ =~= tcp_tag() + value@);
        match Tcp::host_chars_step(text.as_slice(), answers) {
            Step::Ask(q) => Step::Ask(q),
            Step::Done(Ok(t)) => match t.ip {
                Some(ip) => Step::Done(Ok(AdbGlobalOption::Host(ip))),
                None => Step::Done(
                    Err(
                        AdbError::invalid(value, "IpAddr", "missing ip").with_kind(
                            ParseErrorKind::InvalidValue,
                        ),
                    ),
                ),
            },
            Step::Done(Err(e)) => Step::Done(Err(e)),
        }
    }

    /// The next step of reading the value of `-L`.
    fn listen_value(value: &[char], answers: &[Lookup]) -> (r: Step<Self>)
        ensures
            r@ == listen_value_step(value@, lookup_models(answers@)),
    {
        match Tcp::host_chars_step(value, answers) {
            Step::Ask(q) => Step::Ask(q),
            Step::Done(Ok(t)) => Step::Done(Ok(AdbGlobalOption::Listen(t))),
            Step::Done(Err(e)) => Step::Done(Err(e)),
        }
    }

    /// The next step of reading a text as a global option whose host may be a
    /// name, given the answers of the lookups made so far.
    ///
    /// This only affects the options `-H` and `-L`. Any other text is read as
    /// [`AdbGlobalOption::from_str`] reads it, and no question is asked.
    pub fn from_host(s: &str, answers: &[Lookup]) -> (r: Step<Self>)
        ensures
            r@ == option_step(s@, lookup_models(answers@)),
    {
        let v = chars_of(s);
        let t = trimmed(v.as_slice());
        let at = find_space(t.as_slice());
        if at < t.len() {
            let flag = slice_subrange(t.as_slice(), 0, at);
            assert(flag@ =~= flag_of(t@));
            proof {
                reveal_strlit("-H");
                reveal_strlit("-L");
                reveal_strlit("-a");
                reveal_strlit("-d");
                reveal_strlit("-e");
                reveal_strlit("--exit-on-write-error");
                crate::scan::lemma_first_space(t@);
            }
            if is_text(flag, "-H") || is_text(flag, "-L") {
                assert(plain_option(t@) is None);
                let rest = slice_subrange(t.as_slice(), at + 1, t.len());
                assert(rest@ =~= t@.skip(at + 1));
                let value = trimmed(rest);
                if is_text(flag, "-H") {
                    return AdbGlobalOption::host_value(value.as_slice(), answers);
                } else {
                    return AdbGlobalOption::listen_value(value.as_slice(), answers);
                }
            }
        }
        proof {
            crate::scan::lemma_trim_is_trimmed(v@);
        }
        match AdbGlobalOption::parse(t.as_slice()) {
            Ok(o) => Step::Done(Ok(o)),
            Err(e) => Step::Done(Err(e)),
        }
    }
}

/// The next step of adding an option whose host may be a name to a command.
#[derive(Debug, PartialEq, Eq)]
pub enum BuilderStep<'a> {
    /// The name to look up next, with the builder as it was.
    Ask(AdbCommandBuilder<'a>, String),
    /// The builder with the option added, or the failure.
    Done(Result<AdbCommandBuilder<'a>, AdbError>),
}

impl<'a> AdbCommandBuilder<'a> {
    /// `-H`: Name of adb server host. Default is `localhost`.
    ///
    /// The host may be a name: the next step is returned, given the answers
    /// of the lookups made so far. See [`Tcp::from_host`].
    pub fn host_resolved(self, host: &str, answers: &[Lookup]) -> (r: BuilderStep<'a>)
        ensures
            match host_value_step(host@, lookup_models(answers@)) {
                StepModel::Ask(q) => r matches BuilderStep::Ask(b, text) && text@ == q
                    && b.options() == self.options() && b.environment() == self.environment(),
                StepModel::Done(Ok(m)) => r matches BuilderStep::Done(Ok(b)) && b.options()
                    == with_option(self.options(), m) && b.environment() == self.environment(),
                StepModel::Done(Err(f)) => r matches BuilderStep::Done(Err(e)) && e@ == f,
            },
    {
        let h = chars_of(host);
        match AdbGlobalOption::host_value(h.as_slice(), answers) {
            Step::Ask(q) => BuilderStep::Ask(self, q),
            Step::Done(Ok(option)) => BuilderStep::Done(Ok(self.add_global_option(option))),
            Step::Done(Err(e)) => BuilderStep::Done(Err(e)),
        }
    }

    /// `-L SOCKET`: Listen on given socket for adb server. Default is `tcp:localhost:5037`.
    ///
    /// The host of the socket may be a name: the next step is returned, given
    /// the answers of the lookups made so far. See [`Tcp::from_host`].
    pub fn listen_resolved(self, addr: &str, answers: &[Lookup]) -> (r: BuilderStep<'a>)
        ensures
            match listen_value_step(addr@, lookup_models(answers@)) {
                StepModel::Ask(q) => r matches BuilderStep::Ask(b, text) && text@ == q
                    && b.options() == self.options() && b.environment() == self.environment(),
                StepModel::Done(Ok(m)) => r matches BuilderStep::Done(Ok(b)) && b.options()
                    == with_option(self.options(), m) && b.environment() == self.environment(),
                StepModel::Done(Err(f)) => r matches BuilderStep::Done(Err(e)) && e@ == f,
            },
    {
        let h = chars_of(addr);
        match AdbGlobalOption::listen_value(h.as_slice(), answers) {
            Step::Ask(q) => BuilderStep::Ask(self, q),
            Step::Done(Ok(option)) => BuilderStep::Done(Ok(self.add_global_option(option))),
            Step::Done(Err(e)) => BuilderStep::Done(Err(e)),
        }
    }
}

impl Adb {
    /// `-H`: Name of adb server host. Default is `localhost`.
    ///
    /// The host may be a name: the next step is returned, given the answers
    /// of the lookups made so far. See [`Tcp::from_host`].
    pub fn host_resolved(&self, host: &str, answers: &[Lookup]) -> (r: BuilderStep<'_>)
        ensures
            match host_value_step(host@, lookup_models(answers@)) {
                StepModel::Ask(q) => r matches BuilderStep::Ask(b, text) && text@ == q
                    && b.options() == Seq::<OptionModel>::empty() && b.environment() == *self,
                StepModel::Done(Ok(m)) => r matches BuilderStep::Done(Ok(b)) && b.options()
                    == seq![m] && b.environment() == *self,
                StepModel::Done(Err(f)) => r matches BuilderStep::Done(Err(e)) && e@ == f,
            },
    {
        let r = self.command().host_resolved(host, answers);
        proof {
            if let StepModel::Done(Ok(m)) = host_value_step(host@, lookup_models(answers@)) {
                assert(with_option(Seq::<OptionModel>::empty(), m) =~= seq![m]);
            }
        }
        r
    }

    /// `-L SOCKET`: Listen on given socket for adb server. Default is `tcp:localhost:5037`.
    ///
    /// The host of the socket may be a name: the next step is returned, given
    /// the answers of the lookups made so far. See [`Tcp::from_host`].
    pub fn listen_resolved(&self, addr: &str, answers: &[Lookup]) -> (r: BuilderStep<'_>)
        ensures
            match listen_value_step(addr@, lookup_models(answers@)) {
                StepModel::Ask(q) => r matches BuilderStep::Ask(b, text) && text@ == q
                    && b.options() == Seq::<OptionModel>::empty() && b.environment() == *self,
                StepModel::Done(Ok(m)) => r matches BuilderStep::Done(Ok(b)) && b.options()
                    == seq![m] && b.environment() == *self,
                StepModel::Done(Err(f)) => r matches BuilderStep::Done(Err(e)) && e@ == f,
            },
    {
        let r = self.command().listen_resolved(addr, answers);
        proof {
            if let StepModel::Done(Ok(m)) = listen_value_step(addr@, lookup_models(answers@)) {
                assert(with_option(Seq::<OptionModel>::empty(), m) =~= seq![m]);
            }
        }
        r
    }
}

} // verus!
