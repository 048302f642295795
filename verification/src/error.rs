//! The errors that parsing reports.

use vstd::prelude::*;
use crate::text::{chars_of, push_chars, push_text, string_of};

verus! {

/// Why a text was not accepted.
#[derive(Debug, Clone, Copy, PartialEq, Eq, Hash, Structural)]
pub enum ParseErrorKind {
    /// The text matches no known family or flag, or the part after a known
    /// prefix does not follow that family's grammar.
    InvalidFormat,
    /// A flag that takes a value was given without one.
    MissingValue,
    /// The flag is not one of the global options.
    UnknownOption,
    /// The flag is known, but its value is not of the kind it takes.
    InvalidValue,
    /// A host name could not be resolved to an address.
    ResolutionFailed,
}

/// The lower-level step that failed, where an error reports one.
#[derive(Debug, Clone, Copy, PartialEq, Eq, Hash, Structural)]
pub enum ParseSource {
    /// An integer was expected.
    Integer,
    /// An IP address was expected.
    Address,
    /// The name resolver returned no usable address.
    Resolver,
}

/// Information about a parse failure.
#[derive(Debug, Clone, PartialEq, Eq, Hash)]
pub struct ParseError {
    /// The kind of the failure.
    pub kind: ParseErrorKind,
    /// The value that failed to parse.
    pub value: String,
    /// The target type.
    pub target: &'static str,
    /// A description of the error, may be empty.
    pub description: &'static str,
    /// The lower-level step that failed, if one is known.
    pub source: Option<ParseSource>,
}

/// What a `ParseError` holds, as plain values.
pub struct ParseFailure {
    pub kind: ParseErrorKind,
    pub value: Seq<char>,
    pub target: Seq<char>,
    pub description: Seq<char>,
    pub source: Option<ParseSource>,
}

impl View for ParseError {
    type V = ParseFailure;

    open spec fn view(&self) -> ParseFailure {
        ParseFailure {
            kind: self.kind,
            value: self.value@,
            target: self.target@,
            description: self.description@,
            source: self.source,
        }
    }
}

/// Errors of this crate.
#[derive(Debug, Clone, PartialEq, Eq, Hash)]
pub enum AdbError {
    /// Running a command failed; the text is the system's message.
    Io(String),
    /// Parse error.
    Parse(ParseError),
}

/// What an `AdbError` holds, as plain values.
pub enum Failure {
    Io(Seq<char>),
    Parse(ParseFailure),
}

impl View for AdbError {
    type V = Failure;

    open spec fn view(&self) -> Failure {
        match self {
            AdbError::Io(m) => Failure::Io(m@),
            AdbError::Parse(e) => Failure::Parse(e@),
        }
    }
}

/// The failure of kind `InvalidFormat` with a description and no source.
pub open spec fn described(value: Seq<char>, target: Seq<char>, description: Seq<char>) -> Failure {
    Failure::Parse(
        ParseFailure {
            kind: ParseErrorKind::InvalidFormat,
            value,
            target,
            description,
            source: None,
        },
    )
}

/// The failure of kind `InvalidFormat` with a source and no description.
pub open spec fn caused(value: Seq<char>, target: Seq<char>, source: ParseSource) -> Failure {
    Failure::Parse(
        ParseFailure {
            kind: ParseErrorKind::InvalidFormat,
            value,
            target,
            description: Seq::empty(),
            source: Some(source),
        },
    )
}

/// The same failure under another kind. An I/O failure has no kind and stays as it is.
pub open spec fn of_kind(f: Failure, kind: ParseErrorKind) -> Failure {
    match f {
        Failure::Parse(p) => Failure::Parse(ParseFailure { kind, ..p }),
        Failure::Io(m) => Failure::Io(m),
    }
}

/// The words for a source.
pub open spec fn source_text(source: ParseSource) -> Seq<char> {
    match source {
        ParseSource::Integer => "invalid integer"@,
        ParseSource::Address => "invalid address"@,
        ParseSource::Resolver => "no address found"@,
    }
}

/// The message of a parse failure: the value and the target, then the
/// description if there is one, then the source if there is one.
pub open spec fn failure_text(f: ParseFailure) -> Seq<char> {
    let head = "Failed to parse `"@ + f.value + "` to `"@ + f.target + "`"@;
    let mid = if f.description.len() > 0 {
        head + ": "@ + f.description
    } else {
        head
    };
    match f.source {
        Some(s) => mid + ". source: "@ + source_text(s),
        None => mid,
    }
}

impl ParseSource {
    /// The words for this source.
    pub fn as_str(&self) -> (r: &'static str)
        ensures
            r@ == source_text(*self),
    {
        match self {
            ParseSource::Integer => "invalid integer",
            ParseSource::Address => "invalid address",
            ParseSource::Resolver => "no address found",
        }
    }
}

impl ParseError {
    /// Creates a new `ParseError` of kind `InvalidFormat` with a description.
    pub fn with_description(value: &str, target: &'static str, description: &'static str) -> (e:
        Self)
        ensures
            Failure::Parse(e@) == described(value@, target@, description@),
    {
        Self {
            kind: ParseErrorKind::InvalidFormat,
            value: string_of(chars_of(value).as_slice()),
            target,
            description,
            source: None,
        }
    }

    /// Creates a new `ParseError` of kind `InvalidFormat` with a source.
    pub fn with_source(value: &str, target: &'static str, source: ParseSource) -> (e: Self)
        ensures
            Failure::Parse(e@) == caused(value@, target@, source),
    {
        proof {
            reveal_strlit("");
            assert(""@ =~= Seq::<char>::empty());
        }
        Self {
            kind: ParseErrorKind::InvalidFormat,
            value: string_of(chars_of(value).as_slice()),
            target,
            description: "",
            source: Some(source),
        }
    }

    /// The same error under another kind.
    pub fn with_kind(self, kind: ParseErrorKind) -> (e: Self)
        ensures
            e@ == (ParseFailure { kind, ..self@ }),
    {
        Self {
            kind,
            value: self.value,
            target: self.target,
            description: self.description,
            source: self.source,
        }
    }

    /// The message of this error.
    pub fn message(&self) -> (r: String)
        ensures
            r@ == failure_text(self@),
    {
        let mut out: Vec<char> = Vec::new();
        push_text(&mut out, "Failed to parse `");
        push_text(&mut out, self.value.as_str());
        push_text(&mut out, "` to `");
        push_text(&mut out, self.target);
        push_text(&mut out, "`");
        assert(out@ =~= "Failed to parse `"@ + self.value@ + "` to `"@ + self.target@ + "`"@);
        let d = chars_of(self.description);
        if d.len() > 0 {
            push_text(&mut out, ": ");
            push_chars(&mut out, d.as_slice());
        }
        match self.source {
            Some(s) => {
                push_text(&mut out, ". source: ");
                push_text(&mut out, s.as_str());
            },
            None => {},
        }
        string_of(out.as_slice())
    }
}

impl AdbError {
    /// The error for a text that does not follow its grammar.
    pub fn invalid(value: &[char], target: &'static str, description: &'static str) -> (e: Self)
        ensures
            e@ == described(value@, target@, description@),
    {
        AdbError::Parse(
            ParseError {
                kind: ParseErrorKind::InvalidFormat,
                value: string_of(value),
                target,
                description,
                source: None,
            },
        )
    }

    /// The error for a text of which a lower-level part could not be read.
    pub fn caused_by(value: &[char], target: &'static str, source: ParseSource) -> (e: Self)
        ensures
            e@ == caused(value@, target@, source),
    {
        proof {
            reveal_strlit("");
            assert(""@ =~= Seq::<char>::empty());
        }
        AdbError::Parse(
            ParseError {
                kind: ParseErrorKind::InvalidFormat,
                value: string_of(value),
                target,
                description: "",
                source: Some(source),
            },
        )
    }

    /// The same error under another kind.
    pub fn with_kind(self, kind: ParseErrorKind) -> (e: Self)
        ensures
            e@ == of_kind(self@, kind),
    {
        match self {
            AdbError::Parse(p) => AdbError::Parse(p.with_kind(kind)),
            AdbError::Io(m) => AdbError::Io(m),
        }
    }

    /// The kind of a parse error; nothing for an I/O error.
    pub fn kind(&self) -> (k: Option<ParseErrorKind>)
        ensures
            k == match self@ {
                Failure::Parse(p) => Some(p.kind),
                Failure::Io(_) => None,
            },
    {
        match self {
            AdbError::Parse(p) => Some(p.kind),
            AdbError::Io(_) => None,
        }
    }

    /// The message of this error.
    pub fn message(&self) -> (r: String)
        ensures
            r@ == match self@ {
                Failure::Parse(p) => failure_text(p),
                Failure::Io(m) => m,
            },
    {
        match self {
            AdbError::Parse(p) => p.message(),
            AdbError::Io(m) => m.clone(),
        }
    }
}

impl From<ParseError> for AdbError {
    /// The parse error as an error of this crate.
    fn from(v: ParseError) -> (r: Self) {
        AdbError::Parse(v)
    }
}

impl vstd::std_specs::convert::FromSpecImpl<ParseError> for AdbError {
    open spec fn obeys_from_spec() -> bool {
        true
    }

    open spec fn from_spec(v: ParseError) -> Self {
        AdbError::Parse(v)
    }
}

} // verus!
