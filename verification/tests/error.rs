use adbr::error::{AdbError, ParseError, ParseErrorKind, ParseSource};

#[test]
fn parse_error_with_description() {
    let e = ParseError::with_description("tcp:", "Tcp", "incomplete");
    assert_eq!(e.kind, ParseErrorKind::InvalidFormat);
    assert_eq!(e.value, "tcp:");
    assert_eq!(e.target, "Tcp");
    assert_eq!(e.description, "incomplete");
    assert_eq!(e.source, None);
    assert_eq!(e.message(), "Failed to parse `tcp:` to `Tcp`: incomplete");
    let bare = ParseError::with_description("x", "T", "");
    assert_eq!(bare.message(), "Failed to parse `x` to `T`");
}

#[test]
fn parse_error_with_source() {
    let e = ParseError::with_source("x", "port (u16)", ParseSource::Integer);
    assert_eq!(e.kind, ParseErrorKind::InvalidFormat);
    assert_eq!(e.description, "");
    assert_eq!(e.source, Some(ParseSource::Integer));
    assert_eq!(
        e.message(),
        "Failed to parse `x` to `port (u16)`. source: invalid integer"
    );
    let e = ParseError::with_source("h", "IpAddr", ParseSource::Address)
        .with_kind(ParseErrorKind::InvalidValue);
    assert_eq!(e.kind, ParseErrorKind::InvalidValue);
    assert_eq!(
        e.message(),
        "Failed to parse `h` to `IpAddr`. source: invalid address"
    );
    assert_eq!(ParseSource::Resolver.as_str(), "no address found");
}

#[test]
fn adb_error_kinds_and_messages() {
    let parse: AdbError = ParseError::with_description("v", "T", "d").into();
    assert_eq!(parse.kind(), Some(ParseErrorKind::InvalidFormat));
    assert_eq!(parse.message(), "Failed to parse `v` to `T`: d");
    let changed = parse.with_kind(ParseErrorKind::UnknownOption);
    assert_eq!(changed.kind(), Some(ParseErrorKind::UnknownOption));
    let io = AdbError::Io("broken pipe".to_string());
    assert_eq!(io.kind(), None);
    assert_eq!(io.message(), "broken pipe");
    assert_eq!(
        io.clone().with_kind(ParseErrorKind::InvalidValue),
        io
    );
    let chars: Vec<char> = "a b".chars().collect();
    assert_eq!(
        AdbError::invalid(&chars, "T", "d"),
        AdbError::Parse(ParseError::with_description("a b", "T", "d"))
    );
    assert_eq!(
        AdbError::caused_by(&chars, "T", ParseSource::Resolver),
        AdbError::Parse(ParseError::with_source("a b", "T", ParseSource::Resolver))
    );
}
