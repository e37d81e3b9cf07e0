use shardkv::command::{spells_name, Command, ParseError};
use shardkv::frame::Frame;

fn bulk(s: &str) -> Frame {
    Frame::Bulk(s.as_bytes().to_vec())
}

#[test]
fn parses_get() {
    let f = Frame::Array(vec![bulk("get"), bulk("foo")]);
    assert_eq!(Command::from_frame(f), Ok(Command::Get { key: "foo".to_string() }));
}

#[test]
fn parses_set() {
    let f = Frame::Array(vec![bulk("set"), bulk("foo"), bulk("bar")]);
    assert_eq!(
        Command::from_frame(f),
        Ok(Command::Put { key: "foo".to_string(), value: b"bar".to_vec() })
    );
}

#[test]
fn parses_upper_case_names_and_simple_strings() {
    let f = Frame::Array(vec![
        Frame::Simple("SeT".to_string()),
        Frame::Simple("k".to_string()),
        Frame::Simple("v".to_string()),
    ]);
    assert_eq!(
        Command::from_frame(f),
        Ok(Command::Put { key: "k".to_string(), value: b"v".to_vec() })
    );
}

#[test]
fn decodes_utf8_keys() {
    let f = Frame::Array(vec![bulk("get"), Frame::Bulk(vec![0xc3, 0xa9])]);
    assert_eq!(Command::from_frame(f), Ok(Command::Get { key: "\u{e9}".to_string() }));
}

#[test]
fn rejects_invalid_utf8_key() {
    let f = Frame::Array(vec![bulk("get"), Frame::Bulk(vec![0xff, 0xfe])]);
    assert_eq!(Command::from_frame(f), Err(ParseError));
}

#[test]
fn rejects_wrong_argument_counts() {
    assert_eq!(Command::from_frame(Frame::Array(vec![bulk("get")])), Err(ParseError));
    assert_eq!(
        Command::from_frame(Frame::Array(vec![bulk("get"), bulk("a"), bulk("b")])),
        Err(ParseError)
    );
    assert_eq!(
        Command::from_frame(Frame::Array(vec![bulk("set"), bulk("a")])),
        Err(ParseError)
    );
    assert_eq!(Command::from_frame(Frame::Array(vec![])), Err(ParseError));
}

#[test]
fn rejects_unknown_commands_and_non_arrays() {
    assert_eq!(Command::from_frame(Frame::Array(vec![bulk("ping")])), Err(ParseError));
    assert_eq!(
        Command::from_frame(Frame::Array(vec![bulk("publish"), bulk("c"), bulk("m")])),
        Err(ParseError)
    );
    assert_eq!(Command::from_frame(bulk("get")), Err(ParseError));
    assert_eq!(Command::from_frame(Frame::Null), Err(ParseError));
    assert_eq!(
        Command::from_frame(Frame::Array(vec![bulk("get"), Frame::Integer(3)])),
        Err(ParseError)
    );
}

#[test]
fn parse_error_message() {
    assert_eq!(ParseError.message(), "unknown or malformed command");
}

#[test]
fn spells_name_ignores_ascii_case() {
    assert!(spells_name(&"GET".to_string(), "get"));
    assert!(spells_name(&"gEt".to_string(), "get"));
    assert!(!spells_name(&"gets".to_string(), "get"));
    assert!(!spells_name(&"got".to_string(), "get"));
    assert!(!spells_name(&"".to_string(), "get"));
}

#[test]
fn command_key() {
    let c = Command::Put { key: "k".to_string(), value: vec![1] };
    assert_eq!(c.key(), "k");
}
