//! Turning a request frame into a typed command.
use vstd::prelude::*;
use vstd::string::{StrSliceExecFns, StringExecFns};
use vstd::utf8::{decode_utf8, encode_utf8, valid_utf8};
use crate::frame::Frame;

verus! {

/// A request that the server understands.
#[derive(Debug, PartialEq, Eq)]
pub enum Command {
    Get { key: String },
    Put { key: String, value: Vec<u8> },
}

/// A frame that is no known command, or a known command with the wrong arguments.
#[derive(Clone, Copy, Debug, PartialEq, Eq)]
pub struct ParseError;

impl ParseError {
    pub fn message(&self) -> (r: String)
        ensures
            r@ == "unknown or malformed command"@,
    {
        String::from_str("unknown or malformed command")
    }
}

/// The text a frame carries as a string argument: a simple string, or a bulk
/// string that is valid UTF-8.
pub open spec fn text_of(f: Frame) -> Option<Seq<char>> {
    match f {
        Frame::Simple(s) => Some(s@),
        Frame::Bulk(b) => if valid_utf8(b@) {
            Some(decode_utf8(b@))
        } else {
            None
        },
        _ => None,
    }
}

/// The bytes a frame carries as a binary argument: a simple or a bulk string.
pub open spec fn bytes_of(f: Frame) -> Option<Seq<u8>> {
    match f {
        Frame::Simple(s) => Some(encode_utf8(s@)),
        Frame::Bulk(b) => Some(b@),
        _ => None,
    }
}

/// `c` is the lower-case ASCII letter `lower`, in either case.
pub open spec fn same_letter(c: char, lower: char) -> bool {
    c == lower || (65 <= (c as u32) <= 90 && (c as u32) + 32 == (lower as u32))
}

/// `s` spells the lower-case name `lower`, ignoring ASCII case.
pub open spec fn spells(s: Seq<char>, lower: Seq<char>) -> bool {
    s.len() == lower.len() && forall|i: int| 0 <= i < s.len() ==> same_letter(#[trigger] s[i], lower[i])
}

/// The frame is a string argument that spells `lower`.
pub open spec fn names(f: Frame, lower: Seq<char>) -> bool {
    text_of(f) is Some && spells(text_of(f)->0, lower)
}

/// The frame is an array that forms a GET or a SET request.
pub open spec fn is_request(f: Frame) -> bool {
    match f {
        Frame::Array(items) => {
            ||| items@.len() == 2 && names(items@[0], "get"@) && text_of(items@[1]) is Some
            ||| items@.len() == 3 && names(items@[0], "set"@) && text_of(items@[1]) is Some
                && bytes_of(items@[2]) is Some
        },
        _ => false,
    }
}

/// `c` is the command that the frame `f` spells.
pub open spec fn request_is(f: Frame, c: Command) -> bool {
    match f {
        Frame::Array(items) => match c {
            Command::Get { key } => items@.len() == 2 && names(items@[0], "get"@) && text_of(
                items@[1],
            ) == Some(key@),
            Command::Put { key, value } => items@.len() == 3 && names(items@[0], "set"@)
                && text_of(items@[1]) == Some(key@) && bytes_of(items@[2]) == Some(value@),
        },
        _ => false,
    }
}

/// Relies on std::str::from_utf8: it accepts exactly the valid UTF-8 byte
/// sequences, and the text it gives back is what they encode.
#[verifier::external_body]
fn utf8_text(b: &Vec<u8>) -> (r: Option<String>)
    ensures
        r is Some <==> valid_utf8(b@),
        r is Some ==> r->0@ == decode_utf8(b@),
{
    match std::str::from_utf8(b.as_slice()) {
        Ok(s) => Some(s.to_string()),
        Err(_) => None,
    }
}

fn frame_text(f: &Frame) -> (r: Option<String>)
    ensures
        match r {
            Some(s) => text_of(*f) == Some(s@),
            None => text_of(*f) is None,
        },
{
    match f {
        Frame::Simple(s) => Some(s.clone()),
        Frame::Bulk(b) => utf8_text(b),
        _ => None,
    }
}

fn frame_bytes(f: &Frame) -> (r: Option<Vec<u8>>)
    ensures
        match r {
            Some(b) => bytes_of(*f) == Some(b@),
            None => bytes_of(*f) is None,
        },
{
    match f {
        Frame::Simple(s) => Some(s.as_str().as_bytes_vec()),
        Frame::Bulk(b) => {
            let c = b.clone();
            assert(c@ == b@);
            Some(c)
        },
        _ => None,
    }
}

/// Whether `s` spells `lower`, ignoring ASCII case.
pub fn spells_name(s: &String, lower: &str) -> (r: bool)
    ensures
        r == spells(s@, lower@),
{
    let n = s.as_str().unicode_len();
    if n != lower.unicode_len() {
        return false;
    }
    let mut i: usize = 0;
    while i < n
        invariant
            n == s@.len(),
            n == lower@.len(),
            i <= n,
            forall|j: int| 0 <= j < i ==> same_letter(#[trigger] s@[j], lower@[j]),
        decreases n - i,
    {
        let c = s.as_str().get_char(i);
        let l = lower.get_char(i);
        let cu = c as u32;
        if !(c == l || (65 <= cu && cu <= 90 && cu + 32 == l as u32)) {
            assert(!same_letter(s@[i as int], lower@[i as int]));
            return false;
        }
        i = i + 1;
    }
    true
}

impl Command {
    /// The key the command reads or writes.
    pub open spec fn spec_key(&self) -> Seq<char> {
        match self {
            Command::Get { key } => key@,
            Command::Put { key, .. } => key@,
        }
    }

    pub fn key(&self) -> (r: &String)
        ensures
            r@ == self.spec_key(),
    {
        match self {
            Command::Get { key } => key,
            Command::Put { key, .. } => key,
        }
    }

    /// Reads a request: `[get, key]` or `[set, key, value]`, the command name in
    /// any ASCII case; every other frame is a `ParseError`.
    pub fn from_frame(frame: Frame) -> (r: Result<Command, ParseError>)
        ensures
            r is Ok <==> is_request(frame),
            r is Ok ==> request_is(frame, r->Ok_0),
    {
        match frame {
            Frame::Array(items) => {
                if items.len() == 0 {
                    return Err(ParseError);
                }
                let name = match frame_text(&items[0]) {
                    Some(n) => n,
                    None => return Err(ParseError),
                };
                if items.len() == 2 && spells_name(&name, "get") {
                    match frame_text(&items[1]) {
                        Some(key) => Ok(Command::Get { key }),
                        None => Err(ParseError),
                    }
                } else if items.len() == 3 && spells_name(&name, "set") {
                    match (frame_text(&items[1]), frame_bytes(&items[2])) {
                        (Some(key), Some(value)) => Ok(Command::Put { key, value }),
                        _ => Err(ParseError),
                    }
                } else {
                    Err(ParseError)
                }
            },
            _ => Err(ParseError),
        }
    }
}

} // verus!
