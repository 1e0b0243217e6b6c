//! What one connection does with each line it reads. The caller reads lines,
//! parses their JSON text and writes responses; a line that cannot be read as
//! a request is answered with an `Error`, and the connection goes on.
use crate::json::JsonValue;
use crate::protocol::{encodes, ProtocolError, Request, Response};
use crate::text::push_str;
use vstd::prelude::*;

verus! {

/// Whether a character is white space in the Unicode sense.
pub uninterp spec fn white_space(c: char) -> bool;

/// Relies on `char::is_whitespace`: Unicode `White_Space`, a property of the character alone.
#[verifier::external_body]
fn is_white_space(c: char) -> (r: bool)
    ensures
        r == white_space(c),
{
    c.is_whitespace()
}

/// The line holds nothing but white space.
pub open spec fn blank(s: Seq<char>) -> bool {
    forall|i: int| 0 <= i < s.len() ==> white_space(#[trigger] s[i])
}

/// Whether a line is blank: such a line gets no response.
pub fn is_blank(line: &str) -> (r: bool)
    ensures
        r == blank(line@),
{
    let n = line.unicode_len();
    let mut i: usize = 0;
    while i < n
        invariant
            n == line@.len(),
            i <= n,
            forall|j: int| 0 <= j < i ==> white_space(#[trigger] line@[j]),
        decreases n - i,
    {
        if !is_white_space(line.get_char(i)) {
            return false;
        }
        i = i + 1;
    }
    true
}

/// The description of a protocol error.
pub open spec fn protocol_error_text(e: ProtocolError) -> Seq<char> {
    match e {
        ProtocolError::NotAnObject => "the message is not a JSON object"@,
        ProtocolError::MissingTag => "the message has no \"type\""@,
        ProtocolError::UnknownTag => "unknown request type"@,
        ProtocolError::InvalidData => "missing or invalid request fields"@,
    }
}

impl ProtocolError {
    /// A description for the user.
    pub fn message(&self) -> (r: String)
        ensures
            r@ == protocol_error_text(*self),
    {
        match self {
            ProtocolError::NotAnObject => String::from_str("the message is not a JSON object"),
            ProtocolError::MissingTag => String::from_str("the message has no \"type\""),
            ProtocolError::UnknownTag => String::from_str("unknown request type"),
            ProtocolError::InvalidData => String::from_str("missing or invalid request fields"),
        }
    }
}

/// The prefix of every error about an unreadable request.
pub open spec fn invalid_prefix() -> Seq<char> {
    "Invalid request: "@
}

/// Reads the request of a non-blank line whose JSON text was parsed (or not,
/// with the parser's message). A malformed line, or a message that encodes
/// no request, gives the `Error` response to send back; nothing else changes,
/// so the connection goes on with its next line.
pub fn decode_line(parsed: Result<JsonValue, String>) -> (r: Result<Request, Response>)
    ensures
        match parsed {
            Err(msg) => r matches Err(Response::Error { error }) && error@ == invalid_prefix() + msg@,
            Ok(v) => match r {
                Ok(q) => encodes(v, q),
                Err(Response::Error { error }) => !(exists|q: Request| encodes(v, q)) && exists|e: ProtocolError|
                    error@ == invalid_prefix() + protocol_error_text(e),
                _ => false,
            },
        },
{
    match parsed {
        Err(msg) => {
            let mut e = String::from_str("Invalid request: ");
            push_str(&mut e, msg.as_str());
            Err(Response::Error { error: e })
        },
        Ok(v) => match Request::from_json(&v) {
            Ok(q) => Ok(q),
            Err(pe) => {
                let mut e = String::from_str("Invalid request: ");
                push_str(&mut e, pe.message().as_str());
                Err(Response::Error { error: e })
            },
        },
    }
}

} // verus!
