//! The messages that travel over a WebSocket, and how they are shown.

use crate::packet::packet_bytes;
use bytes::Bytes;
use vstd::prelude::*;
use vstd::string::StringExecFns;

verus! {

/// Cheap-to-clone WebSocket message.
#[derive(Clone, PartialEq, Eq)]
pub enum WsMessage {
    Text(String),
    Binary(Bytes),
    /// The peer closed, with a code and a reason if it gave them.
    Close(Option<(u16, String)>),
}

/// A string between double quotes, with the escapes of Rust's `Debug`
/// formatting.
pub uninterp spec fn debug_quoted(text: Seq<char>) -> Seq<char>;

/// The decimal digit `d`.
pub open spec fn digit(d: nat) -> char
    recommends
        d < 10,
{
    ((48 + d) as u8) as char
}

/// The decimal digits of `n`, without leading zeros.
pub open spec fn decimal(n: nat) -> Seq<char>
    decreases n,
{
    if n < 10 {
        seq![digit(n)]
    } else {
        decimal(n / 10).push(digit(n % 10))
    }
}

/// How a close reason is shown.
pub open spec fn shown_reason(reason: Option<(u16, String)>) -> Seq<char> {
    match reason {
        None => "None"@,
        Some((code, text)) => "Some(("@ + decimal(code as nat) + ", "@ + debug_quoted(text@) + "))"@,
    }
}

/// How a message is shown: the kind, and in parentheses the text in quotes,
/// the number of bytes, or the close reason.
pub open spec fn shown(m: WsMessage) -> Seq<char> {
    match m {
        WsMessage::Text(t) => "Text("@ + debug_quoted(t@) + ")"@,
        WsMessage::Binary(b) => "Binary("@ + decimal(packet_bytes(b).len()) + ")"@,
        WsMessage::Close(c) => "Close("@ + shown_reason(c) + ")"@,
    }
}

/// Calls `String::push`, which appends one character.
#[verifier::external_body]
fn string_push(s: &mut String, c: char)
    ensures
        final(s)@ == old(s)@.push(c),
{
    s.push(c)
}

/// Formats a string slice with `{:?}`: the slice between double quotes,
/// escaped as `Debug` for `str` escapes it.
#[verifier::external_body]
fn quote(text: &str) -> (quoted: String)
    ensures
        quoted@ == debug_quoted(text@),
{
    format!("{:?}", text)
}

/// Calls `Bytes::len`, the number of bytes in the buffer.
#[verifier::external_body]
fn byte_count(b: &Bytes) -> (n: usize)
    ensures
        n == packet_bytes(*b).len(),
{
    b.len()
}

/// Appends the decimal digits of `n` to `out`.
fn push_decimal(out: &mut String, n: usize)
    ensures
        final(out)@ == old(out)@ + decimal(n as nat),
    decreases n,
{
    if n >= 10 {
        push_decimal(out, n / 10);
    }
    let d = (n % 10) as u8;
    string_push(out, (48u8 + d) as char);
    proof {
        if n < 10 {
            assert(old(out)@.push(digit(n as nat)) =~= old(out)@ + decimal(n as nat));
        } else {
            assert((old(out)@ + decimal((n / 10) as nat)).push(digit((n % 10) as nat)) =~= old(
                out,
            )@ + decimal(n as nat));
        }
    }
}

impl WsMessage {
    /// The message as `Debug` shows it. A binary message is shown by its
    /// length, not by its bytes.
    pub fn debug(&self) -> (text: String)
        ensures
            text@ == shown(*self),
    {
        let mut text = String::new();
        match self {
            WsMessage::Text(t) => {
                text.append("Text(");
                let q = quote(t.as_str());
                text.append(q.as_str());
            },
            WsMessage::Binary(b) => {
                text.append("Binary(");
                push_decimal(&mut text, byte_count(b));
            },
            WsMessage::Close(c) => {
                text.append("Close(");
                match c {
                    None => {
                        text.append("None");
                    },
                    Some((code, reason)) => {
                        text.append("Some((");
                        push_decimal(&mut text, *code as usize);
                        text.append(", ");
                        let q = quote(reason.as_str());
                        text.append(q.as_str());
                        text.append("))");
                    },
                }
            },
        }
        text.append(")");
        assert(text@ =~= shown(*self));
        text
    }
}

} // verus!
