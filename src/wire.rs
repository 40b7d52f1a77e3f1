//! The wire form of a message: a JSON object `{"user":..,"text":..}` sent as
//! one text frame.
use crate::message::{ChatMessage, MessageModel};
use vstd::prelude::*;

verus! {

/// A hexadecimal digit below sixteen, in lower case.
pub open spec fn hex_digit(n: u32) -> char {
    if n == 0 { '0' } else if n == 1 { '1' } else if n == 2 { '2' } else if n == 3 { '3' }
    else if n == 4 { '4' } else if n == 5 { '5' } else if n == 6 { '6' } else if n == 7 { '7' }
    else if n == 8 { '8' } else if n == 9 { '9' } else if n == 10 { 'a' } else if n == 11 { 'b' }
    else if n == 12 { 'c' } else if n == 13 { 'd' } else if n == 14 { 'e' } else { 'f' }
}

/// How a character stands inside a JSON string: quote and backslash are
/// escaped, five control characters get their short escape, the other
/// control characters `\u00` and two hex digits, and the rest stand as they
/// are.
pub open spec fn json_escape(c: char) -> Seq<char> {
    let n = c as u32;
    if c == '"' { seq!['\\', '"'] }
    else if c == '\\' { seq!['\\', '\\'] }
    else if n == 0x8 { seq!['\\', 'b'] }
    else if n == 0x9 { seq!['\\', 't'] }
    else if n == 0xa { seq!['\\', 'n'] }
    else if n == 0xc { seq!['\\', 'f'] }
    else if n == 0xd { seq!['\\', 'r'] }
    else if n < 0x20 { seq!['\\', 'u', '0', '0', hex_digit(n / 16), hex_digit(n % 16)] }
    else { seq![c] }
}

/// The characters of a text, each as it stands inside a JSON string.
pub open spec fn json_escaped(s: Seq<char>) -> Seq<char>
    decreases s.len(),
{
    if s.len() == 0 {
        Seq::empty()
    } else {
        json_escaped(s.drop_last()) + json_escape(s.last())
    }
}

/// The JSON string literal for a text: its escaped characters in quotes.
pub open spec fn json_quoted(s: Seq<char>) -> Seq<char> {
    seq!['"'] + json_escaped(s) + seq!['"']
}

/// The text held under `key` when `doc` parses as a JSON object whose entry
/// for `key` is a JSON string; `None` otherwise.
pub uninterp spec fn json_text_field(doc: Seq<char>, key: Seq<char>) -> Option<Seq<char>>;

/// The frame that carries a message with this sender and text.
pub open spec fn message_frame(user: Seq<char>, text: Seq<char>) -> Seq<char> {
    "{\"user\":"@ + json_quoted(user) + ",\"text\":"@ + json_quoted(text) + "}"@
}

/// The message a frame carries: both fields present as JSON strings.
pub open spec fn frame_message(frame: Seq<char>) -> Option<MessageModel> {
    match (json_text_field(frame, "user"@), json_text_field(frame, "text"@)) {
        (Some(u), Some(t)) => Some(MessageModel { user: u, text: t }),
        _ => None,
    }
}

/// Relies on serde_json::to_string on a `str`: the text in quotes, escaped as
/// serde_json's string writer does. Writing a `str` into an in-memory buffer
/// has no failing path.
#[verifier::external_body]
fn quote(s: &str) -> (r: String)
    ensures
        r@ == json_quoted(s@),
{
    serde_json::to_string(s).unwrap_or_default()
}

/// Relies on serde_json::from_str into a `serde_json::Value`, then
/// `Value::get` with a string key and `Value::as_str`: the text under `key`
/// when `doc` is a JSON object holding a string there.
#[verifier::external_body]
fn text_field(doc: &str, key: &str) -> (r: Option<String>)
    ensures
        match r {
            Some(s) => json_text_field(doc@, key@) == Some(s@),
            None => json_text_field(doc@, key@) is None,
        },
{
    let v = serde_json::from_str::<serde_json::Value>(doc).ok()?;
    let s = v.get(key)?.as_str()?;
    Some(s.to_string())
}

/// The text frame that carries `m`.
pub fn encode_message(m: &ChatMessage) -> (r: String)
    ensures
        r@ == message_frame(m.user@, m.text@),
{
    let mut out = String::from_str("{\"user\":");
    let u = quote(m.user.as_str());
    out.append(u.as_str());
    out.append(",\"text\":");
    let t = quote(m.text.as_str());
    out.append(t.as_str());
    out.append("}");
    out
}

/// The message carried by a text frame, or `None` when the frame is not a
/// JSON object with string fields `user` and `text`.
pub fn decode_message(frame: &str) -> (r: Option<ChatMessage>)
    ensures
        match r {
            Some(m) => frame_message(frame@) == Some(m@),
            None => frame_message(frame@) is None,
        },
{
    let user = text_field(frame, "user");
    let text = text_field(frame, "text");
    match (user, text) {
        (Some(u), Some(t)) => Some(ChatMessage::new(u, t)),
        _ => None,
    }
}

} // verus!
