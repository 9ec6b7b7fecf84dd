use vstd::prelude::*;
use vstd::utf8::{decode_utf8, encode_utf8, valid_utf8};

verus! {

/// Calls `String::from_utf8`, which std documents as succeeding exactly on
/// valid UTF-8 and then holding the characters those bytes encode.
#[verifier::external_body]
fn utf8_to_string(bytes: Vec<u8>) -> (text: Option<String>)
    ensures
        text is Some <==> valid_utf8(bytes@),
        text matches Some(s) ==> s@ == decode_utf8(bytes@),
{
    String::from_utf8(bytes).ok()
}

/// The lines a connection reports as events happen on it.
pub struct NetHandler;

impl NetHandler {
    /// The line reported for a received message: `on_message: ` and the message
    /// read as UTF-8. The message must be valid UTF-8.
    pub fn on_message(data: Vec<u8>) -> (line: String)
        requires
            valid_utf8(data@),
        ensures
            line@ == "on_message: "@ + decode_utf8(data@),
    {
        let mut line = String::from_str("on_message: ");
        match utf8_to_string(data) {
            Some(text) => {
                line.append(text.as_str());
            },
            None => {},
        }
        line
    }

    /// The line reported when a connection opens.
    pub fn on_open() -> (line: String)
        ensures
            line@ == "on_open"@,
    {
        String::from_str("on_open")
    }

    /// The line reported when a connection closes.
    pub fn on_close() -> (line: String)
        ensures
            line@ == "on_close"@,
    {
        String::from_str("on_close")
    }

    /// The line reported when reading from a connection fails.
    pub fn on_error() -> (line: String)
        ensures
            line@ == "on_error"@,
    {
        String::from_str("on_error")
    }
}

/// A message that is the UTF-8 encoding of a text is reported with that text.
pub proof fn law_text_message_reported(text: Seq<char>)
    ensures
        valid_utf8(encode_utf8(text)),
        decode_utf8(encode_utf8(text)) == text,
{
    vstd::utf8::encode_utf8_valid_utf8(text);
    vstd::utf8::encode_utf8_decode_utf8(text);
}

} // verus!
