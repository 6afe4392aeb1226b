//! Turning a completed frame's bytes into displayable text: UTF-8 decoding
//! (frames that fail to decode are discarded) and whitespace trimming.

use vstd::prelude::*;

verus! {

use vstd::utf8::decode_utf8;
use vstd::utf8::valid_utf8;

/// The characters of a text with leading and trailing whitespace removed, as
/// `str::trim` computes them.
pub uninterp spec fn trim_of(text: Seq<char>) -> Seq<char>;

/// Relies on `core::str::from_utf8`: succeeds exactly on UTF-8-valid bytes,
/// and the characters of the result are the UTF-8 decoding of those bytes.
#[verifier::external_body]
fn decode_frame(bytes: &Vec<u8>) -> (r: Option<String>)
    ensures
        r is Some <==> valid_utf8(bytes@),
        r matches Some(s) ==> s@ == decode_utf8(bytes@),
{
    match core::str::from_utf8(bytes.as_slice()) {
        Ok(s) => Some(s.to_string()),
        Err(_) => None,
    }
}

/// Relies on `str::trim`: removes leading and trailing whitespace, a function
/// of the characters alone; it never lengthens the text, and an empty text
/// stays empty.
#[verifier::external_body]
fn trim_text(s: &String) -> (r: String)
    ensures
        r@ == trim_of(s@),
        r@.len() <= s@.len(),
        s@.len() == 0 ==> r@.len() == 0,
{
    s.trim().to_string()
}

/// Decode a completed frame as text: `Some` of the trimmed decoding exactly
/// when the bytes are valid UTF-8, `None` otherwise.
pub fn frame_text(bytes: &Vec<u8>) -> (r: Option<String>)
    ensures
        r is Some <==> valid_utf8(bytes@),
        r matches Some(t) ==> t@ == trim_of(decode_utf8(bytes@)),
{
    match decode_frame(bytes) {
        Some(s) => Some(trim_text(&s)),
        None => None,
    }
}

} // verus!
