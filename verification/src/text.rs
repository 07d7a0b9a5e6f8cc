//! UTF-8 decoding of embedded text.

use vstd::prelude::*;
use vstd::utf8::{decode_utf8 as utf8_chars, valid_utf8};

verus! {

/// Calls `std::str::from_utf8`: it succeeds exactly on valid UTF-8, and the
/// text it returns is the one those bytes encode.
#[verifier::external_body]
fn str_from_utf8<'a>(bytes: &'a [u8]) -> (res: Option<&'a str>)
    ensures
        res is Some <==> valid_utf8(bytes@),
        res matches Some(text) ==> text@ == utf8_chars(bytes@),
{
    std::str::from_utf8(bytes).ok()
}

/// Views decompressed bytes as text.
///
/// The bytes must be valid UTF-8; the text returned is the one they encode.
pub fn decode_utf8(bytes: &'static [u8]) -> (text: &'static str)
    requires
        valid_utf8(bytes@),
    ensures
        text@ == utf8_chars(bytes@),
{
    match str_from_utf8(bytes) {
        Some(text) => text,
        None => vstd::pervasive::unreached(),
    }
}

/// Views bytes as text where they are valid UTF-8, and gives `None` where
/// they are not.
pub fn try_decode_utf8(bytes: &'static [u8]) -> (res: Option<&'static str>)
    ensures
        res is Some <==> valid_utf8(bytes@),
        res matches Some(text) ==> text@ == utf8_chars(bytes@),
{
    match str_from_utf8(bytes) {
        Some(_) => Some(decode_utf8(bytes)),
        None => None,
    }
}

} // verus!
