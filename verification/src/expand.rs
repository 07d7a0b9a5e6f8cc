//! What an embedding call site carries: the zstd frame of its data, and
//! whether the data is handed out as text.

use crate::codec::{compress, zstd_decode_all, zstd_encode_all, DEFAULT_LEVEL};
use vstd::prelude::*;
use vstd::slice::slice_to_vec;
use vstd::string::StringExecFns;
use vstd::utf8::{decode_utf8 as utf8_chars, encode_utf8, encode_utf8_decode_utf8, encode_utf8_valid_utf8, valid_utf8};

verus! {

/// The embedded form of some data: its zstd frame, and whether the call site
/// decodes the data as UTF-8 text.
pub struct Expansion {
    pub compressed: Vec<u8>,
    pub decode_utf8: bool,
}

/// `e` is the embedded form of `data`: its frame is zstd's encoding of `data`
/// at the default level, the frame decodes back into `data`, and the text flag
/// is `decode_utf8`.
pub open spec fn embeds(e: Expansion, data: Seq<u8>, decode_utf8: bool) -> bool {
    &&& Some(e.compressed@) == zstd_encode_all(data, DEFAULT_LEVEL)
    &&& zstd_decode_all(e.compressed@) == Some(data)
    &&& e.decode_utf8 == decode_utf8
}

/// The start of the message given when compression fails.
pub open spec fn compress_error_prefix() -> Seq<char> {
    "failed to compress data: "@
}

/// Calls `Display::fmt` of `std::io::Error` through `format!`; nothing is
/// claimed of the text.
#[verifier::external_body]
fn io_error_text(err: &std::io::Error) -> String {
    format!("{err}")
}

/// Compresses `data` into its embedded form; this succeeds for all data.
///
/// Were zstd to fail, the result would be the error message, which starts
/// with `failed to compress data: ` and goes on with zstd's own words.
pub fn expand_from_data(data: Vec<u8>, decode_utf8: bool) -> (res: Result<Expansion, String>)
    ensures
        res is Ok,
        res matches Ok(e) ==> embeds(e, data@, decode_utf8),
        res matches Err(msg) ==> compress_error_prefix().is_prefix_of(msg@),
{
    match compress(data.as_slice()) {
        Ok(compressed) => Ok(Expansion { compressed, decode_utf8 }),
        Err(err) => {
            let mut msg = String::from_str("failed to compress data: ");
            let detail = io_error_text(&err);
            msg.append(detail.as_str());
            proof {
                assert(msg@.subrange(0, compress_error_prefix().len() as int) =~= compress_error_prefix());
            }
            Err(msg)
        },
    }
}

/// Embeds a string: its UTF-8 bytes are compressed, and the call site decodes
/// them back into text.
pub fn str(value: &str) -> (res: Result<Expansion, String>)
    ensures
        res is Ok,
        res matches Ok(e) ==> embeds(e, encode_utf8(value@), true),
        res matches Ok(e) ==> valid_utf8(zstd_decode_all(e.compressed@)->0),
        res matches Ok(e) ==> utf8_chars(zstd_decode_all(e.compressed@)->0) == value@,
        res matches Err(msg) ==> compress_error_prefix().is_prefix_of(msg@),
{
    let data = slice_to_vec(value.as_bytes());
    proof {
        encode_utf8_valid_utf8(value@);
        encode_utf8_decode_utf8(value@);
    }
    expand_from_data(data, true)
}

/// Embeds a byte string: its bytes are compressed and handed back as bytes.
pub fn bytes(value: &[u8]) -> (res: Result<Expansion, String>)
    ensures
        res is Ok,
        res matches Ok(e) ==> embeds(e, value@, false),
        res matches Err(msg) ==> compress_error_prefix().is_prefix_of(msg@),
{
    expand_from_data(slice_to_vec(value), false)
}

/// What a call site embeds is what it gets back: the frame of an embedded
/// form of `data` decompresses into `data`.
pub proof fn lemma_embedded_data_round_trip(e: Expansion, data: Seq<u8>, decode_utf8: bool)
    requires
        embeds(e, data, decode_utf8),
    ensures
        zstd_decode_all(e.compressed@) == Some(data),
{
}

/// Text embedded as its UTF-8 bytes comes back as valid UTF-8 that decodes
/// into the same text.
pub proof fn lemma_embedded_text_round_trip(e: Expansion, text: Seq<char>)
    requires
        embeds(e, encode_utf8(text), true),
    ensures
        valid_utf8(zstd_decode_all(e.compressed@)->0),
        utf8_chars(zstd_decode_all(e.compressed@)->0) == text,
{
    encode_utf8_valid_utf8(text);
    encode_utf8_decode_utf8(text);
}

/// Embedding is reproducible: two embedded forms of the same data carry the
/// same frame.
pub proof fn lemma_embedding_is_deterministic(e1: Expansion, e2: Expansion, data: Seq<u8>, u1: bool, u2: bool)
    requires
        embeds(e1, data, u1),
        embeds(e2, data, u2),
    ensures
        e1.compressed@ == e2.compressed@,
{
}

/// Different data never share a frame: the data is fixed by the frame.
pub proof fn lemma_frame_determines_data(e1: Expansion, e2: Expansion, d1: Seq<u8>, d2: Seq<u8>, u1: bool, u2: bool)
    requires
        embeds(e1, d1, u1),
        embeds(e2, d2, u2),
        e1.compressed@ == e2.compressed@,
    ensures
        d1 == d2,
{
}

} // verus!
