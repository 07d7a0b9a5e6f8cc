//! zstd compression and decompression of byte buffers.

use vstd::prelude::*;

verus! {

/// The compression level the embedding uses; `0` selects zstd's default level.
pub const DEFAULT_LEVEL: i32 = 0;

/// What `zstd::stream::encode_all` gives for `data` at `level`: the frame it
/// produces, or `None` where it returns an error.
pub uninterp spec fn zstd_encode_all(data: Seq<u8>, level: i32) -> Option<Seq<u8>>;

/// What `zstd::stream::decode_all` gives back for `compressed`: the decoded
/// bytes, or `None` where it returns an error.
pub uninterp spec fn zstd_decode_all(compressed: Seq<u8>) -> Option<Seq<u8>>;

/// Calls `zstd::stream::encode_all` on `data` at `level`.
///
/// Claimed: it succeeds exactly when the name `zstd_encode_all` is `Some`,
/// and then returns that frame; zstd, being lossless, decodes the frame back
/// into `data`. At level `0` the call succeeds: with the input in memory and
/// the output a `Vec`, the source fails only where setting the level is
/// refused (level `0`, zstd's default, is always accepted) or where zstd
/// cannot allocate its working memory, which is left out here as it is for
/// every allocation in Rust.
#[verifier::external_body]
fn encode_all(data: &[u8], level: i32) -> (res: Result<Vec<u8>, std::io::Error>)
    ensures
        res is Ok <==> zstd_encode_all(data@, level) is Some,
        res matches Ok(frame) ==> Some(frame@) == zstd_encode_all(data@, level),
        res matches Ok(frame) ==> zstd_decode_all(frame@) == Some(data@),
        level == 0 ==> res is Ok,
{
    zstd::stream::encode_all(data, level)
}

/// Calls `zstd::stream::decode_all` on `compressed`.
///
/// Claimed: it succeeds exactly when the name `zstd_decode_all` is `Some`,
/// and then returns those bytes.
#[verifier::external_body]
pub(crate) fn decode_all(compressed: &[u8]) -> (res: Result<Vec<u8>, std::io::Error>)
    ensures
        res is Ok <==> zstd_decode_all(compressed@) is Some,
        res matches Ok(data) ==> Some(data@) == zstd_decode_all(compressed@),
{
    zstd::stream::decode_all(compressed)
}

/// Calls `Vec::into_boxed_slice`: the boxed slice holds the same bytes.
#[verifier::external_body]
fn into_boxed(data: Vec<u8>) -> (boxed: Box<[u8]>)
    ensures
        boxed@ == data@,
{
    data.into_boxed_slice()
}

#[verifier::external_type_specification]
#[verifier::external_body]
pub struct ExIoError(std::io::Error);

/// Compresses `data` at the default level.
///
/// It succeeds; the frame is zstd's encoding of `data` and decodes back
/// into it.
pub fn compress(data: &[u8]) -> (res: Result<Vec<u8>, std::io::Error>)
    ensures
        res is Ok,
        res matches Ok(frame) ==> Some(frame@) == zstd_encode_all(data@, DEFAULT_LEVEL),
        res matches Ok(frame) ==> zstd_decode_all(frame@) == Some(data@),
{
    encode_all(data, DEFAULT_LEVEL)
}

/// Decompresses a zstd frame that is known to decode.
pub fn decompress_bytes(compressed: &[u8]) -> (data: Box<[u8]>)
    requires
        zstd_decode_all(compressed@) is Some,
    ensures
        Some(data@) == zstd_decode_all(compressed@),
{
    let decoded = decode_all(compressed);
    match decoded {
        Ok(v) => into_boxed(v),
        Err(_) => vstd::pervasive::unreached(),
    }
}

/// Decompresses `compressed`, or gives zstd's error where it cannot decode it.
pub fn try_decompress_bytes(compressed: &[u8]) -> (res: Result<Box<[u8]>, std::io::Error>)
    ensures
        res is Ok <==> zstd_decode_all(compressed@) is Some,
        res matches Ok(data) ==> Some(data@) == zstd_decode_all(compressed@),
{
    match decode_all(compressed) {
        Ok(_) => Ok(decompress_bytes(compressed)),
        Err(err) => Err(err),
    }
}

} // verus!
