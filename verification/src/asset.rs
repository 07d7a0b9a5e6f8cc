//! A file embedded with its metadata, decompressed on first use and cached.

use crate::codec::{decode_all, decompress_bytes, zstd_decode_all};
use crate::expand::{embeds, Expansion};
use std::sync::OnceLock;
use std::time::SystemTime;
use vstd::prelude::*;

verus! {

#[verifier::external_type_specification]
#[verifier::external_body]
pub struct ExSystemTime(SystemTime);

#[verifier::external_type_specification]
#[verifier::external_body]
#[verifier::reject_recursive_types(T)]
pub struct ExOnceLock<T>(OnceLock<T>);

/// `OnceLock::new` makes an empty cell; nothing is stated of its contents.
pub assume_specification<T>[ OnceLock::<T>::new ]() -> OnceLock<T>;

/// The metadata of an embedded file, as it was when the file was embedded.
pub struct ZstdMetadata {
    pub len: u64,
    pub modified: Option<SystemTime>,
    pub accessed: Option<SystemTime>,
    pub created: Option<SystemTime>,
    pub is_file: bool,
    pub is_dir: bool,
}

/// A zstd frame embedded with the metadata of the file it was made from.
///
/// The frame is decompressed on the first call of `bytes` and the result is
/// kept for later calls.
pub struct ZstdAsset {
    metadata: ZstdMetadata,
    compressed: &'static [u8],
    cache: OnceLock<Box<[u8]>>,
}

impl ZstdAsset {
    /// The metadata the asset was created with.
    pub closed spec fn stored_metadata(&self) -> ZstdMetadata {
        self.metadata
    }

    /// The zstd frame the asset was created with.
    pub closed spec fn frame(&self) -> Seq<u8> {
        self.compressed@
    }

    /// Returns the metadata of the embedded file.
    pub fn metadata(&self) -> (metadata: &ZstdMetadata)
        ensures
            *metadata == self.stored_metadata(),
    {
        &self.metadata
    }

    /// Returns the decompressed content, decompressing it on the first call.
    ///
    /// The frame must decode; the bytes returned are what it decodes to.
    pub fn bytes(&self) -> (data: &[u8])
        requires
            zstd_decode_all(self.frame()) is Some,
        ensures
            Some(data@) == zstd_decode_all(self.frame()),
    {
        cached_bytes(self)
    }

    /// Returns the decompressed content where the frame decodes, and `None`
    /// where it does not.
    pub fn try_bytes(&self) -> (res: Option<&[u8]>)
        ensures
            res is Some <==> zstd_decode_all(self.frame()) is Some,
            res matches Some(data) ==> Some(data@) == zstd_decode_all(self.frame()),
    {
        match decode_all(self.compressed) {
            Ok(_) => Some(self.bytes()),
            Err(_) => None,
        }
    }
}

/// Calls `OnceLock::get_or_init` on the asset's cache, with a closure that
/// decompresses the asset's own frame by `decompress_bytes`.
///
/// Claimed: the bytes returned are what the frame decodes to. This rests on
/// the cache being a private field of `ZstdAsset`, created empty by
/// `create_zstd_asset` and filled nowhere but here, from the same asset's frame.
#[verifier::external_body]
fn cached_bytes(asset: &ZstdAsset) -> (data: &[u8])
    requires
        zstd_decode_all(asset.compressed@) is Some,
    ensures
        Some(data@) == zstd_decode_all(asset.compressed@),
{
    asset.cache.get_or_init(|| decompress_bytes(asset.compressed)).as_ref()
}

/// Creates an asset from the metadata of a file and the zstd frame of its
/// content; nothing is decompressed yet.
pub fn create_zstd_asset(metadata: ZstdMetadata, compressed: &'static [u8]) -> (asset: ZstdAsset)
    ensures
        asset.stored_metadata() == metadata,
        asset.frame() == compressed@,
{
    ZstdAsset { metadata, compressed, cache: OnceLock::new() }
}

/// An asset made from the embedded form of some data hands that data back:
/// its frame decodes, so `bytes` may be called, and it gives `data`.
pub proof fn lemma_asset_round_trip(e: Expansion, data: Seq<u8>, decode_utf8: bool, asset: ZstdAsset)
    requires
        embeds(e, data, decode_utf8),
        asset.frame() == e.compressed@,
    ensures
        zstd_decode_all(asset.frame()) == Some(data),
{
}

} // verus!
