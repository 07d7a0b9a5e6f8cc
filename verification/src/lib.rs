//! Data compressed with zstd when it is embedded, and decompressed on first
//! use at run time.
//!
//! The library holds the logic behind the embedding: compressing what a call
//! site embeds, decompressing and caching it at run time, decoding text, the
//! grammar of the file-embedding input, and how a relative path is resolved.

mod asset;
mod codec;
mod expand;
mod input;
mod paths;
mod text;

pub mod __private;

pub use asset::{create_zstd_asset, ZstdAsset, ZstdMetadata};
pub use codec::{compress, decompress_bytes, try_decompress_bytes, zstd_decode_all, zstd_encode_all, DEFAULT_LEVEL};
pub use expand::{bytes, embeds, expand_from_data, str, Expansion};
pub use input::{FileMacroInput, InputError, MacroToken};
pub use paths::{
    absolutize_source_file, invocation_source_file_abs, is_rust_source, is_skipped_dir_name, mentions_path,
    resolve_path, scans_sources, unique_match, CandidateFacts, InvocationSourceFile, ResolveEnv, ResolveError,
    SourceFacts,
};
pub use text::{decode_utf8, try_decode_utf8};
