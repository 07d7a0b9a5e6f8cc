//! What the code written at an embedding call site calls at run time.

pub use crate::asset::create_zstd_asset;
pub use crate::codec::{decompress_bytes, try_decompress_bytes};
pub use crate::text::{decode_utf8, try_decode_utf8};
