//! The loader's terminal error values: one per fatal condition.

use vstd::prelude::*;

verus! {

/// First fatal condition met while loading an avatar container.
#[derive(Clone, Copy, Debug, PartialEq, Eq, Structural)]
pub enum VrmError {
    /// Bad magic, header, chunk type or length arithmetic in the container.
    MalformedContainer,
    /// The JSON document could not be parsed.
    MalformedJson,
    /// A buffer declares the embedded blob as its source, but none exists.
    MissingBlob,
    /// A buffer data URI carries a mime type other than the accepted ones.
    BufferFormatUnsupported,
    /// A data URI payload failed to decode as base64.
    Base64Decode,
    /// An external buffer or image file was not readable.
    AssetNotFound,
    /// A primitive uses a topology outside the supported set.
    UnsupportedPrimitive { mode: u32 },
    /// A skin joint or accessor reference points outside the node set.
    InvalidSkinReference,
    /// An accessor or buffer view lies outside its buffer's bytes.
    AccessorOutOfBounds,
}

impl VrmError {
    /// A short name for logs; the library defines no std Display.
    pub fn message(&self) -> (r: &'static str)
    {
        match self {
            VrmError::MalformedContainer => "malformed container",
            VrmError::MalformedJson => "malformed json document",
            VrmError::MissingBlob => "binary blob is missing",
            VrmError::BufferFormatUnsupported => "unsupported buffer format",
            VrmError::Base64Decode => "failed to decode base64 data",
            VrmError::AssetNotFound => "failed to read asset",
            VrmError::UnsupportedPrimitive { .. } => "unsupported primitive mode",
            VrmError::InvalidSkinReference => "invalid skin reference",
            VrmError::AccessorOutOfBounds => "accessor out of bounds",
        }
    }
}

} // verus!
