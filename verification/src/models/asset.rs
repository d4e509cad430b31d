//! One encoded or derived file variant of a media.

use vstd::prelude::*;

verus! {

/// One file variant of a media, such as the original upload or a
/// transcoded rendition.
#[derive(Default, Debug, Clone, PartialEq)]
pub struct Asset {
    pub content_type: String,
    pub file_size: u64,
    /// The asset type tag, such as `OriginalFile` or `Mp4Video`.
    pub type_field: String,
    pub url: String,
    /// Not populated for audio (or alternate audio) files.
    pub height: u64,
    /// Not populated for audio (or alternate audio) files.
    pub width: u64,
}

} // verus!
