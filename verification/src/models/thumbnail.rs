//! The thumbnail of a media.

use vstd::prelude::*;

verus! {

/// An object representing the thumbnail for a media.
#[derive(Default, Debug, PartialEq)]
pub struct Thumbnail {
    pub url: String,
    pub width: u64,
    pub height: u64,
}

} // verus!
