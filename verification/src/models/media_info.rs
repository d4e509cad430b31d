//! The narrower media record that a media update returns.

use vstd::prelude::*;

verus! {

use crate::models::media_type::MediaType;
use crate::models::status::MediaStatus;
use crate::models::thumbnail::Thumbnail;

/// The media record returned by an update: unlike `Media` it carries no
/// assets, no project and no archived flag. The Data API intentionally
/// returns this narrower shape there.
#[derive(Debug, PartialEq)]
pub struct MediaInfo {
    /// The stable external identifier of the media.
    pub hashed_id: String,
    pub id: u64,
    pub name: String,
    pub type_field: MediaType,
    pub created: String,
    pub updated: String,
    /// Only videos have this attribute set; it carries the decimal text of
    /// the duration in seconds, as the response gave it.
    pub duration: Option<String>,
    pub status: MediaStatus,
    pub description: String,
    /// The decimal text of the processing progress, between 0 and 1, as
    /// the response gave it.
    pub progress: String,
    pub thumbnail: Thumbnail,
    pub section: Option<String>,
}

} // verus!
