//! The response of the Upload API.

use vstd::prelude::*;

verus! {

use crate::models::media_type::MediaType;
use crate::models::status::MediaStatus;
use crate::models::thumbnail::Thumbnail;

/// The record the Upload API returns for an accepted upload.
#[derive(Debug, PartialEq)]
pub struct UploadResponse {
    pub id: u64,
    pub name: String,
    pub media_type: MediaType,
    pub created: String,
    pub updated: String,
    /// Not populated when uploading URL links; it carries the decimal text
    /// of the duration in seconds, `0` when absent.
    pub duration: String,
    pub hashed_id: String,
    /// An empty description in the response is normalized away: this is
    /// never `Some` of an empty string.
    pub description: Option<String>,
    /// The decimal text of the processing progress, between 0 and 1.
    pub progress: String,
    /// Queued when the response carries no status.
    pub status: MediaStatus,
    pub thumbnail: Thumbnail,
    pub account_id: u64,
}

/// Normalize a raw description: an empty string becomes `None`, anything
/// else is kept.
pub fn empty_string_is_none(s: String) -> (r: Option<String>)
    ensures
        r == (if s@.len() == 0 {
            None::<String>
        } else {
            Some(s)
        }),
{
    if s.as_str().is_empty() {
        None
    } else {
        Some(s)
    }
}

} // verus!
