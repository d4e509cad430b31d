//! The processing status of a media file.

use vstd::prelude::*;

verus! {

use crate::strings::str_eq;

/// Media files return a response attribute called status.
///
/// After upload is complete, media files must be processed. Status
/// indicates which stage in processing the file is at.
#[derive(Debug, Clone, Copy, PartialEq, Eq, Structural)]
pub enum MediaStatus {
    /// The file is waiting in the queue to be processed.
    Queued,
    /// The file is actively being processed.
    Processing,
    /// The file has been fully processed and is ready for embedding and
    /// viewing.
    Ready,
    /// The file was unable to be processed.
    Failed,
}

impl Default for MediaStatus {
    /// A media whose response carries no status is queued.
    fn default() -> (r: Self)
        ensures
            r == MediaStatus::Queued,
    {
        MediaStatus::Queued
    }
}

/// The status named by its lower-case wire text, if any.
pub open spec fn status_of_text(s: Seq<char>) -> Option<MediaStatus> {
    if s == "queued"@ {
        Some(MediaStatus::Queued)
    } else if s == "processing"@ {
        Some(MediaStatus::Processing)
    } else if s == "ready"@ {
        Some(MediaStatus::Ready)
    } else if s == "failed"@ {
        Some(MediaStatus::Failed)
    } else {
        None
    }
}

/// Decode the wire text of a status.
pub fn media_status_from_text(s: &str) -> (r: Option<MediaStatus>)
    ensures
        r == status_of_text(s@),
{
    if str_eq(s, "queued") {
        Some(MediaStatus::Queued)
    } else if str_eq(s, "processing") {
        Some(MediaStatus::Processing)
    } else if str_eq(s, "ready") {
        Some(MediaStatus::Ready)
    } else if str_eq(s, "failed") {
        Some(MediaStatus::Failed)
    } else {
        None
    }
}

} // verus!
