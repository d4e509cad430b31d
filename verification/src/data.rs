//! Building Data API requests: media URLs and update queries.

use vstd::prelude::*;

verus! {

use crate::encoding::append_query;
use crate::encoding::with_query;
use crate::models::update_request::update_pairs;
use crate::models::update_request::UpdateMediaRequest;
use vstd::string::StringExecFns;

/// The URL of a media on the Data API: the fixed base with the hashed id
/// in the path.
pub open spec fn media_url_of(video_id: Seq<char>) -> Seq<char> {
    "https://api.wistia.com/v1/medias/"@ + video_id + ".json"@
}

/// The URL an update request is sent to: the media URL, with the encoded
/// query of the set fields appended; no `?` at all when no field is set.
pub open spec fn update_url_of(req: UpdateMediaRequest) -> Seq<char> {
    with_query(media_url_of(req.id@), update_pairs(req))
}

/// The URL a media is fetched from.
pub fn get_media_url(video_id: &str) -> (r: String)
    ensures
        r@ == media_url_of(video_id@),
{
    let mut url = "https://api.wistia.com/v1/medias/".to_owned();
    url.append(video_id);
    url.append(".json");
    url
}

/// The URL an update request is sent to: the set fields, URL-encoded, form
/// the query; the id stands only in the path. An empty query appends no
/// bare `?`.
pub fn update_media_url(req: &UpdateMediaRequest) -> (r: String)
    ensures
        r@ == update_url_of(*req),
{
    let pairs = req.query_pairs();
    let base = get_media_url(req.id.as_str());
    append_query(base.as_str(), &pairs)
}

} // verus!
