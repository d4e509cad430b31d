//! A request to download an asset URL.

use vstd::prelude::*;

verus! {

use crate::models::media::Media;

/// Represents a request to download an asset URL: the media, named by its
/// id or given as a record, the asset type wanted, and where to save it.
#[derive(Default, Debug)]
pub struct DownloadAssetRequest {
    /// The id of the Wistia media to download.
    pub media_id: Option<String>,
    /// The Wistia media to download, when a record is already at hand.
    pub media: Option<Media>,
    /// The media asset type to download.
    pub asset_type: Option<String>,
    /// A local file path to save the downloaded media content to.
    pub file_path: Option<String>,
}

impl DownloadAssetRequest {
    /// A request naming the media by its id.
    pub fn from_media_id(media_id: &str) -> (r: Self)
        ensures
            r.media_id matches Some(m) && m@ == media_id@,
            r.media is None,
            r.asset_type is None,
            r.file_path is None,
    {
        DownloadAssetRequest {
            media_id: Some(media_id.to_owned()),
            media: None,
            asset_type: None,
            file_path: None,
        }
    }

    /// A request carrying the media record itself.
    pub fn from_media(media: Media) -> (r: Self)
        ensures
            r.media_id is None,
            r.media == Some(media),
            r.asset_type is None,
            r.file_path is None,
    {
        DownloadAssetRequest { media_id: None, media: Some(media), asset_type: None, file_path: None }
    }

    /// Sets the media asset type to download from Wistia.
    pub fn asset_type(self, asset_type: &str) -> (r: Self)
        ensures
            r.media_id == self.media_id,
            r.media == self.media,
            r.asset_type matches Some(t) && t@ == asset_type@,
            r.file_path == self.file_path,
    {
        DownloadAssetRequest { asset_type: Some(asset_type.to_owned()), ..self }
    }

    /// Sets a local file path to save the downloaded media content to.
    pub fn file_path(self, file_path: &str) -> (r: Self)
        ensures
            r.media_id == self.media_id,
            r.media == self.media,
            r.asset_type == self.asset_type,
            r.file_path matches Some(p) && p@ == file_path@,
    {
        DownloadAssetRequest { file_path: Some(file_path.to_owned()), ..self }
    }
}

} // verus!
