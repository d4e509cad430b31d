//! The full media record of the Data API, and the asset URL resolver.

use vstd::prelude::*;

verus! {

use crate::constants::DEFAULT_FILENAME;
use crate::constants::ORIGINAL_ASSET;
use crate::error::RustWistiaError;
use crate::models::asset::Asset;
use crate::models::media_type::MediaType;
use crate::models::project::ProjectInfo;
use crate::models::status::MediaStatus;
use crate::models::thumbnail::Thumbnail;
use crate::strings::ends_with;
use crate::strings::find_last_char;
use crate::strings::str_eq;
use crate::strings::str_ends_with;
use crate::strings::string_views;
use vstd::string::StrSliceExecFns;
use vstd::string::StringExecFns;

/// A media record, as the Data API returns it.
#[derive(Debug, PartialEq)]
pub struct Media {
    /// The stable external identifier of the media.
    pub hashed_id: String,
    pub id: u64,
    pub name: String,
    pub type_field: MediaType,
    pub created: String,
    pub updated: String,
    /// Only videos have this attribute set; it carries the decimal text of
    /// the duration in seconds, as the response gave it.
    pub duration: Option<String>,
    pub status: MediaStatus,
    pub description: String,
    /// The decimal text of the processing progress, between 0 and 1, as
    /// the response gave it.
    pub progress: String,
    pub thumbnail: Thumbnail,
    pub project: ProjectInfo,
    pub embed_code: String,
    pub assets: Vec<Asset>,
    pub section: Option<String>,
    pub archived: bool,
}

/// The type tags of a list of assets, in their original order.
pub open spec fn asset_types(assets: Seq<Asset>) -> Seq<Seq<char>> {
    assets.map_values(|a: Asset| a.type_field@)
}

/// The URL of the first asset whose type tag is `t`, if any.
pub open spec fn find_asset(assets: Seq<Asset>, t: Seq<char>) -> Option<Seq<char>>
    decreases assets.len(),
{
    if assets.len() == 0 {
        None
    } else if assets[0].type_field@ == t {
        Some(assets[0].url@)
    } else {
        find_asset(assets.drop_first(), t)
    }
}

/// The asset type a caller asked for: the given one, or the original
/// source asset by default.
pub open spec fn requested_type(asset_type: Option<&str>) -> Seq<char> {
    match asset_type {
        Some(s) => s@,
        None => "OriginalFile"@,
    }
}

/// The error that reports a missing asset type on a media: it carries the
/// requested type, the media's hashed id, and every present type tag in
/// original order.
pub open spec fn is_asset_not_found(e: RustWistiaError, t: Seq<char>, m: Media) -> bool {
    &&& e matches RustWistiaError::AssetNotFound { asset_type, video_id, valid_types }
    &&& asset_type@ == t
    &&& video_id@ == m.hashed_id@
    &&& string_views(valid_types@) == asset_types(m.assets@)
}

/// A delivery URL's final path segment, with a trailing `.bin` suffix
/// stripped.
pub open spec fn strip_bin(seg: Seq<char>) -> Seq<char> {
    if ends_with(seg, ".bin"@) {
        seg.take(seg.len() - 4)
    } else {
        seg
    }
}

/// The secure delivery URL derived from an insecure asset URL: the final
/// path segment, without a trailing `.bin`, becomes the delivery id of a
/// fixed HTTPS location. A URL without any `/` yields nothing.
pub open spec fn secure_url_of(url: Seq<char>) -> Option<Seq<char>> {
    match url.index_of_last('/') {
        Some(i) => Some(
            "https://embed-ssl.wistia.com/deliveries/"@ + strip_bin(
                url.subrange(i + 1, url.len() as int),
            ) + "/"@ + "file.mp4"@,
        ),
        None => None,
    }
}

/// Searching past a prefix without a match finds the same asset.
proof fn lemma_find_asset_skip(assets: Seq<Asset>, t: Seq<char>, i: int)
    requires
        0 <= i <= assets.len(),
        forall|j: int| 0 <= j < i ==> assets[j].type_field@ != t,
    ensures
        find_asset(assets, t) == find_asset(assets.skip(i), t),
    decreases i,
{
    if i > 0 {
        assert(assets.skip(1) =~= assets.drop_first());
        lemma_find_asset_skip(assets.drop_first(), t, i - 1);
        assert(assets.drop_first().skip(i - 1) =~= assets.skip(i));
    } else {
        assert(assets.skip(0) =~= assets);
    }
}

impl Media {
    /// Retrieve the asset URL for the original source media that was
    /// uploaded, as a secure delivery URL.
    pub fn source_url(&self) -> (r: Result<String, RustWistiaError>)
        ensures
            ({
                let t = requested_type(None);
                match find_asset(self.assets@, t) {
                    Some(url) => match secure_url_of(url) {
                        Some(s) => r matches Ok(u) && u@ == s,
                        None => r matches Err(e) && e is Unknown,
                    },
                    None => r matches Err(e) && is_asset_not_found(e, t, *self),
                }
            }),
    {
        self.asset_url(None)
    }

    /// Retrieve the secure (HTTPS) delivery URL for a specified asset
    /// type, which defaults to the original source media.
    ///
    /// The URL is derived from the insecure asset URL by taking its final
    /// path segment as a delivery id, stripping a trailing `.bin` suffix,
    /// and placing it in the fixed delivery location. An asset URL without
    /// any path separator fails rather than produce a nonsensical id.
    pub fn asset_url(&self, asset_type: Option<&str>) -> (r: Result<String, RustWistiaError>)
        ensures
            ({
                let t = requested_type(asset_type);
                match find_asset(self.assets@, t) {
                    Some(url) => match secure_url_of(url) {
                        Some(s) => r matches Ok(u) && u@ == s,
                        None => r matches Err(e) && e is Unknown,
                    },
                    None => r matches Err(e) && is_asset_not_found(e, t, *self),
                }
            }),
    {
        let url = match self.asset_url_insecure(asset_type) {
            Ok(u) => u,
            Err(e) => {
                return Err(e);
            },
        };
        let s = url.as_str();
        let n = s.unicode_len();
        let idx = match find_last_char(s, '/') {
            Some(i) => i,
            None => {
                proof {
                    crate::strings::lemma_index_of_last_none(url@, '/');
                }
                return Err(RustWistiaError::Unknown);
            },
        };
        proof {
            crate::strings::lemma_index_of_last_is(url@, '/', idx as int);
        }
        let seg = s.substring_char(idx + 1, n);
        let id = if str_ends_with(seg, ".bin") {
            proof {
                reveal_strlit(".bin");
            }
            let m = seg.unicode_len();
            seg.substring_char(0, m - 4)
        } else {
            seg
        };
        assert(id@ == strip_bin(url@.subrange(idx + 1, url@.len() as int)));
        let mut out = "https://embed-ssl.wistia.com/deliveries/".to_owned();
        out.append(id);
        out.append("/");
        out.append(DEFAULT_FILENAME);
        Ok(out)
    }

    /// Retrieve the insecure asset URL for a specified asset type, which
    /// defaults to the original source media: the URL of the first asset
    /// whose type tag matches exactly. When no asset matches, the error
    /// carries every present type tag, in original order.
    pub fn asset_url_insecure(&self, asset_type: Option<&str>) -> (r: Result<
        String,
        RustWistiaError,
    >)
        ensures
            ({
                let t = requested_type(asset_type);
                match r {
                    Ok(url) => find_asset(self.assets@, t) == Some(url@),
                    Err(e) => find_asset(self.assets@, t) is None && is_asset_not_found(
                        e,
                        t,
                        *self,
                    ),
                }
            }),
    {
        let target: &str = match asset_type {
            Some(s) => s,
            None => ORIGINAL_ASSET,
        };
        let ghost t = requested_type(asset_type);
        assert(target@ == t);
        let mut i: usize = 0;
        while i < self.assets.len()
            invariant
                i <= self.assets@.len(),
                target@ == t,
                t == requested_type(asset_type),
                forall|j: int| 0 <= j < i ==> self.assets@[j].type_field@ != t,
            decreases self.assets@.len() - i,
        {
            if str_eq(self.assets[i].type_field.as_str(), target) {
                proof {
                    lemma_find_asset_skip(self.assets@, t, i as int);
                    let rest = self.assets@.skip(i as int);
                    assert(rest.len() > 0);
                    assert(rest[0] == self.assets@[i as int]);
                    assert(rest[0].type_field@ == t);
                    assert(find_asset(rest, t) == Some(rest[0].url@));
                }
                let u = self.assets[i].url.clone();
                assert(u@ == self.assets@[i as int].url@);
                assert(find_asset(self.assets@, t) == Some(u@));
                return Ok(u);
            }
            i += 1;
        }
        proof {
            lemma_find_asset_skip(self.assets@, t, self.assets@.len() as int);
            assert(self.assets@.skip(self.assets@.len() as int) =~= Seq::<Asset>::empty());
        }
        let mut valid_types: Vec<String> = Vec::new();
        let mut k: usize = 0;
        while k < self.assets.len()
            invariant
                k <= self.assets@.len(),
                valid_types@.len() == k,
                forall|j: int| 0 <= j < k ==> valid_types@[j]@ == self.assets@[j].type_field@,
            decreases self.assets@.len() - k,
        {
            valid_types.push(self.assets[k].type_field.clone());
            k += 1;
        }
        proof {
            assert(string_views(valid_types@) =~= asset_types(self.assets@));
        }
        Err(
            RustWistiaError::AssetNotFound {
                asset_type: target.to_owned(),
                video_id: self.hashed_id.clone(),
                valid_types,
            },
        )
    }
}

} // verus!
