//! Decoding parsed JSON documents into the model types.
//!
//! A document comes in as an opaque parsed value whose content is
//! modelled by `JsonModel`; every decision on shape, required fields,
//! defaults and normalization is made here, in verified code, and each
//! decoder's contract fixes its result over that model. Unknown fields
//! are ignored; a field of the wrong type fails the whole decode.

use vstd::prelude::*;

verus! {

use crate::error::RustWistiaError;
use crate::error::WistiaError;
use crate::json::dec_chars;
use crate::json::json_as_array;
use crate::json::json_as_bool;
use crate::json::json_as_str;
use crate::json::json_as_u64;
use crate::json::json_doc_of;
use crate::json::json_error;
use crate::json::json_get;
use crate::json::json_is_null;
use crate::json::json_is_object;
use crate::json::json_number_text;
use crate::json::obj_field;
use crate::json::parse_json;
use crate::json::value_model;
use crate::json::JsonModel;
use crate::models::asset::Asset;
use crate::models::media::Media;
use crate::models::media_info::MediaInfo;
use crate::models::media_type::media_type_from_text;
use crate::models::media_type::media_type_of_text;
use crate::models::media_type::MediaType;
use crate::models::project::ProjectInfo;
use crate::models::status::media_status_from_text;
use crate::models::status::status_of_text;
use crate::models::status::MediaStatus;
use crate::models::thumbnail::Thumbnail;
use crate::models::upload_response::empty_string_is_none;
use crate::models::upload_response::UploadResponse;
use crate::strings::opt_string_view;
use crate::strings::str_trim;
use crate::strings::trim_of;

/// A required string field: its content, when the document has it as a
/// string.
pub open spec fn str_field(d: JsonModel, key: Seq<char>) -> Option<Seq<char>> {
    match obj_field(d, key) {
        Some(JsonModel::Str(s)) => Some(s),
        _ => None,
    }
}

/// A string field that defaults to the empty string when absent.
pub open spec fn str_or_empty_field(d: JsonModel, key: Seq<char>) -> Option<Seq<char>> {
    match obj_field(d, key) {
        None => Some(Seq::empty()),
        Some(JsonModel::Str(s)) => Some(s),
        Some(_) => None,
    }
}

/// An optional string field: absent or null is nothing, a string is
/// kept, anything else fails.
pub open spec fn opt_str_field(d: JsonModel, key: Seq<char>) -> Option<Option<Seq<char>>> {
    match obj_field(d, key) {
        None => Some(None),
        Some(JsonModel::Null) => Some(None),
        Some(JsonModel::Str(s)) => Some(Some(s)),
        Some(_) => None,
    }
}

/// True when the document's field is a number holding an unsigned
/// integer: its text is the plain decimal digits of some `u64`.
pub open spec fn u64_field_ok(d: JsonModel, key: Seq<char>) -> bool {
    exists|n: u64| obj_field(d, key) == Some(JsonModel::NumText(dec_chars(n as nat)))
}

/// True when the document's field is an unsigned integer that defaults
/// to zero when absent.
pub open spec fn u64_or_zero_field_ok(d: JsonModel, key: Seq<char>) -> bool {
    obj_field(d, key) is None || u64_field_ok(d, key)
}

/// How a defaulted unsigned field relates to its decoded value: zero
/// when absent, the held number otherwise.
pub open spec fn u64_or_zero_field_is(d: JsonModel, key: Seq<char>, n: u64) -> bool {
    match obj_field(d, key) {
        None => n == 0,
        Some(_) => obj_field(d, key) == Some(JsonModel::NumText(dec_chars(n as nat))),
    }
}

/// A required number field, kept as its decimal text.
pub open spec fn num_text_field(d: JsonModel, key: Seq<char>) -> Option<Seq<char>> {
    match obj_field(d, key) {
        Some(JsonModel::NumText(t)) => Some(t),
        _ => None,
    }
}

/// A number field that defaults to zero when absent, kept as its decimal
/// text.
pub open spec fn num_text_or_zero_field(d: JsonModel, key: Seq<char>) -> Option<Seq<char>> {
    match obj_field(d, key) {
        None => Some(dec_chars(0)),
        Some(JsonModel::NumText(t)) => Some(t),
        Some(_) => None,
    }
}

/// An optional number field: absent or null is nothing, a number is kept
/// as its decimal text, anything else fails.
pub open spec fn opt_num_text_field(d: JsonModel, key: Seq<char>) -> Option<Option<Seq<char>>> {
    match obj_field(d, key) {
        None => Some(None),
        Some(JsonModel::Null) => Some(None),
        Some(JsonModel::NumText(t)) => Some(Some(t)),
        Some(_) => None,
    }
}

/// A boolean field that defaults to false when absent.
pub open spec fn bool_or_false_field(d: JsonModel, key: Seq<char>) -> Option<bool> {
    match obj_field(d, key) {
        None => Some(false),
        Some(JsonModel::Bool(b)) => Some(b),
        Some(_) => None,
    }
}

/// A required status field, decoded from its lower-case wire text.
pub open spec fn status_field(d: JsonModel, key: Seq<char>) -> Option<MediaStatus> {
    match obj_field(d, key) {
        Some(JsonModel::Str(s)) => status_of_text(s),
        _ => None,
    }
}

/// A status field that defaults to queued when absent.
pub open spec fn status_or_queued_field(d: JsonModel, key: Seq<char>) -> Option<MediaStatus> {
    match obj_field(d, key) {
        None => Some(MediaStatus::Queued),
        Some(JsonModel::Str(s)) => status_of_text(s),
        Some(_) => None,
    }
}

/// A required media type field, decoded from its wire text.
pub open spec fn media_type_field(d: JsonModel, key: Seq<char>) -> Option<MediaType> {
    match obj_field(d, key) {
        Some(JsonModel::Str(s)) => media_type_of_text(s),
        _ => None,
    }
}

/// A required string field.
fn field_string(v: &serde_json::Value, key: &str) -> (r: Option<String>)
    ensures
        r is Some <==> str_field(value_model(*v), key@) is Some,
        r matches Some(s) ==> str_field(value_model(*v), key@) == Some(s@),
{
    match json_get(v, key) {
        Some(x) => json_as_str(x),
        None => None,
    }
}

/// A string field that defaults to the empty string when absent.
fn field_string_or_empty(v: &serde_json::Value, key: &str) -> (r: Option<String>)
    ensures
        r is Some <==> str_or_empty_field(value_model(*v), key@) is Some,
        r matches Some(s) ==> str_or_empty_field(value_model(*v), key@) == Some(s@),
{
    match json_get(v, key) {
        Some(x) => json_as_str(x),
        None => Some(String::new()),
    }
}

/// An optional string field: absent or null is nothing, a string is
/// kept, anything else fails.
fn field_opt_string(v: &serde_json::Value, key: &str) -> (r: Option<Option<String>>)
    ensures
        r is Some <==> opt_str_field(value_model(*v), key@) is Some,
        r matches Some(o) ==> opt_str_field(value_model(*v), key@) == Some(opt_string_view(o)),
{
    match json_get(v, key) {
        Some(x) => {
            if json_is_null(x) {
                Some(None)
            } else {
                match json_as_str(x) {
                    Some(s) => Some(Some(s)),
                    None => None,
                }
            }
        },
        None => Some(None),
    }
}

/// A required unsigned integer field.
fn field_u64(v: &serde_json::Value, key: &str) -> (r: Option<u64>)
    ensures
        r is Some <==> u64_field_ok(value_model(*v), key@),
        r matches Some(n) ==> obj_field(value_model(*v), key@) == Some(
            JsonModel::NumText(dec_chars(n as nat)),
        ),
{
    match json_get(v, key) {
        Some(x) => {
            let r = json_as_u64(x);
            proof {
                if r is None && u64_field_ok(value_model(*v), key@) {
                    let n = choose|n: u64|
                        obj_field(value_model(*v), key@) == Some(
                            JsonModel::NumText(dec_chars(n as nat)),
                        );
                    assert(value_model(*x) == JsonModel::NumText(dec_chars(n as nat)));
                    assert(r == Some(n));
                }
            }
            r
        },
        None => {
            proof {
                if u64_field_ok(value_model(*v), key@) {
                    let n = choose|n: u64|
                        obj_field(value_model(*v), key@) == Some(
                            JsonModel::NumText(dec_chars(n as nat)),
                        );
                    assert(obj_field(value_model(*v), key@) is Some);
                }
            }
            None
        },
    }
}

/// An unsigned integer field that defaults to zero when absent.
fn field_u64_or_zero(v: &serde_json::Value, key: &str) -> (r: Option<u64>)
    ensures
        r is Some <==> u64_or_zero_field_ok(value_model(*v), key@),
        r matches Some(n) ==> u64_or_zero_field_is(value_model(*v), key@, n),
{
    match json_get(v, key) {
        Some(x) => {
            let r = json_as_u64(x);
            proof {
                if r is None && u64_field_ok(value_model(*v), key@) {
                    let n = choose|n: u64|
                        obj_field(value_model(*v), key@) == Some(
                            JsonModel::NumText(dec_chars(n as nat)),
                        );
                    assert(value_model(*x) == JsonModel::NumText(dec_chars(n as nat)));
                    assert(r == Some(n));
                }
            }
            r
        },
        None => Some(0),
    }
}

/// A required number field, kept as its decimal text.
fn field_number_text(v: &serde_json::Value, key: &str) -> (r: Option<String>)
    ensures
        r is Some <==> num_text_field(value_model(*v), key@) is Some,
        r matches Some(t) ==> num_text_field(value_model(*v), key@) == Some(t@),
{
    match json_get(v, key) {
        Some(x) => json_number_text(x),
        None => None,
    }
}

/// A number field that defaults to zero when absent, kept as its decimal
/// text.
fn field_number_text_or_zero(v: &serde_json::Value, key: &str) -> (r: Option<String>)
    ensures
        r is Some <==> num_text_or_zero_field(value_model(*v), key@) is Some,
        r matches Some(t) ==> num_text_or_zero_field(value_model(*v), key@) == Some(t@),
{
    match json_get(v, key) {
        Some(x) => json_number_text(x),
        None => {
            let zero = "0".to_owned();
            proof {
                reveal_strlit("0");
                crate::strings::lemma_dec_digits_ascii(0);
                assert(dec_chars(0) =~= "0"@);
            }
            Some(zero)
        },
    }
}

/// An optional number field: absent or null is nothing, a number is kept
/// as its decimal text, anything else fails.
fn field_opt_number_text(v: &serde_json::Value, key: &str) -> (r: Option<Option<String>>)
    ensures
        r is Some <==> opt_num_text_field(value_model(*v), key@) is Some,
        r matches Some(o) ==> opt_num_text_field(value_model(*v), key@) == Some(opt_string_view(o)),
{
    match json_get(v, key) {
        Some(x) => {
            if json_is_null(x) {
                Some(None)
            } else {
                match json_number_text(x) {
                    Some(t) => Some(Some(t)),
                    None => None,
                }
            }
        },
        None => Some(None),
    }
}

/// A boolean field that defaults to false when absent.
fn field_bool_or_false(v: &serde_json::Value, key: &str) -> (r: Option<bool>)
    ensures
        r == bool_or_false_field(value_model(*v), key@),
{
    match json_get(v, key) {
        Some(x) => json_as_bool(x),
        None => Some(false),
    }
}

/// A required media type field.
fn field_media_type(v: &serde_json::Value, key: &str) -> (r: Option<MediaType>)
    ensures
        r == media_type_field(value_model(*v), key@),
{
    match field_string(v, key) {
        Some(s) => media_type_from_text(s.as_str()),
        None => None,
    }
}

/// A status field that defaults to queued when absent.
fn field_status_or_default(v: &serde_json::Value, key: &str) -> (r: Option<MediaStatus>)
    ensures
        r == status_or_queued_field(value_model(*v), key@),
{
    match json_get(v, key) {
        Some(x) => match json_as_str(x) {
            Some(s) => media_status_from_text(s.as_str()),
            None => None,
        },
        None => Some(MediaStatus::Queued),
    }
}

/// A required status field.
fn field_status(v: &serde_json::Value, key: &str) -> (r: Option<MediaStatus>)
    ensures
        r == status_field(value_model(*v), key@),
{
    match field_string(v, key) {
        Some(s) => media_status_from_text(s.as_str()),
        None => None,
    }
}

/// The shape of a thumbnail object: a string URL and unsigned dimensions.
pub open spec fn thumbnail_doc_ok(d: JsonModel) -> bool {
    &&& str_field(d, "url"@) is Some
    &&& u64_field_ok(d, "width"@)
    &&& u64_field_ok(d, "height"@)
}

/// How a decoded thumbnail relates to its document.
pub open spec fn thumbnail_matches_doc(t: Thumbnail, d: JsonModel) -> bool {
    &&& str_field(d, "url"@) == Some(t.url@)
    &&& obj_field(d, "width"@) == Some(JsonModel::NumText(dec_chars(t.width as nat)))
    &&& obj_field(d, "height"@) == Some(JsonModel::NumText(dec_chars(t.height as nat)))
}

/// Decode a thumbnail object.
fn thumbnail_from_value(v: &serde_json::Value) -> (r: Option<Thumbnail>)
    ensures
        r is Some <==> thumbnail_doc_ok(value_model(*v)),
        r matches Some(t) ==> thumbnail_matches_doc(t, value_model(*v)),
{
    let url = field_string(v, "url")?;
    let width = field_u64(v, "width")?;
    let height = field_u64(v, "height")?;
    Some(Thumbnail { url, width, height })
}

/// The shape of a project reference object.
pub open spec fn project_doc_ok(d: JsonModel) -> bool {
    &&& str_field(d, "hashed_id"@) is Some
    &&& u64_field_ok(d, "id"@)
    &&& str_field(d, "name"@) is Some
}

/// How a decoded project reference relates to its document.
pub open spec fn project_matches_doc(p: ProjectInfo, d: JsonModel) -> bool {
    &&& str_field(d, "hashed_id"@) == Some(p.hashed_id@)
    &&& obj_field(d, "id"@) == Some(JsonModel::NumText(dec_chars(p.id as nat)))
    &&& str_field(d, "name"@) == Some(p.name@)
}

/// Decode a project reference object.
fn project_from_value(v: &serde_json::Value) -> (r: Option<ProjectInfo>)
    ensures
        r is Some <==> project_doc_ok(value_model(*v)),
        r matches Some(p) ==> project_matches_doc(p, value_model(*v)),
{
    let hashed_id = field_string(v, "hashed_id")?;
    let id = field_u64(v, "id")?;
    let name = field_string(v, "name")?;
    Some(ProjectInfo { hashed_id, id, name })
}

/// The shape of one asset object; its wire field names are camel-cased,
/// and the dimensions default to zero when absent.
pub open spec fn asset_doc_ok(d: JsonModel) -> bool {
    &&& str_field(d, "contentType"@) is Some
    &&& u64_field_ok(d, "fileSize"@)
    &&& str_field(d, "type"@) is Some
    &&& str_field(d, "url"@) is Some
    &&& u64_or_zero_field_ok(d, "height"@)
    &&& u64_or_zero_field_ok(d, "width"@)
}

/// How a decoded asset relates to its document.
pub open spec fn asset_matches_doc(a: Asset, d: JsonModel) -> bool {
    &&& str_field(d, "contentType"@) == Some(a.content_type@)
    &&& obj_field(d, "fileSize"@) == Some(JsonModel::NumText(dec_chars(a.file_size as nat)))
    &&& str_field(d, "type"@) == Some(a.type_field@)
    &&& str_field(d, "url"@) == Some(a.url@)
    &&& u64_or_zero_field_is(d, "height"@, a.height)
    &&& u64_or_zero_field_is(d, "width"@, a.width)
}

/// Decode one asset object.
fn asset_from_value(v: &serde_json::Value) -> (r: Option<Asset>)
    ensures
        r is Some <==> asset_doc_ok(value_model(*v)),
        r matches Some(a) ==> asset_matches_doc(a, value_model(*v)),
{
    let content_type = field_string(v, "contentType")?;
    let file_size = field_u64(v, "fileSize")?;
    let type_field = field_string(v, "type")?;
    let url = field_string(v, "url")?;
    let height = field_u64_or_zero(v, "height")?;
    let width = field_u64_or_zero(v, "width")?;
    Some(Asset { content_type, file_size, type_field, url, height, width })
}

/// The elements of an array document.
pub open spec fn arr_items(d: JsonModel) -> Seq<JsonModel>
    recommends
        d is Arr,
{
    match d {
        JsonModel::Arr(items) => items,
        _ => Seq::empty(),
    }
}

/// The shape of an asset list: an array of well-shaped asset objects.
pub open spec fn assets_doc_ok(d: JsonModel) -> bool {
    &&& d is Arr
    &&& forall|i: int| 0 <= i < arr_items(d).len() ==> asset_doc_ok(#[trigger] arr_items(d)[i])
}

/// How a decoded asset list relates to its document: element by element,
/// in order.
pub open spec fn assets_match_doc(a: Seq<Asset>, d: JsonModel) -> bool {
    &&& d is Arr
    &&& a.len() == arr_items(d).len()
    &&& forall|i: int| 0 <= i < a.len() ==> asset_matches_doc(#[trigger] a[i], arr_items(d)[i])
}

/// Decode the asset list of a media.
fn assets_from_value(v: &serde_json::Value) -> (r: Option<Vec<Asset>>)
    ensures
        r is Some <==> assets_doc_ok(value_model(*v)),
        r matches Some(a) ==> assets_match_doc(a@, value_model(*v)),
{
    let items = match json_as_array(v) {
        Some(a) => a,
        None => {
            return None;
        },
    };
    let ghost models = crate::json::arr_models(items@);
    let mut out: Vec<Asset> = Vec::new();
    let mut i: usize = 0;
    while i < items.len()
        invariant
            i <= items@.len(),
            models == crate::json::arr_models(items@),
            models.len() == items@.len(),
            value_model(*v) == JsonModel::Arr(models),
            arr_items(value_model(*v)) == models,
            out@.len() == i,
            forall|j: int| 0 <= j < i ==> asset_doc_ok(#[trigger] models[j]),
            forall|j: int| 0 <= j < i ==> asset_matches_doc(#[trigger] out@[j], models[j]),
        decreases items@.len() - i,
    {
        proof {
            assert(models[i as int] == value_model(items@[i as int]));
        }
        match asset_from_value(&items[i]) {
            Some(a) => out.push(a),
            None => {
                proof {
                    assert(!asset_doc_ok(models[i as int]));
                    assert(arr_items(value_model(*v))[i as int] == models[i as int]);
                }
                return None;
            },
        }
        i += 1;
    }
    proof {
        assert forall|j: int| 0 <= j < arr_items(value_model(*v)).len() implies asset_doc_ok(
            #[trigger] arr_items(value_model(*v))[j],
        ) by {
            assert(arr_items(value_model(*v))[j] == models[j]);
        }
        assert forall|j: int| 0 <= j < out@.len() implies asset_matches_doc(
            #[trigger] out@[j],
            arr_items(value_model(*v))[j],
        ) by {
            assert(arr_items(value_model(*v))[j] == models[j]);
        }
    }
    Some(out)
}

/// The shape of a full media document.
pub open spec fn media_doc_ok(d: JsonModel) -> bool {
    &&& str_field(d, "hashed_id"@) is Some
    &&& u64_field_ok(d, "id"@)
    &&& str_field(d, "name"@) is Some
    &&& media_type_field(d, "type"@) is Some
    &&& str_field(d, "created"@) is Some
    &&& str_field(d, "updated"@) is Some
    &&& opt_num_text_field(d, "duration"@) is Some
    &&& status_field(d, "status"@) is Some
    &&& str_or_empty_field(d, "description"@) is Some
    &&& num_text_or_zero_field(d, "progress"@) is Some
    &&& obj_field(d, "thumbnail"@) matches Some(td) && thumbnail_doc_ok(td)
    &&& obj_field(d, "project"@) matches Some(pd) && project_doc_ok(pd)
    &&& str_or_empty_field(d, "embedCode"@) is Some
    &&& obj_field(d, "assets"@) matches Some(ad) && assets_doc_ok(ad)
    &&& opt_str_field(d, "section"@) is Some
    &&& bool_or_false_field(d, "archived"@) is Some
}

/// How a decoded media record relates to its document: every field is
/// fixed by the document, defaults included.
pub open spec fn media_matches_doc(m: Media, d: JsonModel) -> bool {
    &&& str_field(d, "hashed_id"@) == Some(m.hashed_id@)
    &&& obj_field(d, "id"@) == Some(JsonModel::NumText(dec_chars(m.id as nat)))
    &&& str_field(d, "name"@) == Some(m.name@)
    &&& media_type_field(d, "type"@) == Some(m.type_field)
    &&& str_field(d, "created"@) == Some(m.created@)
    &&& str_field(d, "updated"@) == Some(m.updated@)
    &&& opt_num_text_field(d, "duration"@) == Some(opt_string_view(m.duration))
    &&& status_field(d, "status"@) == Some(m.status)
    &&& str_or_empty_field(d, "description"@) == Some(m.description@)
    &&& num_text_or_zero_field(d, "progress"@) == Some(m.progress@)
    &&& obj_field(d, "thumbnail"@) matches Some(td) && thumbnail_matches_doc(m.thumbnail, td)
    &&& obj_field(d, "project"@) matches Some(pd) && project_matches_doc(m.project, pd)
    &&& str_or_empty_field(d, "embedCode"@) == Some(m.embed_code@)
    &&& obj_field(d, "assets"@) matches Some(ad) && assets_match_doc(m.assets@, ad)
    &&& opt_str_field(d, "section"@) == Some(opt_string_view(m.section))
    &&& bool_or_false_field(d, "archived"@) == Some(m.archived)
}

/// Decode a full media record.
fn media_from_value(v: &serde_json::Value) -> (r: Option<Media>)
    ensures
        r is Some <==> media_doc_ok(value_model(*v)),
        r matches Some(m) ==> media_matches_doc(m, value_model(*v)),
{
    let hashed_id = field_string(v, "hashed_id")?;
    let id = field_u64(v, "id")?;
    let name = field_string(v, "name")?;
    let type_field = field_media_type(v, "type")?;
    let created = field_string(v, "created")?;
    let updated = field_string(v, "updated")?;
    let duration = field_opt_number_text(v, "duration")?;
    let status = field_status(v, "status")?;
    let description = field_string_or_empty(v, "description")?;
    let progress = field_number_text_or_zero(v, "progress")?;
    let thumbnail = thumbnail_from_value(json_get(v, "thumbnail")?)?;
    let project = project_from_value(json_get(v, "project")?)?;
    let embed_code = field_string_or_empty(v, "embedCode")?;
    let assets = assets_from_value(json_get(v, "assets")?)?;
    let section = field_opt_string(v, "section")?;
    let archived = field_bool_or_false(v, "archived")?;
    Some(
        Media {
            hashed_id,
            id,
            name,
            type_field,
            created,
            updated,
            duration,
            status,
            description,
            progress,
            thumbnail,
            project,
            embed_code,
            assets,
            section,
            archived,
        },
    )
}

/// The shape of the narrower media document of an update response.
pub open spec fn media_info_doc_ok(d: JsonModel) -> bool {
    &&& str_field(d, "hashed_id"@) is Some
    &&& u64_field_ok(d, "id"@)
    &&& str_field(d, "name"@) is Some
    &&& media_type_field(d, "type"@) is Some
    &&& str_field(d, "created"@) is Some
    &&& str_field(d, "updated"@) is Some
    &&& opt_num_text_field(d, "duration"@) is Some
    &&& status_field(d, "status"@) is Some
    &&& str_field(d, "description"@) is Some
    &&& num_text_field(d, "progress"@) is Some
    &&& obj_field(d, "thumbnail"@) matches Some(td) && thumbnail_doc_ok(td)
    &&& opt_str_field(d, "section"@) is Some
}

/// How a decoded update response relates to its document.
pub open spec fn media_info_matches_doc(m: MediaInfo, d: JsonModel) -> bool {
    &&& str_field(d, "hashed_id"@) == Some(m.hashed_id@)
    &&& obj_field(d, "id"@) == Some(JsonModel::NumText(dec_chars(m.id as nat)))
    &&& str_field(d, "name"@) == Some(m.name@)
    &&& media_type_field(d, "type"@) == Some(m.type_field)
    &&& str_field(d, "created"@) == Some(m.created@)
    &&& str_field(d, "updated"@) == Some(m.updated@)
    &&& opt_num_text_field(d, "duration"@) == Some(opt_string_view(m.duration))
    &&& status_field(d, "status"@) == Some(m.status)
    &&& str_field(d, "description"@) == Some(m.description@)
    &&& num_text_field(d, "progress"@) == Some(m.progress@)
    &&& obj_field(d, "thumbnail"@) matches Some(td) && thumbnail_matches_doc(m.thumbnail, td)
    &&& opt_str_field(d, "section"@) == Some(opt_string_view(m.section))
}

/// Decode the narrower media record of an update response.
fn media_info_from_value(v: &serde_json::Value) -> (r: Option<MediaInfo>)
    ensures
        r is Some <==> media_info_doc_ok(value_model(*v)),
        r matches Some(m) ==> media_info_matches_doc(m, value_model(*v)),
{
    let hashed_id = field_string(v, "hashed_id")?;
    let id = field_u64(v, "id")?;
    let name = field_string(v, "name")?;
    let type_field = field_media_type(v, "type")?;
    let created = field_string(v, "created")?;
    let updated = field_string(v, "updated")?;
    let duration = field_opt_number_text(v, "duration")?;
    let status = field_status(v, "status")?;
    let description = field_string(v, "description")?;
    let progress = field_number_text(v, "progress")?;
    let thumbnail = thumbnail_from_value(json_get(v, "thumbnail")?)?;
    let section = field_opt_string(v, "section")?;
    Some(
        MediaInfo {
            hashed_id,
            id,
            name,
            type_field,
            created,
            updated,
            duration,
            status,
            description,
            progress,
            thumbnail,
            section,
        },
    )
}

/// The shape of an upload response document.
pub open spec fn upload_response_doc_ok(d: JsonModel) -> bool {
    &&& u64_field_ok(d, "id"@)
    &&& str_field(d, "name"@) is Some
    &&& media_type_field(d, "type"@) is Some
    &&& str_field(d, "created"@) is Some
    &&& str_field(d, "updated"@) is Some
    &&& num_text_or_zero_field(d, "duration"@) is Some
    &&& str_field(d, "hashed_id"@) is Some
    &&& str_field(d, "description"@) is Some
    &&& num_text_field(d, "progress"@) is Some
    &&& status_or_queued_field(d, "status"@) is Some
    &&& obj_field(d, "thumbnail"@) matches Some(td) && thumbnail_doc_ok(td)
    &&& u64_field_ok(d, "account_id"@)
}

/// How a decoded upload response relates to its document: an empty
/// description becomes nothing, and a missing status means queued.
pub open spec fn upload_response_matches_doc(u: UploadResponse, d: JsonModel) -> bool {
    &&& obj_field(d, "id"@) == Some(JsonModel::NumText(dec_chars(u.id as nat)))
    &&& str_field(d, "name"@) == Some(u.name@)
    &&& media_type_field(d, "type"@) == Some(u.media_type)
    &&& str_field(d, "created"@) == Some(u.created@)
    &&& str_field(d, "updated"@) == Some(u.updated@)
    &&& num_text_or_zero_field(d, "duration"@) == Some(u.duration@)
    &&& str_field(d, "hashed_id"@) == Some(u.hashed_id@)
    &&& str_field(d, "description"@) matches Some(s) && (if s.len() == 0 {
        u.description is None
    } else {
        opt_string_view(u.description) == Some(s)
    })
    &&& num_text_field(d, "progress"@) == Some(u.progress@)
    &&& status_or_queued_field(d, "status"@) == Some(u.status)
    &&& obj_field(d, "thumbnail"@) matches Some(td) && thumbnail_matches_doc(u.thumbnail, td)
    &&& obj_field(d, "account_id"@) == Some(JsonModel::NumText(dec_chars(u.account_id as nat)))
}

/// Decode an upload response record.
fn upload_response_from_value(v: &serde_json::Value) -> (r: Option<UploadResponse>)
    ensures
        r is Some <==> upload_response_doc_ok(value_model(*v)),
        r matches Some(u) ==> upload_response_matches_doc(u, value_model(*v)),
        r matches Some(u) ==> (u.description matches Some(d) ==> d@.len() > 0),
{
    let id = field_u64(v, "id")?;
    let name = field_string(v, "name")?;
    let media_type = field_media_type(v, "type")?;
    let created = field_string(v, "created")?;
    let updated = field_string(v, "updated")?;
    let duration = field_number_text_or_zero(v, "duration")?;
    let hashed_id = field_string(v, "hashed_id")?;
    let description = empty_string_is_none(field_string(v, "description")?);
    let progress = field_number_text(v, "progress")?;
    let status = field_status_or_default(v, "status")?;
    let thumbnail = thumbnail_from_value(json_get(v, "thumbnail")?)?;
    let account_id = field_u64(v, "account_id")?;
    Some(
        UploadResponse {
            id,
            name,
            media_type,
            created,
            updated,
            duration,
            hashed_id,
            description,
            progress,
            status,
            thumbnail,
            account_id,
        },
    )
}

/// Decode a Data API media response from its body text: decoding
/// succeeds exactly on well-shaped media documents, and the record is
/// fixed by the document; anything else is a serialization error.
pub fn media_from_json(text: &str) -> (r: Result<Media, RustWistiaError>)
    ensures
        match json_doc_of(text@) {
            Some(d) => {
                &&& (r is Ok <==> media_doc_ok(d))
                &&& (r matches Ok(m) ==> media_matches_doc(m, d))
            },
            None => r is Err,
        },
        r matches Err(e) ==> e is SerdeJson,
{
    match parse_json(text) {
        Ok(v) => match media_from_value(&v) {
            Some(m) => Ok(m),
            None => Err(RustWistiaError::SerdeJson(json_error("invalid media response"))),
        },
        Err(e) => Err(RustWistiaError::SerdeJson(e)),
    }
}

/// Decode a Data API update response from its body text: decoding
/// succeeds exactly on well-shaped documents, and the record is fixed by
/// the document; anything else is a serialization error.
pub fn media_info_from_json(text: &str) -> (r: Result<MediaInfo, RustWistiaError>)
    ensures
        match json_doc_of(text@) {
            Some(d) => {
                &&& (r is Ok <==> media_info_doc_ok(d))
                &&& (r matches Ok(m) ==> media_info_matches_doc(m, d))
            },
            None => r is Err,
        },
        r matches Err(e) ==> e is SerdeJson,
{
    match parse_json(text) {
        Ok(v) => match media_info_from_value(&v) {
            Some(m) => Ok(m),
            None => Err(RustWistiaError::SerdeJson(json_error("invalid media info response"))),
        },
        Err(e) => Err(RustWistiaError::SerdeJson(e)),
    }
}

/// Decode an Upload API response from its body text: decoding succeeds
/// exactly on well-shaped documents, and the record is fixed by the
/// document. An empty description is normalized to nothing, and a
/// missing status means the upload is queued.
pub fn upload_response_from_json(text: &str) -> (r: Result<UploadResponse, RustWistiaError>)
    ensures
        match json_doc_of(text@) {
            Some(d) => {
                &&& (r is Ok <==> upload_response_doc_ok(d))
                &&& (r matches Ok(u) ==> upload_response_matches_doc(u, d))
            },
            None => r is Err,
        },
        r matches Err(e) ==> e is SerdeJson,
        r matches Ok(u) ==> (u.description matches Some(d) ==> d@.len() > 0),
{
    match parse_json(text) {
        Ok(v) => match upload_response_from_value(&v) {
            Some(u) => Ok(u),
            None => Err(RustWistiaError::SerdeJson(json_error("invalid upload response"))),
        },
        Err(e) => Err(RustWistiaError::SerdeJson(e)),
    }
}

/// The raw-fallback error record: the trimmed body as the message, with
/// no code and no detail.
pub open spec fn is_raw_error(e: WistiaError, s: Seq<char>) -> bool {
    &&& e.message@ == trim_of(s)
    &&& e.code is None
    &&& e.detail is None
}

/// The shape of an error body the API reports: an object whose `error`
/// field, when present, is a string, and whose `code` and `detail` are
/// optional strings.
pub open spec fn wistia_error_doc_ok(d: JsonModel) -> bool {
    &&& d is Obj
    &&& str_or_empty_field(d, "error"@) is Some
    &&& opt_str_field(d, "code"@) is Some
    &&& opt_str_field(d, "detail"@) is Some
}

/// How a decoded error record relates to its document: the `error` field
/// becomes the message (empty when absent), `code` and `detail` carry
/// over.
pub open spec fn wistia_error_matches_doc(e: WistiaError, d: JsonModel) -> bool {
    &&& str_or_empty_field(d, "error"@) == Some(e.message@)
    &&& opt_str_field(d, "code"@) == Some(opt_string_view(e.code))
    &&& opt_str_field(d, "detail"@) == Some(opt_string_view(e.detail))
}

/// What the error record of a failed request holds for a body text: the
/// decoded error object when the body parses as one, else the raw
/// fallback. The two paths are mutually exclusive.
pub open spec fn wistia_error_for_body(e: WistiaError, s: Seq<char>) -> bool {
    match json_doc_of(s) {
        Some(d) => if wistia_error_doc_ok(d) {
            wistia_error_matches_doc(e, d)
        } else {
            is_raw_error(e, s)
        },
        None => is_raw_error(e, s),
    }
}

/// The error record built from a raw body that could not be decoded: the
/// trimmed body text becomes the message, with no code and no detail.
pub fn wistia_error_from_raw(body: &str) -> (r: WistiaError)
    ensures
        is_raw_error(r, body@),
{
    WistiaError { message: str_trim(body), code: None, detail: None }
}

/// Decode an error object: the `error` field becomes the message (empty
/// when absent), `code` and `detail` are optional strings.
fn wistia_error_from_value(v: &serde_json::Value) -> (r: Option<WistiaError>)
    ensures
        r is Some <==> wistia_error_doc_ok(value_model(*v)),
        r matches Some(e) ==> wistia_error_matches_doc(e, value_model(*v)),
{
    if !json_is_object(v) {
        return None;
    }
    let message = field_string_or_empty(v, "error")?;
    let code = field_opt_string(v, "code")?;
    let detail = field_opt_string(v, "detail")?;
    Some(WistiaError { message, code, detail })
}

/// The error record reported for a failed request: the body decoded as
/// an error object when it is one, else the trimmed raw body as the
/// message. The two population paths are mutually exclusive.
pub fn wistia_error_from_body(body: &str) -> (r: WistiaError)
    ensures
        wistia_error_for_body(r, body@),
{
    match parse_json(body) {
        Ok(v) => match wistia_error_from_value(&v) {
            Some(e) => e,
            None => wistia_error_from_raw(body),
        },
        Err(_) => wistia_error_from_raw(body),
    }
}

} // verus!
