//! The write-model of a media update.

use vstd::prelude::*;

verus! {

use crate::encoding::encoded_str;
use crate::encoding::opt_pair;
use crate::encoding::pair_views;
use crate::encoding::query_string;
use crate::strings::ascii_chars_of;

/// Represents a request to update attributes on a media.
///
/// Only the fields that are set serialize into the query string; the `id`
/// names the media in the request path and is never serialized.
#[derive(Default, Debug, PartialEq)]
pub struct UpdateMediaRequest {
    /// The hashed media id (example: `abc1234567`).
    pub id: String,
    /// The media's new name.
    pub name: Option<String>,
    /// The Wistia hashed ID of an image that will replace the still that is
    /// displayed before the player starts playing.
    pub new_still_media_id: Option<String>,
    /// A new description for this media. Accepts plain text or markdown.
    pub description: Option<String>,
}

/// The query pairs of an update request: each set field, in the fixed
/// order `name`, `new_still_media_id`, `description`; the id never.
pub open spec fn update_pairs(r: UpdateMediaRequest) -> Seq<(Seq<char>, Seq<char>)> {
    opt_pair("name"@, r.name) + opt_pair("new_still_media_id"@, r.new_still_media_id) + opt_pair(
        "description"@,
        r.description,
    )
}

/// Law: an update request with only the name set encodes to exactly
/// `name=` followed by the encoded name — the one pair, nothing else in
/// the query, and the other field keys omitted entirely.
pub proof fn lemma_update_query_name_only(req: UpdateMediaRequest, name: String)
    requires
        req.name == Some(name),
        req.new_still_media_id is None,
        req.description is None,
    ensures
        update_pairs(req) =~= seq![("name"@, name@)],
        query_string(update_pairs(req)) == ascii_chars_of(
            encoded_str("name"@) + seq![0x3du8] + encoded_str(name@),
        ),
{
    assert(update_pairs(req) =~= seq![("name"@, name@)]);
}

impl UpdateMediaRequest {
    /// Sets the media's new name.
    pub fn name(self, name: &str) -> (r: Self)
        ensures
            r.id == self.id,
            r.name matches Some(n) && n@ == name@,
            r.new_still_media_id == self.new_still_media_id,
            r.description == self.description,
    {
        UpdateMediaRequest { name: Some(name.to_owned()), ..self }
    }

    /// Sets the Wistia hashed ID of an image that will replace the still
    /// that is displayed before the player starts playing.
    pub fn new_still_media_id(self, new_still_media_id: &str) -> (r: Self)
        ensures
            r.id == self.id,
            r.name == self.name,
            r.new_still_media_id matches Some(n) && n@ == new_still_media_id@,
            r.description == self.description,
    {
        UpdateMediaRequest { new_still_media_id: Some(new_still_media_id.to_owned()), ..self }
    }

    /// Sets a new description for this media. Accepts plain text or
    /// markdown.
    pub fn description(self, description: &str) -> (r: Self)
        ensures
            r.id == self.id,
            r.name == self.name,
            r.new_still_media_id == self.new_still_media_id,
            r.description matches Some(d) && d@ == description@,
    {
        UpdateMediaRequest { description: Some(description.to_owned()), ..self }
    }

    /// The query pairs of this request: each set field in order, the id
    /// never among them.
    pub fn query_pairs(&self) -> (r: Vec<(String, String)>)
        ensures
            pair_views(r@) == update_pairs(*self),
    {
        let mut out: Vec<(String, String)> = Vec::new();
        if let Some(n) = &self.name {
            out.push(("name".to_owned(), n.clone()));
        }
        if let Some(n) = &self.new_still_media_id {
            out.push(("new_still_media_id".to_owned(), n.clone()));
        }
        if let Some(d) = &self.description {
            out.push(("description".to_owned(), d.clone()));
        }
        proof {
            assert(pair_views(out@) =~= update_pairs(*self));
        }
        out
    }
}

} // verus!
