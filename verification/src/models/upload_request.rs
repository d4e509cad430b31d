//! The request shapes of the Upload API.

use vstd::prelude::*;

verus! {

use crate::encoding::encoded_str;
use crate::encoding::opt_pair;
use crate::encoding::pair_views;
use crate::encoding::query_string;
use crate::strings::ascii_chars_of;

/// Model representing a request to the Wistia Upload API.
///
/// This only includes the parameters which may be encoded into the query
/// string. The `description` is the one exception: file and stream uploads
/// carry it as a multipart form field instead, and only URL uploads encode
/// it into the form body.
#[derive(Default, Debug, PartialEq)]
pub struct UploadRequest {
    /// Required. A 64 character hex string, the API access token.
    pub access_token: String,
    /// Required unless a file is uploaded. The web location of the media
    /// file to import.
    pub url: Option<String>,
    /// The hashed id of the project to upload media into. If omitted, a
    /// new project will be created and uploaded to.
    pub project_id: Option<String>,
    /// A display name to use for the media in Wistia. If omitted, the
    /// filename will be used instead.
    pub name: Option<String>,
    /// A description to use for the media in Wistia.
    pub description: Option<String>,
    /// A Wistia contact id, an integer value.
    pub contact_id: Option<String>,
}

/// The query pairs of an upload request: the access token first, then each
/// set field, in the fixed order `url`, `project_id`, `name`,
/// `description`, `contact_id`.
pub open spec fn upload_pairs(r: UploadRequest) -> Seq<(Seq<char>, Seq<char>)> {
    seq![("access_token"@, r.access_token@)] + opt_pair("url"@, r.url) + opt_pair(
        "project_id"@,
        r.project_id,
    ) + opt_pair("name"@, r.name) + opt_pair("description"@, r.description) + opt_pair(
        "contact_id"@,
        r.contact_id,
    )
}

/// Law: an upload request with only the access token set encodes to
/// exactly `access_token=` followed by the encoded token — one pair, no
/// other key, and no trailing separator.
pub proof fn lemma_upload_query_token_only(req: UploadRequest)
    requires
        req.url is None,
        req.project_id is None,
        req.name is None,
        req.description is None,
        req.contact_id is None,
    ensures
        upload_pairs(req) =~= seq![("access_token"@, req.access_token@)],
        query_string(upload_pairs(req)) == ascii_chars_of(
            encoded_str("access_token"@) + seq![0x3du8] + encoded_str(req.access_token@),
        ),
{
    assert(upload_pairs(req) =~= seq![("access_token"@, req.access_token@)]);
}

impl UploadRequest {
    /// The query pairs of this request: the access token, then each set
    /// field in order.
    pub fn query_pairs(&self) -> (r: Vec<(String, String)>)
        ensures
            pair_views(r@) == upload_pairs(*self),
    {
        let mut out: Vec<(String, String)> = Vec::new();
        out.push(("access_token".to_owned(), self.access_token.clone()));
        if let Some(v) = &self.url {
            out.push(("url".to_owned(), v.clone()));
        }
        if let Some(v) = &self.project_id {
            out.push(("project_id".to_owned(), v.clone()));
        }
        if let Some(v) = &self.name {
            out.push(("name".to_owned(), v.clone()));
        }
        if let Some(v) = &self.description {
            out.push(("description".to_owned(), v.clone()));
        }
        if let Some(v) = &self.contact_id {
            out.push(("contact_id".to_owned(), v.clone()));
        }
        proof {
            assert(pair_views(out@) =~= upload_pairs(*self));
        }
        out
    }
}

/// The builder state of a URL upload: the web location to import, plus the
/// shared optional fields.
#[derive(Default, Debug, PartialEq)]
pub struct UploadUrlRequest {
    /// Required. The web location of the media file to import.
    pub url: String,
    /// The hashed id of the project to upload media into.
    pub project_id: Option<String>,
    /// A display name to use for the media in Wistia.
    pub name: Option<String>,
    /// A description to use for the media in Wistia.
    pub description: Option<String>,
    /// A Wistia contact id, an integer value.
    pub contact_id: Option<String>,
}

impl UploadUrlRequest {
    /// A request importing the media at `url`, with no optional field set.
    pub fn new(url: &str) -> (r: Self)
        ensures
            r.url@ == url@,
            r.project_id is None,
            r.name is None,
            r.description is None,
            r.contact_id is None,
    {
        UploadUrlRequest {
            url: url.to_owned(),
            project_id: None,
            name: None,
            description: None,
            contact_id: None,
        }
    }

    /// Sets the publicly accessible URL of the media file to import.
    pub fn url(self, url: &str) -> (r: Self)
        ensures
            r.url@ == url@,
            r.project_id == self.project_id,
            r.name == self.name,
            r.description == self.description,
            r.contact_id == self.contact_id,
    {
        UploadUrlRequest { url: url.to_owned(), ..self }
    }

    /// Sets the hashed id of the project to upload media into.
    pub fn project_id(self, project_id: &str) -> (r: Self)
        ensures
            r.url == self.url,
            r.project_id matches Some(v) && v@ == project_id@,
            r.name == self.name,
            r.description == self.description,
            r.contact_id == self.contact_id,
    {
        UploadUrlRequest { project_id: Some(project_id.to_owned()), ..self }
    }

    /// Sets the display name to use for the media in Wistia.
    pub fn name(self, name: &str) -> (r: Self)
        ensures
            r.url == self.url,
            r.project_id == self.project_id,
            r.name matches Some(v) && v@ == name@,
            r.description == self.description,
            r.contact_id == self.contact_id,
    {
        UploadUrlRequest { name: Some(name.to_owned()), ..self }
    }

    /// Sets the description to use for the media in Wistia.
    pub fn description(self, description: &str) -> (r: Self)
        ensures
            r.url == self.url,
            r.project_id == self.project_id,
            r.name == self.name,
            r.description matches Some(v) && v@ == description@,
            r.contact_id == self.contact_id,
    {
        UploadUrlRequest { description: Some(description.to_owned()), ..self }
    }

    /// Sets the Wistia contact id.
    pub fn contact_id(self, contact_id: &str) -> (r: Self)
        ensures
            r.url == self.url,
            r.project_id == self.project_id,
            r.name == self.name,
            r.description == self.description,
            r.contact_id matches Some(v) && v@ == contact_id@,
    {
        UploadUrlRequest { contact_id: Some(contact_id.to_owned()), ..self }
    }
}

/// The builder state of a file upload: the local path whose contents are
/// multipart-form encoded into the request body, plus the shared optional
/// fields.
#[derive(Default, Debug, PartialEq)]
pub struct UploadFileRequest {
    /// Required. The path to the media file.
    pub file_path: String,
    /// The hashed id of the project to upload media into.
    pub project_id: Option<String>,
    /// A display name to use for the media in Wistia.
    pub name: Option<String>,
    /// A description to use for the media in Wistia.
    pub description: Option<String>,
    /// A Wistia contact id, an integer value.
    pub contact_id: Option<String>,
}

impl UploadFileRequest {
    /// A request for the file at `file_path`, with no optional field set.
    pub fn new(file_path: &str) -> (r: Self)
        ensures
            r.file_path@ == file_path@,
            r.project_id is None,
            r.name is None,
            r.description is None,
            r.contact_id is None,
    {
        UploadFileRequest {
            file_path: file_path.to_owned(),
            project_id: None,
            name: None,
            description: None,
            contact_id: None,
        }
    }

    /// Sets the hashed id of the project to upload media into.
    pub fn project_id(self, project_id: &str) -> (r: Self)
        ensures
            r.file_path == self.file_path,
            r.project_id matches Some(v) && v@ == project_id@,
            r.name == self.name,
            r.description == self.description,
            r.contact_id == self.contact_id,
    {
        UploadFileRequest { project_id: Some(project_id.to_owned()), ..self }
    }

    /// Sets the display name to use for the media in Wistia.
    pub fn name(self, name: &str) -> (r: Self)
        ensures
            r.file_path == self.file_path,
            r.project_id == self.project_id,
            r.name matches Some(v) && v@ == name@,
            r.description == self.description,
            r.contact_id == self.contact_id,
    {
        UploadFileRequest { name: Some(name.to_owned()), ..self }
    }

    /// Sets the description to use for the media in Wistia.
    pub fn description(self, description: &str) -> (r: Self)
        ensures
            r.file_path == self.file_path,
            r.project_id == self.project_id,
            r.name == self.name,
            r.description matches Some(v) && v@ == description@,
            r.contact_id == self.contact_id,
    {
        UploadFileRequest { description: Some(description.to_owned()), ..self }
    }

    /// Sets the Wistia contact id.
    pub fn contact_id(self, contact_id: &str) -> (r: Self)
        ensures
            r.file_path == self.file_path,
            r.project_id == self.project_id,
            r.name == self.name,
            r.description == self.description,
            r.contact_id matches Some(v) && v@ == contact_id@,
    {
        UploadFileRequest { contact_id: Some(contact_id.to_owned()), ..self }
    }
}

/// The builder state of a stream upload: the file name the uploaded bytes
/// are presented under, plus the shared optional fields. The byte stream
/// itself is handed over where the upload is sent.
#[derive(Default, Debug, PartialEq)]
pub struct UploadStreamRequest {
    /// The name of the media file.
    pub file_name: String,
    /// The hashed id of the project to upload media into.
    pub project_id: Option<String>,
    /// A display name to use for the media in Wistia.
    pub name: Option<String>,
    /// A description to use for the media in Wistia.
    pub description: Option<String>,
    /// A Wistia contact id, an integer value.
    pub contact_id: Option<String>,
}

impl UploadStreamRequest {
    /// A request presenting the stream as `file_name`, with no optional
    /// field set.
    pub fn new(file_name: &str) -> (r: Self)
        ensures
            r.file_name@ == file_name@,
            r.project_id is None,
            r.name is None,
            r.description is None,
            r.contact_id is None,
    {
        UploadStreamRequest {
            file_name: file_name.to_owned(),
            project_id: None,
            name: None,
            description: None,
            contact_id: None,
        }
    }

    /// Sets the hashed id of the project to upload media into.
    pub fn project_id(self, project_id: &str) -> (r: Self)
        ensures
            r.file_name == self.file_name,
            r.project_id matches Some(v) && v@ == project_id@,
            r.name == self.name,
            r.description == self.description,
            r.contact_id == self.contact_id,
    {
        UploadStreamRequest { project_id: Some(project_id.to_owned()), ..self }
    }

    /// Sets the display name to use for the media in Wistia.
    pub fn name(self, name: &str) -> (r: Self)
        ensures
            r.file_name == self.file_name,
            r.project_id == self.project_id,
            r.name matches Some(v) && v@ == name@,
            r.description == self.description,
            r.contact_id == self.contact_id,
    {
        UploadStreamRequest { name: Some(name.to_owned()), ..self }
    }

    /// Sets the description to use for the media in Wistia.
    pub fn description(self, description: &str) -> (r: Self)
        ensures
            r.file_name == self.file_name,
            r.project_id == self.project_id,
            r.name == self.name,
            r.description matches Some(v) && v@ == description@,
            r.contact_id == self.contact_id,
    {
        UploadStreamRequest { description: Some(description.to_owned()), ..self }
    }

    /// Sets the Wistia contact id.
    pub fn contact_id(self, contact_id: &str) -> (r: Self)
        ensures
            r.file_name == self.file_name,
            r.project_id == self.project_id,
            r.name == self.name,
            r.description == self.description,
            r.contact_id matches Some(v) && v@ == contact_id@,
    {
        UploadStreamRequest { contact_id: Some(contact_id.to_owned()), ..self }
    }
}

} // verus!
