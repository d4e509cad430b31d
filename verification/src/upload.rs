//! Building Upload API requests: the query URL and the prepared form of
//! each upload variant.

use vstd::prelude::*;

verus! {

use crate::constants::UPLOAD_API;
use crate::encoding::encode_query;
use crate::encoding::opt_pair;
use crate::encoding::query_string;
use crate::error::RustWistiaError;
use crate::models::upload_request::upload_pairs;
use crate::models::upload_request::UploadFileRequest;
use crate::models::upload_request::UploadRequest;
use crate::models::upload_request::UploadStreamRequest;
use crate::models::upload_request::UploadUrlRequest;
use vstd::string::StringExecFns;

/// The full upload URL for a field set: the fixed endpoint, `?`, and the
/// encoded query.
pub open spec fn upload_url_of(params: UploadRequest) -> Seq<char> {
    "https://upload.wistia.com"@ + "?"@ + query_string(upload_pairs(params))
}

/// The query pairs of a URL upload body: the whole field set, the URL
/// payload and the description included.
pub open spec fn url_upload_pairs(token: Seq<char>, req: UploadUrlRequest) -> Seq<
    (Seq<char>, Seq<char>),
> {
    seq![("access_token"@, token), ("url"@, req.url@)] + opt_pair("project_id"@, req.project_id)
        + opt_pair("name"@, req.name) + opt_pair("description"@, req.description) + opt_pair(
        "contact_id"@,
        req.contact_id,
    )
}

/// The query pairs of a multipart upload's URL: the token and the shared
/// fields; never a URL payload, never the description.
pub open spec fn multipart_query_pairs(
    token: Seq<char>,
    project_id: Option<String>,
    name: Option<String>,
    contact_id: Option<String>,
) -> Seq<(Seq<char>, Seq<char>)> {
    seq![("access_token"@, token)] + opt_pair("project_id"@, project_id) + opt_pair("name"@, name)
        + opt_pair("contact_id"@, contact_id)
}

/// The one byte source of a multipart upload.
#[derive(Debug, PartialEq)]
pub enum FileSource {
    /// A local file whose bytes stream into the `file` part.
    Path(String),
    /// A caller-supplied byte stream, presented under this file name.
    Stream { file_name: String },
}

/// The body of a prepared upload request.
#[derive(Debug, PartialEq)]
pub enum UploadBody {
    /// An `application/x-www-form-urlencoded` body holding the whole field
    /// set; URL uploads use it.
    FormUrlEncoded(String),
    /// A `multipart/form-data` body: the payload as the `file` part, and
    /// the description, when set, as a separate text part.
    Multipart { file: FileSource, description: Option<String> },
}

/// The prepared form of an upload request: where to send it, and what the
/// body holds. Exactly one payload source exists, by construction.
#[derive(Debug, PartialEq)]
pub struct UploadPlan {
    /// The full request URL, query included.
    pub url: String,
    /// What the request body holds.
    pub body: UploadBody,
}

/// Clone an optional owned string.
fn clone_opt(o: &Option<String>) -> (r: Option<String>)
    ensures
        r == *o,
{
    match o {
        Some(s) => Some(s.clone()),
        None => None,
    }
}

/// Build the URL with the url-encoded query parameters included.
pub fn build_url(params: UploadRequest) -> (r: Result<String, RustWistiaError>)
    ensures
        r matches Ok(u) && u@ == upload_url_of(params),
{
    let pairs = params.query_pairs();
    let q = encode_query(&pairs);
    let mut url = UPLOAD_API.to_owned();
    url.append("?");
    url.append(q.as_str());
    Ok(url)
}

/// Prepare a URL upload: the request goes to the bare endpoint, and the
/// whole field set, the URL payload and the description included, is
/// form-encoded into the body.
pub fn plan_url_upload(access_token: &str, req: &UploadUrlRequest) -> (r: UploadPlan)
    ensures
        r.url@ == "https://upload.wistia.com"@,
        r.body matches UploadBody::FormUrlEncoded(b) && b@ == query_string(
            url_upload_pairs(access_token@, *req),
        ),
{
    let params = UploadRequest {
        access_token: access_token.to_owned(),
        url: Some(req.url.clone()),
        project_id: clone_opt(&req.project_id),
        name: clone_opt(&req.name),
        description: clone_opt(&req.description),
        contact_id: clone_opt(&req.contact_id),
    };
    let pairs = params.query_pairs();
    proof {
        assert(upload_pairs(params) =~= url_upload_pairs(access_token@, *req));
    }
    let body = encode_query(&pairs);
    UploadPlan { url: UPLOAD_API.to_owned(), body: UploadBody::FormUrlEncoded(body) }
}

/// Prepare a file upload: the query carries the token and the shared
/// fields, never the description and never a URL payload; the named local
/// file streams as the multipart `file` part, and the description, when
/// set, becomes a separate text part.
pub fn plan_file_upload(access_token: &str, req: &UploadFileRequest) -> (r: UploadPlan)
    ensures
        r.url@ == "https://upload.wistia.com"@ + "?"@ + query_string(
            multipart_query_pairs(access_token@, req.project_id, req.name, req.contact_id),
        ),
        r.body matches UploadBody::Multipart { file, description } && file matches FileSource::Path(
            p,
        ) && p@ == req.file_path@ && description == req.description,
{
    let params = UploadRequest {
        access_token: access_token.to_owned(),
        url: None,
        project_id: clone_opt(&req.project_id),
        name: clone_opt(&req.name),
        description: None,
        contact_id: clone_opt(&req.contact_id),
    };
    proof {
        assert(upload_pairs(params) =~= multipart_query_pairs(
            access_token@,
            req.project_id,
            req.name,
            req.contact_id,
        ));
    }
    let url = match build_url(params) {
        Ok(u) => u,
        Err(_) => {
            proof {
                assert(false);
            }
            String::new()
        },
    };
    UploadPlan {
        url,
        body: UploadBody::Multipart {
            file: FileSource::Path(req.file_path.clone()),
            description: clone_opt(&req.description),
        },
    }
}

/// Prepare a stream upload: as a file upload, except that the multipart
/// `file` part is a caller-supplied byte stream presented under the
/// request's file name.
pub fn plan_stream_upload(access_token: &str, req: &UploadStreamRequest) -> (r: UploadPlan)
    ensures
        r.url@ == "https://upload.wistia.com"@ + "?"@ + query_string(
            multipart_query_pairs(access_token@, req.project_id, req.name, req.contact_id),
        ),
        r.body matches UploadBody::Multipart { file, description } && file
            matches FileSource::Stream { file_name } && file_name@ == req.file_name@ && description
            == req.description,
{
    let params = UploadRequest {
        access_token: access_token.to_owned(),
        url: None,
        project_id: clone_opt(&req.project_id),
        name: clone_opt(&req.name),
        description: None,
        contact_id: clone_opt(&req.contact_id),
    };
    proof {
        assert(upload_pairs(params) =~= multipart_query_pairs(
            access_token@,
            req.project_id,
            req.name,
            req.contact_id,
        ));
    }
    let url = match build_url(params) {
        Ok(u) => u,
        Err(_) => {
            proof {
                assert(false);
            }
            String::new()
        },
    };
    UploadPlan {
        url,
        body: UploadBody::Multipart {
            file: FileSource::Stream { file_name: req.file_name.clone() },
            description: clone_opt(&req.description),
        },
    }
}

} // verus!
