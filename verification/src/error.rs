//! Library-specific errors, including types and implementations.

use vstd::prelude::*;

verus! {

/// Declares `std::io::Error`, the payload of pass-through I/O failures.
#[verifier::external_type_specification]
#[verifier::external_body]
pub struct ExIoError(std::io::Error);

/// Declares `hyper::Error`, the payload of pass-through transport failures.
#[verifier::external_type_specification]
#[verifier::external_body]
pub struct ExHyperError(hyper::Error);

/// Declares `http::Error`, the payload of pass-through request-building
/// failures.
#[verifier::external_type_specification]
#[verifier::external_body]
pub struct ExHttpError(http::Error);

/// Declares `http::uri::InvalidUri`, the payload of pass-through URI-parse
/// failures.
#[verifier::external_type_specification]
#[verifier::external_body]
pub struct ExInvalidUri(http::uri::InvalidUri);

/// Declares `serde_json::Error`, the payload of pass-through JSON
/// (de)serialization failures.
#[verifier::external_type_specification]
#[verifier::external_body]
pub struct ExSerdeJsonError(serde_json::Error);

/// An error returned from the Wistia API, along with a custom error code
/// from the Wistia side.
///
/// The `message` field carries either the decoded `error` field of the
/// response body, or, when the body could not be decoded, the trimmed raw
/// body text.
#[derive(Debug, PartialEq)]
pub struct WistiaError {
    pub message: String,
    pub code: Option<String>,
    pub detail: Option<String>,
}

impl Default for WistiaError {
    /// An empty message with no code and no detail.
    fn default() -> (r: Self)
        ensures
            r.message@ == Seq::<char>::empty(),
            r.code is None,
            r.detail is None,
    {
        WistiaError { message: String::new(), code: None, detail: None }
    }
}

/// Base error types raised by this library.
///
/// The library raises only the kinds defined here; transport and
/// serialization failures pass through unchanged in their own variants.
#[derive(Debug)]
#[non_exhaustive]
pub enum RustWistiaError {
    /// The source file path of an upload does not exist.
    FileNotFound(String),
    /// The environment variable holding the access token is not set.
    EnvVarNotFound { name: String },
    /// No asset of the requested type exists on a media.
    AssetNotFound { asset_type: String, video_id: String, valid_types: Vec<String> },
    /// A `media_id` or `media` argument is required but absent.
    MediaIsRequired,
    /// The Wistia API responded with a client-error or server-error status
    /// code (between 400 and 600). The `error` field holds the decoded
    /// error body when it could be decoded, else its message holds the
    /// trimmed raw body text.
    Request { status_code: u16, reason: String, error: WistiaError },
    /// An error of no known kind.
    Unknown,
    /// A pass-through I/O failure.
    Io(std::io::Error),
    /// A pass-through transport failure.
    Hyper(hyper::Error),
    /// A pass-through request-building failure.
    Http(http::Error),
    /// A pass-through URI-parse failure.
    InvalidUri(http::uri::InvalidUri),
    /// A pass-through JSON (de)serialization failure.
    SerdeJson(serde_json::Error),
}

} // verus!
