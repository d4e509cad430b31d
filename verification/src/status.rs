//! Validating a response to ensure that its status code indicates a
//! success, and classifying the failures.

use vstd::prelude::*;

verus! {

use crate::error::RustWistiaError;
use crate::models::decode::wistia_error_for_body;
use crate::models::decode::wistia_error_from_body;
use crate::strings::ascii_chars_of;
use crate::strings::dec_digits;
use crate::strings::u16_to_string;
use crate::utils::host_path_of;
use crate::utils::host_with_path;
use vstd::string::StringExecFns;

/// What `http::StatusCode::canonical_reason` returns: the canonical phrase
/// of the HTTP standard, a fixed table keyed on the numeric code alone.
pub uninterp spec fn reason_phrase_of(status: u16) -> Option<Seq<char>>;

/// Relies on `http::StatusCode::from_u16` and
/// `http::StatusCode::canonical_reason`: the canonical phrase of a status
/// code, a function of the code alone.
#[verifier::external_body]
fn canonical_reason(status: u16) -> (r: Option<String>)
    ensures
        match (r, reason_phrase_of(status)) {
            (Some(s), Some(p)) => s@ == p,
            (None, None) => true,
            _ => false,
        },
{
    match http::StatusCode::from_u16(status) {
        Ok(s) => match s.canonical_reason() {
            Some(p) => Some(p.to_string()),
            None => None,
        },
        Err(_) => None,
    }
}

/// The phrase shown for a status code: its canonical phrase, or `Unknown`
/// where the standard names none.
pub open spec fn phrase_text(status: u16) -> Seq<char> {
    match reason_phrase_of(status) {
        Some(p) => p,
        None => "Unknown"@,
    }
}

/// The reason string of a failed request: the code, the error class, the
/// canonical phrase, and the request URL's host and path with the query
/// stripped.
pub open spec fn reason_of(status: u16, url: Seq<char>) -> Seq<char> {
    ascii_chars_of(dec_digits(status as nat)) + (if 400 <= status < 500 {
        " Client Error: "@
    } else {
        " Server Error: "@
    }) + phrase_text(status) + " for url: "@ + host_path_of(url)
}

/// Check the status of a response and raise an error if the request was
/// not a success.
///
/// Client errors (400 to 499) and server errors (500 to 599) fail with a
/// Request error; every other code, below 400 or from 600 up, passes
/// whatever the body holds. On failure the body decodes into the error
/// record when it is an error object, else its trimmed text becomes the
/// error message; the two population paths are mutually exclusive.
pub fn raise_for_status(request_url: &str, status_code: u16, body: &str) -> (r: Result<
    (),
    RustWistiaError,
>)
    ensures
        r is Err <==> 400 <= status_code < 600,
        r matches Err(e) ==> e matches RustWistiaError::Request { status_code: sc, reason, error }
            && sc == status_code && reason@ == reason_of(status_code, request_url@)
            && wistia_error_for_body(error, body@),
{
    if !(status_code >= 400 && status_code < 600) {
        return Ok(());
    }
    let phrase = match canonical_reason(status_code) {
        Some(p) => p,
        None => "Unknown".to_owned(),
    };
    let mut reason = u16_to_string(status_code);
    if status_code < 500 {
        reason.append(" Client Error: ");
    } else {
        reason.append(" Server Error: ");
    }
    reason.append(phrase.as_str());
    reason.append(" for url: ");
    let host_path = match host_with_path(request_url) {
        Ok(h) => h,
        Err(e) => {
            return Err(e);
        },
    };
    reason.append(host_path.as_str());
    let error = wistia_error_from_body(body);
    Err(RustWistiaError::Request { status_code, reason, error })
}

} // verus!
