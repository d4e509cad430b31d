//! A client library for the Wistia Data API and Upload API.
//!
//! The library builds correctly encoded HTTP requests (URL-encoded queries,
//! form bodies, multipart plans), classifies HTTP responses into success or
//! a typed error, decodes response bodies into model types, and resolves
//! asset download URLs. Sending requests over the network is left to the
//! surrounding application code.

pub mod auth;
pub mod constants;
pub mod data;
pub mod encoding;
pub mod error;
pub mod json;
pub mod models;
pub mod status;
pub mod strings;
pub mod upload;
pub mod utils;

use vstd::prelude::*;

verus! {

/// True of a byte sequence that holds only ASCII values.
pub open spec fn seq_is_ascii(bytes: Seq<u8>) -> bool {
    forall|i: int| 0 <= i < bytes.len() ==> bytes[i] < 0x80
}

} // verus!
