//! The model types of the library: media records, request and response
//! shapes, and their decoding from plain values.

pub mod asset;
pub mod decode;
pub mod download_asset;
pub mod media;
pub mod media_info;
pub mod media_type;
pub mod project;
pub mod status;
pub mod thumbnail;
pub mod update_request;
pub mod upload_request;
pub mod upload_response;
