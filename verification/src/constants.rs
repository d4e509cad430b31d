//! Library-specific constants.

use vstd::prelude::*;

verus! {

/// API endpoint for the Wistia Upload API.
pub const UPLOAD_API: &'static str = "https://upload.wistia.com";

/// Environment variable that supplies the API access token when a client
/// is constructed "from the environment".
pub const ENV_VAR_NAME: &'static str = "WISTIA_API_TOKEN";

/// Default file name used when uploading a file stream.
pub const DEFAULT_FILENAME: &'static str = "file.mp4";

/// The asset type tag of the original source media that was uploaded.
pub const ORIGINAL_ASSET: &'static str = "OriginalFile";

} // verus!
