//! The project a media belongs to.

use vstd::prelude::*;

verus! {

/// A reference to the project that owns a media.
#[derive(Default, Debug, Clone, PartialEq)]
pub struct ProjectInfo {
    pub hashed_id: String,
    pub id: u64,
    pub name: String,
}

} // verus!
