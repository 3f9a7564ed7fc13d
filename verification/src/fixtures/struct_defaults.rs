//! A record whose fields carry default literals in the interface
//! description.

use vstd::prelude::*;

verus! {

/// A browser bookmark.
#[derive(Debug, PartialEq, Eq)]
pub struct Bookmark {
    pub guid: Option<String>,
    pub position: i32,
    pub last_modified: Option<i32>,
    pub url: String,
    pub title: Option<String>,
}

} // verus!
