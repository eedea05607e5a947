//! An album described by its details, with its tracks.
use crate::types::content::Details;
use vstd::prelude::*;

verus! {

#[derive(Debug, Clone, PartialEq, Eq)]
pub struct Album {
    pub content: Details,
    pub tracks: Vec<Track>,
    pub directory: String,
}

impl Album {
    pub fn new(content: Details, tracks: Vec<Track>, directory: String) -> (r: Self)
        ensures
            r == (Album { content, tracks, directory }),
    {
        Album { content, tracks, directory }
    }
}

#[derive(Debug, Clone, PartialEq, Eq)]
pub struct Track {
    pub content: Details,
    pub file: String,
}

impl Track {
    pub fn new(content: Details, file: String) -> (r: Self)
        ensures
            r == (Track { content, file }),
    {
        Track { content, file }
    }
}

} // verus!
