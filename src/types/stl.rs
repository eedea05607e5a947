//! A 3D-print file described by its details.
use crate::types::content::Details;
use vstd::prelude::*;

verus! {

#[derive(Debug, Clone, PartialEq, Eq)]
pub struct Stl {
    pub content: Details,
    pub file: String,
}

impl Stl {
    pub fn new(content: Details, file: String) -> (r: Self)
        ensures
            r == (Stl { content, file }),
    {
        Stl { content, file }
    }
}

} // verus!
