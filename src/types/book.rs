//! A book described by its details and its page count.
use crate::types::content::{Content, Details, Summary};
use vstd::prelude::*;

verus! {

#[derive(Debug, Clone, PartialEq, Eq)]
pub struct Book {
    pub details: Details,
    pub pages: i32,
}

impl Book {
    pub fn new(details: Details, pages: i32) -> (r: Self)
        ensures
            r == (Book { details, pages }),
    {
        Book { details, pages }
    }
}

impl Content for Book {
    open spec fn details_of(&self) -> Details {
        self.details
    }

    fn summarize(&self) -> (r: Summary) {
        Summary {
            title: self.details.title.clone(),
            thumb: self.details.thumb.clone(),
            summary: self.details.summary.clone(),
            author: self.details.author.clone(),
        }
    }
}

} // verus!
