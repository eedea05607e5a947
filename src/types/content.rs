//! The descriptive details that every piece of content carries, and what a
//! piece of content offers.
use crate::error::StoreError;
use crate::text::same_text;
use vstd::prelude::*;

verus! {

/// The details shown for a piece of content.
#[derive(Debug, Clone, PartialEq, Eq)]
pub struct Details {
    pub id: i32,
    pub title: String,
    pub thumb: String,
    pub summary: String,
    pub author: String,
}

impl Details {
    pub fn new(id: i32, title: String, thumb: String, summary: String, author: String) -> (r:
        Self)
        ensures
            r == (Details { id, title, thumb, summary, author }),
    {
        Details { id, title, thumb, summary, author }
    }
}

/// What a purchase hands over.
#[derive(Debug, Clone, Copy, PartialEq, Eq, Structural)]
pub struct Product {}

/// The short description of a piece of content.
#[derive(Debug, Clone, PartialEq, Eq)]
pub struct Summary {
    pub title: String,
    pub thumb: String,
    pub summary: String,
    pub author: String,
}

/// A piece of content: it can be summarised from its details.
pub trait Content {
    /// The details this content is described by.
    spec fn details_of(&self) -> Details;

    fn summarize(&self) -> (r: Summary)
        ensures
            r.title == self.details_of().title,
            r.thumb == self.details_of().thumb,
            r.summary == self.details_of().summary,
            r.author == self.details_of().author,
    ;

    fn read() {
    }

    fn update() {
    }

    fn destroy() {
    }

    fn ownwership() -> (r: Ownership)
        ensures
            r == Ownership::Unowned,
    {
        Ownership::Unowned
    }

    fn purchase() -> (r: Product) {
        Product {  }
    }
}

/// Width and height of a piece of content.
#[derive(Debug, Clone, Copy, PartialEq, Eq, Structural)]
pub struct Dimensions {
    pub width: i32,
    pub height: i32,
}

/// A viewer's access to a piece of content.
#[derive(Debug, Clone, Copy, PartialEq, Eq, Structural)]
pub enum Ownership {
    Owned,
    Free,
    Unowned,
}

impl Ownership {
    /// The string under which the state is kept in storage.
    pub open spec fn stored(self) -> Seq<char> {
        match self {
            Ownership::Owned => "owned"@,
            Ownership::Free => "free"@,
            Ownership::Unowned => "unowned"@,
        }
    }

    /// The state stored as `s`, if any.
    pub open spec fn decoded(s: Seq<char>) -> Option<Ownership> {
        if s == "owned"@ {
            Some(Ownership::Owned)
        } else if s == "unowned"@ {
            Some(Ownership::Unowned)
        } else if s == "free"@ {
            Some(Ownership::Free)
        } else {
            None
        }
    }

    /// Decodes a stored state; a string that no state is stored as is corrupt data.
    pub fn retrieve(s: &str) -> (r: Result<Ownership, StoreError>)
        ensures
            r == match Ownership::decoded(s@) {
                Some(o) => Ok(o),
                None => Err(StoreError::DataCorruption),
            },
    {
        if same_text(s, "owned") {
            Ok(Ownership::Owned)
        } else if same_text(s, "unowned") {
            Ok(Ownership::Unowned)
        } else if same_text(s, "free") {
            Ok(Ownership::Free)
        } else {
            Err(StoreError::DataCorruption)
        }
    }

    pub fn store(&self) -> (r: &'static str)
        ensures
            r@ == self.stored(),
    {
        match self {
            Ownership::Owned => "owned",
            Ownership::Free => "free",
            Ownership::Unowned => "unowned",
        }
    }
}

} // verus!
