//! How a creator wants to be named.
use crate::error::StoreError;
use crate::text::same_text;
use vstd::prelude::*;

verus! {

/// Which of a creator's stored names make up the name shown to viewers.
#[derive(Debug, Clone, Copy, PartialEq, Eq, Structural)]
pub enum DisplayName {
    Name,
    Other,
    NamePublisher,
    OtherPublisher,
}

impl DisplayName {
    /// The string under which the mode is kept in storage.
    pub open spec fn stored(self) -> Seq<char> {
        match self {
            DisplayName::Name => "name"@,
            DisplayName::Other => "other"@,
            DisplayName::NamePublisher => "name_publisher"@,
            DisplayName::OtherPublisher => "other_publisher"@,
        }
    }

    pub proof fn lemma_decodes_stored(d: DisplayName)
        ensures
            DisplayName::decoded(d.stored()) == Some(d),
    {
        reveal_strlit("name");
        reveal_strlit("other");
        reveal_strlit("name_publisher");
        reveal_strlit("other_publisher");
        assert("name"@.len() == 4 && "other"@.len() == 5);
        assert("name_publisher"@.len() == 14 && "other_publisher"@.len() == 15);
    }

    pub fn store(&self) -> (r: &'static str)
        ensures
            r@ == self.stored(),
    {
        match self {
            DisplayName::Name => "name",
            DisplayName::Other => "other",
            DisplayName::NamePublisher => "name_publisher",
            DisplayName::OtherPublisher => "other_publisher",
        }
    }

    /// The mode stored as `s`, if any.
    pub open spec fn decoded(s: Seq<char>) -> Option<DisplayName> {
        if s == "name"@ {
            Some(DisplayName::Name)
        } else if s == "other"@ {
            Some(DisplayName::Other)
        } else if s == "name_publisher"@ {
            Some(DisplayName::NamePublisher)
        } else if s == "other_publisher"@ {
            Some(DisplayName::OtherPublisher)
        } else {
            None
        }
    }

    /// Decodes a stored mode; a string that no mode is stored as is corrupt data.
    pub fn retreieve(s: &str) -> (r: Result<DisplayName, StoreError>)
        ensures
            r == match DisplayName::decoded(s@) {
                Some(d) => Ok(d),
                None => Err(StoreError::DataCorruption),
            },
    {
        if same_text(s, "name") {
            Ok(DisplayName::Name)
        } else if same_text(s, "other") {
            Ok(DisplayName::Other)
        } else if same_text(s, "name_publisher") {
            Ok(DisplayName::NamePublisher)
        } else if same_text(s, "other_publisher") {
            Ok(DisplayName::OtherPublisher)
        } else {
            Err(StoreError::DataCorruption)
        }
    }
}

} // verus!

verus! {

/// The name shown for a creator whose stored names are `first`, `last`,
/// `other` and `publisher` (an absent name is the empty string).
pub open spec fn display_name_of(
    mode: DisplayName,
    first: Seq<char>,
    last: Seq<char>,
    other: Seq<char>,
    publisher: Seq<char>,
) -> Seq<char> {
    match mode {
        DisplayName::Name => first + " "@ + last,
        DisplayName::Other => other,
        DisplayName::NamePublisher => first + " "@ + last + " publisher: "@ + publisher,
        DisplayName::OtherPublisher => other + " publisher: "@ + publisher,
    }
}

/// Formats a creator's display name in the given mode.
pub fn resolve(mode: DisplayName, first: &str, last: &str, other: &str, publisher: &str) -> (r:
    String)
    ensures
        r@ == display_name_of(mode, first@, last@, other@, publisher@),
{
    match mode {
        DisplayName::Name => {
            let mut r = first.to_owned();
            r.append(" ");
            r.append(last);
            r
        },
        DisplayName::Other => other.to_owned(),
        DisplayName::NamePublisher => {
            let mut r = first.to_owned();
            r.append(" ");
            r.append(last);
            r.append(" publisher: ");
            r.append(publisher);
            r
        },
        DisplayName::OtherPublisher => {
            let mut r = other.to_owned();
            r.append(" publisher: ");
            r.append(publisher);
            r
        },
    }
}

} // verus!
