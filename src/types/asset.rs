//! Asset kinds, ownership states and the two views built for a viewer.
use crate::error::StoreError;
use crate::text::same_text;
use vstd::prelude::*;

verus! {

/// A viewer's access to an asset: free assets are neither owned nor unowned.
#[derive(Debug, Clone, Copy, PartialEq, Eq, Structural)]
pub enum Ownership {
    Owned,
    Free,
    Unowned,
}

/// The kind tag that a view carries.
#[derive(Debug, Clone, Copy, PartialEq, Eq, Structural)]
pub enum AssetType {
    Book,
    Album,
    GameMap,
    MapPack,
    Stl,
    TokenPack,
    Token,
}

/// Width and height of a map or a token.
#[derive(Debug, Clone, Copy, PartialEq, Eq, Structural)]
pub struct Dimensions {
    pub width: i32,
    pub height: i32,
}

/// The compact view of an asset.
#[derive(Debug, Clone, PartialEq, Eq)]
pub struct Summary {
    pub display_name: String,
    pub ownership: Ownership,
    pub asset_type: AssetType,
    pub logo: String,
}

/// The detailed view of an asset: a summary and the kind's extra images.
#[derive(Debug, Clone, PartialEq, Eq)]
pub struct Page {
    pub display_name: String,
    pub ownership: Ownership,
    pub asset_type: AssetType,
    pub logo: String,
    pub extra_images: Vec<String>,
}

impl AssetType {
    /// The string under which the kind is kept in storage.
    pub open spec fn stored(self) -> Seq<char> {
        match self {
            AssetType::Book => "book"@,
            AssetType::Album => "album"@,
            AssetType::GameMap => "map"@,
            AssetType::MapPack => "map_pack"@,
            AssetType::Stl => "stl"@,
            AssetType::TokenPack => "token_pack"@,
            AssetType::Token => "token"@,
        }
    }

    /// Decodes a stored kind; any string that no kind stores as is corrupt data.
    pub fn retrieve(s: &str) -> (r: Result<AssetType, StoreError>)
        ensures
            match r {
                Ok(t) => t.stored() == s@,
                Err(e) => e == StoreError::DataCorruption && forall|t: AssetType|
                    t.stored() != s@,
            },
    {
        if same_text(s, "book") {
            Ok(AssetType::Book)
        } else if same_text(s, "album") {
            Ok(AssetType::Album)
        } else if same_text(s, "map") {
            Ok(AssetType::GameMap)
        } else if same_text(s, "map_pack") {
            Ok(AssetType::MapPack)
        } else if same_text(s, "stl") {
            Ok(AssetType::Stl)
        } else if same_text(s, "token_pack") {
            Ok(AssetType::TokenPack)
        } else if same_text(s, "token") {
            Ok(AssetType::Token)
        } else {
            Err(StoreError::DataCorruption)
        }
    }

    pub fn store(&self) -> (r: &'static str)
        ensures
            r@ == self.stored(),
    {
        match self {
            AssetType::Book => "book",
            AssetType::Album => "album",
            AssetType::GameMap => "map",
            AssetType::MapPack => "map_pack",
            AssetType::Stl => "stl",
            AssetType::TokenPack => "token_pack",
            AssetType::Token => "token",
        }
    }

    /// The extra images that a page of this kind shows. No kind has any yet;
    /// each kind has its own arm so that one can gain some.
    pub open spec fn extra_images(self) -> Seq<Seq<char>> {
        match self {
            AssetType::Book => Seq::empty(),
            AssetType::Album => Seq::empty(),
            AssetType::GameMap => Seq::empty(),
            AssetType::MapPack => Seq::empty(),
            AssetType::Stl => Seq::empty(),
            AssetType::TokenPack => Seq::empty(),
            AssetType::Token => Seq::empty(),
        }
    }

    pub fn images(&self) -> (r: Vec<String>)
        ensures
            r@.len() == self.extra_images().len(),
            forall|i: int| 0 <= i < r@.len() ==> r@[i]@ == self.extra_images()[i],
    {
        match self {
            AssetType::Book => Vec::new(),
            AssetType::Album => Vec::new(),
            AssetType::GameMap => Vec::new(),
            AssetType::MapPack => Vec::new(),
            AssetType::Stl => Vec::new(),
            AssetType::TokenPack => Vec::new(),
            AssetType::Token => Vec::new(),
        }
    }
}

impl Ownership {
    /// The string under which the state is kept in storage.
    pub open spec fn stored(self) -> Seq<char> {
        match self {
            Ownership::Owned => "owned"@,
            Ownership::Free => "free"@,
            Ownership::Unowned => "unowned"@,
        }
    }

    /// Decodes a stored state; any string that no state stores as is corrupt data.
    pub fn retrieve(s: &str) -> (r: Result<Ownership, StoreError>)
        ensures
            match r {
                Ok(o) => o.stored() == s@,
                Err(e) => e == StoreError::DataCorruption && forall|o: Ownership|
                    o.stored() != s@,
            },
    {
        if same_text(s, "owned") {
            Ok(Ownership::Owned)
        } else if same_text(s, "unowned") {
            Ok(Ownership::Unowned)
        } else if same_text(s, "free") {
            Ok(Ownership::Free)
        } else {
            Err(StoreError::DataCorruption)
        }
    }

    pub fn store(&self) -> (r: &'static str)
        ensures
            r@ == self.stored(),
    {
        match self {
            Ownership::Owned => "owned",
            Ownership::Free => "free",
            Ownership::Unowned => "unowned",
        }
    }
}

/// The ownership state of an asset for a viewer: free assets are free whatever
/// rows exist; otherwise the viewer owns it iff an ownership row exists.
pub open spec fn ownership_of(is_free: bool, has_row: bool) -> Ownership {
    if is_free {
        Ownership::Free
    } else if has_row {
        Ownership::Owned
    } else {
        Ownership::Unowned
    }
}

} // verus!
