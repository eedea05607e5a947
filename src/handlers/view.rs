//! The views of an asset for a viewer: the creator's display name and logo,
//! the viewer's ownership state and the asset's kind.
use crate::catalog::Catalog;
use crate::error::StoreError;
use crate::handlers::creator::{shown_as, Creator};
use crate::types::asset::{ownership_of, AssetType, Ownership, Page, Summary};
use vstd::prelude::*;

verus! {

/// The summary of an asset by the creator keyed `creator_id`, of kind
/// `asset_type`, whose ownership state for the viewer is `ownership`.
pub fn summary_for(
    cat: &Catalog,
    creator_id: i32,
    ownership: Ownership,
    asset_type: AssetType,
) -> (r: Result<Summary, StoreError>)
    requires
        cat.wf(),
    ensures
        match r {
            Ok(s) => {
                &&& shown_as(cat, creator_id) == Ok::<(Seq<char>, Seq<char>), StoreError>(
                    (s.display_name@, s.logo@),
                )
                &&& s.ownership == ownership
                &&& s.asset_type == asset_type
            },
            Err(e) => shown_as(cat, creator_id) == Err::<(Seq<char>, Seq<char>), StoreError>(e),
        },
{
    let (creator, user) = match Creator::creator_with_user(cat, creator_id) {
        Ok(pair) => pair,
        Err(e) => return Err(e),
    };
    Ok(
        Summary {
            display_name: creator.get_display_name(),
            ownership,
            asset_type,
            logo: user.logo,
        },
    )
}

/// The page of an asset: its summary and the extra images of its kind.
pub fn page_for(
    cat: &Catalog,
    creator_id: i32,
    ownership: Ownership,
    asset_type: AssetType,
) -> (r: Result<Page, StoreError>)
    requires
        cat.wf(),
    ensures
        match r {
            Ok(p) => {
                &&& shown_as(cat, creator_id) == Ok::<(Seq<char>, Seq<char>), StoreError>(
                    (p.display_name@, p.logo@),
                )
                &&& p.ownership == ownership
                &&& p.asset_type == asset_type
                &&& p.extra_images@.len() == asset_type.extra_images().len()
                &&& forall|i: int|
                    0 <= i < p.extra_images@.len() ==> #[trigger] p.extra_images@[i]@
                        == asset_type.extra_images()[i]
            },
            Err(e) => shown_as(cat, creator_id) == Err::<(Seq<char>, Seq<char>), StoreError>(e),
        },
{
    let (creator, user) = match Creator::creator_with_user(cat, creator_id) {
        Ok(pair) => pair,
        Err(e) => return Err(e),
    };
    Ok(
        Page {
            display_name: creator.get_display_name(),
            ownership,
            asset_type,
            logo: user.logo,
            extra_images: asset_type.images(),
        },
    )
}

/// What every kind of asset offers: its rows are read, written back and
/// removed by key, and it is shown to a viewer through a summary or a page.
/// Each kind states through the spec functions what its operations do to the
/// catalog; the views are built the same way for every kind.
pub trait Asset: Sized {
    /// The kind tag that this asset's views carry.
    spec fn kind(&self) -> AssetType;

    /// The key of the creator that publishes this asset.
    spec fn maker(&self) -> i32;

    /// Whether this asset is free for everyone.
    spec fn free(&self) -> bool;

    /// Whether the ownership rows of `cat` grant this asset to `user_id`.
    spec fn granted(&self, cat: &Catalog, user_id: i32) -> bool;

    /// Whether `r` is what reading the asset keyed `id` from `cat` gives.
    spec fn read_gives(cat: &Catalog, id: i32, r: Result<Self, StoreError>) -> bool;

    /// Whether removing the asset keyed `id` turned `before` into `after` and
    /// counted `n` rows.
    spec fn destroy_gives(before: &Catalog, after: &Catalog, id: i32, n: usize) -> bool;

    /// Whether this asset is small enough for its row count to fit a `usize`.
    spec fn update_fits(&self) -> bool;

    /// Whether writing this asset back turned `before` into `after` and gave `r`.
    spec fn update_gives(
        &self,
        before: &Catalog,
        after: &Catalog,
        r: Result<usize, StoreError>,
    ) -> bool;

    /// The asset keyed `id`.
    fn read(cat: &Catalog, id: i32) -> (r: Result<Self, StoreError>)
        requires
            cat.wf(),
        ensures
            Self::read_gives(cat, id, r),
    ;

    /// Removes the asset keyed `id`; the count of rows removed.
    fn destroy(cat: &mut Catalog, id: i32) -> (n: usize)
        requires
            old(cat).wf(),
        ensures
            final(cat).wf(),
            Self::destroy_gives(&*old(cat), &*final(cat), id, n),
    ;

    /// Writes this asset back to the rows with its keys; the count of rows
    /// changed.
    fn update(&self, cat: &mut Catalog) -> (r: Result<usize, StoreError>)
        requires
            old(cat).wf(),
            self.update_fits(),
        ensures
            final(cat).wf(),
            self.update_gives(&*old(cat), &*final(cat), r),
    ;

    fn creator(&self) -> (r: i32)
        ensures
            r == self.maker(),
    ;

    fn asset_type(&self) -> (r: AssetType)
        ensures
            r == self.kind(),
    ;

    /// Free for everyone if the asset is free; else owned iff the viewer holds
    /// it. Nothing is changed by the look-up.
    fn check_ownership(&self, cat: &Catalog, user_id: i32) -> (r: Ownership)
        ensures
            r == ownership_of(self.free(), self.granted(cat, user_id)),
            self.free() ==> r == Ownership::Free,
    ;

    /// The summary of this asset for the viewer `user_id`.
    fn summarize(&self, cat: &Catalog, user_id: i32) -> (r: Result<Summary, StoreError>)
        requires
            cat.wf(),
        ensures
            match r {
                Ok(s) => {
                    &&& shown_as(cat, self.maker()) == Ok::<(Seq<char>, Seq<char>), StoreError>(
                        (s.display_name@, s.logo@),
                    )
                    &&& s.ownership == ownership_of(self.free(), self.granted(cat, user_id))
                    &&& s.asset_type == self.kind()
                },
                Err(e) => shown_as(cat, self.maker()) == Err::<(Seq<char>, Seq<char>), StoreError>(
                    e,
                ),
            },
    {
        let ownership = self.check_ownership(cat, user_id);
        summary_for(cat, self.creator(), ownership, self.asset_type())
    }

    /// The page of this asset for the viewer `user_id`.
    fn paginate(&self, cat: &Catalog, user_id: i32) -> (r: Result<Page, StoreError>)
        requires
            cat.wf(),
        ensures
            match r {
                Ok(p) => {
                    &&& shown_as(cat, self.maker()) == Ok::<(Seq<char>, Seq<char>), StoreError>(
                        (p.display_name@, p.logo@),
                    )
                    &&& p.ownership == ownership_of(self.free(), self.granted(cat, user_id))
                    &&& p.asset_type == self.kind()
                    &&& p.extra_images@.len() == self.kind().extra_images().len()
                    &&& forall|i: int|
                        0 <= i < p.extra_images@.len() ==> #[trigger] p.extra_images@[i]@
                            == self.kind().extra_images()[i]
                },
                Err(e) => shown_as(cat, self.maker()) == Err::<(Seq<char>, Seq<char>), StoreError>(
                    e,
                ),
            },
    {
        let ownership = self.check_ownership(cat, user_id);
        page_for(cat, self.creator(), ownership, self.asset_type())
    }
}

} // verus!
