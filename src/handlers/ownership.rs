//! Ownership rows, one join table per asset kind: a row `(user, asset)` says
//! that the user has been granted the asset.
use crate::catalog::{Catalog, Grants, Part};
use crate::error::StoreError;
use crate::handlers::user::User;
use crate::table::{has_key, Table};
use crate::types::asset::{ownership_of, Ownership};
use vstd::prelude::*;

verus! {

/// Adds the row `(u, a)` to `g`; the user must exist and not hold the asset yet.
fn grant_checked(g: &mut Grants, users: &Table<User>, u: i32, a: i32) -> (r: Result<
    usize,
    StoreError,
>)
    requires
        old(g).wf(),
        users.wf(),
    ensures
        final(g).wf(),
        match r {
            Ok(n) => n == 1 && has_key(users.rows@, u) && !old(g).held(u, a) && final(g).pairs@
                == old(g).pairs@.push((u, a)),
            Err(e) => e == StoreError::ConstraintViolation && (!has_key(users.rows@, u) || old(
                g,
            ).held(u, a)) && *final(g) == *old(g),
        },
{
    if users.find(u).is_none() {
        return Err(StoreError::ConstraintViolation);
    }
    g.grant(u, a)
}

/// The ownership state that a read-only look at `g` gives for a non-free asset.
fn look_up(g: &Grants, u: i32, a: i32) -> (r: Ownership)
    ensures
        r == ownership_of(false, g.held(u, a)),
{
    if g.holds(u, a) {
        Ownership::Owned
    } else {
        Ownership::Unowned
    }
}

/// Exactly one row `(u, a)` exists in a well-formed join table iff a look-up
/// of `u` and a non-free asset `a` gives `Owned`.
pub proof fn lemma_owned_iff_one_row(g: Grants, u: i32, a: i32)
    requires
        g.wf(),
    ensures
        (ownership_of(false, g.held(u, a)) == Ownership::Owned) <==> g.rows_for(u, a) == 1,
{
    broadcast use vstd::seq_lib::group_to_multiset_ensures;

    g.pairs@.lemma_multiset_has_no_duplicates();
}

/// A grant of album `album_id` to user `user_id`.
#[derive(Debug, Clone, Copy, PartialEq, Eq, Structural)]
pub struct UserAlbum {
    pub user_id: i32,
    pub album_id: i32,
}

impl UserAlbum {
    pub fn new(user_id: i32, album_id: i32) -> (r: Self)
        ensures
            r.user_id == user_id && r.album_id == album_id,
    {
        UserAlbum { user_id, album_id }
    }

    /// Records the grant; the user must exist and not hold the asset yet.
    pub fn create(&self, cat: &mut Catalog) -> (r: Result<usize, StoreError>)
        requires
            old(cat).wf(),
        ensures
            final(cat).wf(),
            match r {
                Ok(n) => {
                    &&& n == 1
                    &&& has_key(old(cat).users.rows@, self.user_id)
                    &&& !old(cat).user_albums.held(self.user_id, self.album_id)
                    &&& final(cat).user_albums.pairs@ == old(cat).user_albums.pairs@.push(
                        (self.user_id, self.album_id),
                    )
                    &&& final(cat).agrees_off(&*old(cat), Part::UserAlbums, Part::UserAlbums)
                },
                Err(e) => {
                    &&& e == StoreError::ConstraintViolation
                    &&& (!has_key(old(cat).users.rows@, self.user_id) || old(cat).user_albums.held(
                        self.user_id,
                        self.album_id,
                    ))
                    &&& *final(cat) == *old(cat)
                },
            },
    {
        grant_checked(&mut cat.user_albums, &cat.users, self.user_id, self.album_id)
    }

    /// Whether user `u_id` holds album `b_id`, read without changing anything.
    pub fn check_ownership(cat: &Catalog, u_id: i32, b_id: i32) -> (r: Ownership)
        ensures
            r == ownership_of(false, cat.user_albums.held(u_id, b_id)),
    {
        look_up(&cat.user_albums, u_id, b_id)
    }
}

/// A grant of book `book_id` to user `user_id`.
#[derive(Debug, Clone, Copy, PartialEq, Eq, Structural)]
pub struct UserBook {
    pub user_id: i32,
    pub book_id: i32,
}

impl UserBook {
    pub fn new(user_id: i32, book_id: i32) -> (r: Self)
        ensures
            r.user_id == user_id && r.book_id == book_id,
    {
        UserBook { user_id, book_id }
    }

    /// Records the grant; the user must exist and not hold the asset yet.
    pub fn create(&self, cat: &mut Catalog) -> (r: Result<usize, StoreError>)
        requires
            old(cat).wf(),
        ensures
            final(cat).wf(),
            match r {
                Ok(n) => {
                    &&& n == 1
                    &&& has_key(old(cat).users.rows@, self.user_id)
                    &&& !old(cat).user_books.held(self.user_id, self.book_id)
                    &&& final(cat).user_books.pairs@ == old(cat).user_books.pairs@.push(
                        (self.user_id, self.book_id),
                    )
                    &&& final(cat).agrees_off(&*old(cat), Part::UserBooks, Part::UserBooks)
                },
                Err(e) => {
                    &&& e == StoreError::ConstraintViolation
                    &&& (!has_key(old(cat).users.rows@, self.user_id) || old(cat).user_books.held(
                        self.user_id,
                        self.book_id,
                    ))
                    &&& *final(cat) == *old(cat)
                },
            },
    {
        grant_checked(&mut cat.user_books, &cat.users, self.user_id, self.book_id)
    }

    /// Whether user `u_id` holds book `b_id`, read without changing anything.
    pub fn check_ownership(cat: &Catalog, u_id: i32, b_id: i32) -> (r: Ownership)
        ensures
            r == ownership_of(false, cat.user_books.held(u_id, b_id)),
    {
        look_up(&cat.user_books, u_id, b_id)
    }
}

/// A grant of map `map_id` to user `user_id`.
#[derive(Debug, Clone, Copy, PartialEq, Eq, Structural)]
pub struct UserMap {
    pub user_id: i32,
    pub map_id: i32,
}

impl UserMap {
    pub fn new(user_id: i32, map_id: i32) -> (r: Self)
        ensures
            r.user_id == user_id && r.map_id == map_id,
    {
        UserMap { user_id, map_id }
    }

    /// Records the grant; the user must exist and not hold the asset yet.
    pub fn create(&self, cat: &mut Catalog) -> (r: Result<usize, StoreError>)
        requires
            old(cat).wf(),
        ensures
            final(cat).wf(),
            match r {
                Ok(n) => {
                    &&& n == 1
                    &&& has_key(old(cat).users.rows@, self.user_id)
                    &&& !old(cat).user_maps.held(self.user_id, self.map_id)
                    &&& final(cat).user_maps.pairs@ == old(cat).user_maps.pairs@.push(
                        (self.user_id, self.map_id),
                    )
                    &&& final(cat).agrees_off(&*old(cat), Part::UserMaps, Part::UserMaps)
                },
                Err(e) => {
                    &&& e == StoreError::ConstraintViolation
                    &&& (!has_key(old(cat).users.rows@, self.user_id) || old(cat).user_maps.held(
                        self.user_id,
                        self.map_id,
                    ))
                    &&& *final(cat) == *old(cat)
                },
            },
    {
        grant_checked(&mut cat.user_maps, &cat.users, self.user_id, self.map_id)
    }

    /// Whether user `u_id` holds map `b_id`, read without changing anything.
    pub fn check_ownership(cat: &Catalog, u_id: i32, b_id: i32) -> (r: Ownership)
        ensures
            r == ownership_of(false, cat.user_maps.held(u_id, b_id)),
    {
        look_up(&cat.user_maps, u_id, b_id)
    }
}

/// A grant of 3D-print file `stl_id` to user `user_id`.
#[derive(Debug, Clone, Copy, PartialEq, Eq, Structural)]
pub struct UserStl {
    pub user_id: i32,
    pub stl_id: i32,
}

impl UserStl {
    pub fn new(user_id: i32, stl_id: i32) -> (r: Self)
        ensures
            r.user_id == user_id && r.stl_id == stl_id,
    {
        UserStl { user_id, stl_id }
    }

    /// Records the grant; the user must exist and not hold the asset yet.
    pub fn create(&self, cat: &mut Catalog) -> (r: Result<usize, StoreError>)
        requires
            old(cat).wf(),
        ensures
            final(cat).wf(),
            match r {
                Ok(n) => {
                    &&& n == 1
                    &&& has_key(old(cat).users.rows@, self.user_id)
                    &&& !old(cat).user_stls.held(self.user_id, self.stl_id)
                    &&& final(cat).user_stls.pairs@ == old(cat).user_stls.pairs@.push(
                        (self.user_id, self.stl_id),
                    )
                    &&& final(cat).agrees_off(&*old(cat), Part::UserStls, Part::UserStls)
                },
                Err(e) => {
                    &&& e == StoreError::ConstraintViolation
                    &&& (!has_key(old(cat).users.rows@, self.user_id) || old(cat).user_stls.held(
                        self.user_id,
                        self.stl_id,
                    ))
                    &&& *final(cat) == *old(cat)
                },
            },
    {
        grant_checked(&mut cat.user_stls, &cat.users, self.user_id, self.stl_id)
    }

    /// Whether user `u_id` holds 3D-print file `b_id`, read without changing anything.
    pub fn check_ownership(cat: &Catalog, u_id: i32, b_id: i32) -> (r: Ownership)
        ensures
            r == ownership_of(false, cat.user_stls.held(u_id, b_id)),
    {
        look_up(&cat.user_stls, u_id, b_id)
    }
}

/// A grant of token `token_id` to user `user_id`.
#[derive(Debug, Clone, Copy, PartialEq, Eq, Structural)]
pub struct UserToken {
    pub user_id: i32,
    pub token_id: i32,
}

impl UserToken {
    pub fn new(user_id: i32, token_id: i32) -> (r: Self)
        ensures
            r.user_id == user_id && r.token_id == token_id,
    {
        UserToken { user_id, token_id }
    }

    /// Records the grant; the user must exist and not hold the asset yet.
    pub fn create(&self, cat: &mut Catalog) -> (r: Result<usize, StoreError>)
        requires
            old(cat).wf(),
        ensures
            final(cat).wf(),
            match r {
                Ok(n) => {
                    &&& n == 1
                    &&& has_key(old(cat).users.rows@, self.user_id)
                    &&& !old(cat).user_tokens.held(self.user_id, self.token_id)
                    &&& final(cat).user_tokens.pairs@ == old(cat).user_tokens.pairs@.push(
                        (self.user_id, self.token_id),
                    )
                    &&& final(cat).agrees_off(&*old(cat), Part::UserTokens, Part::UserTokens)
                },
                Err(e) => {
                    &&& e == StoreError::ConstraintViolation
                    &&& (!has_key(old(cat).users.rows@, self.user_id) || old(cat).user_tokens.held(
                        self.user_id,
                        self.token_id,
                    ))
                    &&& *final(cat) == *old(cat)
                },
            },
    {
        grant_checked(&mut cat.user_tokens, &cat.users, self.user_id, self.token_id)
    }

    /// Whether user `u_id` holds token `b_id`, read without changing anything.
    pub fn check_ownership(cat: &Catalog, u_id: i32, b_id: i32) -> (r: Ownership)
        ensures
            r == ownership_of(false, cat.user_tokens.held(u_id, b_id)),
    {
        look_up(&cat.user_tokens, u_id, b_id)
    }
}

} // verus!
