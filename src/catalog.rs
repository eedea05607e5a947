//! The catalog: every table of the schema, held together with the rules that
//! tie them.
use crate::error::StoreError;
use crate::handlers::album::{AlbumQuery, Track};
use crate::handlers::book::Book;
use crate::handlers::creator::Creators;
use crate::handlers::map::{GameMap, MapPackQuery};
use crate::handlers::stl::Stl;
use crate::handlers::tokens::{Token, TokenPackQuery};
use crate::handlers::user::User;
use crate::table::{Record, Table};
use vstd::prelude::*;

verus! {

/// A join table of `(user_id, asset_id)` rows: who has been granted what.
pub struct Grants {
    pub pairs: Vec<(i32, i32)>,
}

impl Grants {
    /// A user is granted a given asset at most once.
    pub open spec fn wf(&self) -> bool {
        self.pairs@.no_duplicates()
    }

    /// Whether the row `(u, a)` exists.
    pub open spec fn held(&self, u: i32, a: i32) -> bool {
        self.pairs@.contains((u, a))
    }

    /// How many rows `(u, a)` exist.
    pub open spec fn rows_for(&self, u: i32, a: i32) -> nat {
        self.pairs@.to_multiset().count((u, a))
    }

    /// Whether some row belongs to user `u`.
    pub open spec fn has_user(&self, u: i32) -> bool {
        exists|i: int| 0 <= i < self.pairs@.len() && #[trigger] self.pairs@[i].0 == u
    }

    pub fn new() -> (r: Self)
        ensures
            r.wf(),
            r.pairs@.len() == 0,
    {
        Grants { pairs: Vec::new() }
    }

    /// Looks for the row `(u, a)` without changing anything.
    pub fn holds(&self, u: i32, a: i32) -> (r: bool)
        ensures
            r == self.held(u, a),
    {
        let mut i: usize = 0;
        while i < self.pairs.len()
            invariant
                i <= self.pairs@.len(),
                forall|j: int| 0 <= j < i ==> #[trigger] self.pairs@[j] != (u, a),
            decreases self.pairs@.len() - i,
        {
            if self.pairs[i].0 == u && self.pairs[i].1 == a {
                assert(self.pairs@[i as int] == (u, a));
                return true;
            }
            i = i + 1;
        }
        false
    }

    /// Whether some row belongs to user `u`.
    pub fn any_user(&self, u: i32) -> (r: bool)
        ensures
            r == self.has_user(u),
    {
        let mut i: usize = 0;
        while i < self.pairs.len()
            invariant
                i <= self.pairs@.len(),
                forall|j: int| 0 <= j < i ==> #[trigger] self.pairs@[j].0 != u,
            decreases self.pairs@.len() - i,
        {
            if self.pairs[i].0 == u {
                return true;
            }
            i = i + 1;
        }
        false
    }

    /// Adds the row `(u, a)` unless it exists; the count of rows added.
    pub fn grant(&mut self, u: i32, a: i32) -> (r: Result<usize, StoreError>)
        requires
            old(self).wf(),
        ensures
            final(self).wf(),
            match r {
                Ok(n) => n == 1 && !old(self).held(u, a) && final(self).pairs@ == old(
                    self,
                ).pairs@.push((u, a)),
                Err(e) => e == StoreError::ConstraintViolation && old(self).held(u, a)
                    && *final(self) == *old(self),
            },
    {
        if self.holds(u, a) {
            Err(StoreError::ConstraintViolation)
        } else {
            let ghost before = self.pairs@;
            self.pairs.push((u, a));
            proof {
                assert forall|i: int, j: int|
                    0 <= i < self.pairs@.len() && 0 <= j < self.pairs@.len() && i != j implies
                    self.pairs@[i] != self.pairs@[j] by {
                    if i == before.len() as int {
                        assert(before[j] == self.pairs@[j]);
                    } else if j == before.len() as int {
                        assert(before[i] == self.pairs@[i]);
                    } else {
                        assert(before[i] == self.pairs@[i] && before[j] == self.pairs@[j]);
                    }
                }
            }
            Ok(1)
        }
    }
}

/// The tables a change may touch; the others stay as they were.
pub enum Part {
    Users,
    Creators,
    Books,
    Albums,
    Tracks,
    MapPacks,
    Maps,
    Stls,
    TokenPacks,
    Tokens,
    UserAlbums,
    UserBooks,
    UserMaps,
    UserStls,
    UserTokens,
}

/// Every owner in `s` is a key that `next` has passed.
pub open spec fn owners_below<R: Record>(s: Seq<R>, next: i32) -> bool {
    forall|i: int| 0 <= i < s.len() ==> #[trigger] s[i].owner() < next
}

/// All tables of the schema.
pub struct Catalog {
    pub users: Table<User>,
    pub creators: Table<Creators>,
    pub books: Table<Book>,
    pub albums: Table<AlbumQuery>,
    pub tracks: Table<Track>,
    pub map_packs: Table<MapPackQuery>,
    pub maps: Table<GameMap>,
    pub stls: Table<Stl>,
    pub token_packs: Table<TokenPackQuery>,
    pub tokens: Table<Token>,
    pub user_albums: Grants,
    pub user_books: Grants,
    pub user_maps: Grants,
    pub user_stls: Grants,
    pub user_tokens: Grants,
}

impl Catalog {
    /// Each table keeps its keys, each join table its uniqueness, and every
    /// child row names a pack key that has been handed out.
    pub open spec fn wf(&self) -> bool {
        &&& self.users.wf()
        &&& self.creators.wf()
        &&& self.books.wf()
        &&& self.albums.wf()
        &&& self.tracks.wf()
        &&& self.map_packs.wf()
        &&& self.maps.wf()
        &&& self.stls.wf()
        &&& self.token_packs.wf()
        &&& self.tokens.wf()
        &&& self.user_albums.wf()
        &&& self.user_books.wf()
        &&& self.user_maps.wf()
        &&& self.user_stls.wf()
        &&& self.user_tokens.wf()
        &&& owners_below(self.tracks.rows@, self.albums.next_id)
        &&& owners_below(self.maps.rows@, self.map_packs.next_id)
        &&& owners_below(self.tokens.rows@, self.token_packs.next_id)
    }

    /// `self` and `other` agree on every table but `p` and `q`.
    pub open spec fn agrees_off(&self, other: &Catalog, p: Part, q: Part) -> bool {
        &&& (p != Part::Users && q != Part::Users ==> self.users == other.users)
        &&& (p != Part::Creators && q != Part::Creators ==> self.creators == other.creators)
        &&& (p != Part::Books && q != Part::Books ==> self.books == other.books)
        &&& (p != Part::Albums && q != Part::Albums ==> self.albums == other.albums)
        &&& (p != Part::Tracks && q != Part::Tracks ==> self.tracks == other.tracks)
        &&& (p != Part::MapPacks && q != Part::MapPacks ==> self.map_packs == other.map_packs)
        &&& (p != Part::Maps && q != Part::Maps ==> self.maps == other.maps)
        &&& (p != Part::Stls && q != Part::Stls ==> self.stls == other.stls)
        &&& (p != Part::TokenPacks && q != Part::TokenPacks ==> self.token_packs
            == other.token_packs)
        &&& (p != Part::Tokens && q != Part::Tokens ==> self.tokens == other.tokens)
        &&& (p != Part::UserAlbums && q != Part::UserAlbums ==> self.user_albums
            == other.user_albums)
        &&& (p != Part::UserBooks && q != Part::UserBooks ==> self.user_books
            == other.user_books)
        &&& (p != Part::UserMaps && q != Part::UserMaps ==> self.user_maps == other.user_maps)
        &&& (p != Part::UserStls && q != Part::UserStls ==> self.user_stls == other.user_stls)
        &&& (p != Part::UserTokens && q != Part::UserTokens ==> self.user_tokens
            == other.user_tokens)
    }

    /// An empty catalog.
    pub fn new() -> (r: Self)
        ensures
            r.wf(),
            r.users.rows@.len() == 0 && r.users.next_id == 1,
            r.creators.rows@.len() == 0 && r.creators.next_id == 1,
            r.books.rows@.len() == 0 && r.books.next_id == 1,
            r.albums.rows@.len() == 0 && r.albums.next_id == 1,
            r.tracks.rows@.len() == 0 && r.tracks.next_id == 1,
            r.map_packs.rows@.len() == 0 && r.map_packs.next_id == 1,
            r.maps.rows@.len() == 0 && r.maps.next_id == 1,
            r.stls.rows@.len() == 0 && r.stls.next_id == 1,
            r.token_packs.rows@.len() == 0 && r.token_packs.next_id == 1,
            r.tokens.rows@.len() == 0 && r.tokens.next_id == 1,
            r.user_albums.pairs@.len() == 0,
            r.user_books.pairs@.len() == 0,
            r.user_maps.pairs@.len() == 0,
            r.user_stls.pairs@.len() == 0,
            r.user_tokens.pairs@.len() == 0,
    {
        Catalog {
            users: Table::new(),
            creators: Table::new(),
            books: Table::new(),
            albums: Table::new(),
            tracks: Table::new(),
            map_packs: Table::new(),
            maps: Table::new(),
            stls: Table::new(),
            token_packs: Table::new(),
            tokens: Table::new(),
            user_albums: Grants::new(),
            user_books: Grants::new(),
            user_maps: Grants::new(),
            user_stls: Grants::new(),
            user_tokens: Grants::new(),
        }
    }
}

} // verus!
