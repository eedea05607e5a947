//! Creators: the profiles that publish assets, one per user.
use crate::catalog::{Catalog, Part};
use crate::error::StoreError;
use crate::handlers::user::User;
use crate::table::{found, has_key, has_owner, kept_rows, replaced, Record};
use crate::types::user::{display_name_of, resolve, DisplayName};
use vstd::prelude::*;

verus! {

/// A creator with its names filled in and its display mode decoded.
#[derive(Debug)]
pub struct Creator {
    pub id: i32,
    pub first_name: String,
    pub last_name: String,
    pub other_name: String,
    pub publisher: String,
    pub default_name: DisplayName,
}

/// A row of the creators table, as stored.
#[derive(Debug)]
pub struct Creators {
    pub id: i32,
    pub user_id: i32,
    pub first_name: Option<String>,
    pub last_name: Option<String>,
    pub other_name: Option<String>,
    pub publisher: Option<String>,
    pub default_name: String,
}

/// The attributes of a creator to be created.
#[derive(Debug)]
pub struct CreatorNew {
    pub user_id: i32,
    pub first_name: Option<String>,
    pub last_name: Option<String>,
    pub other_name: Option<String>,
    pub publisher: Option<String>,
    pub default_name: String,
}

/// A stored name, with an absent one read as the empty string.
pub open spec fn or_empty(o: Option<String>) -> Seq<char> {
    match o {
        Some(s) => s@,
        None => Seq::empty(),
    }
}

fn copy_name(o: &Option<String>) -> (r: Option<String>)
    ensures
        r == *o,
{
    match o {
        Some(s) => Some(s.clone()),
        None => None,
    }
}

fn name_or_empty(o: Option<String>) -> (r: String)
    ensures
        r@ == or_empty(o),
{
    match o {
        Some(s) => s,
        None => String::new(),
    }
}

impl Record for Creators {
    open spec fn key(&self) -> i32 {
        self.id
    }

    open spec fn owner(&self) -> i32 {
        self.user_id
    }

    fn id(&self) -> (r: i32) {
        self.id
    }

    fn owner_id(&self) -> (r: i32) {
        self.user_id
    }

    fn duplicate(&self) -> (r: Self) {
        Creators {
            id: self.id,
            user_id: self.user_id,
            first_name: copy_name(&self.first_name),
            last_name: copy_name(&self.last_name),
            other_name: copy_name(&self.other_name),
            publisher: copy_name(&self.publisher),
            default_name: self.default_name.clone(),
        }
    }
}

/// The display name and the logo shown for the creator keyed `creator_id`:
/// the creator's row, its mode decoded, and the row of its user.
pub open spec fn shown_as(cat: &Catalog, creator_id: i32) -> Result<
    (Seq<char>, Seq<char>),
    StoreError,
> {
    match found(cat.creators.rows@, creator_id) {
        Err(e) => Err(e),
        Ok(row) => match DisplayName::decoded(row.default_name@) {
            None => Err(StoreError::DataCorruption),
            Some(mode) => match found(cat.users.rows@, row.user_id) {
                Err(e) => Err(e),
                Ok(user) => Ok(
                    (
                        display_name_of(
                            mode,
                            or_empty(row.first_name),
                            or_empty(row.last_name),
                            or_empty(row.other_name),
                            or_empty(row.publisher),
                        ),
                        user.logo@,
                    ),
                ),
            },
        },
    }
}

impl Creator {
    /// The name this creator is shown under.
    pub open spec fn shown_name(&self) -> Seq<char> {
        display_name_of(
            self.default_name,
            self.first_name@,
            self.last_name@,
            self.other_name@,
            self.publisher@,
        )
    }

    /// Whether `self` is `row` with its names filled in and its mode decoded.
    pub open spec fn decodes(&self, row: Creators) -> bool {
        &&& DisplayName::decoded(row.default_name@) == Some(self.default_name)
        &&& self.id == row.id
        &&& self.first_name@ == or_empty(row.first_name)
        &&& self.last_name@ == or_empty(row.last_name)
        &&& self.other_name@ == or_empty(row.other_name)
        &&& self.publisher@ == or_empty(row.publisher)
    }

    /// Decodes a stored row; a mode string that no mode is stored as is corrupt.
    pub fn new(creator: Creators) -> (r: Result<Creator, StoreError>)
        ensures
            match r {
                Ok(c) => c.decodes(creator),
                Err(e) => e == StoreError::DataCorruption && DisplayName::decoded(
                    creator.default_name@,
                ) is None,
            },
    {
        let default_name = match DisplayName::retreieve(creator.default_name.as_str()) {
            Ok(d) => d,
            Err(e) => return Err(e),
        };
        Ok(
            Creator {
                id: creator.id,
                first_name: name_or_empty(creator.first_name),
                last_name: name_or_empty(creator.last_name),
                other_name: name_or_empty(creator.other_name),
                publisher: name_or_empty(creator.publisher),
                default_name,
            },
        )
    }

    /// The creator keyed `creator_id`, and the user it is bound to.
    pub fn creator_with_user(cat: &Catalog, creator_id: i32) -> (r: Result<
        (Creator, User),
        StoreError,
    >)
        requires
            cat.wf(),
        ensures
            match r {
                Ok((c, u)) => {
                    &&& found(cat.creators.rows@, creator_id) is Ok
                    &&& c.decodes(found(cat.creators.rows@, creator_id)->Ok_0)
                    &&& found(cat.users.rows@, found(cat.creators.rows@, creator_id)->Ok_0.user_id)
                        == Ok::<User, StoreError>(u)
                    &&& shown_as(cat, creator_id) == Ok::<(Seq<char>, Seq<char>), StoreError>(
                        (c.shown_name(), u.logo@),
                    )
                },
                Err(e) => shown_as(cat, creator_id) == Err::<(Seq<char>, Seq<char>), StoreError>(
                    e,
                ),
            },
    {
        let row = match cat.creators.get(creator_id) {
            Ok(row) => row,
            Err(e) => return Err(e),
        };
        let user_id = row.user_id;
        let creator = match Creator::new(row) {
            Ok(c) => c,
            Err(e) => return Err(e),
        };
        let user = match cat.users.get(user_id) {
            Ok(u) => u,
            Err(e) => return Err(e),
        };
        Ok((creator, user))
    }

    /// The name this creator is shown under, formatted by its mode.
    pub fn get_display_name(&self) -> (r: String)
        ensures
            r@ == self.shown_name(),
    {
        resolve(
            self.default_name,
            self.first_name.as_str(),
            self.last_name.as_str(),
            self.other_name.as_str(),
            self.publisher.as_str(),
        )
    }
}

impl CreatorNew {
    /// Inserts a creator bound to the user keyed `id`, which must exist and
    /// have no creator yet.
    pub fn create(
        cat: &mut Catalog,
        id: i32,
        first_name: Option<String>,
        last_name: Option<String>,
        other_name: Option<String>,
        publisher: Option<String>,
        name: DisplayName,
    ) -> (r: Result<Creator, StoreError>)
        requires
            old(cat).wf(),
        ensures
            final(cat).wf(),
            match r {
                Ok(c) => {
                    &&& old(cat).creators.next_id < i32::MAX
                    &&& has_key(old(cat).users.rows@, id)
                    &&& !has_owner(old(cat).creators.rows@, id)
                    &&& final(cat).creators.rows@.len() == old(cat).creators.rows@.len() + 1
                    &&& final(cat).creators.rows@.drop_last() == old(cat).creators.rows@
                    &&& final(cat).creators.next_id == old(cat).creators.next_id + 1
                    &&& final(cat).agrees_off(&*old(cat), Part::Creators, Part::Creators)
                    &&& ({
                        let row = final(cat).creators.rows@.last();
                        &&& row == (Creators {
                            id: old(cat).creators.next_id,
                            user_id: id,
                            first_name,
                            last_name,
                            other_name,
                            publisher,
                            default_name: row.default_name,
                        })
                        &&& row.default_name@ == name.stored()
                        &&& c.decodes(row)
                    })
                },
                Err(e) => {
                    &&& e == StoreError::ConstraintViolation
                    &&& (old(cat).creators.next_id == i32::MAX || !has_key(
                        old(cat).users.rows@,
                        id,
                    ) || has_owner(old(cat).creators.rows@, id))
                    &&& *final(cat) == *old(cat)
                },
            },
    {
        let key = match cat.creators.fresh_key() {
            Ok(k) => k,
            Err(e) => return Err(e),
        };
        if cat.users.find(id).is_none() || cat.creators.any_owned(id) {
            return Err(StoreError::ConstraintViolation);
        }
        let row = Creators {
            id: key,
            user_id: id,
            first_name,
            last_name,
            other_name,
            publisher,
            default_name: name.store().to_owned(),
        };
        proof {
            DisplayName::lemma_decodes_stored(name);
        }
        cat.creators.insert(row.duplicate());
        Creator::new(row)
    }
}

impl Creators {
    /// The creator keyed `creator_id`, decoded.
    pub fn read(cat: &Catalog, creator_id: i32) -> (r: Result<Creator, StoreError>)
        requires
            cat.wf(),
        ensures
            match found(cat.creators.rows@, creator_id) {
                Err(e) => r == Err::<Creator, StoreError>(e),
                Ok(row) => match r {
                    Ok(c) => c.decodes(row),
                    Err(e) => e == StoreError::DataCorruption && DisplayName::decoded(
                        row.default_name@,
                    ) is None,
                },
            },
    {
        match cat.creators.get(creator_id) {
            Ok(row) => Creator::new(row),
            Err(e) => Err(e),
        }
    }

    /// Replaces the names and the mode of the creator keyed `creator_id`; the
    /// count of rows changed.
    pub fn update_names(
        cat: &mut Catalog,
        creator_id: i32,
        first: Option<String>,
        last: Option<String>,
        other: Option<String>,
        publish: Option<String>,
        default: DisplayName,
    ) -> (n: usize)
        requires
            old(cat).wf(),
        ensures
            final(cat).wf(),
            final(cat).agrees_off(&*old(cat), Part::Creators, Part::Creators),
            final(cat).creators.next_id == old(cat).creators.next_id,
            match found(old(cat).creators.rows@, creator_id) {
                Err(_) => n == 0 && final(cat).creators == old(cat).creators,
                Ok(row) => n == 1 && ({
                    let new_row = found(final(cat).creators.rows@, creator_id)->Ok_0;
                    &&& final(cat).creators.rows@ == replaced(old(cat).creators.rows@, new_row)
                    &&& new_row == (Creators {
                        id: creator_id,
                        user_id: row.user_id,
                        first_name: first,
                        last_name: last,
                        other_name: other,
                        publisher: publish,
                        default_name: new_row.default_name,
                    })
                    &&& new_row.default_name@ == default.stored()
                }),
            },
    {
        let row = match cat.creators.get(creator_id) {
            Ok(row) => row,
            Err(_) => return 0,
        };
        let new_row = Creators {
            id: creator_id,
            user_id: row.user_id,
            first_name: first,
            last_name: last,
            other_name: other,
            publisher: publish,
            default_name: default.store().to_owned(),
        };
        let ghost g = new_row;
        let n = cat.creators.update(new_row);
        proof {
            crate::table::lemma_replaced_keys(old(cat).creators.rows@, g);
            let s = old(cat).creators.rows@;
            let i = choose|i: int| 0 <= i < s.len() && #[trigger] s[i].key() == creator_id;
            crate::table::lemma_found_at(cat.creators.rows@, cat.creators.next_id, i);
        }
        n
    }

    /// Removes the creator keyed `creator_id`; the count of rows removed. A
    /// creator that an asset still names stays.
    pub fn destroy(cat: &mut Catalog, creator_id: i32) -> (r: Result<usize, StoreError>)
        requires
            old(cat).wf(),
        ensures
            final(cat).wf(),
            ({
                let referred = has_owner(old(cat).books.rows@, creator_id) || has_owner(
                    old(cat).albums.rows@,
                    creator_id,
                ) || has_owner(old(cat).map_packs.rows@, creator_id) || has_owner(
                    old(cat).stls.rows@,
                    creator_id,
                ) || has_owner(old(cat).token_packs.rows@, creator_id);
                match r {
                    Ok(n) => {
                        &&& !referred
                        &&& n == if has_key(old(cat).creators.rows@, creator_id) {
                            1usize
                        } else {
                            0usize
                        }
                        &&& final(cat).creators.rows@ == kept_rows(
                            old(cat).creators.rows@,
                            creator_id,
                            false,
                        )
                        &&& final(cat).creators.next_id == old(cat).creators.next_id
                        &&& final(cat).agrees_off(&*old(cat), Part::Creators, Part::Creators)
                    },
                    Err(e) => e == StoreError::ConstraintViolation && referred && *final(cat)
                        == *old(cat),
                }
            }),
    {
        if cat.books.any_owned(creator_id) || cat.albums.any_owned(creator_id)
            || cat.map_packs.any_owned(creator_id) || cat.stls.any_owned(creator_id)
            || cat.token_packs.any_owned(creator_id) {
            return Err(StoreError::ConstraintViolation);
        }
        Ok(cat.creators.delete(creator_id))
    }
}

} // verus!
