//! Users: the identities that creators are bound to and that own assets.
use crate::catalog::{Catalog, Part};
use crate::error::StoreError;
use crate::table::{found, has_key, has_owner, kept_rows, replaced, Record};
use vstd::prelude::*;

verus! {

/// A row of the users table.
#[derive(Debug)]
pub struct User {
    pub id: i32,
    pub username: String,
    pub email: String,
    pub logo: String,
}

/// The attributes of a user to be created.
#[derive(Debug)]
pub struct UserNew {
    pub username: String,
    pub email: String,
    pub logo: String,
}

impl Record for User {
    open spec fn key(&self) -> i32 {
        self.id
    }

    open spec fn owner(&self) -> i32 {
        self.id
    }

    fn id(&self) -> (r: i32) {
        self.id
    }

    fn owner_id(&self) -> (r: i32) {
        self.id
    }

    fn duplicate(&self) -> (r: Self) {
        User {
            id: self.id,
            username: self.username.clone(),
            email: self.email.clone(),
            logo: self.logo.clone(),
        }
    }
}

/// Whether a user other than the one keyed `except` is named `name`.
pub open spec fn name_taken(s: Seq<User>, name: Seq<char>, except: i32) -> bool {
    exists|i: int| 0 <= i < s.len() && #[trigger] s[i].username@ == name && s[i].id != except
}

fn username_taken(users: &Vec<User>, name: &String, except: i32) -> (r: bool)
    ensures
        r == name_taken(users@, name@, except),
{
    let mut i: usize = 0;
    while i < users.len()
        invariant
            i <= users@.len(),
            forall|j: int|
                0 <= j < i ==> !(#[trigger] users@[j].username@ == name@ && users@[j].id
                    != except),
        decreases users@.len() - i,
    {
        if users[i].username == *name && users[i].id != except {
            return true;
        }
        i = i + 1;
    }
    false
}

impl UserNew {
    /// Inserts a user with a fresh key; the username must be unused.
    pub fn create(cat: &mut Catalog, username: String, email: String, logo: String) -> (r: Result<
        User,
        StoreError,
    >)
        requires
            old(cat).wf(),
        ensures
            final(cat).wf(),
            match r {
                Ok(u) => {
                    &&& old(cat).users.next_id < i32::MAX
                    &&& !name_taken(old(cat).users.rows@, username@, old(cat).users.next_id)
                    &&& u.id == old(cat).users.next_id
                    &&& u.username == username && u.email == email && u.logo == logo
                    &&& final(cat).users.rows@ == old(cat).users.rows@.push(u)
                    &&& final(cat).users.next_id == old(cat).users.next_id + 1
                    &&& final(cat).agrees_off(&*old(cat), Part::Users, Part::Users)
                },
                Err(e) => {
                    &&& e == StoreError::ConstraintViolation
                    &&& (old(cat).users.next_id == i32::MAX || name_taken(
                        old(cat).users.rows@,
                        username@,
                        old(cat).users.next_id,
                    ))
                    &&& *final(cat) == *old(cat)
                },
            },
    {
        let id = match cat.users.fresh_key() {
            Ok(k) => k,
            Err(e) => return Err(e),
        };
        if username_taken(&cat.users.rows, &username, id) {
            return Err(StoreError::ConstraintViolation);
        }
        let user = User { id, username, email, logo };
        cat.users.insert(user.duplicate());
        Ok(user)
    }
}

impl User {
    /// The user with key `id`.
    pub fn read(cat: &Catalog, id: i32) -> (r: Result<User, StoreError>)
        requires
            cat.wf(),
        ensures
            r == found(cat.users.rows@, id),
    {
        cat.users.get(id)
    }

    /// Writes every field of `user` to the row with its key; the count of rows
    /// changed. Another user may not hold the new username.
    pub fn update(cat: &mut Catalog, user: User) -> (r: Result<usize, StoreError>)
        requires
            old(cat).wf(),
        ensures
            final(cat).wf(),
            match r {
                Ok(n) => {
                    &&& !name_taken(old(cat).users.rows@, user.username@, user.id)
                    &&& n == if has_key(old(cat).users.rows@, user.id) {
                        1usize
                    } else {
                        0usize
                    }
                    &&& final(cat).users.rows@ == replaced(old(cat).users.rows@, user)
                    &&& final(cat).users.next_id == old(cat).users.next_id
                    &&& final(cat).agrees_off(&*old(cat), Part::Users, Part::Users)
                },
                Err(e) => {
                    &&& e == StoreError::ConstraintViolation
                    &&& name_taken(old(cat).users.rows@, user.username@, user.id)
                    &&& *final(cat) == *old(cat)
                },
            },
    {
        if username_taken(&cat.users.rows, &user.username, user.id) {
            return Err(StoreError::ConstraintViolation);
        }
        Ok(cat.users.update(user))
    }

    /// Removes the user with key `id`; the count of rows removed. A user that a
    /// creator or an ownership row still refers to stays.
    pub fn destroy(cat: &mut Catalog, id: i32) -> (r: Result<usize, StoreError>)
        requires
            old(cat).wf(),
        ensures
            final(cat).wf(),
            ({
                let referred = has_owner(old(cat).creators.rows@, id)
                    || old(cat).user_albums.has_user(id) || old(cat).user_books.has_user(id)
                    || old(cat).user_maps.has_user(id) || old(cat).user_stls.has_user(id)
                    || old(cat).user_tokens.has_user(id);
                match r {
                    Ok(n) => {
                        &&& !referred
                        &&& n == if has_key(old(cat).users.rows@, id) {
                            1usize
                        } else {
                            0usize
                        }
                        &&& final(cat).users.rows@ == kept_rows(old(cat).users.rows@, id, false)
                        &&& final(cat).users.next_id == old(cat).users.next_id
                        &&& final(cat).agrees_off(&*old(cat), Part::Users, Part::Users)
                    },
                    Err(e) => e == StoreError::ConstraintViolation && referred && *final(cat)
                        == *old(cat),
                }
            }),
    {
        if cat.creators.any_owned(id) || cat.user_albums.any_user(id) || cat.user_books.any_user(
            id,
        ) || cat.user_maps.any_user(id) || cat.user_stls.any_user(id) || cat.user_tokens.any_user(
            id,
        ) {
            return Err(StoreError::ConstraintViolation);
        }
        Ok(cat.users.delete(id))
    }
}

} // verus!
