//! Books: simple assets with a page count.
use crate::catalog::{Catalog, Part};
use crate::error::StoreError;
use crate::handlers::ownership::UserBook;
use crate::handlers::view::Asset;
use crate::table::{found, has_key, kept_rows, lemma_found_pushed, replaced, Record};
use crate::types::asset::{AssetType, Ownership};
use vstd::prelude::*;

verus! {

/// A row of the books table.
#[derive(Debug)]
pub struct Book {
    pub id: i32,
    pub creator_id: i32,
    pub title: String,
    pub thumb: String,
    pub summary: String,
    pub file: String,
    pub pages: i32,
    pub main_image: String,
    pub is_free: bool,
}

/// The attributes of a book to be created.
#[derive(Debug)]
pub struct BookCreate {
    pub creator_id: i32,
    pub title: String,
    pub thumb: String,
    pub summary: String,
    pub file: String,
    pub pages: i32,
    pub main_image: String,
    pub is_free: bool,
}

impl Record for Book {
    open spec fn key(&self) -> i32 {
        self.id
    }

    open spec fn owner(&self) -> i32 {
        self.creator_id
    }

    fn id(&self) -> (r: i32) {
        self.id
    }

    fn owner_id(&self) -> (r: i32) {
        self.creator_id
    }

    fn duplicate(&self) -> (r: Self) {
        Book {
            id: self.id,
            creator_id: self.creator_id,
            title: self.title.clone(),
            thumb: self.thumb.clone(),
            summary: self.summary.clone(),
            file: self.file.clone(),
            pages: self.pages,
            main_image: self.main_image.clone(),
            is_free: self.is_free,
        }
    }
}

impl BookCreate {
    /// The row these attributes make under key `id`.
    pub open spec fn row(&self, id: i32) -> Book {
        Book {
            id,
            creator_id: self.creator_id,
            title: self.title,
            thumb: self.thumb,
            summary: self.summary,
            file: self.file,
            pages: self.pages,
            main_image: self.main_image,
            is_free: self.is_free,
        }
    }

    /// Whether a creation of these attributes turned `before` into `after` and
    /// gave `made`.
    pub open spec fn made(&self, before: &Catalog, after: &Catalog, made: Book) -> bool {
        &&& before.books.next_id < i32::MAX
        &&& has_key(before.creators.rows@, self.creator_id)
        &&& made == self.row(before.books.next_id)
        &&& after.books.rows@ == before.books.rows@.push(made)
        &&& after.books.next_id == before.books.next_id + 1
        &&& after.agrees_off(before, Part::Books, Part::Books)
    }

    pub fn new(
        creator_id: i32,
        title: String,
        thumb: String,
        summary: String,
        file: String,
        pages: i32,
        main_image: String,
        is_free: bool,
    ) -> (r: Self)
        ensures
            r == (BookCreate {
                creator_id,
                title,
                thumb,
                summary,
                file,
                pages,
                main_image,
                is_free,
            }),
    {
        BookCreate { creator_id, title, thumb, summary, file, pages, main_image, is_free }
    }

    /// Inserts the book under a fresh key; its creator must exist.
    pub fn create(&self, cat: &mut Catalog) -> (r: Result<Book, StoreError>)
        requires
            old(cat).wf(),
        ensures
            final(cat).wf(),
            match r {
                Ok(b) => self.made(&*old(cat), &*final(cat), b),
                Err(e) => {
                    &&& e == StoreError::ConstraintViolation
                    &&& (old(cat).books.next_id == i32::MAX || !has_key(
                        old(cat).creators.rows@,
                        self.creator_id,
                    ))
                    &&& *final(cat) == *old(cat)
                },
            },
    {
        let id = match cat.books.fresh_key() {
            Ok(k) => k,
            Err(e) => return Err(e),
        };
        if cat.creators.find(self.creator_id).is_none() {
            return Err(StoreError::ConstraintViolation);
        }
        let book = Book {
            id,
            creator_id: self.creator_id,
            title: self.title.clone(),
            thumb: self.thumb.clone(),
            summary: self.summary.clone(),
            file: self.file.clone(),
            pages: self.pages,
            main_image: self.main_image.clone(),
            is_free: self.is_free,
        };
        cat.books.insert(book.duplicate());
        Ok(book)
    }
}

impl Asset for Book {
    open spec fn kind(&self) -> AssetType {
        AssetType::Book
    }

    open spec fn maker(&self) -> i32 {
        self.creator_id
    }

    open spec fn free(&self) -> bool {
        self.is_free
    }

    open spec fn granted(&self, cat: &Catalog, user_id: i32) -> bool {
        cat.user_books.held(user_id, self.id)
    }

    /// The row keyed `id`, or `NotFound`.
    open spec fn read_gives(cat: &Catalog, id: i32, r: Result<Book, StoreError>) -> bool {
        r == found(cat.books.rows@, id)
    }

    /// The row keyed `id` is gone, and counted if it was there.
    open spec fn destroy_gives(before: &Catalog, after: &Catalog, id: i32, n: usize) -> bool {
        &&& n == if has_key(before.books.rows@, id) {
            1usize
        } else {
            0usize
        }
        &&& after.books.rows@ == kept_rows(before.books.rows@, id, false)
        &&& after.books.next_id == before.books.next_id
        &&& after.agrees_off(before, Part::Books, Part::Books)
    }

    open spec fn update_fits(&self) -> bool {
        true
    }

    /// Every field is written to the row with this key, if the creator named
    /// exists; else nothing changes.
    open spec fn update_gives(
        &self,
        before: &Catalog,
        after: &Catalog,
        r: Result<usize, StoreError>,
    ) -> bool {
        match r {
            Ok(n) => {
                &&& has_key(before.creators.rows@, self.creator_id)
                &&& n == if has_key(before.books.rows@, self.id) {
                    1usize
                } else {
                    0usize
                }
                &&& after.books.rows@ == replaced(before.books.rows@, *self)
                &&& after.books.next_id == before.books.next_id
                &&& after.agrees_off(before, Part::Books, Part::Books)
            },
            Err(e) => {
                &&& e == StoreError::ConstraintViolation
                &&& !has_key(before.creators.rows@, self.creator_id)
                &&& *after == *before
            },
        }
    }

    fn read(cat: &Catalog, id: i32) -> (r: Result<Book, StoreError>) {
        cat.books.get(id)
    }

    fn destroy(cat: &mut Catalog, id: i32) -> (n: usize) {
        cat.books.delete(id)
    }

    fn update(&self, cat: &mut Catalog) -> (r: Result<usize, StoreError>) {
        if cat.creators.find(self.creator_id).is_none() {
            return Err(StoreError::ConstraintViolation);
        }
        Ok(cat.books.update(self.duplicate()))
    }

    fn creator(&self) -> (r: i32) {
        self.creator_id
    }

    fn asset_type(&self) -> (r: AssetType) {
        AssetType::Book
    }

    fn check_ownership(&self, cat: &Catalog, user_id: i32) -> (r: Ownership) {
        if self.is_free {
            Ownership::Free
        } else {
            UserBook::check_ownership(cat, user_id, self.id)
        }
    }
}

/// A book just created reads back as created: every attribute it was given,
/// under the key it got.
pub proof fn lemma_new_book_reads_back(
    before: Catalog,
    after: Catalog,
    attrs: BookCreate,
    made: Book,
)
    requires
        before.wf(),
        attrs.made(&before, &after, made),
    ensures
        found(after.books.rows@, made.id) == Ok::<Book, StoreError>(made),
        made == attrs.row(made.id),
{
    lemma_found_pushed(before.books.rows@, before.books.next_id, made);
}

} // verus!
