//! Token packs: composite assets whose children are tokens.
use crate::catalog::{Catalog, Part};
use crate::error::StoreError;
use crate::handlers::ownership::UserToken;
use crate::handlers::view::Asset;
use crate::table::{
    found, has_key, hits, kept_rows, lemma_found_pushed, lemma_none_owned, owned_by, replaced,
    replaced_all, Record,
};
use crate::text::{child_file, child_file_of};
use crate::types::asset::{AssetType, Ownership};
use vstd::prelude::*;

verus! {

/// A row of the tokens table: a token of a token pack.
#[derive(Debug)]
pub struct Token {
    pub id: i32,
    pub creator_id: i32,
    pub token_pack_id: i32,
    pub title: String,
    pub thumb: String,
    pub summary: String,
    pub file: String,
    pub height: Option<i32>,
    pub width: Option<i32>,
    pub is_free: bool,
    pub main_image: String,
}

/// The attributes of a token to be created.
#[derive(Debug)]
pub struct TokenCreate {
    pub creator_id: i32,
    pub token_pack_id: i32,
    pub title: String,
    pub thumb: String,
    pub summary: String,
    pub file: String,
    pub height: Option<i32>,
    pub width: Option<i32>,
    pub is_free: bool,
    pub main_image: String,
}

/// A row of the token_packs table.
#[derive(Debug)]
pub struct TokenPackQuery {
    pub id: i32,
    pub creator_id: i32,
    pub title: String,
    pub thumb: String,
    pub summary: String,
    pub directory: String,
    pub is_free: bool,
    pub main_image: String,
}

/// The attributes of a token pack to be created.
#[derive(Debug)]
pub struct TokenPackCreate {
    pub creator_id: i32,
    pub title: String,
    pub thumb: String,
    pub summary: String,
    pub directory: String,
    pub is_free: bool,
    pub main_image: String,
}

/// A token pack with its tokens.
#[derive(Debug)]
pub struct TokenPack {
    pub id: i32,
    pub creator_id: i32,
    pub title: String,
    pub thumb: String,
    pub summary: String,
    pub directory: String,
    pub is_free: bool,
    pub main_image: String,
    pub tokens: Vec<Token>,
}

impl Record for Token {
    open spec fn key(&self) -> i32 {
        self.id
    }

    open spec fn owner(&self) -> i32 {
        self.token_pack_id
    }

    fn id(&self) -> (r: i32) {
        self.id
    }

    fn owner_id(&self) -> (r: i32) {
        self.token_pack_id
    }

    fn duplicate(&self) -> (r: Self) {
        Token {
            id: self.id,
            creator_id: self.creator_id,
            token_pack_id: self.token_pack_id,
            title: self.title.clone(),
            thumb: self.thumb.clone(),
            summary: self.summary.clone(),
            file: self.file.clone(),
            height: self.height,
            width: self.width,
            is_free: self.is_free,
            main_image: self.main_image.clone(),
        }
    }
}

impl Record for TokenPackQuery {
    open spec fn key(&self) -> i32 {
        self.id
    }

    open spec fn owner(&self) -> i32 {
        self.creator_id
    }

    fn id(&self) -> (r: i32) {
        self.id
    }

    fn owner_id(&self) -> (r: i32) {
        self.creator_id
    }

    fn duplicate(&self) -> (r: Self) {
        TokenPackQuery {
            id: self.id,
            creator_id: self.creator_id,
            title: self.title.clone(),
            thumb: self.thumb.clone(),
            summary: self.summary.clone(),
            directory: self.directory.clone(),
            is_free: self.is_free,
            main_image: self.main_image.clone(),
        }
    }
}

impl TokenPackCreate {
    /// The row these attributes make under key `id`.
    pub open spec fn row(&self, id: i32) -> TokenPackQuery {
        TokenPackQuery {
            id,
            creator_id: self.creator_id,
            title: self.title,
            thumb: self.thumb,
            summary: self.summary,
            directory: self.directory,
            is_free: self.is_free,
            main_image: self.main_image,
        }
    }

    /// Whether a creation of these attributes turned `before` into `after` and
    /// gave `made`.
    pub open spec fn made(&self, before: &Catalog, after: &Catalog, made: TokenPackQuery) -> bool {
        &&& before.token_packs.next_id < i32::MAX
        &&& has_key(before.creators.rows@, self.creator_id)
        &&& made == self.row(before.token_packs.next_id)
        &&& after.token_packs.rows@ == before.token_packs.rows@.push(made)
        &&& after.token_packs.next_id == before.token_packs.next_id + 1
        &&& after.agrees_off(before, Part::TokenPacks, Part::TokenPacks)
    }

    pub fn new(
        creator_id: i32,
        title: String,
        thumb: String,
        summary: String,
        directory: String,
        is_free: bool,
        main_image: String,
    ) -> (r: Self)
        ensures
            r == (TokenPackCreate {
                creator_id,
                title,
                thumb,
                summary,
                directory,
                is_free,
                main_image,
            }),
    {
        TokenPackCreate { creator_id, title, thumb, summary, directory, is_free, main_image }
    }

    /// Inserts the token pack alone under a fresh key; its creator must exist.
    pub fn create(&self, cat: &mut Catalog) -> (r: Result<TokenPackQuery, StoreError>)
        requires
            old(cat).wf(),
        ensures
            final(cat).wf(),
            match r {
                Ok(q) => self.made(&*old(cat), &*final(cat), q),
                Err(e) => {
                    &&& e == StoreError::ConstraintViolation
                    &&& (old(cat).token_packs.next_id == i32::MAX || !has_key(
                        old(cat).creators.rows@,
                        self.creator_id,
                    ))
                    &&& *final(cat) == *old(cat)
                },
            },
    {
        let id = match cat.token_packs.fresh_key() {
            Ok(k) => k,
            Err(e) => return Err(e),
        };
        if cat.creators.find(self.creator_id).is_none() {
            return Err(StoreError::ConstraintViolation);
        }
        let row = TokenPackQuery {
            id,
            creator_id: self.creator_id,
            title: self.title.clone(),
            thumb: self.thumb.clone(),
            summary: self.summary.clone(),
            directory: self.directory.clone(),
            is_free: self.is_free,
            main_image: self.main_image.clone(),
        };
        cat.token_packs.insert(row.duplicate());
        Ok(row)
    }
}

impl TokenCreate {
    /// The row these attributes make under key `id`.
    pub open spec fn row(&self, id: i32) -> Token {
        Token {
            id,
            creator_id: self.creator_id,
            token_pack_id: self.token_pack_id,
            title: self.title,
            thumb: self.thumb,
            summary: self.summary,
            file: self.file,
            height: self.height,
            width: self.width,
            is_free: self.is_free,
            main_image: self.main_image,
        }
    }

    /// Whether a creation of these attributes turned `before` into `after` and
    /// gave `made`.
    pub open spec fn made(&self, before: &Catalog, after: &Catalog, made: Token) -> bool {
        &&& before.tokens.next_id < i32::MAX
        &&& has_key(before.creators.rows@, self.creator_id)
        &&& has_key(before.token_packs.rows@, self.token_pack_id)
        &&& made == self.row(before.tokens.next_id)
        &&& after.tokens.rows@ == before.tokens.rows@.push(made)
        &&& after.tokens.next_id == before.tokens.next_id + 1
        &&& after.agrees_off(before, Part::Tokens, Part::Tokens)
    }

    /// The attributes of a token of the token pack keyed `token_pack_id`; its file is the slug
    /// of its title under `directory`.
    pub fn new(
        creator_id: i32,
        token_pack_id: i32,
        title: String,
        thumb: String,
        summary: String,
        height: Option<i32>,
        width: Option<i32>,
        directory: &str,
        main_image: String,
        is_free: bool,
    ) -> (r: Self)
        ensures
            r.creator_id == creator_id,
            r.token_pack_id == token_pack_id,
            r.title == title,
            r.thumb == thumb,
            r.summary == summary,
            r.height == height,
            r.width == width,
            r.main_image == main_image,
            r.is_free == is_free,
            r.file@ == child_file_of(directory@, title@),
    {
        let file = child_file(directory, title.as_str());
        TokenCreate {
            creator_id,
            token_pack_id,
            title,
            thumb,
            summary,
            file,
            height,
            width,
            is_free,
            main_image,
        }
    }

    /// Inserts the token under a fresh key; its creator and its token pack must exist.
    pub fn create(&self, cat: &mut Catalog) -> (r: Result<Token, StoreError>)
        requires
            old(cat).wf(),
        ensures
            final(cat).wf(),
            match r {
                Ok(t) => self.made(&*old(cat), &*final(cat), t),
                Err(e) => {
                    &&& e == StoreError::ConstraintViolation
                    &&& (old(cat).tokens.next_id == i32::MAX || !has_key(
                        old(cat).creators.rows@,
                        self.creator_id,
                    ) || !has_key(old(cat).token_packs.rows@, self.token_pack_id))
                    &&& *final(cat) == *old(cat)
                },
            },
    {
        let id = match cat.tokens.fresh_key() {
            Ok(k) => k,
            Err(e) => return Err(e),
        };
        if cat.creators.find(self.creator_id).is_none()
            || cat.token_packs.find(self.token_pack_id).is_none() {
            return Err(StoreError::ConstraintViolation);
        }
        let row = Token {
            id,
            creator_id: self.creator_id,
            token_pack_id: self.token_pack_id,
            title: self.title.clone(),
            thumb: self.thumb.clone(),
            summary: self.summary.clone(),
            file: self.file.clone(),
            height: self.height,
            width: self.width,
            is_free: self.is_free,
            main_image: self.main_image.clone(),
        };
        cat.tokens.insert(row.duplicate());
        Ok(row)
    }
}

/// Whether every token of `s` names a creator and a token pack that exist in `cat`.
pub open spec fn refs_ok(cat: &Catalog, s: Seq<Token>) -> bool {
    forall|i: int|
        0 <= i < s.len() ==> has_key(cat.creators.rows@, #[trigger] s[i].creator_id) && has_key(
            cat.token_packs.rows@,
            s[i].token_pack_id,
        )
}

fn tokens_refs_ok(cat: &Catalog, tokens_vec: &Vec<Token>) -> (r: bool)
    ensures
        r == refs_ok(cat, tokens_vec@),
{
    let mut i: usize = 0;
    while i < tokens_vec.len()
        invariant
            i <= tokens_vec@.len(),
            refs_ok(cat, tokens_vec@.subrange(0, i as int)),
        decreases tokens_vec@.len() - i,
    {
        let creator_at = cat.creators.find(tokens_vec[i].creator_id);
        let pack_at = cat.token_packs.find(tokens_vec[i].token_pack_id);
        let ghost next = tokens_vec@.subrange(0, i + 1);
        match (creator_at, pack_at) {
            (Some(c), Some(p)) => {
                assert(cat.creators.rows@[c as int].key() == next[i as int].creator_id);
                assert(cat.token_packs.rows@[p as int].key() == next[i as int].token_pack_id);
            },
            _ => {
                assert(next[i as int] == tokens_vec@[i as int]);
                return false;
            },
        }
        assert forall|j: int| 0 <= j < i + 1 implies has_key(
            cat.creators.rows@,
            #[trigger] tokens_vec@.subrange(0, i + 1)[j].creator_id,
        ) && has_key(cat.token_packs.rows@, tokens_vec@.subrange(0, i + 1)[j].token_pack_id) by {
            if j < i {
                assert(tokens_vec@.subrange(0, i + 1)[j] == tokens_vec@.subrange(0, i as int)[j]);
            }
        }
        assert(refs_ok(cat, next));
        i = i + 1;
    }
    assert(tokens_vec@.subrange(0, tokens_vec@.len() as int) =~= tokens_vec@);
    true
}

fn get_token_pack(cat: &Catalog, token_pack_id: i32) -> (r: Result<TokenPackQuery, StoreError>)
    requires
        cat.wf(),
    ensures
        r == found(cat.token_packs.rows@, token_pack_id),
{
    cat.token_packs.get(token_pack_id)
}

fn destroy_token_pack(cat: &mut Catalog, token_pack_id: i32) -> (n: usize)
    requires
        old(cat).wf(),
    ensures
        final(cat).wf(),
        n == if has_key(old(cat).token_packs.rows@, token_pack_id) {
            1usize
        } else {
            0usize
        },
        final(cat).token_packs.rows@ == kept_rows(old(cat).token_packs.rows@, token_pack_id, false),
        final(cat).token_packs.next_id == old(cat).token_packs.next_id,
        final(cat).agrees_off(&*old(cat), Part::TokenPacks, Part::TokenPacks),
{
    cat.token_packs.delete(token_pack_id)
}

fn update_tokens(cat: &mut Catalog, tokens_vec: &Vec<Token>) -> (changes: usize)
    requires
        old(cat).wf(),
        refs_ok(&*old(cat), tokens_vec@),
    ensures
        final(cat).wf(),
        changes == hits(old(cat).tokens.rows@, tokens_vec@),
        changes <= tokens_vec@.len(),
        final(cat).tokens.rows@ == replaced_all(old(cat).tokens.rows@, tokens_vec@),
        final(cat).tokens.next_id == old(cat).tokens.next_id,
        final(cat).agrees_off(&*old(cat), Part::Tokens, Part::Tokens),
{
    let ghost start = cat.tokens.rows@;
    let mut changes: usize = 0;
    let mut i: usize = 0;
    while i < tokens_vec.len()
        invariant
            cat.wf(),
            old(cat).wf(),
            i <= tokens_vec@.len(),
            refs_ok(&*old(cat), tokens_vec@),
            start == old(cat).tokens.rows@,
            cat.tokens.rows@ == replaced_all(start, tokens_vec@.subrange(0, i as int)),
            cat.tokens.next_id == old(cat).tokens.next_id,
            changes == hits(start, tokens_vec@.subrange(0, i as int)),
            changes <= i,
            cat.agrees_off(&*old(cat), Part::Tokens, Part::Tokens),
        decreases tokens_vec@.len() - i,
    {
        let ghost before = cat.tokens.rows@;
        proof {
            assert(tokens_vec@.subrange(0, i + 1).drop_last()
                =~= tokens_vec@.subrange(0, i as int));
            crate::table::lemma_replaced_all_keys(
                start,
                tokens_vec@.subrange(0, i as int),
                cat.tokens.next_id,
            );
            crate::table::lemma_replaced_keys(before, tokens_vec@[i as int]);
        }
        let n = cat.tokens.update(tokens_vec[i].duplicate());
        proof {
            let row = tokens_vec@[i as int];
            let s = cat.tokens.rows@;
            assert(has_key(old(cat).creators.rows@, tokens_vec@[i as int].creator_id));
            assert(has_key(old(cat).token_packs.rows@, row.token_pack_id));
            assert forall|j: int| 0 <= j < s.len() implies #[trigger] s[j].owner()
                < cat.token_packs.next_id by {
                if before[j].key() != row.key() {
                    assert(s[j] == before[j]);
                } else {
                    assert(s[j] == row);
                    let k = choose|k: int|
                        0 <= k < old(cat).token_packs.rows@.len() && #[trigger] old(
                            cat,
                        ).token_packs.rows@[k].key() == row.token_pack_id;
                    assert(cat.token_packs == old(cat).token_packs);
                }
            }
        }
        changes = changes + n;
        i = i + 1;
    }
    assert(tokens_vec@.subrange(0, tokens_vec@.len() as int) =~= tokens_vec@);
    changes
}

impl TokenPack {
    /// The row of the token_packs table that this token pack is read from and written to.
    pub open spec fn pack_row(&self) -> TokenPackQuery {
        TokenPackQuery {
            id: self.id,
            creator_id: self.creator_id,
            title: self.title,
            thumb: self.thumb,
            summary: self.summary,
            directory: self.directory,
            is_free: self.is_free,
            main_image: self.main_image,
        }
    }
}

impl Asset for TokenPack {
    open spec fn kind(&self) -> AssetType {
        AssetType::Token
    }

    open spec fn maker(&self) -> i32 {
        self.creator_id
    }

    open spec fn free(&self) -> bool {
        self.is_free
    }

    open spec fn granted(&self, cat: &Catalog, user_id: i32) -> bool {
        cat.user_tokens.held(user_id, self.id)
    }

    /// The token pack row keyed `id` with the tokens it owns, in table order; or
    /// `NotFound`.
    open spec fn read_gives(cat: &Catalog, id: i32, r: Result<TokenPack, StoreError>) -> bool {
        let row = found(cat.token_packs.rows@, id);
        match r {
            Ok(p) => {
                &&& row == Ok::<TokenPackQuery, StoreError>(p.pack_row())
                &&& p.tokens@ == owned_by(cat.tokens.rows@, id)
            },
            Err(e) => row == Err::<TokenPackQuery, StoreError>(e),
        }
    }

    /// The tokens owned by `id` are gone, then the token pack itself; `n` counts
    /// both.
    open spec fn destroy_gives(before: &Catalog, after: &Catalog, id: i32, n: usize) -> bool {
        &&& n == owned_by(before.tokens.rows@, id).len() + if has_key(before.token_packs.rows@, id) {
            1int
        } else {
            0int
        }
        &&& after.tokens.rows@ == kept_rows(before.tokens.rows@, id, true)
        &&& after.token_packs.rows@ == kept_rows(before.token_packs.rows@, id, false)
        &&& after.tokens.next_id == before.tokens.next_id
        &&& after.token_packs.next_id == before.token_packs.next_id
        &&& after.agrees_off(before, Part::TokenPacks, Part::Tokens)
    }

    open spec fn update_fits(&self) -> bool {
        self.tokens@.len() < usize::MAX
    }

    /// Every field of the token pack and of each of its tokens is written to the row
    /// with its key, if all creators and token packs named exist; else nothing
    /// changes.
    open spec fn update_gives(
        &self,
        before: &Catalog,
        after: &Catalog,
        r: Result<usize, StoreError>,
    ) -> bool {
        match r {
            Ok(n) => {
                &&& has_key(before.creators.rows@, self.creator_id)
                &&& refs_ok(before, self.tokens@)
                &&& n == hits(before.tokens.rows@, self.tokens@) + if has_key(
                    before.token_packs.rows@,
                    self.id,
                ) {
                    1int
                } else {
                    0int
                }
                &&& after.token_packs.rows@ == replaced(before.token_packs.rows@, self.pack_row())
                &&& after.tokens.rows@ == replaced_all(before.tokens.rows@, self.tokens@)
                &&& after.token_packs.next_id == before.token_packs.next_id
                &&& after.tokens.next_id == before.tokens.next_id
                &&& after.agrees_off(before, Part::TokenPacks, Part::Tokens)
            },
            Err(e) => {
                &&& e == StoreError::ConstraintViolation
                &&& !(has_key(before.creators.rows@, self.creator_id) && refs_ok(
                    before,
                    self.tokens@,
                ))
                &&& *after == *before
            },
        }
    }

    fn read(cat: &Catalog, id: i32) -> (r: Result<TokenPack, StoreError>) {
        let pack = match get_token_pack(cat, id) {
            Ok(q) => q,
            Err(e) => return Err(e),
        };
        let tokens = cat.tokens.owned(id);
        Ok(
            TokenPack {
                id: pack.id,
                creator_id: pack.creator_id,
                title: pack.title,
                thumb: pack.thumb,
                summary: pack.summary,
                directory: pack.directory,
                is_free: pack.is_free,
                main_image: pack.main_image,
                tokens,
            },
        )
    }

    fn destroy(cat: &mut Catalog, id: i32) -> (n: usize) {
        let changes = cat.tokens.delete_owned(id);
        proof {
            crate::table::lemma_split(old(cat).tokens.rows@, id, true);
            let s = cat.tokens.rows@;
            assert forall|j: int| 0 <= j < s.len() implies #[trigger] s[j].owner()
                < cat.token_packs.next_id by {
                assert(s.contains(s[j]));
                assert(old(cat).tokens.rows@.contains(s[j]));
                let k = choose|k: int|
                    0 <= k < old(cat).tokens.rows@.len() && old(cat).tokens.rows@[k] == s[j];
                assert(old(cat).tokens.rows@[k].owner() < old(cat).token_packs.next_id);
            }
        }
        changes + destroy_token_pack(cat, id)
    }

    fn update(&self, cat: &mut Catalog) -> (r: Result<usize, StoreError>) {
        if cat.creators.find(self.creator_id).is_none() || !tokens_refs_ok(cat, &self.tokens) {
            return Err(StoreError::ConstraintViolation);
        }
        let pack = TokenPackQuery {
            id: self.id,
            creator_id: self.creator_id,
            title: self.title.clone(),
            thumb: self.thumb.clone(),
            summary: self.summary.clone(),
            directory: self.directory.clone(),
            is_free: self.is_free,
            main_image: self.main_image.clone(),
        };
        let changes = cat.token_packs.update(pack);
        proof {
            crate::table::lemma_replaced_keys(old(cat).token_packs.rows@, self.pack_row());
            assert forall|i: int| 0 <= i < self.tokens@.len() implies has_key(
                cat.creators.rows@,
                #[trigger] self.tokens@[i].creator_id,
            ) && has_key(cat.token_packs.rows@, self.tokens@[i].token_pack_id) by {
                assert(has_key(old(cat).creators.rows@, self.tokens@[i].creator_id));
                assert(has_key(old(cat).token_packs.rows@, self.tokens@[i].token_pack_id));
            }
        }
        let n = update_tokens(cat, &self.tokens);
        Ok(n + changes)
    }

    fn creator(&self) -> (r: i32) {
        self.creator_id
    }

    fn asset_type(&self) -> (r: AssetType) {
        AssetType::Token
    }

    fn check_ownership(&self, cat: &Catalog, user_id: i32) -> (r: Ownership) {
        if self.is_free {
            Ownership::Free
        } else {
            UserToken::check_ownership(cat, user_id, self.id)
        }
    }
}
/// Destroying a token pack that exists counts each of its tokens and the token pack
/// itself; destroying it again counts nothing.
pub proof fn lemma_token_pack_destroy_counts(
    c0: Catalog,
    c1: Catalog,
    c2: Catalog,
    id: i32,
    n1: usize,
    n2: usize,
)
    requires
        c0.wf(),
        TokenPack::destroy_gives(&c0, &c1, id, n1),
        TokenPack::destroy_gives(&c1, &c2, id, n2),
    ensures
        has_key(c0.token_packs.rows@, id) ==> n1 == owned_by(c0.tokens.rows@, id).len() + 1,
        n2 == 0,
{
    crate::table::lemma_kept_unpicked(c0.tokens.rows@, id, true);
    crate::table::lemma_kept_unpicked(c0.token_packs.rows@, id, false);
    lemma_none_owned(c1.tokens.rows@, id);
}

/// A token pack just created reads back as created, with no tokens yet.
pub proof fn lemma_new_token_pack_reads_back(
    before: Catalog,
    after: Catalog,
    attrs: TokenPackCreate,
    made: TokenPackQuery,
)
    requires
        before.wf(),
        attrs.made(&before, &after, made),
    ensures
        found(after.token_packs.rows@, made.id) == Ok::<TokenPackQuery, StoreError>(made),
        made == attrs.row(made.id),
        owned_by(after.tokens.rows@, made.id) == Seq::<Token>::empty(),
{
    lemma_found_pushed(before.token_packs.rows@, before.token_packs.next_id, made);
    assert forall|i: int| 0 <= i < after.tokens.rows@.len() implies #[trigger] after.tokens.rows@[
        i
    ].owner() != made.id by {
        assert(after.tokens.rows@[i].owner() < before.token_packs.next_id);
    }
    lemma_none_owned(after.tokens.rows@, made.id);
}

/// A token just created comes last among the tokens that its token pack reads back
/// with; every other token pack's tokens, and the token pack rows, stay as they were.
pub proof fn lemma_new_token_joins_token_pack(
    before: Catalog,
    after: Catalog,
    attrs: TokenCreate,
    made: Token,
)
    requires
        before.wf(),
        attrs.made(&before, &after, made),
    ensures
        made == attrs.row(made.id),
        owned_by(after.tokens.rows@, attrs.token_pack_id) == owned_by(
            before.tokens.rows@,
            attrs.token_pack_id,
        ).push(made),
        forall|p: i32|
            p != attrs.token_pack_id ==> #[trigger] owned_by(after.tokens.rows@, p) == owned_by(
                before.tokens.rows@,
                p,
            ),
        after.token_packs == before.token_packs,
{
    assert(after.tokens.rows@.drop_last() =~= before.tokens.rows@);
}

} // verus!
