//! A table of rows with generated primary keys, searched by key or by the
//! foreign key that ties a row to its owner.
use crate::error::StoreError;
use vstd::prelude::*;

verus! {

/// A row of a table: it has a primary key and one foreign key, its owner.
pub trait Record: Sized {
    spec fn key(&self) -> i32;

    spec fn owner(&self) -> i32;

    fn id(&self) -> (r: i32)
        ensures
            r == self.key(),
    ;

    fn owner_id(&self) -> (r: i32)
        ensures
            r == self.owner(),
    ;

    fn duplicate(&self) -> (r: Self)
        ensures
            r == *self,
    ;
}

/// Whether some row of `s` has primary key `k`.
pub open spec fn has_key<R: Record>(s: Seq<R>, k: i32) -> bool {
    exists|i: int| 0 <= i < s.len() && #[trigger] s[i].key() == k
}

/// The row of `s` with key `k`, or `NotFound`.
pub open spec fn found<R: Record>(s: Seq<R>, k: i32) -> Result<R, StoreError> {
    if has_key(s, k) {
        Ok(s[choose|i: int| 0 <= i < s.len() && #[trigger] s[i].key() == k])
    } else {
        Err(StoreError::NotFound)
    }
}

/// Whether some row of `s` has owner `p`.
pub open spec fn has_owner<R: Record>(s: Seq<R>, p: i32) -> bool {
    exists|i: int| 0 <= i < s.len() && #[trigger] s[i].owner() == p
}

/// Whether `r` is picked out by `v`: by its owner if `by_owner`, else by its key.
pub open spec fn picked<R: Record>(r: R, v: i32, by_owner: bool) -> bool {
    if by_owner {
        r.owner() == v
    } else {
        r.key() == v
    }
}

/// The rows of `s` that `v` picks out, in order.
pub open spec fn picked_rows<R: Record>(s: Seq<R>, v: i32, by_owner: bool) -> Seq<R>
    decreases s.len(),
{
    if s.len() == 0 {
        Seq::empty()
    } else {
        let rest = picked_rows(s.drop_last(), v, by_owner);
        if picked(s.last(), v, by_owner) {
            rest.push(s.last())
        } else {
            rest
        }
    }
}

/// The rows of `s` that `v` does not pick out, in order.
pub open spec fn kept_rows<R: Record>(s: Seq<R>, v: i32, by_owner: bool) -> Seq<R>
    decreases s.len(),
{
    if s.len() == 0 {
        Seq::empty()
    } else {
        let rest = kept_rows(s.drop_last(), v, by_owner);
        if picked(s.last(), v, by_owner) {
            rest
        } else {
            rest.push(s.last())
        }
    }
}

/// The rows owned by `p`, in table order.
pub open spec fn owned_by<R: Record>(s: Seq<R>, p: i32) -> Seq<R> {
    picked_rows(s, p, true)
}

/// `s` with the row whose key is `row`'s key replaced by `row`.
pub open spec fn replaced<R: Record>(s: Seq<R>, row: R) -> Seq<R> {
    s.map_values(|r: R| if r.key() == row.key() { row } else { r })
}

/// `s` after replacing, one after another, the rows keyed as each of `rows`.
pub open spec fn replaced_all<R: Record>(s: Seq<R>, rows: Seq<R>) -> Seq<R>
    decreases rows.len(),
{
    if rows.len() == 0 {
        s
    } else {
        replaced(replaced_all(s, rows.drop_last()), rows.last())
    }
}

/// How many of `rows` have a key that `s` holds.
pub open spec fn hits<R: Record>(s: Seq<R>, rows: Seq<R>) -> nat
    decreases rows.len(),
{
    if rows.len() == 0 {
        0
    } else {
        hits(s, rows.drop_last()) + if has_key(s, rows.last().key()) {
            1nat
        } else {
            0nat
        }
    }
}

/// Keys of `s` lie in `1..next` and no two rows share one.
pub open spec fn keys_ok<R: Record>(s: Seq<R>, next: i32) -> bool {
    &&& forall|i: int| 0 <= i < s.len() ==> 1 <= #[trigger] s[i].key() < next
    &&& forall|i: int, j: int|
        0 <= i < j < s.len() ==> #[trigger] s[i].key() != #[trigger] s[j].key()
}

pub proof fn lemma_split<R: Record>(s: Seq<R>, v: i32, by_owner: bool)
    ensures
        picked_rows(s, v, by_owner).len() + kept_rows(s, v, by_owner).len() == s.len(),
        forall|x: R| #[trigger] kept_rows(s, v, by_owner).contains(x) ==> s.contains(x),
    decreases s.len(),
{
    if s.len() > 0 {
        lemma_split(s.drop_last(), v, by_owner);
        let k = kept_rows(s, v, by_owner);
        let k0 = kept_rows(s.drop_last(), v, by_owner);
        assert forall|x: R| #[trigger] k.contains(x) implies s.contains(x) by {
            if k0.contains(x) {
                let j = choose|j: int| 0 <= j < s.drop_last().len() && s.drop_last()[j] == x;
                assert(s[j] == x);
            } else {
                assert(s[s.len() - 1] == x);
            }
        }
    }
}

pub proof fn lemma_found_at<R: Record>(s: Seq<R>, next: i32, i: int)
    requires
        keys_ok(s, next),
        0 <= i < s.len(),
    ensures
        found(s, s[i].key()) == Ok::<R, StoreError>(s[i]),
{
    let c = choose|c: int| 0 <= c < s.len() && #[trigger] s[c].key() == s[i].key();
    if c != i {
        if c < i {
            assert(s[c].key() != s[i].key());
        } else {
            assert(s[i].key() != s[c].key());
        }
    }
}

pub proof fn lemma_picked_key_len<R: Record>(s: Seq<R>, k: i32, next: i32)
    requires
        keys_ok(s, next),
    ensures
        picked_rows(s, k, false).len() == if has_key(s, k) {
            1int
        } else {
            0int
        },
    decreases s.len(),
{
    if s.len() > 0 {
        let d = s.drop_last();
        assert forall|i: int, j: int| 0 <= i < j < d.len() implies #[trigger] d[i].key()
            != #[trigger] d[j].key() by {
            assert(s[i] == d[i] && s[j] == d[j]);
        }
        assert forall|i: int| 0 <= i < d.len() implies 1 <= #[trigger] d[i].key() < next by {
            assert(s[i] == d[i]);
        }
        lemma_picked_key_len(d, k, next);
        if s.last().key() == k {
            assert forall|i: int| 0 <= i < d.len() implies #[trigger] d[i].key() != k by {
                assert(s[i] == d[i]);
                assert(s[i].key() != s[s.len() - 1].key());
            }
        } else {
            if has_key(s, k) {
                let i = choose|i: int| 0 <= i < s.len() && #[trigger] s[i].key() == k;
                assert(d[i].key() == k);
            }
            if has_key(d, k) {
                let i = choose|i: int| 0 <= i < d.len() && #[trigger] d[i].key() == k;
                assert(s[i].key() == k);
            }
        }
    }
}

/// A row appended under the fresh key `next` is what that key finds.
pub proof fn lemma_found_pushed<R: Record>(s: Seq<R>, next: i32, row: R)
    requires
        keys_ok(s, next),
        row.key() == next,
    ensures
        found(s.push(row), next) == Ok::<R, StoreError>(row),
{
    let t = s.push(row);
    assert(t[s.len() as int].key() == next);
    let c = choose|c: int| 0 <= c < t.len() && #[trigger] t[c].key() == next;
    if c < s.len() {
        assert(t[c] == s[c]);
    }
}

/// Rows none of which has owner `p` hold nothing owned by `p`.
pub proof fn lemma_none_owned<R: Record>(s: Seq<R>, p: i32)
    requires
        forall|i: int| 0 <= i < s.len() ==> #[trigger] s[i].owner() != p,
    ensures
        owned_by(s, p) == Seq::<R>::empty(),
    decreases s.len(),
{
    if s.len() > 0 {
        let d = s.drop_last();
        assert forall|i: int| 0 <= i < d.len() implies #[trigger] d[i].owner() != p by {
            assert(s[i] == d[i]);
        }
        lemma_none_owned(d, p);
        assert(s[s.len() - 1].owner() != p);
    }
}

/// No row that `v` picks out survives its removal.
pub proof fn lemma_kept_unpicked<R: Record>(s: Seq<R>, v: i32, by_owner: bool)
    ensures
        forall|i: int|
            0 <= i < kept_rows(s, v, by_owner).len() ==> !picked(
                #[trigger] kept_rows(s, v, by_owner)[i],
                v,
                by_owner,
            ),
    decreases s.len(),
{
    if s.len() > 0 {
        lemma_kept_unpicked(s.drop_last(), v, by_owner);
        let k0 = kept_rows(s.drop_last(), v, by_owner);
        let k = kept_rows(s, v, by_owner);
        assert forall|i: int| 0 <= i < k.len() implies !picked(#[trigger] k[i], v, by_owner) by {
            if i < k0.len() {
                assert(k[i] == k0[i]);
            }
        }
    }
}

pub proof fn lemma_kept_keys_ok<R: Record>(s: Seq<R>, v: i32, by_owner: bool, next: i32)
    requires
        keys_ok(s, next),
    ensures
        keys_ok(kept_rows(s, v, by_owner), next),
    decreases s.len(),
{
    if s.len() > 0 {
        let d = s.drop_last();
        assert forall|i: int, j: int| 0 <= i < j < d.len() implies #[trigger] d[i].key()
            != #[trigger] d[j].key() by {
            assert(s[i] == d[i] && s[j] == d[j]);
        }
        lemma_kept_keys_ok(d, v, by_owner, next);
        lemma_split(d, v, by_owner);
        let k0 = kept_rows(d, v, by_owner);
        if !picked(s.last(), v, by_owner) {
            let k = k0.push(s.last());
            assert forall|i: int, j: int| 0 <= i < j < k.len() implies #[trigger] k[i].key()
                != #[trigger] k[j].key() by {
                if j == k.len() - 1 {
                    assert(k0.contains(k[i]));
                    let m = choose|m: int| 0 <= m < d.len() && d[m] == k[i];
                    assert(s[m] == d[m]);
                }
            }
        }
    }
}

pub proof fn lemma_replaced_keys<R: Record>(s: Seq<R>, row: R)
    ensures
        replaced(s, row).len() == s.len(),
        forall|i: int| 0 <= i < s.len() ==> #[trigger] replaced(s, row)[i].key() == s[i].key(),
        forall|k: i32| has_key(replaced(s, row), k) == has_key(s, k),
{
    let t = replaced(s, row);
    assert forall|k: i32| has_key(t, k) == has_key(s, k) by {
        if has_key(s, k) {
            let i = choose|i: int| 0 <= i < s.len() && s[i].key() == k;
            assert(t[i].key() == k);
        }
        if has_key(t, k) {
            let i = choose|i: int| 0 <= i < t.len() && t[i].key() == k;
            assert(s[i].key() == k);
        }
    }
}

pub proof fn lemma_replaced_all_keys<R: Record>(s: Seq<R>, rows: Seq<R>, next: i32)
    requires
        keys_ok(s, next),
    ensures
        replaced_all(s, rows).len() == s.len(),
        keys_ok(replaced_all(s, rows), next),
        forall|k: i32| has_key(replaced_all(s, rows), k) == has_key(s, k),
    decreases rows.len(),
{
    if rows.len() > 0 {
        lemma_replaced_all_keys(s, rows.drop_last(), next);
        let t = replaced_all(s, rows.drop_last());
        lemma_replaced_keys(t, rows.last());
        let u = replaced(t, rows.last());
        assert forall|i: int, j: int| 0 <= i < j < u.len() implies #[trigger] u[i].key()
            != #[trigger] u[j].key() by {
            assert(u[i].key() == t[i].key() && u[j].key() == t[j].key());
        }
        assert forall|i: int| 0 <= i < u.len() implies 1 <= #[trigger] u[i].key() < next by {
            assert(u[i].key() == t[i].key());
        }
    }
}

/// A table: its rows, and the key that the next row will get.
pub struct Table<R> {
    pub rows: Vec<R>,
    pub next_id: i32,
}

impl<R: Record> Table<R> {
    /// Keys are unique and below `next_id`, which no row has reached yet.
    pub open spec fn wf(&self) -> bool {
        &&& 1 <= self.next_id
        &&& self.rows@.len() < self.next_id
        &&& keys_ok(self.rows@, self.next_id)
    }

    pub fn new() -> (r: Self)
        ensures
            r.wf(),
            r.rows@.len() == 0,
            r.next_id == 1,
    {
        Table { rows: Vec::new(), next_id: 1 }
    }

    /// The position of the row with key `k`.
    pub fn find(&self, k: i32) -> (r: Option<usize>)
        ensures
            match r {
                Some(i) => i < self.rows@.len() && self.rows@[i as int].key() == k,
                None => !has_key(self.rows@, k),
            },
    {
        let mut i: usize = 0;
        while i < self.rows.len()
            invariant
                i <= self.rows@.len(),
                forall|j: int| 0 <= j < i ==> #[trigger] self.rows@[j].key() != k,
            decreases self.rows@.len() - i,
        {
            if self.rows[i].id() == k {
                return Some(i);
            }
            i = i + 1;
        }
        None
    }

    /// A copy of the row with key `k`.
    pub fn get(&self, k: i32) -> (r: Result<R, StoreError>)
        requires
            self.wf(),
        ensures
            r == found(self.rows@, k),
    {
        match self.find(k) {
            Some(i) => {
                proof {
                    lemma_found_at(self.rows@, self.next_id, i as int);
                }
                Ok(self.rows[i].duplicate())
            },
            None => Err(StoreError::NotFound),
        }
    }

    /// Whether some row has owner `p`.
    pub fn any_owned(&self, p: i32) -> (r: bool)
        ensures
            r == has_owner(self.rows@, p),
    {
        let mut i: usize = 0;
        while i < self.rows.len()
            invariant
                i <= self.rows@.len(),
                forall|j: int| 0 <= j < i ==> #[trigger] self.rows@[j].owner() != p,
            decreases self.rows@.len() - i,
        {
            if self.rows[i].owner_id() == p {
                return true;
            }
            i = i + 1;
        }
        false
    }

    /// Copies of the rows owned by `p`, in table order.
    pub fn owned(&self, p: i32) -> (r: Vec<R>)
        ensures
            r@ == owned_by(self.rows@, p),
    {
        let mut out: Vec<R> = Vec::new();
        let mut i: usize = 0;
        while i < self.rows.len()
            invariant
                i <= self.rows@.len(),
                out@ == picked_rows(self.rows@.subrange(0, i as int), p, true),
            decreases self.rows@.len() - i,
        {
            assert(self.rows@.subrange(0, i + 1).drop_last() =~= self.rows@.subrange(0, i as int));
            if self.rows[i].owner_id() == p {
                out.push(self.rows[i].duplicate());
            }
            i = i + 1;
        }
        assert(self.rows@.subrange(0, self.rows@.len() as int) =~= self.rows@);
        out
    }

    /// The key that the next inserted row must carry, if keys are not used up.
    pub fn fresh_key(&self) -> (r: Result<i32, StoreError>)
        ensures
            match r {
                Ok(k) => k == self.next_id && self.next_id < i32::MAX,
                Err(e) => e == StoreError::ConstraintViolation && self.next_id == i32::MAX,
            },
    {
        if self.next_id < i32::MAX {
            Ok(self.next_id)
        } else {
            Err(StoreError::ConstraintViolation)
        }
    }

    /// Appends `row`, which carries the fresh key.
    pub fn insert(&mut self, row: R)
        requires
            old(self).wf(),
            row.key() == old(self).next_id,
            old(self).next_id < i32::MAX,
        ensures
            final(self).wf(),
            final(self).rows@ == old(self).rows@.push(row),
            final(self).next_id == old(self).next_id + 1,
    {
        self.rows.push(row);
        self.next_id = self.next_id + 1;
    }

    /// Replaces the row keyed as `row`; the count of rows changed (0 or 1).
    pub fn update(&mut self, row: R) -> (n: usize)
        requires
            old(self).wf(),
        ensures
            final(self).wf(),
            final(self).next_id == old(self).next_id,
            final(self).rows@ == replaced(old(self).rows@, row),
            n == if has_key(old(self).rows@, row.key()) {
                1usize
            } else {
                0usize
            },
    {
        proof {
            lemma_replaced_all_keys(self.rows@, seq![row], self.next_id);
            assert(seq![row].drop_last() =~= Seq::<R>::empty());
        }
        match self.find(row.id()) {
            Some(i) => {
                let ghost before = self.rows@;
                self.rows.set(i, row);
                assert(self.rows@ =~= replaced(before, row));
                1
            },
            None => {
                assert(self.rows@ =~= replaced(self.rows@, row));
                0
            },
        }
    }

    /// Removes the rows that `v` picks out; the count of rows removed.
    fn remove_picked(&mut self, v: i32, by_owner: bool) -> (n: usize)
        requires
            old(self).wf(),
        ensures
            final(self).wf(),
            final(self).next_id == old(self).next_id,
            final(self).rows@ == kept_rows(old(self).rows@, v, by_owner),
            n == picked_rows(old(self).rows@, v, by_owner).len(),
    {
        let ghost s = self.rows@;
        let mut kept: Vec<R> = Vec::new();
        let mut removed: usize = 0;
        let mut i: usize = 0;
        while i < self.rows.len()
            invariant
                self.rows@ == s,
                i <= s.len(),
                kept@ == kept_rows(s.subrange(0, i as int), v, by_owner),
                removed == picked_rows(s.subrange(0, i as int), v, by_owner).len(),
                removed + kept@.len() == i,
            decreases s.len() - i,
        {
            proof {
                assert(s.subrange(0, i + 1).drop_last() =~= s.subrange(0, i as int));
                lemma_split(s.subrange(0, i as int), v, by_owner);
            }
            let row = &self.rows[i];
            let hit = if by_owner {
                row.owner_id() == v
            } else {
                row.id() == v
            };
            if hit {
                removed = removed + 1;
            } else {
                kept.push(row.duplicate());
            }
            i = i + 1;
        }
        proof {
            assert(s.subrange(0, s.len() as int) =~= s);
            lemma_split(s, v, by_owner);
            lemma_kept_keys_ok(s, v, by_owner, self.next_id);
        }
        self.rows = kept;
        removed
    }

    /// Removes the row with key `k`; the count of rows removed (0 or 1).
    pub fn delete(&mut self, k: i32) -> (n: usize)
        requires
            old(self).wf(),
        ensures
            final(self).wf(),
            final(self).next_id == old(self).next_id,
            final(self).rows@ == kept_rows(old(self).rows@, k, false),
            n == if has_key(old(self).rows@, k) {
                1usize
            } else {
                0usize
            },
    {
        proof {
            lemma_picked_key_len(self.rows@, k, self.next_id);
        }
        self.remove_picked(k, false)
    }

    /// Removes every row owned by `p`; the count of rows removed.
    pub fn delete_owned(&mut self, p: i32) -> (n: usize)
        requires
            old(self).wf(),
        ensures
            final(self).wf(),
            final(self).next_id == old(self).next_id,
            final(self).rows@ == kept_rows(old(self).rows@, p, true),
            n == owned_by(old(self).rows@, p).len(),
    {
        self.remove_picked(p, true)
    }
}

} // verus!
