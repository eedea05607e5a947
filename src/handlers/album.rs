//! Albums: composite assets whose children are tracks.
use crate::catalog::{Catalog, Part};
use crate::error::StoreError;
use crate::handlers::ownership::UserAlbum;
use crate::handlers::view::Asset;
use crate::table::{
    found, has_key, hits, kept_rows, lemma_found_pushed, lemma_none_owned, owned_by, replaced,
    replaced_all, Record,
};
use crate::text::{child_file, child_file_of};
use crate::types::asset::{AssetType, Ownership};
use vstd::prelude::*;

verus! {

/// A row of the tracks table: a track of an album.
#[derive(Debug)]
pub struct Track {
    pub id: i32,
    pub creator_id: i32,
    pub album_id: i32,
    pub title: String,
    pub file: String,
    pub main_image: Option<String>,
}

/// The attributes of a track to be created.
#[derive(Debug)]
pub struct TrackCreate {
    pub creator_id: i32,
    pub album_id: i32,
    pub title: String,
    pub file: String,
    pub main_image: String,
}

/// A row of the albums table.
#[derive(Debug)]
pub struct AlbumQuery {
    pub id: i32,
    pub creator_id: i32,
    pub title: String,
    pub thumb: String,
    pub summary: String,
    pub directory: String,
    pub is_free: bool,
    pub main_image: String,
}

/// The attributes of an album to be created.
#[derive(Debug)]
pub struct AlbumCreate {
    pub creator_id: i32,
    pub title: String,
    pub thumb: String,
    pub summary: String,
    pub directory: String,
    pub is_free: bool,
    pub main_image: String,
}

/// An album with its tracks.
#[derive(Debug)]
pub struct Album {
    pub id: i32,
    pub creator_id: i32,
    pub title: String,
    pub thumb: String,
    pub summary: String,
    pub directory: String,
    pub is_free: bool,
    pub main_image: String,
    pub tracks: Vec<Track>,
}

fn copy_opt(o: &Option<String>) -> (r: Option<String>)
    ensures
        r == *o,
{
    match o {
        Some(s) => Some(s.clone()),
        None => None,
    }
}

impl Record for Track {
    open spec fn key(&self) -> i32 {
        self.id
    }

    open spec fn owner(&self) -> i32 {
        self.album_id
    }

    fn id(&self) -> (r: i32) {
        self.id
    }

    fn owner_id(&self) -> (r: i32) {
        self.album_id
    }

    fn duplicate(&self) -> (r: Self) {
        Track {
            id: self.id,
            creator_id: self.creator_id,
            album_id: self.album_id,
            title: self.title.clone(),
            file: self.file.clone(),
            main_image: copy_opt(&self.main_image),
        }
    }
}

impl Record for AlbumQuery {
    open spec fn key(&self) -> i32 {
        self.id
    }

    open spec fn owner(&self) -> i32 {
        self.creator_id
    }

    fn id(&self) -> (r: i32) {
        self.id
    }

    fn owner_id(&self) -> (r: i32) {
        self.creator_id
    }

    fn duplicate(&self) -> (r: Self) {
        AlbumQuery {
            id: self.id,
            creator_id: self.creator_id,
            title: self.title.clone(),
            thumb: self.thumb.clone(),
            summary: self.summary.clone(),
            directory: self.directory.clone(),
            is_free: self.is_free,
            main_image: self.main_image.clone(),
        }
    }
}

impl AlbumCreate {
    /// The row these attributes make under key `id`.
    pub open spec fn row(&self, id: i32) -> AlbumQuery {
        AlbumQuery {
            id,
            creator_id: self.creator_id,
            title: self.title,
            thumb: self.thumb,
            summary: self.summary,
            directory: self.directory,
            is_free: self.is_free,
            main_image: self.main_image,
        }
    }

    /// Whether a creation of these attributes turned `before` into `after` and
    /// gave `made`.
    pub open spec fn made(&self, before: &Catalog, after: &Catalog, made: AlbumQuery) -> bool {
        &&& before.albums.next_id < i32::MAX
        &&& has_key(before.creators.rows@, self.creator_id)
        &&& made == self.row(before.albums.next_id)
        &&& after.albums.rows@ == before.albums.rows@.push(made)
        &&& after.albums.next_id == before.albums.next_id + 1
        &&& after.agrees_off(before, Part::Albums, Part::Albums)
    }

    pub fn new(
        creator_id: i32,
        title: String,
        thumb: String,
        summary: String,
        directory: String,
        is_free: bool,
        main_image: String,
    ) -> (r: Self)
        ensures
            r == (AlbumCreate {
                creator_id,
                title,
                thumb,
                summary,
                directory,
                is_free,
                main_image,
            }),
    {
        AlbumCreate { creator_id, title, thumb, summary, directory, is_free, main_image }
    }

    /// Inserts the album alone under a fresh key; its creator must exist.
    pub fn create(&self, cat: &mut Catalog) -> (r: Result<AlbumQuery, StoreError>)
        requires
            old(cat).wf(),
        ensures
            final(cat).wf(),
            match r {
                Ok(q) => self.made(&*old(cat), &*final(cat), q),
                Err(e) => {
                    &&& e == StoreError::ConstraintViolation
                    &&& (old(cat).albums.next_id == i32::MAX || !has_key(
                        old(cat).creators.rows@,
                        self.creator_id,
                    ))
                    &&& *final(cat) == *old(cat)
                },
            },
    {
        let id = match cat.albums.fresh_key() {
            Ok(k) => k,
            Err(e) => return Err(e),
        };
        if cat.creators.find(self.creator_id).is_none() {
            return Err(StoreError::ConstraintViolation);
        }
        let row = AlbumQuery {
            id,
            creator_id: self.creator_id,
            title: self.title.clone(),
            thumb: self.thumb.clone(),
            summary: self.summary.clone(),
            directory: self.directory.clone(),
            is_free: self.is_free,
            main_image: self.main_image.clone(),
        };
        cat.albums.insert(row.duplicate());
        Ok(row)
    }
}

impl TrackCreate {
    /// The row these attributes make under key `id`.
    pub open spec fn row(&self, id: i32) -> Track {
        Track {
            id,
            creator_id: self.creator_id,
            album_id: self.album_id,
            title: self.title,
            file: self.file,
            main_image: Some(self.main_image),
        }
    }

    /// Whether a creation of these attributes turned `before` into `after` and
    /// gave `made`.
    pub open spec fn made(&self, before: &Catalog, after: &Catalog, made: Track) -> bool {
        &&& before.tracks.next_id < i32::MAX
        &&& has_key(before.creators.rows@, self.creator_id)
        &&& has_key(before.albums.rows@, self.album_id)
        &&& made == self.row(before.tracks.next_id)
        &&& after.tracks.rows@ == before.tracks.rows@.push(made)
        &&& after.tracks.next_id == before.tracks.next_id + 1
        &&& after.agrees_off(before, Part::Tracks, Part::Tracks)
    }

    /// The attributes of a track of the album keyed `album_id`; its file is the slug
    /// of its title under `directory`.
    pub fn new(
        creator_id: i32,
        album_id: i32,
        title: String,
        directory: &str,
        main_image: String,
    ) -> (r: Self)
        ensures
            r.creator_id == creator_id,
            r.album_id == album_id,
            r.title == title,
            r.main_image == main_image,
            r.file@ == child_file_of(directory@, title@),
    {
        let file = child_file(directory, title.as_str());
        TrackCreate {
            creator_id,
            album_id,
            title,
            file,
            main_image,
        }
    }

    /// Inserts the track under a fresh key; its creator and its album must exist.
    pub fn create(&self, cat: &mut Catalog) -> (r: Result<Track, StoreError>)
        requires
            old(cat).wf(),
        ensures
            final(cat).wf(),
            match r {
                Ok(t) => self.made(&*old(cat), &*final(cat), t),
                Err(e) => {
                    &&& e == StoreError::ConstraintViolation
                    &&& (old(cat).tracks.next_id == i32::MAX || !has_key(
                        old(cat).creators.rows@,
                        self.creator_id,
                    ) || !has_key(old(cat).albums.rows@, self.album_id))
                    &&& *final(cat) == *old(cat)
                },
            },
    {
        let id = match cat.tracks.fresh_key() {
            Ok(k) => k,
            Err(e) => return Err(e),
        };
        if cat.creators.find(self.creator_id).is_none()
            || cat.albums.find(self.album_id).is_none() {
            return Err(StoreError::ConstraintViolation);
        }
        let row = Track {
            id,
            creator_id: self.creator_id,
            album_id: self.album_id,
            title: self.title.clone(),
            file: self.file.clone(),
            main_image: Some(self.main_image.clone()),
        };
        cat.tracks.insert(row.duplicate());
        Ok(row)
    }
}

/// Whether every track of `s` names a creator and an album that exist in `cat`.
pub open spec fn refs_ok(cat: &Catalog, s: Seq<Track>) -> bool {
    forall|i: int|
        0 <= i < s.len() ==> has_key(cat.creators.rows@, #[trigger] s[i].creator_id) && has_key(
            cat.albums.rows@,
            s[i].album_id,
        )
}

fn tracks_refs_ok(cat: &Catalog, tracks_vec: &Vec<Track>) -> (r: bool)
    ensures
        r == refs_ok(cat, tracks_vec@),
{
    let mut i: usize = 0;
    while i < tracks_vec.len()
        invariant
            i <= tracks_vec@.len(),
            refs_ok(cat, tracks_vec@.subrange(0, i as int)),
        decreases tracks_vec@.len() - i,
    {
        let creator_at = cat.creators.find(tracks_vec[i].creator_id);
        let pack_at = cat.albums.find(tracks_vec[i].album_id);
        let ghost next = tracks_vec@.subrange(0, i + 1);
        match (creator_at, pack_at) {
            (Some(c), Some(p)) => {
                assert(cat.creators.rows@[c as int].key() == next[i as int].creator_id);
                assert(cat.albums.rows@[p as int].key() == next[i as int].album_id);
            },
            _ => {
                assert(next[i as int] == tracks_vec@[i as int]);
                return false;
            },
        }
        assert forall|j: int| 0 <= j < i + 1 implies has_key(
            cat.creators.rows@,
            #[trigger] tracks_vec@.subrange(0, i + 1)[j].creator_id,
        ) && has_key(cat.albums.rows@, tracks_vec@.subrange(0, i + 1)[j].album_id) by {
            if j < i {
                assert(tracks_vec@.subrange(0, i + 1)[j] == tracks_vec@.subrange(0, i as int)[j]);
            }
        }
        assert(refs_ok(cat, next));
        i = i + 1;
    }
    assert(tracks_vec@.subrange(0, tracks_vec@.len() as int) =~= tracks_vec@);
    true
}

fn get_album(cat: &Catalog, album_id: i32) -> (r: Result<AlbumQuery, StoreError>)
    requires
        cat.wf(),
    ensures
        r == found(cat.albums.rows@, album_id),
{
    cat.albums.get(album_id)
}

fn destroy_album(cat: &mut Catalog, album_id: i32) -> (n: usize)
    requires
        old(cat).wf(),
    ensures
        final(cat).wf(),
        n == if has_key(old(cat).albums.rows@, album_id) {
            1usize
        } else {
            0usize
        },
        final(cat).albums.rows@ == kept_rows(old(cat).albums.rows@, album_id, false),
        final(cat).albums.next_id == old(cat).albums.next_id,
        final(cat).agrees_off(&*old(cat), Part::Albums, Part::Albums),
{
    cat.albums.delete(album_id)
}

fn update_tracks(cat: &mut Catalog, tracks_vec: &Vec<Track>) -> (changes: usize)
    requires
        old(cat).wf(),
        refs_ok(&*old(cat), tracks_vec@),
    ensures
        final(cat).wf(),
        changes == hits(old(cat).tracks.rows@, tracks_vec@),
        changes <= tracks_vec@.len(),
        final(cat).tracks.rows@ == replaced_all(old(cat).tracks.rows@, tracks_vec@),
        final(cat).tracks.next_id == old(cat).tracks.next_id,
        final(cat).agrees_off(&*old(cat), Part::Tracks, Part::Tracks),
{
    let ghost start = cat.tracks.rows@;
    let mut changes: usize = 0;
    let mut i: usize = 0;
    while i < tracks_vec.len()
        invariant
            cat.wf(),
            old(cat).wf(),
            i <= tracks_vec@.len(),
            refs_ok(&*old(cat), tracks_vec@),
            start == old(cat).tracks.rows@,
            cat.tracks.rows@ == replaced_all(start, tracks_vec@.subrange(0, i as int)),
            cat.tracks.next_id == old(cat).tracks.next_id,
            changes == hits(start, tracks_vec@.subrange(0, i as int)),
            changes <= i,
            cat.agrees_off(&*old(cat), Part::Tracks, Part::Tracks),
        decreases tracks_vec@.len() - i,
    {
        let ghost before = cat.tracks.rows@;
        proof {
            assert(tracks_vec@.subrange(0, i + 1).drop_last()
                =~= tracks_vec@.subrange(0, i as int));
            crate::table::lemma_replaced_all_keys(
                start,
                tracks_vec@.subrange(0, i as int),
                cat.tracks.next_id,
            );
            crate::table::lemma_replaced_keys(before, tracks_vec@[i as int]);
        }
        let n = cat.tracks.update(tracks_vec[i].duplicate());
        proof {
            let row = tracks_vec@[i as int];
            let s = cat.tracks.rows@;
            assert(has_key(old(cat).creators.rows@, tracks_vec@[i as int].creator_id));
            assert(has_key(old(cat).albums.rows@, row.album_id));
            assert forall|j: int| 0 <= j < s.len() implies #[trigger] s[j].owner()
                < cat.albums.next_id by {
                if before[j].key() != row.key() {
                    assert(s[j] == before[j]);
                } else {
                    assert(s[j] == row);
                    let k = choose|k: int|
                        0 <= k < old(cat).albums.rows@.len() && #[trigger] old(
                            cat,
                        ).albums.rows@[k].key() == row.album_id;
                    assert(cat.albums == old(cat).albums);
                }
            }
        }
        changes = changes + n;
        i = i + 1;
    }
    assert(tracks_vec@.subrange(0, tracks_vec@.len() as int) =~= tracks_vec@);
    changes
}

impl Album {
    /// The row of the albums table that this album is read from and written to.
    pub open spec fn pack_row(&self) -> AlbumQuery {
        AlbumQuery {
            id: self.id,
            creator_id: self.creator_id,
            title: self.title,
            thumb: self.thumb,
            summary: self.summary,
            directory: self.directory,
            is_free: self.is_free,
            main_image: self.main_image,
        }
    }
}

impl Asset for Album {
    open spec fn kind(&self) -> AssetType {
        AssetType::Album
    }

    open spec fn maker(&self) -> i32 {
        self.creator_id
    }

    open spec fn free(&self) -> bool {
        self.is_free
    }

    open spec fn granted(&self, cat: &Catalog, user_id: i32) -> bool {
        cat.user_albums.held(user_id, self.id)
    }

    /// The album row keyed `id` with the tracks it owns, in table order; or
    /// `NotFound`.
    open spec fn read_gives(cat: &Catalog, id: i32, r: Result<Album, StoreError>) -> bool {
        let row = found(cat.albums.rows@, id);
        match r {
            Ok(p) => {
                &&& row == Ok::<AlbumQuery, StoreError>(p.pack_row())
                &&& p.tracks@ == owned_by(cat.tracks.rows@, id)
            },
            Err(e) => row == Err::<AlbumQuery, StoreError>(e),
        }
    }

    /// The tracks owned by `id` are gone, then the album itself; `n` counts
    /// both.
    open spec fn destroy_gives(before: &Catalog, after: &Catalog, id: i32, n: usize) -> bool {
        &&& n == owned_by(before.tracks.rows@, id).len() + if has_key(before.albums.rows@, id) {
            1int
        } else {
            0int
        }
        &&& after.tracks.rows@ == kept_rows(before.tracks.rows@, id, true)
        &&& after.albums.rows@ == kept_rows(before.albums.rows@, id, false)
        &&& after.tracks.next_id == before.tracks.next_id
        &&& after.albums.next_id == before.albums.next_id
        &&& after.agrees_off(before, Part::Albums, Part::Tracks)
    }

    open spec fn update_fits(&self) -> bool {
        self.tracks@.len() < usize::MAX
    }

    /// Every field of the album and of each of its tracks is written to the row
    /// with its key, if all creators and albums named exist; else nothing
    /// changes.
    open spec fn update_gives(
        &self,
        before: &Catalog,
        after: &Catalog,
        r: Result<usize, StoreError>,
    ) -> bool {
        match r {
            Ok(n) => {
                &&& has_key(before.creators.rows@, self.creator_id)
                &&& refs_ok(before, self.tracks@)
                &&& n == hits(before.tracks.rows@, self.tracks@) + if has_key(
                    before.albums.rows@,
                    self.id,
                ) {
                    1int
                } else {
                    0int
                }
                &&& after.albums.rows@ == replaced(before.albums.rows@, self.pack_row())
                &&& after.tracks.rows@ == replaced_all(before.tracks.rows@, self.tracks@)
                &&& after.albums.next_id == before.albums.next_id
                &&& after.tracks.next_id == before.tracks.next_id
                &&& after.agrees_off(before, Part::Albums, Part::Tracks)
            },
            Err(e) => {
                &&& e == StoreError::ConstraintViolation
                &&& !(has_key(before.creators.rows@, self.creator_id) && refs_ok(
                    before,
                    self.tracks@,
                ))
                &&& *after == *before
            },
        }
    }

    fn read(cat: &Catalog, id: i32) -> (r: Result<Album, StoreError>) {
        let pack = match get_album(cat, id) {
            Ok(q) => q,
            Err(e) => return Err(e),
        };
        let tracks = cat.tracks.owned(id);
        Ok(
            Album {
                id: pack.id,
                creator_id: pack.creator_id,
                title: pack.title,
                thumb: pack.thumb,
                summary: pack.summary,
                directory: pack.directory,
                is_free: pack.is_free,
                main_image: pack.main_image,
                tracks,
            },
        )
    }

    fn destroy(cat: &mut Catalog, id: i32) -> (n: usize) {
        let changes = cat.tracks.delete_owned(id);
        proof {
            crate::table::lemma_split(old(cat).tracks.rows@, id, true);
            let s = cat.tracks.rows@;
            assert forall|j: int| 0 <= j < s.len() implies #[trigger] s[j].owner()
                < cat.albums.next_id by {
                assert(s.contains(s[j]));
                assert(old(cat).tracks.rows@.contains(s[j]));
                let k = choose|k: int|
                    0 <= k < old(cat).tracks.rows@.len() && old(cat).tracks.rows@[k] == s[j];
                assert(old(cat).tracks.rows@[k].owner() < old(cat).albums.next_id);
            }
        }
        changes + destroy_album(cat, id)
    }

    fn update(&self, cat: &mut Catalog) -> (r: Result<usize, StoreError>) {
        if cat.creators.find(self.creator_id).is_none() || !tracks_refs_ok(cat, &self.tracks) {
            return Err(StoreError::ConstraintViolation);
        }
        let pack = AlbumQuery {
            id: self.id,
            creator_id: self.creator_id,
            title: self.title.clone(),
            thumb: self.thumb.clone(),
            summary: self.summary.clone(),
            directory: self.directory.clone(),
            is_free: self.is_free,
            main_image: self.main_image.clone(),
        };
        let changes = cat.albums.update(pack);
        proof {
            crate::table::lemma_replaced_keys(old(cat).albums.rows@, self.pack_row());
            assert forall|i: int| 0 <= i < self.tracks@.len() implies has_key(
                cat.creators.rows@,
                #[trigger] self.tracks@[i].creator_id,
            ) && has_key(cat.albums.rows@, self.tracks@[i].album_id) by {
                assert(has_key(old(cat).creators.rows@, self.tracks@[i].creator_id));
                assert(has_key(old(cat).albums.rows@, self.tracks@[i].album_id));
            }
        }
        let n = update_tracks(cat, &self.tracks);
        Ok(n + changes)
    }

    fn creator(&self) -> (r: i32) {
        self.creator_id
    }

    fn asset_type(&self) -> (r: AssetType) {
        AssetType::Album
    }

    fn check_ownership(&self, cat: &Catalog, user_id: i32) -> (r: Ownership) {
        if self.is_free {
            Ownership::Free
        } else {
            UserAlbum::check_ownership(cat, user_id, self.id)
        }
    }
}
/// Destroying an album that exists counts each of its tracks and the album
/// itself; destroying it again counts nothing.
pub proof fn lemma_album_destroy_counts(
    c0: Catalog,
    c1: Catalog,
    c2: Catalog,
    id: i32,
    n1: usize,
    n2: usize,
)
    requires
        c0.wf(),
        Album::destroy_gives(&c0, &c1, id, n1),
        Album::destroy_gives(&c1, &c2, id, n2),
    ensures
        has_key(c0.albums.rows@, id) ==> n1 == owned_by(c0.tracks.rows@, id).len() + 1,
        n2 == 0,
{
    crate::table::lemma_kept_unpicked(c0.tracks.rows@, id, true);
    crate::table::lemma_kept_unpicked(c0.albums.rows@, id, false);
    lemma_none_owned(c1.tracks.rows@, id);
}

/// An album just created reads back as created, with no tracks yet.
pub proof fn lemma_new_album_reads_back(
    before: Catalog,
    after: Catalog,
    attrs: AlbumCreate,
    made: AlbumQuery,
)
    requires
        before.wf(),
        attrs.made(&before, &after, made),
    ensures
        found(after.albums.rows@, made.id) == Ok::<AlbumQuery, StoreError>(made),
        made == attrs.row(made.id),
        owned_by(after.tracks.rows@, made.id) == Seq::<Track>::empty(),
{
    lemma_found_pushed(before.albums.rows@, before.albums.next_id, made);
    assert forall|i: int| 0 <= i < after.tracks.rows@.len() implies #[trigger] after.tracks.rows@[
        i
    ].owner() != made.id by {
        assert(after.tracks.rows@[i].owner() < before.albums.next_id);
    }
    lemma_none_owned(after.tracks.rows@, made.id);
}

/// A track just created comes last among the tracks that its album reads back
/// with; every other album's tracks, and the album rows, stay as they were.
pub proof fn lemma_new_track_joins_album(
    before: Catalog,
    after: Catalog,
    attrs: TrackCreate,
    made: Track,
)
    requires
        before.wf(),
        attrs.made(&before, &after, made),
    ensures
        made == attrs.row(made.id),
        owned_by(after.tracks.rows@, attrs.album_id) == owned_by(
            before.tracks.rows@,
            attrs.album_id,
        ).push(made),
        forall|p: i32|
            p != attrs.album_id ==> #[trigger] owned_by(after.tracks.rows@, p) == owned_by(
                before.tracks.rows@,
                p,
            ),
        after.albums == before.albums,
{
    assert(after.tracks.rows@.drop_last() =~= before.tracks.rows@);
}

} // verus!
