//! Map packs: composite assets whose children are maps.
use crate::catalog::{Catalog, Part};
use crate::error::StoreError;
use crate::handlers::ownership::UserMap;
use crate::handlers::view::Asset;
use crate::table::{
    found, has_key, hits, kept_rows, lemma_found_pushed, lemma_none_owned, owned_by, replaced,
    replaced_all, Record,
};
use crate::text::{child_file, child_file_of};
use crate::types::asset::{AssetType, Ownership};
use vstd::prelude::*;

verus! {

/// A row of the maps table: a map of a map pack.
#[derive(Debug)]
pub struct GameMap {
    pub id: i32,
    pub creator_id: i32,
    pub map_pack_id: i32,
    pub title: String,
    pub thumb: String,
    pub summary: String,
    pub file: String,
    pub height: Option<i32>,
    pub width: Option<i32>,
    pub main_image: String,
}

/// The attributes of a map to be created.
#[derive(Debug)]
pub struct MapCreate {
    pub creator_id: i32,
    pub map_pack_id: i32,
    pub title: String,
    pub thumb: String,
    pub summary: String,
    pub file: String,
    pub height: Option<i32>,
    pub width: Option<i32>,
    pub main_image: String,
}

/// A row of the map_packs table.
#[derive(Debug)]
pub struct MapPackQuery {
    pub id: i32,
    pub creator_id: i32,
    pub title: String,
    pub thumb: String,
    pub summary: String,
    pub directory: String,
    pub is_free: bool,
    pub main_image: String,
}

/// The attributes of a map pack to be created.
#[derive(Debug)]
pub struct MapPackCreate {
    pub creator_id: i32,
    pub title: String,
    pub thumb: String,
    pub summary: String,
    pub directory: String,
    pub is_free: bool,
    pub main_image: String,
}

/// A map pack with its maps.
#[derive(Debug)]
pub struct MapPack {
    pub id: i32,
    pub creator_id: i32,
    pub title: String,
    pub thumb: String,
    pub summary: String,
    pub directory: String,
    pub is_free: bool,
    pub main_image: String,
    pub maps: Vec<GameMap>,
}

impl Record for GameMap {
    open spec fn key(&self) -> i32 {
        self.id
    }

    open spec fn owner(&self) -> i32 {
        self.map_pack_id
    }

    fn id(&self) -> (r: i32) {
        self.id
    }

    fn owner_id(&self) -> (r: i32) {
        self.map_pack_id
    }

    fn duplicate(&self) -> (r: Self) {
        GameMap {
            id: self.id,
            creator_id: self.creator_id,
            map_pack_id: self.map_pack_id,
            title: self.title.clone(),
            thumb: self.thumb.clone(),
            summary: self.summary.clone(),
            file: self.file.clone(),
            height: self.height,
            width: self.width,
            main_image: self.main_image.clone(),
        }
    }
}

impl Record for MapPackQuery {
    open spec fn key(&self) -> i32 {
        self.id
    }

    open spec fn owner(&self) -> i32 {
        self.creator_id
    }

    fn id(&self) -> (r: i32) {
        self.id
    }

    fn owner_id(&self) -> (r: i32) {
        self.creator_id
    }

    fn duplicate(&self) -> (r: Self) {
        MapPackQuery {
            id: self.id,
            creator_id: self.creator_id,
            title: self.title.clone(),
            thumb: self.thumb.clone(),
            summary: self.summary.clone(),
            directory: self.directory.clone(),
            is_free: self.is_free,
            main_image: self.main_image.clone(),
        }
    }
}

impl MapPackCreate {
    /// The row these attributes make under key `id`.
    pub open spec fn row(&self, id: i32) -> MapPackQuery {
        MapPackQuery {
            id,
            creator_id: self.creator_id,
            title: self.title,
            thumb: self.thumb,
            summary: self.summary,
            directory: self.directory,
            is_free: self.is_free,
            main_image: self.main_image,
        }
    }

    /// Whether a creation of these attributes turned `before` into `after` and
    /// gave `made`.
    pub open spec fn made(&self, before: &Catalog, after: &Catalog, made: MapPackQuery) -> bool {
        &&& before.map_packs.next_id < i32::MAX
        &&& has_key(before.creators.rows@, self.creator_id)
        &&& made == self.row(before.map_packs.next_id)
        &&& after.map_packs.rows@ == before.map_packs.rows@.push(made)
        &&& after.map_packs.next_id == before.map_packs.next_id + 1
        &&& after.agrees_off(before, Part::MapPacks, Part::MapPacks)
    }

    pub fn new(
        creator_id: i32,
        title: String,
        thumb: String,
        summary: String,
        directory: String,
        is_free: bool,
        main_image: String,
    ) -> (r: Self)
        ensures
            r == (MapPackCreate {
                creator_id,
                title,
                thumb,
                summary,
                directory,
                is_free,
                main_image,
            }),
    {
        MapPackCreate { creator_id, title, thumb, summary, directory, is_free, main_image }
    }

    /// Inserts the map pack alone under a fresh key; its creator must exist.
    pub fn create(&self, cat: &mut Catalog) -> (r: Result<MapPackQuery, StoreError>)
        requires
            old(cat).wf(),
        ensures
            final(cat).wf(),
            match r {
                Ok(q) => self.made(&*old(cat), &*final(cat), q),
                Err(e) => {
                    &&& e == StoreError::ConstraintViolation
                    &&& (old(cat).map_packs.next_id == i32::MAX || !has_key(
                        old(cat).creators.rows@,
                        self.creator_id,
                    ))
                    &&& *final(cat) == *old(cat)
                },
            },
    {
        let id = match cat.map_packs.fresh_key() {
            Ok(k) => k,
            Err(e) => return Err(e),
        };
        if cat.creators.find(self.creator_id).is_none() {
            return Err(StoreError::ConstraintViolation);
        }
        let row = MapPackQuery {
            id,
            creator_id: self.creator_id,
            title: self.title.clone(),
            thumb: self.thumb.clone(),
            summary: self.summary.clone(),
            directory: self.directory.clone(),
            is_free: self.is_free,
            main_image: self.main_image.clone(),
        };
        cat.map_packs.insert(row.duplicate());
        Ok(row)
    }
}

impl MapCreate {
    /// The row these attributes make under key `id`.
    pub open spec fn row(&self, id: i32) -> GameMap {
        GameMap {
            id,
            creator_id: self.creator_id,
            map_pack_id: self.map_pack_id,
            title: self.title,
            thumb: self.thumb,
            summary: self.summary,
            file: self.file,
            height: self.height,
            width: self.width,
            main_image: self.main_image,
        }
    }

    /// Whether a creation of these attributes turned `before` into `after` and
    /// gave `made`.
    pub open spec fn made(&self, before: &Catalog, after: &Catalog, made: GameMap) -> bool {
        &&& before.maps.next_id < i32::MAX
        &&& has_key(before.creators.rows@, self.creator_id)
        &&& has_key(before.map_packs.rows@, self.map_pack_id)
        &&& made == self.row(before.maps.next_id)
        &&& after.maps.rows@ == before.maps.rows@.push(made)
        &&& after.maps.next_id == before.maps.next_id + 1
        &&& after.agrees_off(before, Part::Maps, Part::Maps)
    }

    /// The attributes of a map of the map pack keyed `map_pack_id`; its file is the slug
    /// of its title under `directory`.
    pub fn new(
        creator_id: i32,
        map_pack_id: i32,
        title: String,
        thumb: String,
        summary: String,
        height: Option<i32>,
        width: Option<i32>,
        directory: &str,
        main_image: String,
    ) -> (r: Self)
        ensures
            r.creator_id == creator_id,
            r.map_pack_id == map_pack_id,
            r.title == title,
            r.thumb == thumb,
            r.summary == summary,
            r.height == height,
            r.width == width,
            r.main_image == main_image,
            r.file@ == child_file_of(directory@, title@),
    {
        let file = child_file(directory, title.as_str());
        MapCreate {
            creator_id,
            map_pack_id,
            title,
            thumb,
            summary,
            file,
            height,
            width,
            main_image,
        }
    }

    /// Inserts the map under a fresh key; its creator and its map pack must exist.
    pub fn create(&self, cat: &mut Catalog) -> (r: Result<GameMap, StoreError>)
        requires
            old(cat).wf(),
        ensures
            final(cat).wf(),
            match r {
                Ok(t) => self.made(&*old(cat), &*final(cat), t),
                Err(e) => {
                    &&& e == StoreError::ConstraintViolation
                    &&& (old(cat).maps.next_id == i32::MAX || !has_key(
                        old(cat).creators.rows@,
                        self.creator_id,
                    ) || !has_key(old(cat).map_packs.rows@, self.map_pack_id))
                    &&& *final(cat) == *old(cat)
                },
            },
    {
        let id = match cat.maps.fresh_key() {
            Ok(k) => k,
            Err(e) => return Err(e),
        };
        if cat.creators.find(self.creator_id).is_none()
            || cat.map_packs.find(self.map_pack_id).is_none() {
            return Err(StoreError::ConstraintViolation);
        }
        let row = GameMap {
            id,
            creator_id: self.creator_id,
            map_pack_id: self.map_pack_id,
            title: self.title.clone(),
            thumb: self.thumb.clone(),
            summary: self.summary.clone(),
            file: self.file.clone(),
            height: self.height,
            width: self.width,
            main_image: self.main_image.clone(),
        };
        cat.maps.insert(row.duplicate());
        Ok(row)
    }
}

/// Whether every map of `s` names a creator and a map pack that exist in `cat`.
pub open spec fn refs_ok(cat: &Catalog, s: Seq<GameMap>) -> bool {
    forall|i: int|
        0 <= i < s.len() ==> has_key(cat.creators.rows@, #[trigger] s[i].creator_id) && has_key(
            cat.map_packs.rows@,
            s[i].map_pack_id,
        )
}

fn maps_refs_ok(cat: &Catalog, maps_vec: &Vec<GameMap>) -> (r: bool)
    ensures
        r == refs_ok(cat, maps_vec@),
{
    let mut i: usize = 0;
    while i < maps_vec.len()
        invariant
            i <= maps_vec@.len(),
            refs_ok(cat, maps_vec@.subrange(0, i as int)),
        decreases maps_vec@.len() - i,
    {
        let creator_at = cat.creators.find(maps_vec[i].creator_id);
        let pack_at = cat.map_packs.find(maps_vec[i].map_pack_id);
        let ghost next = maps_vec@.subrange(0, i + 1);
        match (creator_at, pack_at) {
            (Some(c), Some(p)) => {
                assert(cat.creators.rows@[c as int].key() == next[i as int].creator_id);
                assert(cat.map_packs.rows@[p as int].key() == next[i as int].map_pack_id);
            },
            _ => {
                assert(next[i as int] == maps_vec@[i as int]);
                return false;
            },
        }
        assert forall|j: int| 0 <= j < i + 1 implies has_key(
            cat.creators.rows@,
            #[trigger] maps_vec@.subrange(0, i + 1)[j].creator_id,
        ) && has_key(cat.map_packs.rows@, maps_vec@.subrange(0, i + 1)[j].map_pack_id) by {
            if j < i {
                assert(maps_vec@.subrange(0, i + 1)[j] == maps_vec@.subrange(0, i as int)[j]);
            }
        }
        assert(refs_ok(cat, next));
        i = i + 1;
    }
    assert(maps_vec@.subrange(0, maps_vec@.len() as int) =~= maps_vec@);
    true
}

fn get_map_pack(cat: &Catalog, map_pack_id: i32) -> (r: Result<MapPackQuery, StoreError>)
    requires
        cat.wf(),
    ensures
        r == found(cat.map_packs.rows@, map_pack_id),
{
    cat.map_packs.get(map_pack_id)
}

fn destroy_map_pack(cat: &mut Catalog, map_pack_id: i32) -> (n: usize)
    requires
        old(cat).wf(),
    ensures
        final(cat).wf(),
        n == if has_key(old(cat).map_packs.rows@, map_pack_id) {
            1usize
        } else {
            0usize
        },
        final(cat).map_packs.rows@ == kept_rows(old(cat).map_packs.rows@, map_pack_id, false),
        final(cat).map_packs.next_id == old(cat).map_packs.next_id,
        final(cat).agrees_off(&*old(cat), Part::MapPacks, Part::MapPacks),
{
    cat.map_packs.delete(map_pack_id)
}

fn update_maps(cat: &mut Catalog, maps_vec: &Vec<GameMap>) -> (changes: usize)
    requires
        old(cat).wf(),
        refs_ok(&*old(cat), maps_vec@),
    ensures
        final(cat).wf(),
        changes == hits(old(cat).maps.rows@, maps_vec@),
        changes <= maps_vec@.len(),
        final(cat).maps.rows@ == replaced_all(old(cat).maps.rows@, maps_vec@),
        final(cat).maps.next_id == old(cat).maps.next_id,
        final(cat).agrees_off(&*old(cat), Part::Maps, Part::Maps),
{
    let ghost start = cat.maps.rows@;
    let mut changes: usize = 0;
    let mut i: usize = 0;
    while i < maps_vec.len()
        invariant
            cat.wf(),
            old(cat).wf(),
            i <= maps_vec@.len(),
            refs_ok(&*old(cat), maps_vec@),
            start == old(cat).maps.rows@,
            cat.maps.rows@ == replaced_all(start, maps_vec@.subrange(0, i as int)),
            cat.maps.next_id == old(cat).maps.next_id,
            changes == hits(start, maps_vec@.subrange(0, i as int)),
            changes <= i,
            cat.agrees_off(&*old(cat), Part::Maps, Part::Maps),
        decreases maps_vec@.len() - i,
    {
        let ghost before = cat.maps.rows@;
        proof {
            assert(maps_vec@.subrange(0, i + 1).drop_last()
                =~= maps_vec@.subrange(0, i as int));
            crate::table::lemma_replaced_all_keys(
                start,
                maps_vec@.subrange(0, i as int),
                cat.maps.next_id,
            );
            crate::table::lemma_replaced_keys(before, maps_vec@[i as int]);
        }
        let n = cat.maps.update(maps_vec[i].duplicate());
        proof {
            let row = maps_vec@[i as int];
            let s = cat.maps.rows@;
            assert(has_key(old(cat).creators.rows@, maps_vec@[i as int].creator_id));
            assert(has_key(old(cat).map_packs.rows@, row.map_pack_id));
            assert forall|j: int| 0 <= j < s.len() implies #[trigger] s[j].owner()
                < cat.map_packs.next_id by {
                if before[j].key() != row.key() {
                    assert(s[j] == before[j]);
                } else {
                    assert(s[j] == row);
                    let k = choose|k: int|
                        0 <= k < old(cat).map_packs.rows@.len() && #[trigger] old(
                            cat,
                        ).map_packs.rows@[k].key() == row.map_pack_id;
                    assert(cat.map_packs == old(cat).map_packs);
                }
            }
        }
        changes = changes + n;
        i = i + 1;
    }
    assert(maps_vec@.subrange(0, maps_vec@.len() as int) =~= maps_vec@);
    changes
}

impl MapPack {
    /// The row of the map_packs table that this map pack is read from and written to.
    pub open spec fn pack_row(&self) -> MapPackQuery {
        MapPackQuery {
            id: self.id,
            creator_id: self.creator_id,
            title: self.title,
            thumb: self.thumb,
            summary: self.summary,
            directory: self.directory,
            is_free: self.is_free,
            main_image: self.main_image,
        }
    }
}

impl Asset for MapPack {
    open spec fn kind(&self) -> AssetType {
        AssetType::GameMap
    }

    open spec fn maker(&self) -> i32 {
        self.creator_id
    }

    open spec fn free(&self) -> bool {
        self.is_free
    }

    open spec fn granted(&self, cat: &Catalog, user_id: i32) -> bool {
        cat.user_maps.held(user_id, self.id)
    }

    /// The map pack row keyed `id` with the maps it owns, in table order; or
    /// `NotFound`.
    open spec fn read_gives(cat: &Catalog, id: i32, r: Result<MapPack, StoreError>) -> bool {
        let row = found(cat.map_packs.rows@, id);
        match r {
            Ok(p) => {
                &&& row == Ok::<MapPackQuery, StoreError>(p.pack_row())
                &&& p.maps@ == owned_by(cat.maps.rows@, id)
            },
            Err(e) => row == Err::<MapPackQuery, StoreError>(e),
        }
    }

    /// The maps owned by `id` are gone, then the map pack itself; `n` counts
    /// both.
    open spec fn destroy_gives(before: &Catalog, after: &Catalog, id: i32, n: usize) -> bool {
        &&& n == owned_by(before.maps.rows@, id).len() + if has_key(before.map_packs.rows@, id) {
            1int
        } else {
            0int
        }
        &&& after.maps.rows@ == kept_rows(before.maps.rows@, id, true)
        &&& after.map_packs.rows@ == kept_rows(before.map_packs.rows@, id, false)
        &&& after.maps.next_id == before.maps.next_id
        &&& after.map_packs.next_id == before.map_packs.next_id
        &&& after.agrees_off(before, Part::MapPacks, Part::Maps)
    }

    open spec fn update_fits(&self) -> bool {
        self.maps@.len() < usize::MAX
    }

    /// Every field of the map pack and of each of its maps is written to the row
    /// with its key, if all creators and map packs named exist; else nothing
    /// changes.
    open spec fn update_gives(
        &self,
        before: &Catalog,
        after: &Catalog,
        r: Result<usize, StoreError>,
    ) -> bool {
        match r {
            Ok(n) => {
                &&& has_key(before.creators.rows@, self.creator_id)
                &&& refs_ok(before, self.maps@)
                &&& n == hits(before.maps.rows@, self.maps@) + if has_key(
                    before.map_packs.rows@,
                    self.id,
                ) {
                    1int
                } else {
                    0int
                }
                &&& after.map_packs.rows@ == replaced(before.map_packs.rows@, self.pack_row())
                &&& after.maps.rows@ == replaced_all(before.maps.rows@, self.maps@)
                &&& after.map_packs.next_id == before.map_packs.next_id
                &&& after.maps.next_id == before.maps.next_id
                &&& after.agrees_off(before, Part::MapPacks, Part::Maps)
            },
            Err(e) => {
                &&& e == StoreError::ConstraintViolation
                &&& !(has_key(before.creators.rows@, self.creator_id) && refs_ok(
                    before,
                    self.maps@,
                ))
                &&& *after == *before
            },
        }
    }

    fn read(cat: &Catalog, id: i32) -> (r: Result<MapPack, StoreError>) {
        let pack = match get_map_pack(cat, id) {
            Ok(q) => q,
            Err(e) => return Err(e),
        };
        let maps = cat.maps.owned(id);
        Ok(
            MapPack {
                id: pack.id,
                creator_id: pack.creator_id,
                title: pack.title,
                thumb: pack.thumb,
                summary: pack.summary,
                directory: pack.directory,
                is_free: pack.is_free,
                main_image: pack.main_image,
                maps,
            },
        )
    }

    fn destroy(cat: &mut Catalog, id: i32) -> (n: usize) {
        let changes = cat.maps.delete_owned(id);
        proof {
            crate::table::lemma_split(old(cat).maps.rows@, id, true);
            let s = cat.maps.rows@;
            assert forall|j: int| 0 <= j < s.len() implies #[trigger] s[j].owner()
                < cat.map_packs.next_id by {
                assert(s.contains(s[j]));
                assert(old(cat).maps.rows@.contains(s[j]));
                let k = choose|k: int|
                    0 <= k < old(cat).maps.rows@.len() && old(cat).maps.rows@[k] == s[j];
                assert(old(cat).maps.rows@[k].owner() < old(cat).map_packs.next_id);
            }
        }
        changes + destroy_map_pack(cat, id)
    }

    fn update(&self, cat: &mut Catalog) -> (r: Result<usize, StoreError>) {
        if cat.creators.find(self.creator_id).is_none() || !maps_refs_ok(cat, &self.maps) {
            return Err(StoreError::ConstraintViolation);
        }
        let pack = MapPackQuery {
            id: self.id,
            creator_id: self.creator_id,
            title: self.title.clone(),
            thumb: self.thumb.clone(),
            summary: self.summary.clone(),
            directory: self.directory.clone(),
            is_free: self.is_free,
            main_image: self.main_image.clone(),
        };
        let changes = cat.map_packs.update(pack);
        proof {
            crate::table::lemma_replaced_keys(old(cat).map_packs.rows@, self.pack_row());
            assert forall|i: int| 0 <= i < self.maps@.len() implies has_key(
                cat.creators.rows@,
                #[trigger] self.maps@[i].creator_id,
            ) && has_key(cat.map_packs.rows@, self.maps@[i].map_pack_id) by {
                assert(has_key(old(cat).creators.rows@, self.maps@[i].creator_id));
                assert(has_key(old(cat).map_packs.rows@, self.maps@[i].map_pack_id));
            }
        }
        let n = update_maps(cat, &self.maps);
        Ok(n + changes)
    }

    fn creator(&self) -> (r: i32) {
        self.creator_id
    }

    fn asset_type(&self) -> (r: AssetType) {
        AssetType::GameMap
    }

    fn check_ownership(&self, cat: &Catalog, user_id: i32) -> (r: Ownership) {
        if self.is_free {
            Ownership::Free
        } else {
            UserMap::check_ownership(cat, user_id, self.id)
        }
    }
}
/// Destroying a map pack that exists counts each of its maps and the map pack
/// itself; destroying it again counts nothing.
pub proof fn lemma_map_pack_destroy_counts(
    c0: Catalog,
    c1: Catalog,
    c2: Catalog,
    id: i32,
    n1: usize,
    n2: usize,
)
    requires
        c0.wf(),
        MapPack::destroy_gives(&c0, &c1, id, n1),
        MapPack::destroy_gives(&c1, &c2, id, n2),
    ensures
        has_key(c0.map_packs.rows@, id) ==> n1 == owned_by(c0.maps.rows@, id).len() + 1,
        n2 == 0,
{
    crate::table::lemma_kept_unpicked(c0.maps.rows@, id, true);
    crate::table::lemma_kept_unpicked(c0.map_packs.rows@, id, false);
    lemma_none_owned(c1.maps.rows@, id);
}

/// A map pack just created reads back as created, with no maps yet.
pub proof fn lemma_new_map_pack_reads_back(
    before: Catalog,
    after: Catalog,
    attrs: MapPackCreate,
    made: MapPackQuery,
)
    requires
        before.wf(),
        attrs.made(&before, &after, made),
    ensures
        found(after.map_packs.rows@, made.id) == Ok::<MapPackQuery, StoreError>(made),
        made == attrs.row(made.id),
        owned_by(after.maps.rows@, made.id) == Seq::<GameMap>::empty(),
{
    lemma_found_pushed(before.map_packs.rows@, before.map_packs.next_id, made);
    assert forall|i: int| 0 <= i < after.maps.rows@.len() implies #[trigger] after.maps.rows@[
        i
    ].owner() != made.id by {
        assert(after.maps.rows@[i].owner() < before.map_packs.next_id);
    }
    lemma_none_owned(after.maps.rows@, made.id);
}

/// A map just created comes last among the maps that its map pack reads back
/// with; every other map pack's maps, and the map pack rows, stay as they were.
pub proof fn lemma_new_map_joins_map_pack(
    before: Catalog,
    after: Catalog,
    attrs: MapCreate,
    made: GameMap,
)
    requires
        before.wf(),
        attrs.made(&before, &after, made),
    ensures
        made == attrs.row(made.id),
        owned_by(after.maps.rows@, attrs.map_pack_id) == owned_by(
            before.maps.rows@,
            attrs.map_pack_id,
        ).push(made),
        forall|p: i32|
            p != attrs.map_pack_id ==> #[trigger] owned_by(after.maps.rows@, p) == owned_by(
                before.maps.rows@,
                p,
            ),
        after.map_packs == before.map_packs,
{
    assert(after.maps.rows@.drop_last() =~= before.maps.rows@);
}

} // verus!
