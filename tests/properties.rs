use alembic_head::catalog::Catalog;
use alembic_head::error::StoreError;
use alembic_head::handlers::album::{Album, AlbumCreate, TrackCreate};
use alembic_head::handlers::book::{Book, BookCreate};
use alembic_head::handlers::creator::{Creator, CreatorNew, Creators};
use alembic_head::handlers::map::MapCreate;
use alembic_head::handlers::ownership::{UserAlbum, UserBook};
use alembic_head::handlers::tokens::TokenCreate;
use alembic_head::handlers::user::{User, UserNew};
use alembic_head::handlers::view::Asset;
use alembic_head::text::{child_file, hyphenate, slug};
use alembic_head::types::asset::{AssetType, Ownership};
use alembic_head::types::user::{resolve, DisplayName};

fn catalog_with_creator(mode: DisplayName) -> (Catalog, i32, i32) {
    let mut cat = Catalog::new();
    let user = UserNew::create(
        &mut cat,
        String::from("naokotani"),
        String::from("nao@gmail.com"),
        String::from("logo.svg"),
    )
    .unwrap();
    let creator = CreatorNew::create(
        &mut cat,
        user.id,
        Some(String::from("Chris")),
        Some(String::from("Hughes")),
        None,
        None,
        mode,
    )
    .unwrap();
    (cat, user.id, creator.id)
}

fn new_book(cat: &mut Catalog, creator_id: i32, is_free: bool) -> Book {
    BookCreate::new(
        creator_id,
        String::from("Dune"),
        String::from("thumb.jpg"),
        String::from("Sand"),
        String::from("dune.pdf"),
        412,
        String::from("dune.jpg"),
        is_free,
    )
    .create(cat)
    .unwrap()
}

#[test]
fn resolve_formats_each_mode() {
    assert_eq!(resolve(DisplayName::Name, "Chris", "Hughes", "nao", "RH"), "Chris Hughes");
    assert_eq!(resolve(DisplayName::Other, "Chris", "Hughes", "nao", "RH"), "nao");
    assert_eq!(
        resolve(DisplayName::NamePublisher, "Chris", "Hughes", "nao", "RH"),
        "Chris Hughes publisher: RH"
    );
    assert_eq!(
        resolve(DisplayName::OtherPublisher, "Chris", "Hughes", "nao", "RH"),
        "nao publisher: RH"
    );
}

#[test]
fn resolve_keeps_empty_names() {
    assert_eq!(resolve(DisplayName::Name, "", "Hughes", "", ""), " Hughes");
    assert_eq!(resolve(DisplayName::Name, "", "", "", ""), " ");
    assert_eq!(resolve(DisplayName::Other, "Chris", "Hughes", "", ""), "");
    assert_eq!(resolve(DisplayName::OtherPublisher, "", "", "", ""), " publisher: ");
}

#[test]
fn absent_names_render_empty() {
    let (mut cat, _, creator_id) = catalog_with_creator(DisplayName::NamePublisher);
    Creators::update_names(
        &mut cat,
        creator_id,
        None,
        Some(String::from("Hughes")),
        None,
        None,
        DisplayName::NamePublisher,
    );
    let creator = Creators::read(&cat, creator_id).unwrap();
    assert_eq!(creator.get_display_name(), " Hughes publisher: ");
}

#[test]
fn free_asset_is_free_even_when_granted() {
    let (mut cat, user_id, creator_id) = catalog_with_creator(DisplayName::Name);
    let book = new_book(&mut cat, creator_id, true);
    assert_eq!(book.check_ownership(&cat, user_id), Ownership::Free);
    UserBook::new(user_id, book.id).create(&mut cat).unwrap();
    assert_eq!(book.check_ownership(&cat, user_id), Ownership::Free);
    assert_eq!(book.summarize(&cat, 99).unwrap().ownership, Ownership::Free);
}

#[test]
fn ownership_row_decides_and_stays() {
    let (mut cat, user_id, creator_id) = catalog_with_creator(DisplayName::Name);
    let book = new_book(&mut cat, creator_id, false);
    assert_eq!(book.check_ownership(&cat, user_id), Ownership::Unowned);
    assert_eq!(UserBook::new(user_id, book.id).create(&mut cat), Ok(1));
    assert_eq!(UserBook::check_ownership(&cat, user_id, book.id), Ownership::Owned);
    assert_eq!(UserBook::check_ownership(&cat, user_id, book.id), Ownership::Owned);
    assert_eq!(cat.user_books.pairs, vec![(user_id, book.id)]);
    assert_eq!(book.check_ownership(&cat, user_id), Ownership::Owned);
    assert_eq!(book.check_ownership(&cat, user_id + 1), Ownership::Unowned);
}

#[test]
fn duplicate_grant_is_refused() {
    let (mut cat, user_id, creator_id) = catalog_with_creator(DisplayName::Name);
    let book = new_book(&mut cat, creator_id, false);
    assert_eq!(UserBook::new(user_id, book.id).create(&mut cat), Ok(1));
    assert_eq!(
        UserBook::new(user_id, book.id).create(&mut cat),
        Err(StoreError::ConstraintViolation)
    );
    assert_eq!(cat.user_books.pairs.len(), 1);
    assert_eq!(
        UserBook::new(user_id + 7, book.id).create(&mut cat),
        Err(StoreError::ConstraintViolation)
    );
}

#[test]
fn created_book_reads_back_equal() {
    let (mut cat, _, creator_id) = catalog_with_creator(DisplayName::Name);
    let book = new_book(&mut cat, creator_id, false);
    let back = Book::read(&cat, book.id).unwrap();
    assert_eq!(back.id, book.id);
    assert_eq!(back.creator_id, creator_id);
    assert_eq!(back.title, "Dune");
    assert_eq!(back.thumb, "thumb.jpg");
    assert_eq!(back.summary, "Sand");
    assert_eq!(back.file, "dune.pdf");
    assert_eq!(back.pages, 412);
    assert_eq!(back.main_image, "dune.jpg");
    assert!(!back.is_free);
}

#[test]
fn created_album_reads_back_with_its_tracks() {
    let (mut cat, _, creator_id) = catalog_with_creator(DisplayName::Name);
    let album = AlbumCreate::new(
        creator_id,
        String::from("Mm Food"),
        String::from("thumb.jpg"),
        String::from("Food"),
        String::from("mm"),
        true,
        String::from("food.jpg"),
    )
    .create(&mut cat)
    .unwrap();
    let empty = Album::read(&cat, album.id).unwrap();
    assert_eq!(empty.tracks.len(), 0);
    let first = TrackCreate::new(creator_id, album.id, String::from("Beef Rapp"), "mm", String::from("a.jpg"))
        .create(&mut cat)
        .unwrap();
    let second = TrackCreate::new(creator_id, album.id, String::from("Hoe Cakes"), "mm", String::from("b.jpg"))
        .create(&mut cat)
        .unwrap();
    let back = Album::read(&cat, album.id).unwrap();
    assert_eq!(back.id, album.id);
    assert_eq!(back.title, "Mm Food");
    assert_eq!(back.thumb, "thumb.jpg");
    assert_eq!(back.summary, "Food");
    assert_eq!(back.directory, "mm");
    assert!(back.is_free);
    assert_eq!(back.main_image, "food.jpg");
    assert_eq!(back.tracks.len(), 2);
    assert_eq!(back.tracks[0].id, first.id);
    assert_eq!(back.tracks[0].title, "Beef Rapp");
    assert_eq!(back.tracks[0].file, "mm/beef-rapp");
    assert_eq!(back.tracks[0].main_image, Some(String::from("a.jpg")));
    assert_eq!(back.tracks[1].id, second.id);
    assert_eq!(back.tracks[1].file, "mm/hoe-cakes");
}

#[test]
fn destroy_counts_children_and_parent() {
    let (mut cat, _, creator_id) = catalog_with_creator(DisplayName::Name);
    let album = AlbumCreate::new(
        creator_id,
        String::from("A"),
        String::from("t"),
        String::from("s"),
        String::from("d"),
        false,
        String::from("i"),
    )
    .create(&mut cat)
    .unwrap();
    for title in ["One", "Two", "Three"] {
        TrackCreate::new(creator_id, album.id, String::from(title), "d", String::from("i"))
            .create(&mut cat)
            .unwrap();
    }
    assert_eq!(Album::destroy(&mut cat, album.id), 4);
    assert_eq!(cat.tracks.rows.len(), 0);
    assert_eq!(Album::read(&cat, album.id).err(), Some(StoreError::NotFound));
    assert_eq!(Album::destroy(&mut cat, album.id), 0);
}

#[test]
fn update_counts_parent_and_children() {
    let (mut cat, _, creator_id) = catalog_with_creator(DisplayName::Name);
    let album = AlbumCreate::new(
        creator_id,
        String::from("A"),
        String::from("t"),
        String::from("s"),
        String::from("d"),
        false,
        String::from("i"),
    )
    .create(&mut cat)
    .unwrap();
    for title in ["One", "Two"] {
        TrackCreate::new(creator_id, album.id, String::from(title), "d", String::from("i"))
            .create(&mut cat)
            .unwrap();
    }
    let mut full = Album::read(&cat, album.id).unwrap();
    full.title = String::from("B");
    full.tracks[1].title = String::from("Deux");
    assert_eq!(full.update(&mut cat), Ok(3));
    let back = Album::read(&cat, album.id).unwrap();
    assert_eq!(back.title, "B");
    assert_eq!(back.tracks[0].title, "One");
    assert_eq!(back.tracks[1].title, "Deux");
    full.tracks[0].album_id = 999;
    assert_eq!(full.update(&mut cat), Err(StoreError::ConstraintViolation));
    assert_eq!(Album::read(&cat, album.id).unwrap().tracks.len(), 2);
}

#[test]
fn scenario_free_book_summary() {
    let mut cat = Catalog::new();
    let user = UserNew::create(
        &mut cat,
        String::from("naokotani"),
        String::from("nao@gmail.com"),
        String::from("logo.svg"),
    )
    .unwrap();
    let creator = CreatorNew::create(
        &mut cat,
        user.id,
        Some(String::from("Chris")),
        Some(String::from("Hughes")),
        None,
        None,
        DisplayName::Name,
    )
    .unwrap();
    let book = new_book(&mut cat, creator.id, true);
    for viewer in [user.id, 42, -3] {
        let summary = book.summarize(&cat, viewer).unwrap();
        assert_eq!(summary.ownership, Ownership::Free);
        assert_eq!(summary.display_name, "Chris Hughes");
        assert_eq!(summary.asset_type, AssetType::Book);
        assert_eq!(summary.logo, "logo.svg");
    }
}

#[test]
fn scenario_album_with_one_track() {
    let (mut cat, user_id, creator_id) = catalog_with_creator(DisplayName::Name);
    let album = AlbumCreate::new(
        creator_id,
        String::from("Operation Doomsday"),
        String::from("thumb.jpg"),
        String::from("A great album"),
        String::from("dir"),
        false,
        String::from("image.jpg"),
    )
    .create(&mut cat)
    .unwrap();
    TrackCreate::new(creator_id, album.id, String::from("Doomsday"), "dir", String::from("t.jpg"))
        .create(&mut cat)
        .unwrap();
    let full = Album::read(&cat, album.id).unwrap();
    assert_eq!(full.tracks.len(), 1);
    assert_eq!(full.tracks[0].title, "Doomsday");
    assert_eq!(full.check_ownership(&cat, user_id), Ownership::Unowned);
    UserAlbum::new(user_id, album.id).create(&mut cat).unwrap();
    assert_eq!(full.summarize(&cat, user_id).unwrap().ownership, Ownership::Owned);
    assert_eq!(Album::destroy(&mut cat, album.id), 2);
}

#[test]
fn scenario_other_publisher_name() {
    let (mut cat, _, creator_id) = catalog_with_creator(DisplayName::Name);
    let book = new_book(&mut cat, creator_id, false);
    let n = Creators::update_names(
        &mut cat,
        creator_id,
        None,
        None,
        Some(String::from("naokotani")),
        Some(String::from("Random House")),
        DisplayName::OtherPublisher,
    );
    assert_eq!(n, 1);
    let summary = book.summarize(&cat, 1).unwrap();
    assert_eq!(summary.display_name, "naokotani publisher: Random House");
    let page = book.paginate(&cat, 1).unwrap();
    assert_eq!(page.display_name, "naokotani publisher: Random House");
    assert!(page.extra_images.is_empty());
}

#[test]
fn missing_rows_are_not_found() {
    let cat = Catalog::new();
    assert_eq!(Book::read(&cat, 1).err(), Some(StoreError::NotFound));
    assert_eq!(User::read(&cat, 1).err(), Some(StoreError::NotFound));
    assert_eq!(Creators::read(&cat, 1).err(), Some(StoreError::NotFound));
    assert_eq!(Creator::creator_with_user(&cat, 1).err(), Some(StoreError::NotFound));
}

#[test]
fn broken_references_are_refused() {
    let (mut cat, user_id, creator_id) = catalog_with_creator(DisplayName::Name);
    let orphan = BookCreate::new(
        creator_id + 5,
        String::from("x"),
        String::from("x"),
        String::from("x"),
        String::from("x"),
        1,
        String::from("x"),
        false,
    );
    assert_eq!(orphan.create(&mut cat).err(), Some(StoreError::ConstraintViolation));
    assert_eq!(cat.books.rows.len(), 0);
    let stray = TrackCreate::new(creator_id, 77, String::from("x"), "d", String::from("x"));
    assert_eq!(stray.create(&mut cat).err(), Some(StoreError::ConstraintViolation));
    assert_eq!(User::destroy(&mut cat, user_id), Err(StoreError::ConstraintViolation));
    let second = CreatorNew::create(&mut cat, user_id, None, None, None, None, DisplayName::Other);
    assert_eq!(second.err(), Some(StoreError::ConstraintViolation));
    let taken = UserNew::create(
        &mut cat,
        String::from("naokotani"),
        String::from("other@mail.com"),
        String::from("x.svg"),
    );
    assert_eq!(taken.err(), Some(StoreError::ConstraintViolation));
    let book = new_book(&mut cat, creator_id, false);
    assert_eq!(Creators::destroy(&mut cat, creator_id), Err(StoreError::ConstraintViolation));
    assert_eq!(Book::destroy(&mut cat, book.id), 1);
    assert_eq!(Creators::destroy(&mut cat, creator_id), Ok(1));
    assert_eq!(User::destroy(&mut cat, user_id), Ok(1));
}

#[test]
fn corrupt_mode_is_reported() {
    let row = Creators {
        id: 1,
        user_id: 1,
        first_name: None,
        last_name: None,
        other_name: None,
        publisher: None,
        default_name: String::from("nickname"),
    };
    assert_eq!(Creator::new(row).err(), Some(StoreError::DataCorruption));
    assert_eq!(DisplayName::retreieve("Name"), Err(StoreError::DataCorruption));
    assert_eq!(AssetType::retrieve("maps"), Err(StoreError::DataCorruption));
    assert_eq!(Ownership::retrieve(""), Err(StoreError::DataCorruption));
}

#[test]
fn stored_strings_round_trip() {
    for d in [
        DisplayName::Name,
        DisplayName::Other,
        DisplayName::NamePublisher,
        DisplayName::OtherPublisher,
    ] {
        assert_eq!(DisplayName::retreieve(d.store()), Ok(d));
    }
    assert_eq!(DisplayName::NamePublisher.store(), "name_publisher");
    for t in [
        AssetType::Book,
        AssetType::Album,
        AssetType::GameMap,
        AssetType::MapPack,
        AssetType::Stl,
        AssetType::TokenPack,
        AssetType::Token,
    ] {
        assert_eq!(AssetType::retrieve(t.store()), Ok(t));
        assert!(t.images().is_empty());
    }
    assert_eq!(AssetType::MapPack.store(), "map_pack");
    assert_eq!(AssetType::GameMap.store(), "map");
    for o in [Ownership::Owned, Ownership::Free, Ownership::Unowned] {
        assert_eq!(Ownership::retrieve(o.store()), Ok(o));
    }
}

#[test]
fn child_files_use_the_title_slug() {
    assert_eq!(hyphenate("a b  c"), "a-b--c");
    assert_eq!(slug("  Windy Glade "), "windy-glade");
    assert_eq!(slug("ÉCOLE Night"), "école-night");
    assert_eq!(child_file("directory", "Windy Glade"), "directory/windy-glade");
    let map = MapCreate::new(1, 2, String::from("Windy Glade"), String::from("t"), String::from("s"), Some(450), None, "maps", String::from("i"));
    assert_eq!(map.file, "maps/windy-glade");
    assert_eq!(map.height, Some(450));
    assert_eq!(map.width, None);
    let token = TokenCreate::new(1, 2, String::from(" Big Orc"), String::from("t"), String::from("s"), None, None, "tokens", String::from("i"), true);
    assert_eq!(token.file, "tokens/big-orc");
    assert!(token.is_free);
}
