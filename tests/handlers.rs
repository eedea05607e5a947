use alembic_head::catalog::Catalog;
use alembic_head::handlers::album::{Album, AlbumCreate, TrackCreate};
use alembic_head::handlers::book::{Book, BookCreate};
use alembic_head::handlers::creator::{CreatorNew, Creators};
use alembic_head::handlers::map::{MapCreate, MapPack, MapPackCreate};
use alembic_head::handlers::stl::{Stl, StlCreate};
use alembic_head::handlers::tokens::{TokenCreate, TokenPack, TokenPackCreate};
use alembic_head::handlers::user::{User, UserNew};
use alembic_head::handlers::view::Asset;
use alembic_head::types::asset::{AssetType, Ownership};
use alembic_head::types::user::DisplayName;

#[test]
fn album_full() {
    let conn = &mut Catalog::new();

    let user = UserNew::create(
        conn,
        String::from("naokotani"),
        String::from("nao@gmail.com"),
        String::from("logo.svg"),
    )
    .unwrap();

    let creator = CreatorNew::create(
        conn,
        user.id,
        Some(String::from("Chris")),
        Some(String::from("Hughes")),
        Some(String::from("frank")),
        Some(String::from("Random House")),
        DisplayName::Other,
    )
    .unwrap();

    let album = AlbumCreate::new(
        creator.id,
        String::from("Operation Doomsday"),
        String::from("thumb.jpg"),
        String::from("A great album by Domm"),
        String::from("directory/"),
        false,
        String::from("image.jpg"),
    )
    .create(conn)
    .unwrap();

    vec![TrackCreate::new(
        creator.id,
        album.id,
        String::from("Doomsday"),
        &album.directory,
        String::from("track.jpg"),
    )
    .create(conn)
    .unwrap()];

    let album_full = Album::read(conn, album.id).unwrap();

    assert_eq!(album_full.tracks[0].title, "Doomsday");

    let page = album_full.paginate(conn, user.id).unwrap();

    assert_eq!(page.display_name, "frank");

    let delete = Album::destroy(conn, album.id);

    assert_eq!(delete, 2);

    Creators::destroy(conn, creator.id).unwrap();
    User::destroy(conn, user.id).unwrap();
}

#[test]
fn book_full() {
    let conn = &mut Catalog::new();

    let user = UserNew::create(
        conn,
        String::from("naokotani"),
        String::from("nao@gmail.com"),
        String::from("logo.svg"),
    )
    .unwrap();

    assert_eq!(user.username, "naokotani");

    let creator = CreatorNew::create(
        conn,
        user.id,
        Some(String::from("Chris")),
        Some(String::from("Hughes")),
        Some(String::from("naokotani")),
        Some(String::from("Random House")),
        DisplayName::Name,
    )
    .unwrap();

    let mut book = BookCreate::new(
        creator.id,
        String::from("Dungeons and Dragons"),
        String::from("thumb.jpg"),
        String::from("What a book!"),
        String::from("file.pdf"),
        385,
        String::from("image.jpg"),
        false,
    )
    .create(conn)
    .unwrap();

    assert_eq!(book.title, "Dungeons and Dragons");
    assert_eq!(book.thumb, "thumb.jpg");
    assert_eq!(book.summary, "What a book!");
    assert_eq!(book.file, "file.pdf");
    assert_eq!(book.pages, 385);
    assert_eq!(book.main_image, "image.jpg");
    assert_eq!(book.is_free, false);

    let summary = book.summarize(conn, user.id).unwrap();

    assert_eq!(summary.display_name, "Chris Hughes");
    assert_eq!(summary.logo, "logo.svg");

    let page = book.paginate(conn, user.id).unwrap();

    assert_eq!(page.display_name, "Chris Hughes");
    assert_eq!(page.logo, "logo.svg");
    assert_eq!(page.ownership, Ownership::Unowned);

    book.title = String::from("For Whom the Bell Tolls");

    let update = book.update(conn).unwrap();

    assert_eq!(update, 1);

    let book = Book::read(conn, book.id).unwrap();

    assert_eq!(book.title, "For Whom the Bell Tolls");
    assert_eq!(book.summary, "What a book!");

    let delete = Book::destroy(conn, book.id);

    assert_eq!(delete, 1);

    Creators::destroy(conn, creator.id).unwrap();
    User::destroy(conn, user.id).unwrap();
}

#[test]
fn creator_full() {
    let conn = &mut Catalog::new();

    let user = UserNew::create(
        conn,
        String::from("naokotani"),
        String::from("nao@gmail.com"),
        String::from("logo.svg"),
    )
    .unwrap();

    let creator = CreatorNew::create(
        conn,
        user.id,
        Some(String::from("Chris")),
        Some(String::from("Hughes")),
        Some(String::from("naokotani")),
        Some(String::from("Random House")),
        DisplayName::Name,
    )
    .unwrap();

    assert_eq!(creator.first_name, "Chris");
    assert_eq!(creator.last_name, "Hughes");
    assert_eq!(creator.other_name, "naokotani");
    assert_eq!(creator.publisher, "Random House");
    assert_eq!(creator.default_name, DisplayName::Name);

    let creator = Creators::read(conn, creator.id).unwrap();

    assert_eq!(creator.first_name, "Chris");
    assert_eq!(creator.last_name, "Hughes");
    assert_eq!(creator.other_name, "naokotani");
    assert_eq!(creator.publisher, "Random House");

    let update = Creators::update_names(
        conn,
        creator.id,
        None,
        None,
        Some(String::from("Galator")),
        None,
        DisplayName::Other,
    );

    assert_eq!(update, 1);

    let creator = Creators::read(conn, creator.id).unwrap();

    assert_eq!(creator.first_name, "");
    assert_eq!(creator.last_name, "");
    assert_eq!(creator.other_name, "Galator");
    assert_eq!(creator.publisher, "");

    let delete = Creators::destroy(conn, creator.id).unwrap();

    assert_eq!(delete, 1);

    let delete = User::destroy(conn, user.id).unwrap();

    assert_eq!(delete, 1);
}

#[test]
fn map_full() {
    let conn = &mut Catalog::new();

    let user = UserNew::create(
        conn,
        String::from("naokotani"),
        String::from("nao@gmail.com"),
        String::from("logo.svg"),
    )
    .unwrap();

    let creator = CreatorNew::create(
        conn,
        user.id,
        Some(String::from("Chris")),
        Some(String::from("Hughes")),
        Some(String::from("naokotani")),
        Some(String::from("Random House")),
        DisplayName::Name,
    )
    .unwrap();

    let map_pack = MapPackCreate::new(
        creator.id,
        String::from("Epic Fights"),
        String::from("thumb.jpg"),
        String::from("Lots of great locations"),
        String::from("directory"),
        false,
        String::from("image.jpg"),
    )
    .create(conn)
    .unwrap();

    vec![MapCreate::new(
        creator.id,
        map_pack.id,
        String::from("Windy Glade"),
        String::from("thumb.jpg"),
        String::from("What a fight area!"),
        Some(450),
        Some(450),
        &map_pack.directory,
        String::from("image.jpg"),
    )
    .create(conn)
    .unwrap()];

    let album_full = MapPack::read(conn, map_pack.id).unwrap();

    assert_eq!(album_full.maps[0].title, "Windy Glade");

    let page = album_full.paginate(conn, user.id).unwrap();

    assert_eq!(page.display_name, "Chris Hughes");
    assert_eq!(page.asset_type, AssetType::GameMap);

    let delete = MapPack::destroy(conn, map_pack.id);

    assert_eq!(delete, 2);

    Creators::destroy(conn, creator.id).unwrap();
    User::destroy(conn, user.id).unwrap();
}

#[test]
fn stl_full() {
    let conn = &mut Catalog::new();

    let user = UserNew::create(
        conn,
        String::from("naokotani"),
        String::from("nao@gmail.com"),
        String::from("logo.svg"),
    )
    .unwrap();

    assert_eq!(user.username, "naokotani");

    let creator = CreatorNew::create(
        conn,
        user.id,
        Some(String::from("Chris")),
        Some(String::from("Hughes")),
        Some(String::from("naokotani")),
        Some(String::from("Random House")),
        DisplayName::Name,
    )
    .unwrap();

    let mut stl = StlCreate::new(
        creator.id,
        String::from("Dungeons and Dragons"),
        String::from("thumb.jpg"),
        String::from("What a stl!"),
        String::from("file.pdf"),
        String::from("image.jpg"),
        false,
    )
    .create(conn)
    .unwrap();

    assert_eq!(stl.title, "Dungeons and Dragons");
    assert_eq!(stl.thumb, "thumb.jpg");
    assert_eq!(stl.summary, "What a stl!");
    assert_eq!(stl.file, "file.pdf");
    assert_eq!(stl.main_image, "image.jpg");
    assert_eq!(stl.is_free, false);

    let summary = stl.summarize(conn, user.id).unwrap();

    assert_eq!(summary.display_name, "Chris Hughes");
    assert_eq!(summary.logo, "logo.svg");

    let page = stl.paginate(conn, user.id).unwrap();

    assert_eq!(page.display_name, "Chris Hughes");
    assert_eq!(page.logo, "logo.svg");
    assert_eq!(page.ownership, Ownership::Unowned);

    stl.title = String::from("For Whom the Bell Tolls");

    let update = stl.update(conn).unwrap();

    assert_eq!(update, 1);

    let stl = Stl::read(conn, stl.id).unwrap();

    assert_eq!(stl.title, "For Whom the Bell Tolls");
    assert_eq!(stl.summary, "What a stl!");

    let delete = Stl::destroy(conn, stl.id);

    assert_eq!(delete, 1);

    Creators::destroy(conn, creator.id).unwrap();
    User::destroy(conn, user.id).unwrap();
}

#[test]
fn token_full() {
    let conn = &mut Catalog::new();

    let user = UserNew::create(
        conn,
        String::from("naokotani"),
        String::from("nao@gmail.com"),
        String::from("logo.svg"),
    )
    .unwrap();

    let creator = CreatorNew::create(
        conn,
        user.id,
        Some(String::from("Chris")),
        Some(String::from("Hughes")),
        Some(String::from("naokotani")),
        Some(String::from("Random House")),
        DisplayName::Name,
    )
    .unwrap();

    let token_pack = TokenPackCreate::new(
        creator.id,
        String::from("Epic Fights"),
        String::from("thumb.jpg"),
        String::from("Lots of great locations"),
        String::from("directory"),
        false,
        String::from("image.jpg"),
    )
    .create(conn)
    .unwrap();

    vec![TokenCreate::new(
        creator.id,
        token_pack.id,
        String::from("Windy Glade"),
        String::from("thumb.jpg"),
        String::from("What a fight area!"),
        Some(450),
        Some(450),
        &token_pack.directory,
        String::from("image.jpg"),
        false,
    )
    .create(conn)
    .unwrap()];

    let mut token_pack = TokenPack::read(conn, token_pack.id).unwrap();

    assert_eq!(token_pack.tokens[0].title, "Windy Glade");

    let page = token_pack.paginate(conn, user.id).unwrap();

    assert_eq!(page.display_name, "Chris Hughes");
    assert_eq!(page.asset_type, AssetType::Token);

    let summary = token_pack.summarize(conn, user.id).unwrap();

    assert_eq!(summary.display_name, "Chris Hughes");
    assert_eq!(summary.asset_type, AssetType::Token);

    let update_names = Creators::update_names(
        conn,
        creator.id,
        None,
        None,
        Some(creator.other_name),
        Some(String::from("Random House")),
        DisplayName::OtherPublisher,
    );

    assert_eq!(update_names, 1);

    token_pack.is_free = true;
    token_pack.update(conn).unwrap();

    let token_pack = TokenPack::read(conn, token_pack.id).unwrap();
    let summary = token_pack.summarize(conn, user.id).unwrap();

    assert_eq!(summary.display_name, "naokotani publisher: Random House");

    assert_eq!(summary.ownership, Ownership::Free);

    let delete = TokenPack::destroy(conn, token_pack.id);

    assert_eq!(delete, 2);

    Creators::destroy(conn, creator.id).unwrap();
    User::destroy(conn, user.id).unwrap();
}

#[test]
fn user_full() {
    let conn = &mut Catalog::new();

    let user = UserNew::create(
        conn,
        String::from("naokotani"),
        String::from("nao@gmail.com"),
        String::from("logo.svg"),
    )
    .unwrap();

    assert_eq!(user.username, "naokotani");
    assert_eq!(user.email, "nao@gmail.com");
    assert_eq!(user.logo, "logo.svg");

    let user = User::read(conn, user.id).unwrap();

    assert_eq!(user.username, "naokotani");
    assert_eq!(user.email, "nao@gmail.com");
    assert_eq!(user.logo, "logo.svg");

    let update = User::update(
        conn,
        User {
            id: user.id,
            username: String::from("bob"),
            email: String::from("bill@hotmail.com"),
            logo: String::from("slick.svg"),
        },
    )
    .unwrap();

    assert_eq!(update, 1);

    let user = User::read(conn, user.id).unwrap();

    assert_eq!(user.username, "bob");
    assert_eq!(user.email, "bill@hotmail.com");
    assert_eq!(user.logo, "slick.svg");

    let delete = User::destroy(conn, user.id).unwrap();

    assert_eq!(delete, 1);
}
