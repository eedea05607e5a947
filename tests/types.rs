use alembic_head::types::album::{Album, Track};
use alembic_head::types::book::Book;
use alembic_head::types::content::{Details, Dimensions, Ownership};
use alembic_head::types::map::GameMap;
use alembic_head::types::stl::Stl;
use alembic_head::types::token::{Token, TokenPack};

#[test]
fn album() {
    let content = Details::new(
        1,
        String::from("Cool Book"),
        String::from("thumb.jpg"),
        String::from("so great book"),
        String::from("Frank Hayes"),
    );

    let content_track = Details::new(
        1,
        String::from("great track"),
        String::from("thumb.jpg"),
        String::from("great track"),
        String::from("Frank Hayes"),
    );
    let track = Track::new(content_track, String::from("track.mp3"));
    let tracks = vec![track];
    let album = Album::new(content, tracks, String::from("/album"));

    assert_eq!(album.content.title, "Cool Book");
    assert_eq!(album.content.thumb, "thumb.jpg");
    assert_eq!(album.content.author, "Frank Hayes");
    assert_eq!(album.content.summary, "so great book");
    assert_eq!(album.tracks[0].file, "track.mp3");
    assert_eq!(album.tracks[0].content.title, "great track");
    assert_eq!(album.directory, "/album");
}

#[test]
fn book() {
    let content = Details::new(
        1,
        String::from("Cool Book"),
        String::from("thumb.jpg"),
        String::from("so great book"),
        String::from("Frank Hayes"),
    );
    let book = Book::new(content, 300);

    assert_eq!(book.details.title, "Cool Book");
    assert_eq!(book.details.thumb, "thumb.jpg");
    assert_eq!(book.details.author, "Frank Hayes");
    assert_eq!(book.details.summary, "so great book");
    assert_eq!(book.pages, 300);
}

#[test]
fn new_content() {
    let details = Details::new(
        1,
        String::from("For Whom the Bell Tolls"),
        String::from("thumb.jpg"),
        String::from("A great read"),
        String::from("Earnest Hemingway"),
    );
    assert_eq!(details.id, 1);
    assert_eq!(details.title, "For Whom the Bell Tolls");
    assert_eq!(details.thumb, "thumb.jpg");
    assert_eq!(details.summary, "A great read");
    assert_eq!(details.author, "Earnest Hemingway");
}

#[test]
fn ownership() {
    let owned = Ownership::retrieve("owned").unwrap();
    let free = Ownership::retrieve("free").unwrap();
    let unowned = Ownership::retrieve("unowned").unwrap();

    assert_eq!(owned, Ownership::Owned);
    assert_eq!(unowned, Ownership::Unowned);
    assert_eq!(free, Ownership::Free);

    let owned = owned.store();
    let unowned = unowned.store();
    let free = free.store();

    assert_eq!(owned, "owned");
    assert_eq!(unowned, "unowned");
    assert_eq!(free, "free");
}

#[test]
fn map() {
    let content = Details::new(
        1,
        String::from("Cool Book"),
        String::from("thumb.jpg"),
        String::from("so great book"),
        String::from("Frank Hayes"),
    );
    let map = GameMap::new(
        Dimensions {
            width: 500,
            height: 500,
        },
        content,
        String::from("dungeon.jpg"),
    );

    assert_eq!(map.content.title, "Cool Book");
    assert_eq!(map.content.thumb, "thumb.jpg");
    assert_eq!(map.content.author, "Frank Hayes");
    assert_eq!(map.content.summary, "so great book");
    assert_eq!(
        map.dimensions,
        Dimensions {
            width: 500,
            height: 500
        }
    );
    assert_eq!(map.file, "dungeon.jpg");
}

#[test]
fn stl() {
    let content = Details::new(
        1,
        String::from("Cool Book"),
        String::from("thumb.jpg"),
        String::from("so great book"),
        String::from("Frank Hayes"),
    );
    let file = String::from("file.stl");
    Stl::new(content, file);
}

#[test]
fn token_pack() {
    let content = Details::new(
        1,
        String::from("Cool Book"),
        String::from("thumb.jpg"),
        String::from("so great book"),
        String::from("Frank Hayes"),
    );

    let content_token = Details::new(
        1,
        String::from("Cool Book"),
        String::from("thumb.jpg"),
        String::from("so great book"),
        String::from("Frank Hayes"),
    );
    let token = Token::new(
        content_token,
        Dimensions {
            width: 500,
            height: 500,
        },
        String::from("token.jpg"),
    );
    let tokens = vec![token];
    let token_pack = TokenPack::new(content, tokens);

    assert_eq!(token_pack.content.title, "Cool Book");
    assert_eq!(token_pack.content.thumb, "thumb.jpg");
    assert_eq!(token_pack.content.author, "Frank Hayes");
    assert_eq!(token_pack.content.summary, "so great book");
    assert_eq!(token_pack.tokens[0].image, "token.jpg");
    assert_eq!(
        token_pack.tokens[0].dimensions,
        Dimensions {
            width: 500,
            height: 500
        }
    );
}
