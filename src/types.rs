//! Plain value types: enumerations kept as strings, view structs, and the
//! detail-based descriptions of content.
pub mod album;
pub mod asset;
pub mod book;
pub mod content;
pub mod map;
pub mod stl;
pub mod token;
pub mod user;
