//! Create, read, update and destroy operations over the catalog's tables.
pub mod album;
pub mod book;
pub mod creator;
pub mod map;
pub mod ownership;
pub mod stl;
pub mod tokens;
pub mod user;
pub mod view;
