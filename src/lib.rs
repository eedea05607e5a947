//! A catalog of purchasable digital assets: creators, their books, albums,
//! maps, 3D-print files and token packs, who owns what, and the summary and
//! page views that combine a creator's display name with an ownership check.
pub mod error;
pub mod catalog;
pub mod handlers;
pub mod table;
pub mod text;
pub mod types;
