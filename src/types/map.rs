//! A map described by its details and dimensions, and map packs of them.
use crate::types::content::{Details, Dimensions};
use vstd::prelude::*;

verus! {

#[derive(Debug, Clone, PartialEq, Eq)]
pub struct GameMap {
    pub content: Details,
    pub dimensions: Dimensions,
    pub file: String,
}

impl GameMap {
    pub fn new(dimensions: Dimensions, content: Details, file: String) -> (r: Self)
        ensures
            r == (GameMap { content, dimensions, file }),
    {
        GameMap { dimensions, content, file }
    }
}

#[derive(Debug, Clone, PartialEq, Eq)]
pub struct MapPack {
    pub content: Details,
    pub maps: Vec<GameMap>,
    pub directory: String,
}

impl MapPack {
    pub fn new(content: Details, maps: Vec<GameMap>, directory: String) -> (r: Self)
        ensures
            r == (MapPack { content, maps, directory }),
    {
        MapPack { content, maps, directory }
    }
}

} // verus!
