//! A token described by its details, dimensions and image, and token packs.
use crate::types::content::{Details, Dimensions};
use vstd::prelude::*;

verus! {

#[derive(Debug, Clone, PartialEq, Eq)]
pub struct Token {
    pub content: Details,
    pub dimensions: Dimensions,
    pub image: String,
}

impl Token {
    pub fn new(content: Details, dimensions: Dimensions, image: String) -> (r: Self)
        ensures
            r == (Token { content, dimensions, image }),
    {
        Token { content, dimensions, image }
    }
}

#[derive(Debug, Clone, PartialEq, Eq)]
pub struct TokenPack {
    pub content: Details,
    pub tokens: Vec<Token>,
}

impl TokenPack {
    pub fn new(content: Details, tokens: Vec<Token>) -> (r: Self)
        ensures
            r == (TokenPack { content, tokens }),
    {
        TokenPack { content, tokens }
    }
}

} // verus!
