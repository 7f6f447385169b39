//! The components an entity can carry.
use vstd::prelude::*;
use crate::point::Point;

verus! {

/// Where an entity stands on the grid.
#[derive(Clone, Copy, Debug, PartialEq, Eq, Structural)]
pub struct Pos(pub Point);

/// The glyph an entity is drawn with.
#[derive(Clone, Copy, Debug, PartialEq, Eq, Structural)]
pub struct Tile {
    pub ch: char,
}

impl Tile {
    pub fn new(ch: char) -> (r: Tile)
        ensures
            r.ch == ch,
    {
        Tile { ch }
    }
}

/// Marks an entity that responds to player input.
#[derive(Clone, Copy, Debug, Default, PartialEq, Eq, Structural)]
pub struct Playable;

} // verus!
