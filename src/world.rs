//! The entity store: every entity with the components it carries.
use vstd::prelude::*;
use crate::components::{Playable, Pos, Tile};
use crate::point::Point;

verus! {

/// One entity: each component is present or absent.
#[derive(Clone, Copy, Debug, PartialEq, Eq, Structural)]
pub struct Entity {
    pub pos: Option<Pos>,
    pub tile: Option<Tile>,
    pub playable: Option<Playable>,
}

/// All entities, in creation order; an entity's identity is its index.
#[derive(Debug)]
pub struct World {
    pub entities: Vec<Entity>,
}

impl View for World {
    type V = Seq<Entity>;

    open spec fn view(&self) -> Seq<Entity> {
        self.entities@
    }
}

impl World {
    /// A world with no entities.
    pub fn new() -> (r: World)
        ensures
            r@ == Seq::<Entity>::empty(),
    {
        World { entities: Vec::new() }
    }

    /// Adds an entity with the given components and returns its identity.
    pub fn create_entity(&mut self, pos: Option<Pos>, tile: Option<Tile>, playable: Option<Playable>) -> (id: usize)
        requires
            old(self)@.len() < usize::MAX,
        ensures
            id == old(self)@.len(),
            final(self)@ == old(self)@.push(Entity { pos, tile, playable }),
    {
        let id = self.entities.len();
        self.entities.push(Entity { pos, tile, playable });
        id
    }

    /// The number of entities.
    pub fn len(&self) -> (r: usize)
        ensures
            r == self@.len(),
    {
        self.entities.len()
    }

    /// The position of entity `id`, if it exists and has one.
    pub fn position(&self, id: usize) -> (r: Option<Point>)
        ensures
            r == (if id < self@.len() && self@[id as int].pos.is_some() {
                Some(self@[id as int].pos.unwrap().0)
            } else {
                None::<Point>
            }),
    {
        if id < self.entities.len() {
            match self.entities[id].pos {
                Some(p) => Some(p.0),
                None => None,
            }
        } else {
            None
        }
    }
}

} // verus!
