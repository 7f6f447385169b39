//! One game session: the entity store, the keyboard frames, and the frame
//! update that moves the player and draws the picture.
use vstd::prelude::*;
use vstd::string::StringSliceAdditionalSpecFns;
use crate::components::{Playable, Pos, Tile};
use crate::keyboard::{key_of_code, Key, Keyboards};
use crate::point::Point;
use crate::systems::{moved_entity, render_text, PlayerControllerSystem, RenderSystem};
use crate::world::{Entity, World};

verus! {

/// Half the width of the picture, in cells.
pub const HALF_WIDTH: i32 = 10;

/// Half the height of the picture, in cells.
pub const HALF_HEIGHT: i32 = 10;

/// The entity a new game starts with: the player, drawn as `@` at the origin.
pub open spec fn player_entity() -> Entity {
    Entity {
        pos: Some(Pos(Point { x: 0, y: 0 })),
        tile: Some(Tile { ch: '@' }),
        playable: Some(Playable),
    }
}

/// The state of a game between frames.
#[derive(Debug)]
pub struct Game {
    pub keyboards: Keyboards,
    pub world: World,
}

impl Game {
    /// A game with one entity, the player, and no key held.
    pub fn new() -> (r: Game)
        ensures
            r.keyboards.keyboard_state@ == Set::<Key>::empty(),
            r.keyboards.prev_keyboard_state@ == Set::<Key>::empty(),
            r.world@ == seq![player_entity()],
    {
        let mut world = World::new();
        world.create_entity(Some(Pos(Point::new(0, 0))), Some(Tile::new('@')), Some(Playable));
        assert(world@ =~= seq![player_entity()]);
        Game { keyboards: Keyboards::new(), world }
    }

    /// Advances one frame: moves the playable entities by the keys freshly
    /// pressed since the last frame, draws the picture, and then records the
    /// keys held now as those of the previous frame.
    pub fn update(&mut self) -> (r: String)
        ensures
            final(self).world@.len() == old(self).world@.len(),
            forall|i: int|
                0 <= i < old(self).world@.len() ==> #[trigger] final(self).world@[i] == moved_entity(
                    old(self).world@[i],
                    old(self).keyboards.keyboard_state@,
                    old(self).keyboards.prev_keyboard_state@,
                ),
            r@ == render_text(final(self).world@, HALF_WIDTH as int, HALF_HEIGHT as int),
            final(self).keyboards.keyboard_state == old(self).keyboards.keyboard_state,
            final(self).keyboards.prev_keyboard_state@ == old(self).keyboards.keyboard_state@,
    {
        let kbs = self.keyboards;
        PlayerControllerSystem.run(&kbs, &mut self.world);
        let render = RenderSystem { half_width: HALF_WIDTH, half_height: HALF_HEIGHT };
        let picture = render.run(&self.world);
        self.keyboards.retire();
        picture
    }

    /// A raw key-down event; a code that names no key changes nothing.
    pub fn key_down(&mut self, code: &str)
        ensures
            final(self).world == old(self).world,
            final(self).keyboards.prev_keyboard_state == old(self).keyboards.prev_keyboard_state,
            final(self).keyboards.keyboard_state@ == match key_of_code(code.spec_bytes()) {
                Some(k) => old(self).keyboards.keyboard_state@.insert(k),
                None => old(self).keyboards.keyboard_state@,
            },
    {
        self.keyboards.key_down(code);
    }

    /// A raw key-up event; a code that names no key changes nothing.
    pub fn key_up(&mut self, code: &str)
        ensures
            final(self).world == old(self).world,
            final(self).keyboards.prev_keyboard_state == old(self).keyboards.prev_keyboard_state,
            final(self).keyboards.keyboard_state@ == match key_of_code(code.spec_bytes()) {
                Some(k) => old(self).keyboards.keyboard_state@.remove(k),
                None => old(self).keyboards.keyboard_state@,
            },
    {
        self.keyboards.key_up(code);
    }
}

} // verus!
