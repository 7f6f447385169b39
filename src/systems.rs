//! The per-frame systems: player movement and text rendering.
use vstd::prelude::*;
use vstd::wrapping::i32_specs::{wrapping_add, wrapping_sub};
use crate::components::Pos;
use crate::keyboard::{freshly_pressed, Key, Keyboards};
use crate::point::Point;
use crate::world::{Entity, World};

verus! {

/// One unit step down the axis when `b` holds, wrapping on overflow.
pub open spec fn step_down(v: i32, b: bool) -> i32 {
    if b { wrapping_sub(v, 1) } else { v }
}

/// One unit step up the axis when `b` holds, wrapping on overflow.
pub open spec fn step_up(v: i32, b: bool) -> i32 {
    if b { wrapping_add(v, 1) } else { v }
}

/// Where a player at `p` stands after the fresh presses of this frame:
/// `W` moves up (y - 1), `S` down (y + 1), `A` left (x - 1), `D` right (x + 1),
/// each independently.
pub open spec fn moved_point(p: Point, cur: Set<Key>, prev: Set<Key>) -> Point {
    Point {
        x: step_up(step_down(p.x, freshly_pressed(cur, prev, Key::A)), freshly_pressed(cur, prev, Key::D)),
        y: step_up(step_down(p.y, freshly_pressed(cur, prev, Key::W)), freshly_pressed(cur, prev, Key::S)),
    }
}

/// An entity after movement: only one with a position and the player tag moves.
pub open spec fn moved_entity(e: Entity, cur: Set<Key>, prev: Set<Key>) -> Entity {
    if e.pos.is_some() && e.playable.is_some() {
        Entity { pos: Some(Pos(moved_point(e.pos.unwrap().0, cur, prev))), ..e }
    } else {
        e
    }
}

/// Moves every playable entity by the keys freshly pressed this frame.
pub struct PlayerControllerSystem;

impl PlayerControllerSystem {
    pub fn run(&self, kbs: &Keyboards, world: &mut World)
        ensures
            final(world)@.len() == old(world)@.len(),
            forall|i: int|
                0 <= i < old(world)@.len() ==> #[trigger] final(world)@[i] == moved_entity(
                    old(world)@[i],
                    kbs.keyboard_state@,
                    kbs.prev_keyboard_state@,
                ),
    {
        let up = kbs.is_key_pressed(Key::W);
        let down = kbs.is_key_pressed(Key::S);
        let left = kbs.is_key_pressed(Key::A);
        let right = kbs.is_key_pressed(Key::D);
        let n = world.entities.len();
        let mut i: usize = 0;
        while i < n
            invariant
                n == old(world)@.len(),
                world@.len() == n,
                up == freshly_pressed(kbs.keyboard_state@, kbs.prev_keyboard_state@, Key::W),
                down == freshly_pressed(kbs.keyboard_state@, kbs.prev_keyboard_state@, Key::S),
                left == freshly_pressed(kbs.keyboard_state@, kbs.prev_keyboard_state@, Key::A),
                right == freshly_pressed(kbs.keyboard_state@, kbs.prev_keyboard_state@, Key::D),
                0 <= i <= n,
                forall|j: int|
                    0 <= j < i ==> #[trigger] world@[j] == moved_entity(
                        old(world)@[j],
                        kbs.keyboard_state@,
                        kbs.prev_keyboard_state@,
                    ),
                forall|j: int| i <= j < n ==> #[trigger] world@[j] == old(world)@[j],
            decreases n - i,
        {
            let e = world.entities[i];
            if let (Some(pos), Some(_)) = (e.pos, e.playable) {
                let mut px: i32 = pos.0.x;
                let mut py: i32 = pos.0.y;
                if up {
                    py = py.wrapping_sub(1);
                }
                if down {
                    py = py.wrapping_add(1);
                }
                if left {
                    px = px.wrapping_sub(1);
                }
                if right {
                    px = px.wrapping_add(1);
                }
                let p = Point { x: px, y: py };
                assert(p == moved_point(pos.0, kbs.keyboard_state@, kbs.prev_keyboard_state@));
                world.entities[i] = Entity { pos: Some(Pos(p)), ..e };
            }
            assert(world@[i as int] == moved_entity(old(world)@[i as int], kbs.keyboard_state@, kbs.prev_keyboard_state@));
            i = i + 1;
        }
    }
}

/// The glyph drawn at `(x, y)`: that of the last entity with a tile standing
/// there, if any.
pub open spec fn glyph_at(es: Seq<Entity>, x: int, y: int) -> Option<char>
    decreases es.len(),
{
    if es.len() == 0 {
        None
    } else {
        let e = es.last();
        if e.pos.is_some() && e.tile.is_some() && e.pos.unwrap().0.x == x && e.pos.unwrap().0.y == y {
            Some(e.tile.unwrap().ch)
        } else {
            glyph_at(es.drop_last(), x, y)
        }
    }
}

/// The character of the cell `(x, y)`: its glyph, or a space.
pub open spec fn cell(es: Seq<Entity>, x: int, y: int) -> char {
    match glyph_at(es, x, y) {
        Some(c) => c,
        None => ' ',
    }
}

/// The number of cells from `-h` up to, not including, `h`.
pub open spec fn span(h: int) -> nat {
    if h > 0 { (2 * h) as nat } else { 0 }
}

/// The cells of row `y` from `x = -hw` up, the first `n` of them.
pub open spec fn row_cells(es: Seq<Entity>, hw: int, y: int, n: nat) -> Seq<char> {
    Seq::new(n, |c: int| cell(es, c - hw, y))
}

/// Row `y` of the picture, ended by a line break.
pub open spec fn row_text(es: Seq<Entity>, hw: int, y: int) -> Seq<char> {
    row_cells(es, hw, y, span(hw)).push('\n')
}

/// The first `k` rows of the picture, from `y = -hh` down the screen.
pub open spec fn rows_text(es: Seq<Entity>, hw: int, hh: int, k: nat) -> Seq<char>
    decreases k,
{
    if k == 0 {
        Seq::empty()
    } else {
        rows_text(es, hw, hh, (k - 1) as nat) + row_text(es, hw, k - 1 - hh)
    }
}

/// The whole picture: the rows `y` in `[-hh, hh)`, each the cells `x` in
/// `[-hw, hw)`.
pub open spec fn render_text(es: Seq<Entity>, hw: int, hh: int) -> Seq<char> {
    rows_text(es, hw, hh, span(hh))
}

/// Relies on `String`'s `FromIterator<char>`: the string holds the chars in order.
#[verifier::external_body]
fn chars_to_string(v: &Vec<char>) -> (r: String)
    ensures
        r@ == v@,
{
    v.iter().collect()
}

/// Draws the entities with a position and a tile as text, centred on the
/// origin.
pub struct RenderSystem {
    pub half_width: i32,
    pub half_height: i32,
}

impl RenderSystem {
    /// The glyph drawn at `(x, y)`, if any entity with a tile stands there.
    fn glyph(world: &World, x: i64, y: i64) -> (r: Option<char>)
        ensures
            r == glyph_at(world@, x as int, y as int),
    {
        let n = world.entities.len();
        let mut found: Option<char> = None;
        let mut j: usize = 0;
        while j < n
            invariant
                n == world@.len(),
                0 <= j <= n,
                found == glyph_at(world@.subrange(0, j as int), x as int, y as int),
            decreases n - j,
        {
            let e = world.entities[j];
            proof {
                assert(world@.subrange(0, j + 1).drop_last() =~= world@.subrange(0, j as int));
            }
            if let (Some(p), Some(t)) = (e.pos, e.tile) {
                if p.0.x as i64 == x && p.0.y as i64 == y {
                    found = Some(t.ch);
                }
            }
            j = j + 1;
        }
        assert(world@.subrange(0, n as int) =~= world@);
        found
    }

    /// The picture of `world` as a sequence of characters.
    pub fn render(&self, world: &World) -> (r: Vec<char>)
        ensures
            r@ == render_text(world@, self.half_width as int, self.half_height as int),
    {
        let hw: i64 = self.half_width as i64;
        let hh: i64 = self.half_height as i64;
        let ghost es = world@;
        let mut out: Vec<char> = Vec::new();
        let mut y: i64 = -hh;
        while y < hh
            invariant
                hw == self.half_width,
                hh == self.half_height,
                es == world@,
                0 <= y + hh <= span(hh as int),
                out@ == rows_text(es, hw as int, hh as int, (y + hh) as nat),
            decreases hh - y,
        {
            let ghost k: nat = (y + hh) as nat;
            let mut x: i64 = -hw;
            while x < hw
                invariant
                    hw == self.half_width,
                    hh == self.half_height,
                    es == world@,
                    -hh <= y < hh,
                    k == y + hh,
                    0 <= x + hw <= span(hw as int),
                    out@ == rows_text(es, hw as int, hh as int, k) + row_cells(es, hw as int, y as int, (x + hw) as nat),
                decreases hw - x,
            {
                let c = match RenderSystem::glyph(world, x, y) {
                    Some(c) => c,
                    None => ' ',
                };
                out.push(c);
                proof {
                    assert(row_cells(es, hw as int, y as int, (x + hw + 1) as nat)
                        =~= row_cells(es, hw as int, y as int, (x + hw) as nat).push(c));
                    assert(rows_text(es, hw as int, hh as int, k) + row_cells(es, hw as int, y as int, (x + hw + 1) as nat)
                        =~= (rows_text(es, hw as int, hh as int, k) + row_cells(es, hw as int, y as int, (x + hw) as nat)).push(c));
                }
                x = x + 1;
            }
            out.push('\n');
            proof {
                assert((x + hw) as nat == span(hw as int));
                assert(rows_text(es, hw as int, hh as int, k + 1)
                    =~= rows_text(es, hw as int, hh as int, k) + row_text(es, hw as int, y as int));
                assert(out@ =~= rows_text(es, hw as int, hh as int, k) + row_text(es, hw as int, y as int));
            }
            y = y + 1;
        }
        out
    }

    /// The picture of `world` as text: one line per row, each ended by a
    /// line break.
    pub fn run(&self, world: &World) -> (r: String)
        ensures
            r@ == render_text(world@, self.half_width as int, self.half_height as int),
    {
        let cells = self.render(world);
        chars_to_string(&cells)
    }
}

} // verus!
