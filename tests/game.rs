use grid_game::components::{Playable, Pos, Tile};
use grid_game::game::Game;
use grid_game::keyboard::{Key, Keyboards};
use grid_game::point::Point;
use grid_game::systems::{PlayerControllerSystem, RenderSystem};
use grid_game::world::World;

#[test]
fn new_game_has_player_at_origin() {
    let g = Game::new();
    assert_eq!(g.world.len(), 1);
    assert_eq!(g.world.position(0), Some(Point::new(0, 0)));
    assert_eq!(g.world.entities[0].tile, Some(Tile::new('@')));
    assert_eq!(g.world.entities[0].playable, Some(Playable));
}

#[test]
fn up_and_right_in_one_frame_move_diagonally() {
    let mut g = Game::new();
    g.key_down("KeyW");
    g.key_down("KeyD");
    g.update();
    assert_eq!(g.world.position(0), Some(Point::new(1, -1)));
}

#[test]
fn held_key_moves_only_once() {
    let mut g = Game::new();
    g.key_down("KeyS");
    g.update();
    g.update();
    assert_eq!(g.world.position(0), Some(Point::new(0, 1)));
    g.key_up("KeyS");
    g.update();
    g.key_down("KeyS");
    g.update();
    assert_eq!(g.world.position(0), Some(Point::new(0, 2)));
}

#[test]
fn opposite_keys_cancel() {
    let mut g = Game::new();
    g.key_down("KeyA");
    g.key_down("KeyD");
    g.key_down("KeyZ");
    g.update();
    assert_eq!(g.world.position(0), Some(Point::new(0, 0)));
}

#[test]
fn only_playable_entities_move() {
    let mut w = World::new();
    w.create_entity(Some(Pos(Point::new(2, 2))), Some(Tile::new('#')), None);
    w.create_entity(Some(Pos(Point::new(5, 5))), None, Some(Playable));
    w.create_entity(None, Some(Tile::new('x')), Some(Playable));
    let mut k = Keyboards::new();
    k.keyboard_state.set_key_down(Key::A);
    PlayerControllerSystem.run(&k, &mut w);
    assert_eq!(w.position(0), Some(Point::new(2, 2)));
    assert_eq!(w.position(1), Some(Point::new(4, 5)));
    assert_eq!(w.position(2), None);
    assert_eq!(w.position(3), None);
}

#[test]
fn render_single_entity() {
    let mut w = World::new();
    w.create_entity(Some(Pos(Point::new(0, 0))), Some(Tile::new('@')), Some(Playable));
    let r = RenderSystem { half_width: 2, half_height: 2 };
    assert_eq!(r.run(&w), "    \n    \n  @ \n    \n");
}

#[test]
fn render_last_entity_wins_and_offscreen_is_dropped() {
    let mut w = World::new();
    w.create_entity(Some(Pos(Point::new(-1, -1))), Some(Tile::new('a')), None);
    w.create_entity(Some(Pos(Point::new(-1, -1))), Some(Tile::new('b')), None);
    w.create_entity(Some(Pos(Point::new(1, 0))), None, None);
    w.create_entity(Some(Pos(Point::new(1, 1))), Some(Tile::new('c')), None);
    w.create_entity(Some(Pos(Point::new(5, 0))), Some(Tile::new('z')), None);
    let r = RenderSystem { half_width: 1, half_height: 1 };
    assert_eq!(r.run(&w), "b \n  \n");
}

#[test]
fn render_empty_sizes() {
    let w = World::new();
    assert_eq!(RenderSystem { half_width: 3, half_height: 0 }.run(&w), "");
    assert_eq!(RenderSystem { half_width: 0, half_height: 1 }.run(&w), "\n\n");
    assert_eq!(RenderSystem { half_width: -2, half_height: -2 }.run(&w), "");
}

#[test]
fn update_draws_the_full_picture() {
    let mut g = Game::new();
    let picture = g.update();
    let lines: Vec<&str> = picture.split('\n').collect();
    assert_eq!(lines.len(), 21);
    assert_eq!(lines[20], "");
    for (i, line) in lines[..20].iter().enumerate() {
        assert_eq!(line.len(), 20);
        if i == 10 {
            assert_eq!(line.chars().nth(10), Some('@'));
            assert_eq!(line.chars().filter(|c| *c == ' ').count(), 19);
        } else {
            assert!(line.chars().all(|c| c == ' '));
        }
    }
}
