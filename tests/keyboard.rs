use grid_game::keyboard::{Key, KeyboardState, Keyboards};

#[test]
fn key_codes_map_to_keys() {
    assert_eq!(Key::from_str("KeyW"), Some(Key::W));
    assert_eq!(Key::from_str("KeyA"), Some(Key::A));
    assert_eq!(Key::from_str("KeyS"), Some(Key::S));
    assert_eq!(Key::from_str("KeyD"), Some(Key::D));
    assert_eq!(Key::from_str("KeyZ"), None);
    assert_eq!(Key::from_str(""), None);
    assert_eq!(Key::from_str("KeyWW"), None);
    assert_eq!(Key::from_str("keyw"), None);
}

#[test]
fn key_down_and_up_are_idempotent() {
    let mut s = KeyboardState::new();
    assert!(s.is_key_up(Key::W));
    s.set_key_down(Key::W);
    s.set_key_down(Key::W);
    assert!(s.is_key_down(Key::W));
    assert!(s.is_key_up(Key::A));
    s.set_key_up(Key::W);
    assert!(s.is_key_up(Key::W));
    s.set_key_up(Key::W);
    assert!(s.is_key_up(Key::W));
}

#[test]
fn clear_releases_every_key() {
    let mut s = KeyboardState::new();
    s.set_key_down(Key::S);
    s.set_key_down(Key::D);
    s.clear();
    for k in [Key::W, Key::A, Key::S, Key::D] {
        assert!(s.is_key_up(k));
    }
}

#[test]
fn copy_from_replaces_contents() {
    let mut a = KeyboardState::new();
    a.set_key_down(Key::W);
    a.set_key_down(Key::A);
    let mut b = KeyboardState::new();
    b.set_key_down(Key::S);
    a.copy_from(&b);
    assert!(a.is_key_up(Key::W));
    assert!(a.is_key_up(Key::A));
    assert!(a.is_key_down(Key::S));
    assert!(a.is_key_up(Key::D));
}

fn tracker(current: &[Key], previous: &[Key]) -> Keyboards {
    let mut k = Keyboards::new();
    for key in current {
        k.keyboard_state.set_key_down(*key);
    }
    for key in previous {
        k.prev_keyboard_state.set_key_down(*key);
    }
    k
}

#[test]
fn fresh_press_is_detected() {
    assert!(tracker(&[Key::W], &[]).is_key_pressed(Key::W));
}

#[test]
fn held_key_is_not_fresh() {
    assert!(!tracker(&[Key::W], &[Key::W]).is_key_pressed(Key::W));
}

#[test]
fn released_key_is_not_pressed() {
    assert!(!tracker(&[], &[Key::W]).is_key_pressed(Key::W));
}

#[test]
fn unknown_code_changes_nothing() {
    let mut k = Keyboards::new();
    k.key_down("KeyA");
    k.key_down("KeyZ");
    k.key_up("KeyZ");
    assert!(k.keyboard_state.is_key_down(Key::A));
    for key in [Key::W, Key::S, Key::D] {
        assert!(k.keyboard_state.is_key_up(key));
    }
}

#[test]
fn retire_snapshots_current_frame() {
    let mut k = Keyboards::new();
    k.key_down("KeyD");
    assert!(k.is_key_pressed(Key::D));
    k.retire();
    assert!(k.prev_keyboard_state.is_key_down(Key::D));
    assert!(!k.is_key_pressed(Key::D));
    k.key_up("KeyD");
    k.retire();
    k.key_down("KeyD");
    assert!(k.is_key_pressed(Key::D));
}
