//! Logical movement keys, the set of keys held down, and edge detection
//! across two frames.
use vstd::prelude::*;
use vstd::string::StringSliceAdditionalSpecFns;

verus! {

/// The four movement keys: `W` up, `A` left, `S` down, `D` right.
#[derive(Clone, Copy, Debug, PartialEq, Eq, Hash, Structural)]
pub enum Key {
    W,
    A,
    S,
    D,
}

/// The UTF-8 bytes of the platform key code that stands for `k`
/// (`"KeyW"`, `"KeyA"`, `"KeyS"`, `"KeyD"`).
pub open spec fn code_bytes(k: Key) -> Seq<u8> {
    let last: u8 = match k {
        Key::W => 0x57u8,
        Key::A => 0x41u8,
        Key::S => 0x53u8,
        Key::D => 0x44u8,
    };
    seq![0x4bu8, 0x65u8, 0x79u8, last]
}

/// The key that a platform key code names, if any.
pub open spec fn key_of_code(b: Seq<u8>) -> Option<Key> {
    if b == code_bytes(Key::W) {
        Some(Key::W)
    } else if b == code_bytes(Key::A) {
        Some(Key::A)
    } else if b == code_bytes(Key::S) {
        Some(Key::S)
    } else if b == code_bytes(Key::D) {
        Some(Key::D)
    } else {
        None
    }
}

impl Key {
    /// Maps a platform key code to a key; any other code gives `None`.
    pub fn from_str(code: &str) -> (r: Option<Key>)
        ensures
            r == key_of_code(code.spec_bytes()),
    {
        let b = code.as_bytes();
        if b.len() != 4 || b[0] != 0x4bu8 || b[1] != 0x65u8 || b[2] != 0x79u8 {
            return None;
        }
        let last = b[3];
        proof {
            assert(b@ =~= seq![0x4bu8, 0x65u8, 0x79u8, last]);
        }
        if last == 0x57u8 {
            Some(Key::W)
        } else if last == 0x41u8 {
            Some(Key::A)
        } else if last == 0x53u8 {
            Some(Key::S)
        } else if last == 0x44u8 {
            Some(Key::D)
        } else {
            None
        }
    }
}

/// The set of keys currently held down.
#[derive(Clone, Copy, Debug, Default)]
pub struct KeyboardState {
    w: bool,
    a: bool,
    s: bool,
    d: bool,
}

impl View for KeyboardState {
    type V = Set<Key>;

    open spec fn view(&self) -> Set<Key> {
        Set::new(|k: Key| self.holds(k))
    }
}

impl KeyboardState {
    /// Whether the flag for `k` is set.
    pub closed spec fn holds(&self, k: Key) -> bool {
        match k {
            Key::W => self.w,
            Key::A => self.a,
            Key::S => self.s,
            Key::D => self.d,
        }
    }

    /// A state with no key held.
    pub fn new() -> (r: KeyboardState)
        ensures
            r@ == Set::<Key>::empty(),
    {
        let r = KeyboardState { w: false, a: false, s: false, d: false };
        assert(r@ =~= Set::<Key>::empty());
        r
    }

    fn set(&mut self, k: Key, v: bool)
        ensures
            forall|j: Key| #[trigger] final(self).holds(j) == if j == k { v } else { old(self).holds(j) },
    {
        match k {
            Key::W => self.w = v,
            Key::A => self.a = v,
            Key::S => self.s = v,
            Key::D => self.d = v,
        }
    }

    /// Marks `k` as held; holding it already changes nothing.
    pub fn set_key_down(&mut self, k: Key)
        ensures
            final(self)@ == old(self)@.insert(k),
    {
        if !self.is_key_down(k) {
            self.set(k, true);
        }
        assert(final(self)@ =~= old(self)@.insert(k));
    }

    /// Marks `k` as released; releasing a key not held changes nothing.
    pub fn set_key_up(&mut self, k: Key)
        ensures
            final(self)@ == old(self)@.remove(k),
    {
        if self.is_key_down(k) {
            self.set(k, false);
        }
        assert(final(self)@ =~= old(self)@.remove(k));
    }

    pub fn is_key_down(&self, k: Key) -> (r: bool)
        ensures
            r == self@.contains(k),
    {
        match k {
            Key::W => self.w,
            Key::A => self.a,
            Key::S => self.s,
            Key::D => self.d,
        }
    }

    pub fn is_key_up(&self, k: Key) -> (r: bool)
        ensures
            r == !self@.contains(k),
    {
        !self.is_key_down(k)
    }

    /// Releases every key.
    pub fn clear(&mut self)
        ensures
            final(self)@ == Set::<Key>::empty(),
    {
        *self = KeyboardState::new();
    }

    /// Replaces the contents with those of `other`.
    pub fn copy_from(&mut self, other: &KeyboardState)
        ensures
            final(self)@ == other@,
    {
        self.clear();
        if other.is_key_down(Key::W) {
            self.set_key_down(Key::W);
        }
        if other.is_key_down(Key::A) {
            self.set_key_down(Key::A);
        }
        if other.is_key_down(Key::S) {
            self.set_key_down(Key::S);
        }
        if other.is_key_down(Key::D) {
            self.set_key_down(Key::D);
        }
        assert(self@ =~= other@) by {
            assert forall|k: Key| self@.contains(k) == other@.contains(k) by {
                match k {
                    Key::W => {},
                    Key::A => {},
                    Key::S => {},
                    Key::D => {},
                }
            }
        }
    }
}

/// The keys held in this frame and in the frame before, from which fresh
/// presses are read.
#[derive(Clone, Copy, Debug, Default)]
pub struct Keyboards {
    pub keyboard_state: KeyboardState,
    pub prev_keyboard_state: KeyboardState,
}

/// Whether `k` is held now and was not held in the frame before.
pub open spec fn freshly_pressed(current: Set<Key>, previous: Set<Key>, k: Key) -> bool {
    current.contains(k) && !previous.contains(k)
}

impl Keyboards {
    /// Both frames with no key held.
    pub fn new() -> (r: Keyboards)
        ensures
            r.keyboard_state@ == Set::<Key>::empty(),
            r.prev_keyboard_state@ == Set::<Key>::empty(),
    {
        Keyboards { keyboard_state: KeyboardState::new(), prev_keyboard_state: KeyboardState::new() }
    }

    /// Whether `k` was pressed in this frame: held now, not held before.
    pub fn is_key_pressed(&self, k: Key) -> (r: bool)
        ensures
            r == freshly_pressed(self.keyboard_state@, self.prev_keyboard_state@, k),
    {
        self.keyboard_state.is_key_down(k) && self.prev_keyboard_state.is_key_up(k)
    }

    /// Applies a raw key-down event to the current frame; a code that names
    /// no key changes nothing.
    pub fn key_down(&mut self, code: &str)
        ensures
            final(self).prev_keyboard_state == old(self).prev_keyboard_state,
            final(self).keyboard_state@ == match key_of_code(code.spec_bytes()) {
                Some(k) => old(self).keyboard_state@.insert(k),
                None => old(self).keyboard_state@,
            },
    {
        if let Some(k) = Key::from_str(code) {
            self.keyboard_state.set_key_down(k);
        }
    }

    /// Applies a raw key-up event to the current frame; a code that names
    /// no key changes nothing.
    pub fn key_up(&mut self, code: &str)
        ensures
            final(self).prev_keyboard_state == old(self).prev_keyboard_state,
            final(self).keyboard_state@ == match key_of_code(code.spec_bytes()) {
                Some(k) => old(self).keyboard_state@.remove(k),
                None => old(self).keyboard_state@,
            },
    {
        if let Some(k) = Key::from_str(code) {
            self.keyboard_state.set_key_up(k);
        }
    }

    /// Ends a frame: the previous frame becomes a snapshot of the current one.
    pub fn retire(&mut self)
        ensures
            final(self).keyboard_state == old(self).keyboard_state,
            final(self).prev_keyboard_state@ == old(self).keyboard_state@,
    {
        let cur = self.keyboard_state;
        self.prev_keyboard_state.copy_from(&cur);
    }
}

} // verus!
