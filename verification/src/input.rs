//! The keys that are held down, by their names.

use vstd::prelude::*;
use vstd::hash_map::StringHashMap;
use vstd::string::*;

verus! {

/// The set of keys that are held down at the time of a tick.
pub struct KeyState {
    pressed_keys: StringHashMap<()>,
}

impl View for KeyState {
    type V = Set<Seq<char>>;

    /// The names of the keys that are held down.
    closed spec fn view(&self) -> Set<Seq<char>> {
        self.pressed_keys@.dom()
    }
}

impl KeyState {
    /// No key is held down.
    pub fn new() -> (keystate: Self)
        ensures
            keystate@ == Set::<Seq<char>>::empty(),
    {
        KeyState { pressed_keys: StringHashMap::new() }
    }

    /// Tells whether the key called `code` is held down.
    pub fn is_pressed(&self, code: &str) -> (pressed: bool)
        ensures
            pressed == self@.contains(code@),
    {
        self.pressed_keys.contains_key(code)
    }

    /// Records that the key called `code` has gone down.
    pub fn set_pressed(&mut self, code: &str)
        ensures
            final(self)@ == old(self)@.insert(code@),
    {
        self.pressed_keys.insert(String::from_str(code), ());
    }

    /// Records that the key called `code` has come up.
    pub fn set_released(&mut self, code: &str)
        ensures
            final(self)@ == old(self)@.remove(code@),
    {
        self.pressed_keys.remove(code);
    }
}

} // verus!
