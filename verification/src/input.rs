//! Keyboard state: which keys are down, which went down and which came up
//! since the state was last read out. Keys are named by their scancodes.

use vstd::prelude::*;
use std::collections::HashSet;

verus! {

broadcast use vstd::std_specs::hash::group_hash_axioms;

/// Whether a key went down or came up.
#[derive(Copy, Clone, Debug, PartialEq, Eq, Structural)]
pub enum KeyState {
    Pressed,
    Released,
}

/// Mathematical model of the keyboard state.
pub struct InputModel {
    /// The keys that are down.
    pub pressed: Set<u32>,
    /// The keys that went down since the last update.
    pub just_pressed: Set<u32>,
    /// The keys that came up since the last update.
    pub released: Set<u32>,
}

impl InputModel {
    pub open spec fn initial() -> InputModel {
        InputModel { pressed: Set::empty(), just_pressed: Set::empty(), released: Set::empty() }
    }

    /// The state after a key event. An event without a scancode changes
    /// nothing. A key that goes down counts as just pressed only if it was
    /// not down already, so that key repeat does not count.
    pub open spec fn inserted(self, scancode: Option<u32>, state: KeyState) -> InputModel {
        match scancode {
            None => self,
            Some(key) => match state {
                KeyState::Pressed => InputModel {
                    pressed: self.pressed.insert(key),
                    just_pressed: if self.pressed.contains(key) {
                        self.just_pressed
                    } else {
                        self.just_pressed.insert(key)
                    },
                    released: self.released,
                },
                KeyState::Released => InputModel {
                    pressed: self.pressed.remove(key),
                    just_pressed: self.just_pressed,
                    released: self.released.insert(key),
                },
            },
        }
    }

    /// The state once it has been read out: what is down stays down, what
    /// happened since the last update is forgotten.
    pub open spec fn updated(self) -> InputModel {
        InputModel { pressed: self.pressed, just_pressed: Set::empty(), released: Set::empty() }
    }

    /// Every one of `keys` is down.
    pub open spec fn all_pressed(self, keys: Seq<u32>) -> bool {
        forall|i: int| 0 <= i < keys.len() ==> self.pressed.contains(#[trigger] keys[i])
    }
}

/// Keyboard state.
#[derive(Debug)]
pub struct InputContext {
    pressed_keys: HashSet<u32>,
    just_pressed_keys: HashSet<u32>,
    released_keys: HashSet<u32>,
}

impl View for InputContext {
    type V = InputModel;

    closed spec fn view(&self) -> InputModel {
        InputModel {
            pressed: self.pressed_keys@,
            just_pressed: self.just_pressed_keys@,
            released: self.released_keys@,
        }
    }
}

impl InputContext {
    pub fn new() -> (input: InputContext)
        ensures
            input@ == InputModel::initial(),
    {
        InputContext {
            pressed_keys: HashSet::new(),
            just_pressed_keys: HashSet::new(),
            released_keys: HashSet::new(),
        }
    }

    /// Forgets what went down and came up; called once the state has been
    /// read out for this turn of the event loop.
    pub fn update(&mut self)
        ensures
            final(self)@ == old(self)@.updated(),
    {
        self.just_pressed_keys.clear();
        self.released_keys.clear();
    }

    pub fn is_key_pressed(&self, key: u32) -> (b: bool)
        ensures
            b == self@.pressed.contains(key),
    {
        self.pressed_keys.contains(&key)
    }

    /// Whether every one of `keys` is down.
    pub fn is_keys_pressed(&self, keys: &[u32]) -> (b: bool)
        ensures
            b == self@.all_pressed(keys@),
    {
        let mut i: usize = 0;
        while i < keys.len()
            invariant
                i <= keys@.len(),
                forall|j: int| 0 <= j < i ==> self.pressed_keys@.contains(#[trigger] keys@[j]),
            decreases keys@.len() - i,
        {
            if !self.pressed_keys.contains(&keys[i]) {
                return false;
            }
            i += 1;
        }
        true
    }

    pub fn is_key_just_pressed(&self, key: u32) -> (b: bool)
        ensures
            b == self@.just_pressed.contains(key),
    {
        self.just_pressed_keys.contains(&key)
    }

    pub fn is_key_released(&self, key: u32) -> (b: bool)
        ensures
            b == self@.released.contains(key),
    {
        self.released_keys.contains(&key)
    }

    /// Takes a key event in.
    pub fn insert(&mut self, scancode: Option<u32>, state: KeyState)
        ensures
            final(self)@ == old(self)@.inserted(scancode, state),
    {
        match scancode {
            None => {},
            Some(key) => match state {
                KeyState::Pressed => {
                    if !self.pressed_keys.contains(&key) {
                        self.just_pressed_keys.insert(key);
                    }
                    self.pressed_keys.insert(key);
                },
                KeyState::Released => {
                    self.pressed_keys.remove(&key);
                    self.released_keys.insert(key);
                },
            },
        }
    }
}

} // verus!
