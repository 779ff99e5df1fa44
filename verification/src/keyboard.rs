//! Which commands are held down, by the key events seen so far.
//!
//! Keys are named by the code the windowing layer gives them: the place of
//! the key in its table of virtual keys.

use std::collections::HashMap;
use vstd::prelude::*;

verus! {

broadcast use vstd::std_specs::hash::group_hash_axioms;

/// A command a key can stand for.
#[derive(Eq, Hash, PartialEq, Clone, Copy, Debug, Structural)]
pub enum Keys {
    RotateUp,
    RotateDown,
    RotateRight,
    RotateLeft,
    MoveUp,
    MoveDown,
    MoveRight,
    MoveLeft,
    MoveForward,
    MoveBackward,
}

pub const KEY_A: u32 = 10;

pub const KEY_D: u32 = 13;

pub const KEY_E: u32 = 14;

pub const KEY_Q: u32 = 26;

pub const KEY_S: u32 = 28;

pub const KEY_W: u32 = 32;

pub const KEY_LEFT: u32 = 70;

pub const KEY_UP: u32 = 71;

pub const KEY_RIGHT: u32 = 72;

pub const KEY_DOWN: u32 = 73;

/// The bindings a keyboard starts with: arrows rotate, W/S/A/D move in the
/// plane, E and Q move up and down.
pub open spec fn default_bindings() -> Map<u32, Keys> {
    Map::<u32, Keys>::empty().insert(KEY_UP, Keys::RotateUp).insert(
        KEY_DOWN,
        Keys::RotateDown,
    ).insert(KEY_RIGHT, Keys::RotateRight).insert(KEY_LEFT, Keys::RotateLeft).insert(
        KEY_W,
        Keys::MoveForward,
    ).insert(KEY_S, Keys::MoveBackward).insert(KEY_D, Keys::MoveRight).insert(
        KEY_A,
        Keys::MoveLeft,
    ).insert(KEY_E, Keys::MoveUp).insert(KEY_Q, Keys::MoveDown)
}

/// `active` with every occurrence of `key` taken out, the rest in order.
pub open spec fn without(active: Seq<Keys>, key: Keys) -> Seq<Keys>
    decreases active.len(),
{
    if active.len() == 0 {
        Seq::empty()
    } else if active.last() == key {
        without(active.drop_last(), key)
    } else {
        without(active.drop_last(), key).push(active.last())
    }
}

/// The held commands after one key event: an unbound key changes nothing; a
/// press adds the command at the end unless it is already held; a release
/// takes it out.
pub open spec fn after_event(
    bindings: Map<u32, Keys>,
    active: Seq<Keys>,
    code: u32,
    pressed: bool,
) -> Seq<Keys> {
    if !bindings.contains_key(code) {
        active
    } else if !pressed {
        without(active, bindings[code])
    } else if active.contains(bindings[code]) {
        active
    } else {
        active.push(bindings[code])
    }
}

/// Key bindings and the commands currently held down.
pub struct Keyboard {
    /// The command each bound key code stands for.
    pub key_map: HashMap<u32, Keys>,
    /// The held commands, in the order they were pressed.
    pub active: Vec<Keys>,
}

impl Default for Keyboard {
    fn default() -> (keyboard: Keyboard)
        ensures
            keyboard.bindings() == default_bindings(),
            keyboard.active@ == Seq::<Keys>::empty(),
    {
        let mut default_key_map: HashMap<u32, Keys> = HashMap::new();
        default_key_map.insert(KEY_UP, Keys::RotateUp);
        default_key_map.insert(KEY_DOWN, Keys::RotateDown);
        default_key_map.insert(KEY_RIGHT, Keys::RotateRight);
        default_key_map.insert(KEY_LEFT, Keys::RotateLeft);
        default_key_map.insert(KEY_W, Keys::MoveForward);
        default_key_map.insert(KEY_S, Keys::MoveBackward);
        default_key_map.insert(KEY_D, Keys::MoveRight);
        default_key_map.insert(KEY_A, Keys::MoveLeft);
        default_key_map.insert(KEY_E, Keys::MoveUp);
        default_key_map.insert(KEY_Q, Keys::MoveDown);
        Keyboard { key_map: default_key_map, active: Vec::new() }
    }
}

/// Whether `key` is among `active`.
pub fn is_active(active: &Vec<Keys>, key: Keys) -> (held: bool)
    ensures
        held == active@.contains(key),
{
    let mut i: usize = 0;
    while i < active.len()
        invariant
            i <= active.len(),
            forall|j: int| 0 <= j < i ==> active@[j] != key,
        decreases active.len() - i,
    {
        if active[i] == key {
            return true;
        }
        i += 1;
    }
    false
}

impl Keyboard {
    /// The command each bound key code stands for.
    pub open spec fn bindings(&self) -> Map<u32, Keys> {
        self.key_map@
    }

    /// The command bound to `code`, if any.
    pub fn binding(&self, code: u32) -> (bound: Option<Keys>)
        ensures
            bound is Some <==> self.bindings().contains_key(code),
            bound matches Some(key) ==> key == self.bindings()[code],
    {
        match self.key_map.get(&code) {
            Some(key) => Some(*key),
            None => None,
        }
    }

    /// Takes in one key event: `code` went down (`pressed`) or came up.
    pub fn keyboard_events(&mut self, code: u32, pressed: bool)
        ensures
            final(self).bindings() == old(self).bindings(),
            final(self).active@ == after_event(
                old(self).bindings(),
                old(self).active@,
                code,
                pressed,
            ),
    {
        match self.binding(code) {
            Some(key) => {
                if pressed {
                    if !is_active(&self.active, key) {
                        self.active.push(key);
                    }
                } else {
                    let mut kept: Vec<Keys> = Vec::new();
                    let mut i: usize = 0;
                    while i < self.active.len()
                        invariant
                            i <= self.active.len(),
                            kept@ == without(self.active@.take(i as int), key),
                        decreases self.active.len() - i,
                    {
                        proof {
                            assert(self.active@.take(i + 1).drop_last() == self.active@.take(
                                i as int,
                            ));
                        }
                        if self.active[i] != key {
                            kept.push(self.active[i]);
                        }
                        i += 1;
                    }
                    proof {
                        assert(self.active@.take(self.active.len() as int) == self.active@);
                    }
                    self.active = kept;
                }
            },
            None => {},
        }
    }
}

} // verus!
