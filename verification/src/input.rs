//! Which keys are held down. A set of HELD keys, not of events: while a key
//! is held the system repeats its press, and the set does not change.
//!
//! Keys are carried by their numeric key code.

use vstd::prelude::*;
use std::collections::HashSet;

verus! {

broadcast use vstd::std_specs::hash::group_hash_axioms;

/// The keys currently held down.
pub struct PressedKeys {
    keys: HashSet<u32>,
}

impl View for PressedKeys {
    type V = Set<u32>;

    closed spec fn view(&self) -> Set<u32> {
        self.keys@
    }
}

impl PressedKeys {
    /// No key held.
    pub fn new() -> (keys: Self)
        ensures
            keys@ == Set::<u32>::empty(),
    {
        PressedKeys { keys: HashSet::new() }
    }

    /// Records a key going down or up.
    pub fn track_key(&mut self, key: u32, is_pressed: bool)
        ensures
            is_pressed ==> final(self)@ == old(self)@.insert(key),
            !is_pressed ==> final(self)@ == old(self)@.remove(key),
    {
        if is_pressed {
            self.keys.insert(key);
        } else {
            self.keys.remove(&key);
        }
    }

    /// The window gained or lost the keyboard focus.
    ///
    /// Losing it must release EVERY key: the release of a key held through
    /// Alt-Tab goes to the other window and never reaches this one. Gaining it
    /// changes nothing; the set is empty by then anyway.
    pub fn focus_changed(&mut self, focused: bool)
        ensures
            !focused ==> final(self)@ == Set::<u32>::empty(),
            focused ==> final(self)@ == old(self)@,
    {
        if !focused {
            self.keys.clear();
        }
    }

    pub fn contains(&self, key: u32) -> (held: bool)
        ensures
            held == self@.contains(key),
    {
        self.keys.contains(&key)
    }

    pub fn len(&self) -> (count: usize)
        ensures
            count == self@.len(),
    {
        self.keys.len()
    }

    pub fn is_empty(&self) -> (empty: bool)
        ensures
            empty == (self@ == Set::<u32>::empty()),
    {
        let empty = self.keys.is_empty();
        proof {
            if !empty {
                assert(!self@.is_empty());
            }
        }
        empty
    }
}

/// A key stays held from its press to its release, however many times the
/// press repeats in between, and its release forgets it.
pub proof fn law_key_held_until_released(keys: Set<u32>, key: u32)
    ensures
        keys.insert(key).insert(key) == keys.insert(key),
        keys.insert(key).contains(key),
        !keys.insert(key).insert(key).remove(key).contains(key),
{
    assert(keys.insert(key).insert(key) =~= keys.insert(key));
}

} // verus!
