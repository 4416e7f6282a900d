use vstd::prelude::*;

verus! {

/// Identifier of a keyboard key, as sampled by the key-state poll.
///
/// Only the keys that take part in the hotkey combination are told apart;
/// every other key the poll reports is `Other`.
#[derive(Clone, Copy, PartialEq, Eq, Structural, Debug)]
pub enum Key {
    LeftShift,
    LeftControl,
    LeftAlt,
    LeftOption,
    Other,
}

/// The hotkey combination: left shift, left control, and one of the left
/// alt/option family, all down in the same sample.
pub open spec fn combo_held(keys: Seq<Key>) -> bool {
    &&& keys.contains(Key::LeftShift)
    &&& keys.contains(Key::LeftControl)
    &&& (keys.contains(Key::LeftAlt) || keys.contains(Key::LeftOption))
}

fn contains_key(keys: &Vec<Key>, k: Key) -> (r: bool)
    ensures
        r == keys@.contains(k),
{
    let mut i: usize = 0;
    while i < keys.len()
        invariant
            i <= keys.len(),
            forall|j: int| 0 <= j < i ==> keys@[j] != k,
        decreases keys.len() - i,
    {
        if keys[i] == k {
            return true;
        }
        i += 1;
    }
    false
}

/// Whether one sample of the pressed-key set holds the full hotkey combination.
pub fn hotkey_pressed(keys: &Vec<Key>) -> (r: bool)
    ensures
        r == combo_held(keys@),
{
    contains_key(keys, Key::LeftShift) && contains_key(keys, Key::LeftControl)
        && (contains_key(keys, Key::LeftAlt) || contains_key(keys, Key::LeftOption))
}

} // verus!
