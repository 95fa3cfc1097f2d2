//! Recognition of the key that ends the control loop.

use vstd::prelude::*;

verus! {

/// The keys that end the control loop: a lower- or upper-case `e`.
pub open spec fn spec_is_exit_key(key: Option<char>) -> bool {
    key == Some('e') || key == Some('E')
}

/// Decides whether a key press (given as the character it typed, or `None`
/// for a key without a character) asks the control loop to stop.
pub fn is_exit_key(key: Option<char>) -> (exit: bool)
    ensures
        exit == spec_is_exit_key(key),
        exit <==> (key == Some('e') || key == Some('E')),
{
    match key {
        Some(c) => c == 'e' || c == 'E',
        None => false,
    }
}

/// Exactly two keys end the control loop: `e` and `E`. Every other
/// character, and a key without a character, lets the loop go on.
pub proof fn lemma_only_e_ends_the_loop(c: char)
    ensures
        spec_is_exit_key(Some(c)) <==> (c == 'e' || c == 'E'),
        !spec_is_exit_key(None),
{
}

} // verus!
