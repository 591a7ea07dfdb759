use vstd::prelude::*;

use crate::sequence::{clamped_insert_position, clamped_remove_position};

verus! {

/// Inserting a value at position 0 and then removing at position 0 returns
/// the sequence to its prior state.
///
/// The two clamped positions are stated exactly as the contracts of
/// `insert_at` and `remove_at` state them: inserting into a sequence of
/// length `s.len()` at position 0, then removing from the grown sequence of
/// length `s.len() + 1` at position 0.
pub proof fn lemma_insert_front_then_remove_front(s: Seq<String>, v: String)
    ensures
        s.insert(clamped_insert_position(s.len() as int, 0), v).remove(
            clamped_remove_position(s.len() as int + 1, 0),
        ) == s,
{
    assert(s.insert(0, v).remove(0) =~= s);
}

} // verus!
