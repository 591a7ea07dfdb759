use vstd::prelude::*;

verus! {

/// The failures that the sequence operations report.
///
/// Removal and random selection cannot produce an element out of nothing,
/// so both fail on an empty sequence; no other operation of the core can
/// fail.
#[derive(Clone, Copy, Debug, PartialEq, Eq, Structural)]
pub enum SequenceError {
    /// The operation needed at least one element, but the sequence was empty.
    EmptyCollection,
}

} // verus!
