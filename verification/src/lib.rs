//! An ordered sequence of string items with positional insertion and
//! removal, uniform shuffling, and uniform random selection.
//!
//! Out-of-range positions for insertion and removal are clamped to the
//! nearest end of the sequence rather than rejected; the only failure the
//! core operations report is acting on an empty sequence.

pub mod errors;
pub mod laws;
mod randomness;
pub mod sequence;

pub use errors::SequenceError;
pub use sequence::OrderedStringSequence;
