use vstd::prelude::*;

use crate::errors::SequenceError;
use crate::randomness::{random_index, shuffle_in_place};

verus! {

/// The position actually used when inserting at `position` into a sequence
/// of length `len`: positions at or before the front mean the front, and
/// positions at or past the back mean the back.
pub open spec fn clamped_insert_position(len: int, position: int) -> int {
    if position <= 0 {
        0
    } else if position >= len {
        len
    } else {
        position
    }
}

/// The position actually used when removing at `position` from a sequence
/// of length `len` (meaningful only when `len > 0`): positions at or before
/// the front mean the front, and positions at or past the last element mean
/// the last element.
pub open spec fn clamped_remove_position(len: int, position: int) -> int {
    if position <= 0 {
        0
    } else if position >= len - 1 {
        len - 1
    } else {
        position
    }
}

/// An ordered sequence of strings addressable by position.
///
/// Insertion and removal accept any position and clamp it to the nearest
/// valid boundary; removal and random selection fail only on an empty
/// sequence.
pub struct OrderedStringSequence {
    items: Vec<String>,
}

impl View for OrderedStringSequence {
    type V = Seq<String>;

    closed spec fn view(&self) -> Seq<String> {
        self.items@
    }
}

impl OrderedStringSequence {
    /// Constructs a sequence holding the given items in the given order.
    pub fn initialize(items: Vec<String>) -> (s: Self)
        ensures
            s@ == items@,
    {
        OrderedStringSequence { items }
    }

    /// The number of elements currently held.
    pub fn len(&self) -> (n: usize)
        ensures
            n == self@.len(),
    {
        self.items.len()
    }

    /// Whether the sequence holds no elements.
    pub fn is_empty(&self) -> (b: bool)
        ensures
            b == (self@.len() == 0),
    {
        self.items.is_empty()
    }

    /// The element at position `i`, counted from the front. Reading the
    /// positions `0` up to `len()` in turn yields the elements front to
    /// back, as often as wanted, without changing the sequence.
    pub fn get(&self, i: usize) -> (r: &String)
        requires
            i < self@.len(),
        ensures
            *r == self@[i as int],
    {
        &self.items[i]
    }

    /// Inserts `value` so that it becomes the element at `position`,
    /// shifting the elements from there on back by one.
    ///
    /// Any position past the back is clamped to the back, so insertion
    /// never fails.
    pub fn insert_at(&mut self, position: usize, value: String) -> (r: Result<
        (),
        SequenceError,
    >)
        ensures
            r is Ok,
            final(self)@ == old(self)@.insert(
                clamped_insert_position(old(self)@.len() as int, position as int),
                value,
            ),
            final(self)@.len() == old(self)@.len() + 1,
            final(self)@[clamped_insert_position(old(self)@.len() as int, position as int)]
                == value,
    {
        let n = self.items.len();
        let p = if position >= n {
            n
        } else {
            position
        };
        self.items.insert(p, value);
        Ok(())
    }

    /// Removes and returns the element at `position`.
    ///
    /// Any position past the last element is clamped to the last element,
    /// so removal fails only when the sequence is empty.
    pub fn remove_at(&mut self, position: usize) -> (r: Result<String, SequenceError>)
        ensures
            old(self)@.len() == 0 ==> r == Err::<String, SequenceError>(
                SequenceError::EmptyCollection,
            ) && final(self)@ == old(self)@,
            old(self)@.len() > 0 ==> ({
                let c = clamped_remove_position(old(self)@.len() as int, position as int);
                &&& r == Ok::<String, SequenceError>(old(self)@[c])
                &&& final(self)@ == old(self)@.remove(c)
                &&& final(self)@.len() == old(self)@.len() - 1
            }),
    {
        let n = self.items.len();
        if n == 0 {
            return Err(SequenceError::EmptyCollection);
        }
        let p = if position >= n - 1 {
            n - 1
        } else {
            position
        };
        let removed = self.items.remove(p);
        Ok(removed)
    }

    /// Reorders the elements as a uniformly random permutation: the same
    /// elements stay present, the same number of times. A sequence of zero
    /// or one elements is left exactly as it was.
    pub fn shuffle(&mut self)
        ensures
            final(self)@.to_multiset() == old(self)@.to_multiset(),
            final(self)@.len() == old(self)@.len(),
            old(self)@.len() <= 1 ==> final(self)@ == old(self)@,
    {
        if self.items.len() > 1 {
            shuffle_in_place(&mut self.items);
        }
    }

    /// Returns one element chosen uniformly at random, without changing
    /// the sequence; fails only when the sequence is empty.
    pub fn pick_random(&self) -> (r: Result<&String, SequenceError>)
        ensures
            r is Ok <==> self@.len() > 0,
            r is Err ==> r->Err_0 == SequenceError::EmptyCollection,
            r is Ok ==> (exists|i: int|
                0 <= i < self@.len() && *(r->Ok_0) == self@[i]),
    {
        let n = self.items.len();
        if n == 0 {
            Err(SequenceError::EmptyCollection)
        } else {
            let i = random_index(n);
            let picked = &self.items[i];
            proof {
                assert(*picked == self@[i as int]);
            }
            Ok(picked)
        }
    }
}

} // verus!
