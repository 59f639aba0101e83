//! Multiplicity tracking of elements by their position. See [`Coverage`].

use core::marker::PhantomData;
use vstd::prelude::*;

verus! {

/// Anything that can be located by a position in an array.
pub trait Position: Sized {
    /// The position, as a mathematical value. An implementation whose
    /// contracts are to be of use defines it; the default leaves it
    /// unspecified.
    open spec fn spec_position(&self) -> usize {
        arbitrary()
    }

    /// The position of `self`.
    fn position(&self) -> (r: usize)
        ensures
            r == self.spec_position(),
    ;
}

impl Position for usize {
    open spec fn spec_position(&self) -> usize {
        *self
    }

    fn position(&self) -> usize {
        *self
    }
}

impl Position for u32 {
    open spec fn spec_position(&self) -> usize {
        *self as usize
    }

    fn position(&self) -> usize {
        *self as usize
    }
}

/// Tracks, for each position of a fixed range, how many times the element
/// at that position is covered.
#[derive(Debug)]
pub struct Coverage<T> {
    state: Vec<u8>,
    phantom: PhantomData<T>,
}

impl<T: Position> Coverage<T> {
    /// The cover count of each position.
    pub closed spec fn spec_counts(&self) -> Seq<u8> {
        self.state@
    }

    /// Initializes the coverage with the given number of elements, all
    /// uncovered.
    pub fn new(quantity: usize) -> (r: Self)
        ensures
            r.spec_counts().len() == quantity,
            forall|i: int| 0 <= i < quantity ==> r.spec_counts()[i] == 0u8,
    {
        let mut state: Vec<u8> = Vec::new();
        let mut i: usize = 0;
        while i < quantity
            invariant
                i <= quantity,
                state@.len() == i,
                forall|j: int| 0 <= j < i ==> state@[j] == 0u8,
            decreases quantity - i,
        {
            state.push(0);
            i = i + 1;
        }
        Self { state, phantom: PhantomData }
    }

    /// Covers `element` once more.
    pub fn cover(&mut self, element: T)
        requires
            element.spec_position() < old(self).spec_counts().len(),
            old(self).spec_counts()[element.spec_position() as int] < 255,
        ensures
            final(self).spec_counts() == old(self).spec_counts().update(
                element.spec_position() as int,
                (old(self).spec_counts()[element.spec_position() as int] + 1) as u8,
            ),
    {
        let position = element.position();
        let current = self.state[position];
        self.state.set(position, current + 1);
    }

    /// Takes one cover of `element` back.
    pub fn uncover(&mut self, element: T)
        requires
            element.spec_position() < old(self).spec_counts().len(),
            old(self).spec_counts()[element.spec_position() as int] > 0,
        ensures
            final(self).spec_counts() == old(self).spec_counts().update(
                element.spec_position() as int,
                (old(self).spec_counts()[element.spec_position() as int] - 1) as u8,
            ),
    {
        let position = element.position();
        let current = self.state[position];
        self.state.set(position, current - 1);
    }

    /// How many times `element` is covered.
    pub fn count(&self, element: T) -> (r: usize)
        requires
            element.spec_position() < self.spec_counts().len(),
        ensures
            r == self.spec_counts()[element.spec_position() as int] as usize,
    {
        self.state[element.position()] as usize
    }

    /// True if `element` is covered at least once.
    pub fn is_covered(&self, element: T) -> (r: bool)
        requires
            element.spec_position() < self.spec_counts().len(),
        ensures
            r == (self.spec_counts()[element.spec_position() as int] > 0),
    {
        self.state[element.position()] > 0
    }

    /// Incorporates the counts of `other` into `self`, position by
    /// position.
    pub fn merge(&mut self, other: &Self)
        requires
            other.spec_counts().len() >= old(self).spec_counts().len(),
            forall|i: int|
                0 <= i < old(self).spec_counts().len() ==> old(self).spec_counts()[i]
                    + other.spec_counts()[i] <= 255,
        ensures
            final(self).spec_counts().len() == old(self).spec_counts().len(),
            forall|i: int|
                0 <= i < old(self).spec_counts().len() ==> final(self).spec_counts()[i] == old(
                    self,
                ).spec_counts()[i] + other.spec_counts()[i],
    {
        let ghost initial = self.state@;
        let mut position: usize = 0;
        while position < self.state.len()
            invariant
                position <= self.state@.len(),
                self.state@.len() == initial.len(),
                other.spec_counts().len() >= initial.len(),
                forall|i: int| 0 <= i < initial.len() ==> initial[i] + other.spec_counts()[i]
                    <= 255,
                forall|i: int| position <= i < initial.len() ==> self.state@[i] == initial[i],
                forall|i: int|
                    0 <= i < position ==> self.state@[i] == initial[i] + other.spec_counts()[i],
            decreases self.state@.len() - position,
        {
            proof {
                assert(self.state@[position as int] == initial[position as int]);
                assert(initial[position as int] + other.spec_counts()[position as int] <= 255);
            }
            let sum = self.state[position] + other.state[position];
            self.state.set(position, sum);
            position = position + 1;
        }
    }

    /// Marks all elements as uncovered, so the coverage can be reused.
    pub fn reset(&mut self)
        ensures
            final(self).spec_counts().len() == old(self).spec_counts().len(),
            forall|i: int|
                0 <= i < final(self).spec_counts().len() ==> final(self).spec_counts()[i] == 0u8,
    {
        let mut position: usize = 0;
        while position < self.state.len()
            invariant
                position <= self.state@.len(),
                self.state@.len() == old(self).spec_counts().len(),
                forall|i: int| 0 <= i < position ==> self.state@[i] == 0u8,
            decreases self.state@.len() - position,
        {
            self.state.set(position, 0);
            position = position + 1;
        }
    }
}

} // verus!
