use vstd::prelude::*;

use crate::chain::Chain;
use crate::field::{Field, Invariant};

verus! {

/// A field known only by its runtime byte offset. Two `Dynamic`s with the same
/// offset are the same field.
pub struct Dynamic<P, T> {
    offset: usize,
    mark: Invariant<(P, T)>,
}

impl<P, T> Dynamic<P, T> {
    /// A field at `offset` bytes from the start of `P`.
    ///
    /// The caller vouches that a `T` lives at that offset in every `P`.
    pub fn from_offset(offset: usize) -> (r: Self)
        ensures
            r.spec_offset() == offset,
    {
        Dynamic { offset, mark: Invariant::init() }
    }

    /// Follows this field, then `f` inside it.
    pub fn chain<F: Field<Parent = T>>(self, f: F) -> (r: Chain<Self, F>)
        requires
            self.spec_offset() + f.spec_offset() <= usize::MAX,
        ensures
            r.first() == self,
            r.second() == f,
            r.spec_offset() == self.spec_offset() + f.spec_offset(),
    {
        Chain::new(self, f)
    }

    /// The byte offset of the field.
    pub fn offset(&self) -> (r: usize)
        ensures
            r as nat == self.spec_offset(),
    {
        self.offset
    }
}

/// A runtime-offset field equivalent to `field`.
pub fn dynamic<F: Field>(field: &F) -> (r: Dynamic<F::Parent, F::Type>)
    ensures
        r.spec_offset() == field.spec_offset(),
{
    Dynamic::from_offset(field.field_offset())
}

impl<P, T> Clone for Dynamic<P, T> {
    fn clone(&self) -> (r: Self)
        ensures
            r.spec_offset() == self.spec_offset(),
    {
        Dynamic { offset: self.offset, mark: Invariant::init() }
    }
}

impl<P, T> Field for Dynamic<P, T> {
    type Parent = P;

    type Type = T;

    closed spec fn spec_offset(&self) -> nat {
        self.offset as nat
    }

    fn field_offset(&self) -> (r: usize) {
        self.offset
    }
}

} // verus!
