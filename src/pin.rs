use vstd::prelude::*;

use std::rc::Rc;
use std::sync::Arc;

use crate::dynamic::{dynamic, Dynamic};
use crate::field::Field;
use crate::project::ProjectTo;

verus! {

/// A pointer whose target stays put while a `Pinned` wraps it.
pub trait PinnablePointer {}

impl<'a> PinnablePointer for &'a [u8] {}

impl PinnablePointer for Box<Vec<u8>> {}

impl PinnablePointer for Rc<Vec<u8>> {}

impl PinnablePointer for Arc<Vec<u8>> {}

/// A pointer whose target must never move again.
///
/// The wrapper gives no way to take the pointer back out, only to look at it or
/// to project it.
pub struct Pinned<P: PinnablePointer> {
    pointer: P,
}

impl<P: PinnablePointer> Pinned<P> {
    /// The wrapped pointer.
    pub closed spec fn inner(&self) -> P {
        self.pointer
    }

    /// Pins the target of `pointer`.
    pub fn new(pointer: P) -> (r: Self)
        ensures
            r.inner() == pointer,
    {
        Pinned { pointer }
    }

    /// Looks at the wrapped pointer.
    pub fn as_inner(&self) -> (r: &P)
        ensures
            *r == self.inner(),
    {
        &self.pointer
    }
}

/// A field that stays pinned when projected from a pinned parent.
///
/// Only fields whose parent upholds structural pinning for them may carry this
/// tag: the parent's destructor never moves the field, the parent is only
/// movable when the field is, and the parent is not packed.
pub struct PinToPin<F: Field> {
    field: F,
}

/// A field that is reached as a plain, movable value through a pinned parent.
pub struct PinToPtr<F: Field>(pub F);

impl<F: Field> PinToPin<F> {
    /// The tagged field.
    pub closed spec fn spec_field(&self) -> F {
        self.field
    }

    /// Tags `field`; the caller vouches for structural pinning of it.
    pub fn new_unchecked(field: F) -> (r: Self)
        ensures
            r.spec_field() == field,
    {
        PinToPin { field }
    }

    /// The tagged field.
    pub fn field(self) -> (r: F)
        ensures
            r == self.spec_field(),
    {
        self.field
    }

    /// The same tag over a borrow of the field.
    pub fn as_ref(&self) -> (r: PinToPin<&F>)
        ensures
            *r.spec_field() == self.spec_field(),
    {
        PinToPin { field: &self.field }
    }

    /// The same tag over a runtime-offset copy of the field.
    pub fn pin_dynamic(&self) -> (r: PinToPin<Dynamic<F::Parent, F::Type>>)
        ensures
            r.spec_field().spec_offset() == self.spec_field().spec_offset(),
    {
        PinToPin { field: dynamic(&self.field) }
    }
}

impl<F: Field> PinToPtr<F> {
    /// Tags `field`.
    pub fn new(field: F) -> (r: Self)
        ensures
            r.0 == field,
    {
        PinToPtr(field)
    }

    /// The same tag over a borrow of the field.
    pub fn as_ref(&self) -> (r: PinToPtr<&F>)
        ensures
            *r.0 == self.0,
    {
        PinToPtr(&self.0)
    }
}

impl<F: Field> Field for PinToPin<F> {
    type Parent = F::Parent;

    type Type = F::Type;

    closed spec fn spec_offset(&self) -> nat {
        self.field.spec_offset()
    }

    fn field_offset(&self) -> (r: usize) {
        self.field.field_offset()
    }
}

impl<F: Field> Field for PinToPtr<F> {
    type Parent = F::Parent;

    type Type = F::Type;

    open spec fn spec_offset(&self) -> nat {
        self.0.spec_offset()
    }

    fn field_offset(&self) -> (r: usize) {
        self.0.field_offset()
    }
}

/// A pin-to-pin field of a pinned parent is itself pinned.
impl<F: Field, P: PinnablePointer + ProjectTo<F>> ProjectTo<PinToPin<F>> for Pinned<P> where
    P::Projection: PinnablePointer,
 {
    type Projection = Pinned<P::Projection>;

    open spec fn projectable(&self, field: &PinToPin<F>) -> bool {
        self.inner().projectable(&field.spec_field())
    }

    open spec fn projects(&self, field: &PinToPin<F>, r: &Pinned<P::Projection>) -> bool {
        self.inner().projects(&field.spec_field(), &r.inner())
    }

    fn project_to(self, field: PinToPin<F>) -> (r: Pinned<P::Projection>) {
        Pinned { pointer: self.pointer.project_to(field.field) }
    }
}

/// A pin-to-pointer field of a pinned parent comes out unpinned.
impl<F: Field, P: PinnablePointer + ProjectTo<F>> ProjectTo<PinToPtr<F>> for Pinned<P> {
    type Projection = P::Projection;

    open spec fn projectable(&self, field: &PinToPtr<F>) -> bool {
        self.inner().projectable(&field.0)
    }

    open spec fn projects(&self, field: &PinToPtr<F>, r: &P::Projection) -> bool {
        self.inner().projects(&field.0, r)
    }

    fn project_to(self, field: PinToPtr<F>) -> (r: P::Projection) {
        self.pointer.project_to(field.0)
    }
}

} // verus!
