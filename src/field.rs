use vstd::layout::size_of;
use vstd::prelude::*;

use core::marker::PhantomData;
use core::ops::Range;

use crate::chain::Chain;

verus! {

/// A marker that fixes a type parameter without owning a value of it.
pub struct Invariant<T> {
    mark: PhantomData<T>,
}

impl<T> Invariant<T> {
    /// The only value of the marker.
    pub fn init() -> (r: Self) {
        Invariant { mark: PhantomData }
    }
}

/// An address that carries provenance over a value of type `T`.
///
/// Inverse projection only accepts this token, never a borrowed reference, so
/// that a reference to a field cannot be turned back into its parent.
pub struct Ptr<T> {
    addr: usize,
    mark: PhantomData<T>,
}

impl<T> Ptr<T> {
    /// The address this token stands for.
    pub closed spec fn spec_addr(&self) -> nat {
        self.addr as nat
    }

    /// A token for the address `addr`.
    pub fn from_addr(addr: usize) -> (r: Self)
        ensures
            r.spec_addr() == addr,
    {
        Ptr { addr, mark: PhantomData }
    }

    /// The address as an integer.
    pub fn addr(&self) -> (r: usize)
        ensures
            r == self.spec_addr(),
    {
        self.addr
    }
}

/// `a + b` on addresses, wrapping past `usize::MAX` (both below the modulus).
pub open spec fn wrap_add(a: int, b: int) -> int {
    if a + b > usize::MAX {
        a + b - (usize::MAX + 1)
    } else {
        a + b
    }
}

/// `a - b` on addresses, wrapping below zero (both below the modulus).
pub open spec fn wrap_sub(a: int, b: int) -> int {
    if a - b < 0 {
        a - b + (usize::MAX + 1)
    } else {
        a - b
    }
}

/// The address of the field of a parent that starts at `addr`, as
/// `Field::project_raw` computes it.
pub open spec fn projected<F: Field>(field: &F, addr: nat) -> int {
    (addr + field.spec_offset()) as int
}

/// The address of the parent whose field starts at `addr`, as
/// `Field::inverse_project_raw` computes it.
pub open spec fn inverse_projected<F: Field>(field: &F, addr: nat) -> int {
    addr - field.spec_offset()
}

/// A way to go from a `Parent` to the `Type` stored at a fixed byte offset in it.
///
/// An implementation promises that the offset is the true distance from the
/// start of every `Parent` to one sub-object of type `Type` inside it.
pub trait Field: Sized {
    /// The type the field is taken from.
    type Parent;

    /// The type of the field itself.
    type Type;

    /// The byte distance from the start of `Parent` to the field.
    spec fn spec_offset(&self) -> nat;

    /// The byte offset of the field inside its parent.
    fn field_offset(&self) -> (r: usize)
        ensures
            r as nat == self.spec_offset(),
    ;

    /// Bytes `[offset, offset + size_of::<Type>())`, wrapping at the end of the
    /// address space.
    fn range(&self) -> (r: Range<usize>)
        ensures
            r.start as nat == self.spec_offset(),
            r.end as int == wrap_add(self.spec_offset() as int, size_of::<Self::Type>() as int),
    {
        let offset = self.field_offset();
        let size = core::mem::size_of::<Self::Type>();
        Range { start: offset, end: offset.wrapping_add(size) }
    }

    /// Projects the address of a parent to the address of the field.
    fn project_raw(&self, ptr: Ptr<Self::Parent>) -> (r: Ptr<Self::Type>)
        requires
            ptr.spec_addr() + self.spec_offset() <= usize::MAX,
        ensures
            r.spec_addr() == ptr.spec_addr() + self.spec_offset(),
    {
        let offset = self.field_offset();
        Ptr::from_addr(ptr.addr() + offset)
    }

    /// Recovers the address of the parent from the address of the field.
    ///
    /// The token must have been obtained from an address of the parent, so that
    /// it carries provenance over the whole parent.
    fn inverse_project_raw(&self, ptr: Ptr<Self::Type>) -> (r: Ptr<Self::Parent>)
        requires
            ptr.spec_addr() >= self.spec_offset(),
        ensures
            r.spec_addr() == ptr.spec_addr() - self.spec_offset(),
    {
        let offset = self.field_offset();
        Ptr::from_addr(ptr.addr() - offset)
    }

    /// Address arithmetic only: adds the offset, wrapping at the end of the
    /// address space. The result is not known to be dereferenceable.
    fn wrapping_project_raw(&self, ptr: Ptr<Self::Parent>) -> (r: Ptr<Self::Type>)
        ensures
            r.spec_addr() == wrap_add(ptr.spec_addr() as int, self.spec_offset() as int),
    {
        let offset = self.field_offset();
        Ptr::from_addr(ptr.addr().wrapping_add(offset))
    }

    /// Address arithmetic only: subtracts the offset, wrapping below zero.
    fn wrapping_inverse_project_raw(&self, ptr: Ptr<Self::Type>) -> (r: Ptr<Self::Parent>)
        ensures
            r.spec_addr() == wrap_sub(ptr.spec_addr() as int, self.spec_offset() as int),
    {
        let offset = self.field_offset();
        Ptr::from_addr(ptr.addr().wrapping_sub(offset))
    }
}

/// The field that is its own parent: offset zero.
pub struct Identity<T> {
    mark: PhantomData<T>,
}

impl<T> Identity<T> {
    pub fn new() -> (r: Self)
        ensures
            r.spec_offset() == 0,
    {
        Identity { mark: PhantomData }
    }
}

impl<T> Identity<T> {
    /// Follows this field, then `f` inside it: the same place as `f`.
    pub fn chain<F: Field<Parent = T>>(self, f: F) -> (r: Chain<Self, F>)
        ensures
            r.first() == self,
            r.second() == f,
            r.spec_offset() == f.spec_offset(),
    {
        // Any field's offset is an address-sized value.
        let _ = f.field_offset();
        Chain::new(self, f)
    }
}

impl<T> Field for Identity<T> {
    type Parent = T;

    type Type = T;

    open spec fn spec_offset(&self) -> nat {
        0
    }

    fn field_offset(&self) -> (r: usize) {
        0
    }
}

impl<'a, F: Field> Field for &'a F {
    type Parent = F::Parent;

    type Type = F::Type;

    open spec fn spec_offset(&self) -> nat {
        (**self).spec_offset()
    }

    fn field_offset(&self) -> (r: usize) {
        (**self).field_offset()
    }
}

/// Inverse projection undoes projection: going from a parent address to a
/// field and back gives the parent address again.
pub proof fn project_then_inverse<F: Field>(field: &F, addr: nat)
    requires
        addr + field.spec_offset() <= usize::MAX,
    ensures
        projected(field, addr) <= usize::MAX,
        inverse_projected(field, projected(field, addr) as nat) == addr,
{
}

/// Wrapping arithmetic also round-trips: adding an offset with wraparound and
/// subtracting it again gives back any address.
pub proof fn wrapping_project_then_inverse<F: Field>(field: &F, addr: usize)
    requires
        field.spec_offset() <= usize::MAX,
    ensures
        0 <= wrap_add(addr as int, field.spec_offset() as int) <= usize::MAX,
        wrap_sub(wrap_add(addr as int, field.spec_offset() as int), field.spec_offset() as int)
            == addr,
{
}

} // verus!
