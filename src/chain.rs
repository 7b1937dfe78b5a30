use vstd::prelude::*;

use crate::field::{projected, Field};

verus! {

/// Two fields followed one after the other: `a` from the outer parent, then `b`
/// inside `a`'s type.
pub struct Chain<A: Field, B: Field<Parent = A::Type>> {
    a: A,
    b: B,
}

impl<A: Field, B: Field<Parent = A::Type>> Chain<A, B> {
    /// The combined offset fits in an address.
    #[verifier::type_invariant]
    spec fn offset_fits(&self) -> bool {
        self.a.spec_offset() + self.b.spec_offset() <= usize::MAX
    }

    pub closed spec fn first(&self) -> A {
        self.a
    }

    pub closed spec fn second(&self) -> B {
        self.b
    }

    /// Chains `a` and `b`.
    pub fn new(a: A, b: B) -> (r: Self)
        requires
            a.spec_offset() + b.spec_offset() <= usize::MAX,
        ensures
            r.first() == a,
            r.second() == b,
            r.spec_offset() == a.spec_offset() + b.spec_offset(),
    {
        Chain { a, b }
    }
}

impl<A: Field, B: Field<Parent = A::Type>> Field for Chain<A, B> {
    type Parent = A::Parent;

    type Type = B::Type;

    /// The sum of both hops.
    closed spec fn spec_offset(&self) -> nat {
        self.a.spec_offset() + self.b.spec_offset()
    }

    fn field_offset(&self) -> (r: usize) {
        proof {
            use_type_invariant(self);
        }
        self.a.field_offset() + self.b.field_offset()
    }
}

impl<A: Field, B: Field<Parent = A::Type>> Chain<A, B> {
    /// Follows this chain, then `c` inside its target.
    pub fn chain<C: Field<Parent = B::Type>>(self, c: C) -> (r: Chain<Self, C>)
        requires
            self.spec_offset() + c.spec_offset() <= usize::MAX,
        ensures
            r.first() == self,
            r.second() == c,
            r.spec_offset() == self.spec_offset() + c.spec_offset(),
    {
        Chain::new(self, c)
    }
}

/// The offset of a chain is the sum of the offsets of its two hops.
pub proof fn chain_offset<A: Field, B: Field<Parent = A::Type>>(c: &Chain<A, B>)
    ensures
        c.spec_offset() == c.first().spec_offset() + c.second().spec_offset(),
{
}

/// Chaining is associative: `(a.b).c` and `a.(b.c)` built from the same three
/// fields lie at the same offset, so they project every parent address to the
/// same field address.
pub proof fn chain_associative<
    A: Field,
    B: Field<Parent = A::Type>,
    C: Field<Parent = B::Type>,
>(left: &Chain<Chain<A, B>, C>, right: &Chain<A, Chain<B, C>>, addr: nat)
    requires
        left.first().first() == right.first(),
        left.first().second() == right.second().first(),
        left.second() == right.second().second(),
    ensures
        left.spec_offset() == right.spec_offset(),
        projected(left, addr) == projected(right, addr),
{
}

} // verus!
