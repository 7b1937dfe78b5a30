use vstd::prelude::*;

use crate::field::{Field, Ptr};

verus! {

/// Projects an address token of a parent to the address token of a field.
///
/// Nothing is dereferenced: the result only carries the parent's provenance.
pub trait UncheckedProjectTo<F: Field>: Sized {
    /// The address of the field.
    type Projection;

    /// `self` can be projected to `field` without leaving the address space.
    spec fn projectable(&self, field: &F) -> bool;

    /// `r` is the projection of `self` to `field`.
    spec fn projects(&self, field: &F, r: &Self::Projection) -> bool;

    fn project_to(self, field: F) -> (r: Self::Projection)
        requires
            self.projectable(&field),
        ensures
            self.projects(&field, &r),
    ;
}

/// Recovers the address token of a parent from that of one of its fields.
pub trait UncheckedInverseProjectTo<F: Field>: Sized {
    /// The address of the parent.
    type Projection;

    /// `self` can be taken back to the parent of `field`.
    spec fn inverse_projectable(&self, field: &F) -> bool;

    /// `r` is the parent of `self` through `field`.
    spec fn inverse_projects(&self, field: &F, r: &Self::Projection) -> bool;

    fn inverse_project_to(self, field: F) -> (r: Self::Projection)
        requires
            self.inverse_projectable(&field),
        ensures
            self.inverse_projects(&field, &r),
    ;
}

impl<F: Field> UncheckedProjectTo<F> for Ptr<F::Parent> {
    type Projection = Ptr<F::Type>;

    open spec fn projectable(&self, field: &F) -> bool {
        self.spec_addr() + field.spec_offset() <= usize::MAX
    }

    open spec fn projects(&self, field: &F, r: &Ptr<F::Type>) -> bool {
        r.spec_addr() == self.spec_addr() + field.spec_offset()
    }

    fn project_to(self, field: F) -> (r: Ptr<F::Type>) {
        field.project_raw(self)
    }
}

impl<F: Field> UncheckedInverseProjectTo<F> for Ptr<F::Type> {
    type Projection = Ptr<F::Parent>;

    open spec fn inverse_projectable(&self, field: &F) -> bool {
        self.spec_addr() >= field.spec_offset()
    }

    open spec fn inverse_projects(&self, field: &F, r: &Ptr<F::Parent>) -> bool {
        r.spec_addr() == self.spec_addr() - field.spec_offset()
    }

    fn inverse_project_to(self, field: F) -> (r: Ptr<F::Parent>) {
        field.inverse_project_raw(self)
    }
}

/// `None` projects to `None`; `Some(p)` to `Some` of the projection of `p`.
impl<F: Field, T: UncheckedProjectTo<F>> UncheckedProjectTo<F> for Option<T> {
    type Projection = Option<T::Projection>;

    open spec fn projectable(&self, field: &F) -> bool {
        match self {
            Some(p) => p.projectable(field),
            None => true,
        }
    }

    open spec fn projects(&self, field: &F, r: &Option<T::Projection>) -> bool {
        match (self, r) {
            (Some(p), Some(q)) => p.projects(field, q),
            (None, None) => true,
            _ => false,
        }
    }

    fn project_to(self, field: F) -> (r: Option<T::Projection>) {
        match self {
            Some(p) => Some(p.project_to(field)),
            None => None,
        }
    }
}

/// `None` goes back to `None`; `Some(p)` to `Some` of the parent of `p`.
impl<F: Field, T: UncheckedInverseProjectTo<F>> UncheckedInverseProjectTo<F> for Option<T> {
    type Projection = Option<T::Projection>;

    open spec fn inverse_projectable(&self, field: &F) -> bool {
        match self {
            Some(p) => p.inverse_projectable(field),
            None => true,
        }
    }

    open spec fn inverse_projects(&self, field: &F, r: &Option<T::Projection>) -> bool {
        match (self, r) {
            (Some(p), Some(q)) => p.inverse_projects(field, q),
            (None, None) => true,
            _ => false,
        }
    }

    fn inverse_project_to(self, field: F) -> (r: Option<T::Projection>) {
        match self {
            Some(p) => Some(p.inverse_project_to(field)),
            None => None,
        }
    }
}

/// One parent address, projected to any number of its fields.
pub struct ProjectRaw<Parent> {
    parent: Ptr<Parent>,
}

impl<Parent> ProjectRaw<Parent> {
    /// The parent address.
    pub closed spec fn spec_parent(&self) -> nat {
        self.parent.spec_addr()
    }

    pub fn new(parent: Ptr<Parent>) -> (r: Self)
        ensures
            r.spec_parent() == parent.spec_addr(),
    {
        ProjectRaw { parent }
    }

    /// The address of `field` inside the parent.
    pub fn project<F: Field<Parent = Parent>>(&self, field: &F) -> (r: Ptr<F::Type>)
        requires
            self.spec_parent() + field.spec_offset() <= usize::MAX,
        ensures
            r.spec_addr() == self.spec_parent() + field.spec_offset(),
    {
        let base: Ptr<Parent> = Ptr::from_addr(self.parent.addr());
        field.project_raw(base)
    }
}

} // verus!
