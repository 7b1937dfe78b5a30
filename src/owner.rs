use vstd::prelude::*;
use vstd::slice::slice_subrange;

use std::rc::Rc;
use std::sync::Arc;

use crate::field::{Field, Invariant};
use crate::pin::PinnablePointer;
use core::ops::Range;

use crate::set::{ranges_fit, slices_of, FieldSet, ProjectAll};
use crate::project::{field_end, field_bytes, field_fits, field_limit, written_back, ProjectTo};

verus! {

/// A field of a parent image whose allocation is owned by a `Box`.
///
/// It owns the whole allocation and exposes only the field's bytes; giving it up
/// (`into_box`) returns the whole allocation.
pub struct BoxProjection<P, T> {
    bx: Box<Vec<u8>>,
    start: usize,
    end: usize,
    mark: Invariant<(P, T)>,
}

impl<P, T> BoxProjection<P, T> {
    /// The field lies inside the allocation.
    pub closed spec fn wf(&self) -> bool {
        self.start <= self.end <= self.bx@.len()
    }

    /// The whole parent image.
    pub closed spec fn spec_parent(&self) -> Seq<u8> {
        self.bx@
    }

    /// Where the field starts in the parent.
    pub closed spec fn spec_start(&self) -> int {
        self.start as int
    }

    /// Where the field ends in the parent.
    pub closed spec fn spec_end(&self) -> int {
        self.end as int
    }

    /// The field's bytes.
    pub open spec fn view(&self) -> Seq<u8> {
        self.spec_parent().subrange(self.spec_start(), self.spec_end())
    }

    pub fn get(&self) -> (r: &[u8])
        requires
            self.wf(),
        ensures
            r@ == self.view(),
    {
        slice_subrange(self.bx.as_slice(), self.start, self.end)
    }

    /// Overwrites the byte at `index` of the field.
    pub fn set(&mut self, index: usize, value: u8)
        requires
            old(self).wf(),
            index < old(self).view().len(),
        ensures
            final(self).wf(),
            final(self).spec_start() == old(self).spec_start(),
            final(self).spec_end() == old(self).spec_end(),
            final(self).spec_parent() == old(self).spec_parent().update(
                old(self).spec_start() + index,
                value,
            ),
    {
        let i = self.start + index;
        self.bx.set(i, value);
    }

    /// Gives back the whole allocation.
    pub fn into_box(self) -> (r: Box<Vec<u8>>)
        ensures
            r@ == self.spec_parent(),
    {
        self.bx
    }
}

/// A `Box` is consumed: the projection keeps the allocation and shows the field.
impl<F: Field> ProjectTo<F> for Box<Vec<u8>> {
    type Projection = BoxProjection<F::Parent, F::Type>;

    open spec fn projectable(&self, field: &F) -> bool {
        field_fits(field, self@.len())
    }

    open spec fn projects(&self, field: &F, r: &BoxProjection<F::Parent, F::Type>) -> bool {
        &&& r.wf()
        &&& r.spec_parent() == self@
        &&& r.spec_start() == field.spec_offset()
        &&& r.spec_end() == field_limit(field)
    }

    fn project_to(self, field: F) -> (r: BoxProjection<F::Parent, F::Type>) {
        let (start, end) = field_end(&field, self.len());
        BoxProjection { bx: self, start, end, mark: Invariant::init() }
    }
}

/// A field of a parent image shared through an `Rc`.
///
/// It keeps its own handle on the allocation, so it stays valid however many
/// other handles or projections are dropped.
pub struct ProjectedRc<P, T> {
    own: Rc<Vec<u8>>,
    start: usize,
    end: usize,
    mark: Invariant<(P, T)>,
}

impl<P, T> ProjectedRc<P, T> {
    /// The field lies inside the allocation.
    pub closed spec fn wf(&self) -> bool {
        self.start <= self.end <= self.own@.len()
    }

    /// The whole parent image.
    pub closed spec fn spec_parent(&self) -> Seq<u8> {
        self.own@
    }

    /// Where the field starts in the parent.
    pub closed spec fn spec_start(&self) -> int {
        self.start as int
    }

    /// Where the field ends in the parent.
    pub closed spec fn spec_end(&self) -> int {
        self.end as int
    }

    /// The field's bytes.
    pub open spec fn view(&self) -> Seq<u8> {
        self.spec_parent().subrange(self.spec_start(), self.spec_end())
    }

    pub fn get(&self) -> (r: &[u8])
        requires
            self.wf(),
        ensures
            r@ == self.view(),
    {
        slice_subrange(self.own.as_slice(), self.start, self.end)
    }

    /// Where the field starts in the parent.
    pub fn start(&self) -> (r: usize)
        ensures
            r == self.spec_start(),
    {
        self.start
    }
}

/// The handle moves into the projection, which pairs it with the field's place.
impl<F: Field> ProjectTo<F> for Rc<Vec<u8>> {
    type Projection = ProjectedRc<F::Parent, F::Type>;

    open spec fn projectable(&self, field: &F) -> bool {
        field_fits(field, self@.len())
    }

    open spec fn projects(&self, field: &F, r: &ProjectedRc<F::Parent, F::Type>) -> bool {
        &&& r.wf()
        &&& r.spec_parent() == self@
        &&& r.spec_start() == field.spec_offset()
        &&& r.spec_end() == field_limit(field)
    }

    fn project_to(self, field: F) -> (r: ProjectedRc<F::Parent, F::Type>) {
        let (start, end) = field_end(&field, self.len());
        ProjectedRc { own: self, start, end, mark: Invariant::init() }
    }
}

/// Several fields of a parent image shared through an `Rc`, with one handle
/// kept for all of them.
pub struct ProjectedRcSet<P> {
    own: Rc<Vec<u8>>,
    ranges: Vec<Range<usize>>,
    mark: Invariant<P>,
}

impl<P> ProjectedRcSet<P> {
    /// Every field lies inside the allocation.
    pub closed spec fn wf(&self) -> bool {
        ranges_fit(self.ranges@, self.own@.len())
    }

    /// The whole parent image.
    pub closed spec fn spec_parent(&self) -> Seq<u8> {
        self.own@
    }

    /// The byte range of each field.
    pub closed spec fn spec_ranges(&self) -> Seq<Range<usize>> {
        self.ranges@
    }

    /// Shared borrows of every field, in order.
    pub fn get(&self) -> (r: Vec<&[u8]>)
        requires
            self.wf(),
        ensures
            r@.len() == self.spec_ranges().len(),
            forall|i: int|
                0 <= i < r@.len() ==> (#[trigger] r@[i])@ == self.spec_parent().subrange(
                    self.spec_ranges()[i].start as int,
                    self.spec_ranges()[i].end as int,
                ),
    {
        slices_of(self.own.as_slice(), &self.ranges)
    }
}

impl<F: FieldSet> ProjectAll<F::Parent, F> for Rc<Vec<u8>> {
    type Projection = ProjectedRcSet<F::Parent>;

    open spec fn projectable_all(&self, fields: &F) -> bool {
        ranges_fit(fields.spec_ranges(), self@.len())
    }

    open spec fn projects_all(&self, fields: &F, r: &ProjectedRcSet<F::Parent>) -> bool {
        &&& r.wf()
        &&& r.spec_parent() == self@
        &&& r.spec_ranges() == fields.spec_ranges()
    }

    fn project_all(self, fields: F) -> (r: ProjectedRcSet<F::Parent>) {
        ProjectedRcSet { own: self, ranges: fields.ranges(), mark: Invariant::init() }
    }
}

/// A field of a parent image shared through an `Arc`.
///
/// It keeps its own handle on the allocation, so it stays valid however many
/// other handles or projections are dropped.
pub struct ProjectedArc<P, T> {
    own: Arc<Vec<u8>>,
    start: usize,
    end: usize,
    mark: Invariant<(P, T)>,
}

impl<P, T> ProjectedArc<P, T> {
    /// The field lies inside the allocation.
    pub closed spec fn wf(&self) -> bool {
        self.start <= self.end <= self.own@.len()
    }

    /// The whole parent image.
    pub closed spec fn spec_parent(&self) -> Seq<u8> {
        self.own@
    }

    /// Where the field starts in the parent.
    pub closed spec fn spec_start(&self) -> int {
        self.start as int
    }

    /// Where the field ends in the parent.
    pub closed spec fn spec_end(&self) -> int {
        self.end as int
    }

    /// The field's bytes.
    pub open spec fn view(&self) -> Seq<u8> {
        self.spec_parent().subrange(self.spec_start(), self.spec_end())
    }

    pub fn get(&self) -> (r: &[u8])
        requires
            self.wf(),
        ensures
            r@ == self.view(),
    {
        slice_subrange(self.own.as_slice(), self.start, self.end)
    }

    /// Where the field starts in the parent.
    pub fn start(&self) -> (r: usize)
        ensures
            r == self.spec_start(),
    {
        self.start
    }
}

/// The handle moves into the projection, which pairs it with the field's place.
impl<F: Field> ProjectTo<F> for Arc<Vec<u8>> {
    type Projection = ProjectedArc<F::Parent, F::Type>;

    open spec fn projectable(&self, field: &F) -> bool {
        field_fits(field, self@.len())
    }

    open spec fn projects(&self, field: &F, r: &ProjectedArc<F::Parent, F::Type>) -> bool {
        &&& r.wf()
        &&& r.spec_parent() == self@
        &&& r.spec_start() == field.spec_offset()
        &&& r.spec_end() == field_limit(field)
    }

    fn project_to(self, field: F) -> (r: ProjectedArc<F::Parent, F::Type>) {
        let (start, end) = field_end(&field, self.len());
        ProjectedArc { own: self, start, end, mark: Invariant::init() }
    }
}

/// Several fields of a parent image shared through an `Arc`, with one handle
/// kept for all of them.
pub struct ProjectedArcSet<P> {
    own: Arc<Vec<u8>>,
    ranges: Vec<Range<usize>>,
    mark: Invariant<P>,
}

impl<P> ProjectedArcSet<P> {
    /// Every field lies inside the allocation.
    pub closed spec fn wf(&self) -> bool {
        ranges_fit(self.ranges@, self.own@.len())
    }

    /// The whole parent image.
    pub closed spec fn spec_parent(&self) -> Seq<u8> {
        self.own@
    }

    /// The byte range of each field.
    pub closed spec fn spec_ranges(&self) -> Seq<Range<usize>> {
        self.ranges@
    }

    /// Shared borrows of every field, in order.
    pub fn get(&self) -> (r: Vec<&[u8]>)
        requires
            self.wf(),
        ensures
            r@.len() == self.spec_ranges().len(),
            forall|i: int|
                0 <= i < r@.len() ==> (#[trigger] r@[i])@ == self.spec_parent().subrange(
                    self.spec_ranges()[i].start as int,
                    self.spec_ranges()[i].end as int,
                ),
    {
        slices_of(self.own.as_slice(), &self.ranges)
    }
}

impl<F: FieldSet> ProjectAll<F::Parent, F> for Arc<Vec<u8>> {
    type Projection = ProjectedArcSet<F::Parent>;

    open spec fn projectable_all(&self, fields: &F) -> bool {
        ranges_fit(fields.spec_ranges(), self@.len())
    }

    open spec fn projects_all(&self, fields: &F, r: &ProjectedArcSet<F::Parent>) -> bool {
        &&& r.wf()
        &&& r.spec_parent() == self@
        &&& r.spec_ranges() == fields.spec_ranges()
    }

    fn project_all(self, fields: F) -> (r: ProjectedArcSet<F::Parent>) {
        ProjectedArcSet { own: self, ranges: fields.ranges(), mark: Invariant::init() }
    }
}

/// Two handles on one shared allocation project a field to the same place:
/// each projection keeps its own handle and sees the same bytes.
pub proof fn rc_projections_agree<F: Field>(
    a: &Rc<Vec<u8>>,
    b: &Rc<Vec<u8>>,
    field: &F,
    pa: &ProjectedRc<F::Parent, F::Type>,
    pb: &ProjectedRc<F::Parent, F::Type>,
)
    requires
        a@ == b@,
        a.projects(field, pa),
        b.projects(field, pb),
    ensures
        pa.spec_start() == pb.spec_start(),
        pa.spec_parent() == pb.spec_parent(),
        pa.view() == pb.view(),
{
}

/// Two handles on one atomically shared allocation project a field to the same
/// place: each projection keeps its own handle and sees the same bytes.
pub proof fn arc_projections_agree<F: Field>(
    a: &Arc<Vec<u8>>,
    b: &Arc<Vec<u8>>,
    field: &F,
    pa: &ProjectedArc<F::Parent, F::Type>,
    pb: &ProjectedArc<F::Parent, F::Type>,
)
    requires
        a@ == b@,
        a.projects(field, pa),
        b.projects(field, pb),
    ensures
        pa.spec_start() == pb.spec_start(),
        pa.spec_parent() == pb.spec_parent(),
        pa.view() == pb.view(),
{
}

impl<P, T> PinnablePointer for BoxProjection<P, T> {}

impl<P, T> PinnablePointer for ProjectedRc<P, T> {}

impl<P, T> PinnablePointer for ProjectedArc<P, T> {}

} // verus!
