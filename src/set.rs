use vstd::layout::size_of;
use vstd::prelude::*;
use vstd::slice::slice_subrange;

use core::ops::Range;

use crate::field::{wrap_add, Field};
use crate::overlap::{any_overlap, is_overlapping, ranges_overlap, range_empty, FindOverlap};
use crate::project::{field_bytes, field_fits, field_limit, written_back};

verus! {

/// The byte range that `Field::range` reports for `field`.
pub open spec fn spec_range<F: Field>(field: &F) -> Range<usize> {
    Range {
        start: field.spec_offset() as usize,
        end: wrap_add(field.spec_offset() as int, size_of::<F::Type>() as int) as usize,
    }
}

/// Several fields of one parent, projected together.
pub trait FieldSet: Sized {
    /// The type all the fields are taken from.
    type Parent;

    /// The byte range of each field, in order.
    spec fn spec_ranges(&self) -> Seq<Range<usize>>;

    fn ranges(&self) -> (r: Vec<Range<usize>>)
        ensures
            r@ == self.spec_ranges(),
    ;
}

impl<A: Field, B: Field<Parent = A::Parent>> FieldSet for (A, B) {
    type Parent = A::Parent;

    open spec fn spec_ranges(&self) -> Seq<Range<usize>> {
        seq![spec_range(&self.0), spec_range(&self.1)]
    }

    fn ranges(&self) -> (r: Vec<Range<usize>>) {
        let mut v: Vec<Range<usize>> = Vec::new();
        v.push(self.0.range());
        v.push(self.1.range());
        proof {
            assert(v@ =~= self.spec_ranges());
        }
        v
    }
}

impl<A: Field, B: Field<Parent = A::Parent>, C: Field<Parent = A::Parent>> FieldSet for (A, B, C) {
    type Parent = A::Parent;

    open spec fn spec_ranges(&self) -> Seq<Range<usize>> {
        seq![spec_range(&self.0), spec_range(&self.1), spec_range(&self.2)]
    }

    fn ranges(&self) -> (r: Vec<Range<usize>>) {
        let mut v: Vec<Range<usize>> = Vec::new();
        v.push(self.0.range());
        v.push(self.1.range());
        v.push(self.2.range());
        proof {
            assert(v@ =~= self.spec_ranges());
        }
        v
    }
}

/// Tells whether any two fields of the set share a byte.
pub fn has_overlap<S: FieldSet>(set: &S) -> (r: bool)
    ensures
        r == any_overlap(set.spec_ranges()),
{
    FindOverlap::new(set.ranges()).found()
}

/// The bytes `[start, end)` of the parent where the first field of a pair is
/// handed out. A zero-sized field that sits strictly inside the other field is
/// handed out as an empty borrow at the other field's start, where it aliases
/// nothing.
pub open spec fn placed(r: Range<usize>, other: Range<usize>) -> (int, int) {
    if range_empty(r) && other.start < r.start < other.end {
        (other.start as int, other.start as int)
    } else {
        (r.start as int, r.end as int)
    }
}

/// The image after two disjoint places `p` and `q` were handed out as mutable
/// borrows whose final contents are `v` and `w`.
pub open spec fn written_back_pair(
    image: Seq<u8>,
    p: (int, int),
    v: Seq<u8>,
    q: (int, int),
    w: Seq<u8>,
) -> Seq<u8> {
    if p.1 <= q.0 {
        image.subrange(0, p.0) + v + image.subrange(p.1, q.0) + w + image.subrange(
            q.1,
            image.len() as int,
        )
    } else {
        image.subrange(0, q.0) + w + image.subrange(q.1, p.0) + v + image.subrange(
            p.1,
            image.len() as int,
        )
    }
}

/// Carves two places, the first before the second, out of a mutable image.
fn carve_two<'a>(s: &'a mut [u8], p0: usize, p1: usize, q0: usize, q1: usize) -> (r: (
    &'a mut [u8],
    &'a mut [u8],
))
    requires
        p0 <= p1 <= q0 <= q1 <= old(s)@.len(),
    ensures
        r.0@ == old(s)@.subrange(p0 as int, p1 as int),
        r.1@ == old(s)@.subrange(q0 as int, q1 as int),
        final(s)@ == written_back_pair(
            old(s)@,
            (p0 as int, p1 as int),
            final(r.0)@,
            (q0 as int, q1 as int),
            final(r.1)@,
        ),
{
    let ghost img = s@;
    let (left, right) = s.split_at_mut(p1);
    let ghost l = left@;
    let ghost rt = right@;
    let (_pre, x) = left.split_at_mut(p0);
    let (_gap, rest) = right.split_at_mut(q0 - p1);
    let (y, _post) = rest.split_at_mut(q1 - q0);
    proof {
        assert(l =~= img.subrange(0, p1 as int));
        assert(rt =~= img.subrange(p1 as int, img.len() as int));
        assert(x@ =~= img.subrange(p0 as int, p1 as int));
        assert(y@ =~= img.subrange(q0 as int, q1 as int));
    }
    (x, y)
}

/// Projects two fields of one mutable parent image at once.
///
/// The two borrows are disjoint, so the fields must not overlap; what is written
/// through each lands in the parent at that field's place and nowhere else.
pub fn project_pair_mut<'a, A: Field, B: Field<Parent = A::Parent>>(
    parent: &'a mut [u8],
    fields: (A, B),
) -> (r: (&'a mut [u8], &'a mut [u8]))
    requires
        field_fits(&fields.0, old(parent)@.len()),
        field_fits(&fields.1, old(parent)@.len()),
        !ranges_overlap(spec_range(&fields.0), spec_range(&fields.1)),
    ensures
        r.0@ == field_bytes(&fields.0, old(parent)@),
        r.1@ == field_bytes(&fields.1, old(parent)@),
        final(parent)@ == written_back_pair(
            old(parent)@,
            placed(spec_range(&fields.0), spec_range(&fields.1)),
            final(r.0)@,
            placed(spec_range(&fields.1), spec_range(&fields.0)),
            final(r.1)@,
        ),
{
    let a = fields.0.range();
    let b = fields.1.range();
    let ghost img = parent@;
    // An image in memory is at most `usize::MAX` bytes long.
    let len = parent.len();
    proof {
        assert(len == img.len());
        assert(a.end as int == field_limit(&fields.0));
        assert(b.end as int == field_limit(&fields.1));
    }
    if a.end <= b.start {
        carve_two(parent, a.start, a.end, b.start, b.end)
    } else if b.end <= a.start {
        let (y, x) = carve_two(parent, b.start, b.end, a.start, a.end);
        (x, y)
    } else if a.start == a.end {
        let (x, y) = carve_two(parent, b.start, b.start, b.start, b.end);
        proof {
            assert(x@ =~= field_bytes(&fields.0, img));
        }
        (x, y)
    } else {
        let (y, x) = carve_two(parent, a.start, a.start, a.start, a.end);
        proof {
            assert(y@ =~= field_bytes(&fields.1, img));
        }
        (x, y)
    }
}

/// Projects two fields of one mutable parent image at once, or gives `None`
/// where they overlap and the borrows would alias.
pub fn try_project_pair_mut<'a, A: Field, B: Field<Parent = A::Parent>>(
    parent: &'a mut [u8],
    fields: (A, B),
) -> (r: Option<(&'a mut [u8], &'a mut [u8])>)
    requires
        field_fits(&fields.0, old(parent)@.len()),
        field_fits(&fields.1, old(parent)@.len()),
    ensures
        r is None <==> ranges_overlap(spec_range(&fields.0), spec_range(&fields.1)),
        r is None ==> final(parent)@ == old(parent)@,
        r matches Some(p) ==> {
            &&& p.0@ == field_bytes(&fields.0, old(parent)@)
            &&& p.1@ == field_bytes(&fields.1, old(parent)@)
            &&& final(parent)@ == written_back_pair(
                old(parent)@,
                placed(spec_range(&fields.0), spec_range(&fields.1)),
                final(p.0)@,
                placed(spec_range(&fields.1), spec_range(&fields.0)),
                final(p.1)@,
            )
        },
{
    if is_overlapping(fields.0.range(), fields.1.range()) {
        None
    } else {
        Some(project_pair_mut(parent, fields))
    }
}

/// Every range is ordered and lies inside an image of `len` bytes.
pub open spec fn ranges_fit(ranges: Seq<Range<usize>>, len: nat) -> bool {
    forall|i: int|
        #![trigger ranges[i]]
        0 <= i < ranges.len() ==> ranges[i].start <= ranges[i].end <= len
}

/// Projects a pointer-like value of a parent to one pointer per field of a set.
pub trait ProjectAll<Parent, F: FieldSet<Parent = Parent>>: Sized {
    /// The pointers to the fields.
    type Projection;

    /// `self` can be projected to every field of `fields`.
    spec fn projectable_all(&self, fields: &F) -> bool;

    /// `r` holds the projection of `self` to each field of `fields`.
    spec fn projects_all(&self, fields: &F, r: &Self::Projection) -> bool;

    fn project_all(self, fields: F) -> (r: Self::Projection)
        requires
            self.projectable_all(&fields),
        ensures
            self.projects_all(&fields, &r),
    ;
}

/// Shared borrows of the bytes of each range, in order.
pub(crate) fn slices_of<'a>(image: &'a [u8], ranges: &Vec<Range<usize>>) -> (r: Vec<&'a [u8]>)
    requires
        ranges_fit(ranges@, image@.len()),
    ensures
        r@.len() == ranges@.len(),
        forall|i: int|
            0 <= i < ranges@.len() ==> (#[trigger] r@[i])@ == image@.subrange(
                ranges@[i].start as int,
                ranges@[i].end as int,
            ),
{
    let mut out: Vec<&'a [u8]> = Vec::new();
    let mut i: usize = 0;
    while i < ranges.len()
        invariant
            ranges_fit(ranges@, image@.len()),
            i <= ranges@.len(),
            out@.len() == i,
            forall|k: int|
                0 <= k < i ==> (#[trigger] out@[k])@ == image@.subrange(
                    ranges@[k].start as int,
                    ranges@[k].end as int,
                ),
        decreases ranges@.len() - i,
    {
        let r = &ranges[i];
        assert(ranges@[i as int].start <= ranges@[i as int].end <= image@.len());
        out.push(slice_subrange(image, r.start, r.end));
        i = i + 1;
    }
    out
}

/// Shared borrows of every field at once; shared borrows may alias, so no
/// overlap check is needed.
impl<'a, F: FieldSet> ProjectAll<F::Parent, F> for &'a [u8] {
    type Projection = Vec<&'a [u8]>;

    open spec fn projectable_all(&self, fields: &F) -> bool {
        ranges_fit(fields.spec_ranges(), self@.len())
    }

    open spec fn projects_all(&self, fields: &F, r: &Vec<&'a [u8]>) -> bool {
        &&& r@.len() == fields.spec_ranges().len()
        &&& forall|i: int|
            0 <= i < r@.len() ==> (#[trigger] r@[i])@ == self@.subrange(
                fields.spec_ranges()[i].start as int,
                fields.spec_ranges()[i].end as int,
            )
    }

    fn project_all(self, fields: F) -> (r: Vec<&'a [u8]>) {
        let ranges = fields.ranges();
        slices_of(self, &ranges)
    }
}

/// `k` is a byte of the nonempty part of `r`.
pub open spec fn in_range(r: Range<usize>, k: int) -> bool {
    r.start <= k < r.end
}

/// Writing through both borrows of a disjoint pair changes exactly the two
/// fields: once the borrows end, each field holds what was written through its
/// own borrow, and every byte outside both fields is as before.
pub proof fn write_back_pair<A: Field, B: Field<Parent = A::Parent>>(
    fields: (A, B),
    image: Seq<u8>,
    v: Seq<u8>,
    w: Seq<u8>,
)
    requires
        image.len() <= usize::MAX,
        field_fits(&fields.0, image.len()),
        field_fits(&fields.1, image.len()),
        !ranges_overlap(spec_range(&fields.0), spec_range(&fields.1)),
        v.len() == size_of::<A::Type>(),
        w.len() == size_of::<B::Type>(),
    ensures
        ({
            let a = spec_range(&fields.0);
            let b = spec_range(&fields.1);
            let out = written_back_pair(image, placed(a, b), v, placed(b, a), w);
            &&& out.len() == image.len()
            &&& field_bytes(&fields.0, out) == v
            &&& field_bytes(&fields.1, out) == w
            &&& forall|k: int|
                0 <= k < image.len() && !in_range(a, k) && !in_range(b, k) ==> #[trigger] out[k]
                    == image[k]
        }),
{
    let a = spec_range(&fields.0);
    let b = spec_range(&fields.1);
    let p = placed(a, b);
    let q = placed(b, a);
    let out = written_back_pair(image, p, v, q, w);
    assert(a.start as int == fields.0.spec_offset());
    assert(a.end as int == field_limit(&fields.0));
    assert(b.start as int == fields.1.spec_offset());
    assert(b.end as int == field_limit(&fields.1));
    if p.1 <= q.0 {
        assert(out.len() == image.len());
        assert(field_bytes(&fields.0, out) =~= v);
        assert(field_bytes(&fields.1, out) =~= w);
    } else {
        assert(out.len() == image.len());
        assert(field_bytes(&fields.0, out) =~= v);
        assert(field_bytes(&fields.1, out) =~= w);
    }
}

} // verus!
