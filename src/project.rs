use vstd::layout::size_of;
use vstd::prelude::*;
use vstd::slice::slice_subrange;

use crate::field::Field;

verus! {

/// The field lies wholly inside an image of `len` bytes.
pub open spec fn field_fits<F: Field>(field: &F, len: nat) -> bool {
    field.spec_offset() + size_of::<F::Type>() <= len
}

/// One past the last byte of `field` in its parent.
pub open spec fn field_limit<F: Field>(field: &F) -> int {
    (field.spec_offset() + size_of::<F::Type>()) as int
}

/// The bytes of `field` inside the parent image `image`.
pub open spec fn field_bytes<F: Field>(field: &F, image: Seq<u8>) -> Seq<u8> {
    image.subrange(
        field.spec_offset() as int,
        field_limit(field),
    )
}

/// Projects a pointer-like value of a parent to the same kind of pointer to a
/// field.
pub trait ProjectTo<F: Field>: Sized {
    /// The pointer to the field.
    type Projection;

    /// `self` can be projected to `field`.
    spec fn projectable(&self, field: &F) -> bool;

    /// `r` is the projection of `self` to `field`.
    spec fn projects(&self, field: &F, r: &Self::Projection) -> bool;

    fn project_to(self, field: F) -> (r: Self::Projection)
        requires
            self.projectable(&field),
        ensures
            self.projects(&field, &r),
    ;
}

/// Computes `offset + size_of::<Type>()`, the end of the field, where it fits
/// in `len` bytes.
pub(crate) fn field_end<F: Field>(field: &F, len: usize) -> (r: (usize, usize))
    requires
        field_fits(field, len as nat),
    ensures
        r.0 as nat == field.spec_offset(),
        r.1 as nat == field.spec_offset() + size_of::<F::Type>(),
{
    let offset = field.field_offset();
    let size = core::mem::size_of::<F::Type>();
    (offset, offset + size)
}

/// A shared borrow of a parent image gives a shared borrow of the field's
/// bytes, for the same lifetime.
impl<'a, F: Field> ProjectTo<F> for &'a [u8] {
    type Projection = &'a [u8];

    open spec fn projectable(&self, field: &F) -> bool {
        field_fits(field, self@.len())
    }

    open spec fn projects(&self, field: &F, r: &&'a [u8]) -> bool {
        r@ == field_bytes(field, self@)
    }

    fn project_to(self, field: F) -> (r: &'a [u8]) {
        let (start, end) = field_end(&field, self.len());
        slice_subrange(self, start, end)
    }
}

/// `None` projects to `None`; `Some(p)` to `Some` of the projection of `p`.
impl<F: Field, T: ProjectTo<F>> ProjectTo<F> for Option<T> {
    type Projection = Option<T::Projection>;

    open spec fn projectable(&self, field: &F) -> bool {
        match self {
            Some(p) => p.projectable(field),
            None => true,
        }
    }

    open spec fn projects(&self, field: &F, r: &Option<T::Projection>) -> bool {
        match (self, r) {
            (Some(p), Some(q)) => p.projects(field, q),
            (None, None) => true,
            _ => false,
        }
    }

    fn project_to(self, field: F) -> (r: Option<T::Projection>) {
        match self {
            Some(p) => Some(p.project_to(field)),
            None => None,
        }
    }
}

/// The image after the field's bytes at `[start, end)` were handed out as a
/// mutable borrow whose final contents are `part`.
pub open spec fn written_back(image: Seq<u8>, start: int, end: int, part: Seq<u8>) -> Seq<u8> {
    image.subrange(0, start) + part + image.subrange(end, image.len() as int)
}

/// Carves `[start, end)` out of a mutable image.
fn carve<'a>(s: &'a mut [u8], start: usize, end: usize) -> (r: &'a mut [u8])
    requires
        start <= end <= old(s)@.len(),
    ensures
        r@ == old(s)@.subrange(start as int, end as int),
        final(s)@ == written_back(old(s)@, start as int, end as int, final(r)@),
{
    let (_pre, rest) = s.split_at_mut(start);
    let (mid, _post) = rest.split_at_mut(end - start);
    mid
}

/// A mutable borrow of a parent image gives a mutable borrow of the field's
/// bytes; what is written through it lands in the parent at the field's place.
pub fn project_mut<'a, F: Field>(parent: &'a mut [u8], field: F) -> (r: &'a mut [u8])
    requires
        field_fits(&field, old(parent)@.len()),
    ensures
        r@ == field_bytes(&field, old(parent)@),
        final(parent)@ == written_back(
            old(parent)@,
            field.spec_offset() as int,
            field_limit(&field),
            final(r)@,
        ),
{
    let (start, end) = field_end(&field, parent.len());
    carve(parent, start, end)
}

/// Writing through a mutable projection changes exactly the field: once the
/// borrow ends, the field's bytes in the parent are what was written and every
/// other byte is as before.
pub proof fn write_back_field<F: Field>(field: &F, image: Seq<u8>, part: Seq<u8>)
    requires
        field_fits(field, image.len()),
        part.len() == size_of::<F::Type>(),
    ensures
        ({
            let out = written_back(image, field.spec_offset() as int, field_limit(field), part);
            &&& out.len() == image.len()
            &&& field_bytes(field, out) == part
            &&& forall|k: int|
                0 <= k < image.len() && !(field.spec_offset() <= k < field_limit(field))
                    ==> #[trigger] out[k] == image[k]
        }),
{
    let out = written_back(image, field.spec_offset() as int, field_limit(field), part);
    assert(field_bytes(field, out) =~= part);
}

} // verus!
