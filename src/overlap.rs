use vstd::prelude::*;

use core::ops::Range;

verus! {

/// `r` holds no byte.
pub open spec fn range_empty(r: Range<usize>) -> bool {
    r.start >= r.end
}

/// Some byte lies in both ranges. Empty ranges stand for zero-sized values,
/// which may share any address, so they overlap nothing.
pub open spec fn ranges_overlap(a: Range<usize>, b: Range<usize>) -> bool {
    &&& !range_empty(a)
    &&& !range_empty(b)
    &&& a.start < b.end
    &&& b.start < a.end
}

/// Tells whether two byte ranges overlap.
pub fn is_overlapping(a: Range<usize>, b: Range<usize>) -> (r: bool)
    ensures
        r == ranges_overlap(a, b),
{
    let a_empty = a.start >= a.end;
    let b_empty = b.start >= b.end;
    !b_empty && !a_empty && ((a.start <= b.start && b.start < a.end) || (b.start <= a.start
        && a.start < b.end))
}

/// Some two distinct entries of `ranges` overlap.
pub open spec fn any_overlap(ranges: Seq<Range<usize>>) -> bool {
    exists|i: int, j: int|
        0 <= i < j < ranges.len() && #[trigger] ranges_overlap(ranges[i], ranges[j])
}

/// A search for an overlapping pair among a set of field ranges.
pub struct FindOverlap {
    ranges: Vec<Range<usize>>,
}

impl FindOverlap {
    pub closed spec fn spec_ranges(&self) -> Seq<Range<usize>> {
        self.ranges@
    }

    pub fn new(ranges: Vec<Range<usize>>) -> (r: Self)
        ensures
            r.spec_ranges() == ranges@,
    {
        FindOverlap { ranges }
    }

    /// Compares every unordered pair once.
    pub fn found(&self) -> (r: bool)
        ensures
            r == any_overlap(self.spec_ranges()),
    {
        let n = self.ranges.len();
        let mut j: usize = 0;
        while j < n
            invariant
                n == self.ranges@.len(),
                j <= n,
                forall|a: int, b: int|
                    0 <= a < b < j ==> !#[trigger] ranges_overlap(self.ranges@[a], self.ranges@[b]),
            decreases n - j,
        {
            let mut i: usize = 0;
            while i < j
                invariant
                    n == self.ranges@.len(),
                    i <= j < n,
                    forall|a: int, b: int|
                        0 <= a < b < j ==> !#[trigger] ranges_overlap(
                            self.ranges@[a],
                            self.ranges@[b],
                        ),
                    forall|a: int|
                        0 <= a < i ==> !#[trigger] ranges_overlap(
                            self.ranges@[a],
                            self.ranges@[j as int],
                        ),
                decreases j - i,
            {
                let a = &self.ranges[i];
                let b = &self.ranges[j];
                if is_overlapping(Range { start: a.start, end: a.end }, Range { start: b.start, end: b.end }) {
                    return true;
                }
                i = i + 1;
            }
            j = j + 1;
        }
        false
    }
}

} // verus!
