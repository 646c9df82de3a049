//! Slice-range lookup: maps half-open ranges of logical slice ids onto
//! half-open byte-index ranges of the flat state buffer.
//!
//! The layout is fixed at construction from an externally validated
//! description: one element count per logical slice, slices laid out
//! back-to-back in id order. The map never recomputes a layout; it only
//! looks offsets up.

use vstd::prelude::*;
use core::ops::Range;
use crate::BufferError;

verus! {

/// Sum of the first `i` per-slice element counts: the byte offset at which
/// slice `i` begins.
pub open spec fn sum_counts(counts: Seq<usize>, i: int) -> int
    decreases i,
{
    if i <= 0 {
        0
    } else {
        sum_counts(counts, i - 1) + counts[i - 1]
    }
}

/// Prefix sums of element counts never decrease: byte offsets grow with
/// the slice id.
pub proof fn lemma_sum_counts_monotonic(counts: Seq<usize>, i: int, j: int)
    requires
        0 <= i <= j,
    ensures
        sum_counts(counts, i) <= sum_counts(counts, j),
    decreases j,
{
    if i < j {
        lemma_sum_counts_monotonic(counts, i, j - 1);
    }
}

/// Immutable lookup table from logical slice ids to byte-index ranges.
///
/// Slice ids are `u8`; the declared total range is `0 .. slc_count()`.
/// `offsets[i]` caches the byte offset of slice `i`, so a lookup is two
/// reads.
#[derive(Debug)]
pub struct SliceRangeMap {
    slc_counts: Vec<usize>,
    offsets: Vec<usize>,
}

impl SliceRangeMap {
    /// The per-slice element counts the map was built from.
    pub closed spec fn counts(&self) -> Seq<usize> {
        self.slc_counts@
    }

    /// Number of logical slices; the total slice-id range is `0 .. slc_count()`.
    pub open spec fn slc_count(&self) -> int {
        self.counts().len() as int
    }

    /// Byte offset at which slice `i` begins (for `i == slc_count()`: one
    /// past the last byte).
    pub open spec fn offset(&self, i: int) -> int {
        sum_counts(self.counts(), i)
    }

    /// A slice-id range `start .. end` lies inside the declared total range.
    pub open spec fn in_total(&self, start: int, end: int) -> bool {
        0 <= start <= end <= self.slc_count()
    }

    pub closed spec fn wf(&self) -> bool {
        &&& self.counts().len() <= 255
        &&& self.offsets@.len() == self.counts().len() + 1
        &&& forall|i: int|
            0 <= i <= self.counts().len() ==> self.offsets@[i] == sum_counts(self.counts(), i)
        &&& sum_counts(self.counts(), self.counts().len() as int) <= usize::MAX
    }

    /// Builds a map from one element count per logical slice.
    ///
    /// Fails with `OutOfRange` when there are more slices than the `u8` id
    /// space can address, and with `SizeMismatch` when the total element
    /// count does not fit the machine's index type.
    pub fn new(slc_counts: Vec<usize>) -> (r: Result<SliceRangeMap, BufferError>)
        ensures
            match r {
                Ok(m) => {
                    &&& m.wf()
                    &&& m.counts() == slc_counts@
                    &&& slc_counts@.len() <= 255
                    &&& sum_counts(slc_counts@, slc_counts@.len() as int) <= usize::MAX
                },
                Err(e) => {
                    if slc_counts@.len() > 255 {
                        e == BufferError::OutOfRange
                    } else {
                        &&& e == BufferError::SizeMismatch
                        &&& sum_counts(slc_counts@, slc_counts@.len() as int) > usize::MAX
                    }
                },
            },
    {
        if slc_counts.len() > 255 {
            return Err(BufferError::OutOfRange);
        }
        let mut offsets: Vec<usize> = Vec::new();
        offsets.push(0);
        let mut total: usize = 0;
        let mut i: usize = 0;
        while i < slc_counts.len()
            invariant
                slc_counts@.len() <= 255,
                i <= slc_counts@.len(),
                offsets@.len() == i + 1,
                forall|k: int| 0 <= k <= i ==> offsets@[k] == sum_counts(slc_counts@, k),
                total == sum_counts(slc_counts@, i as int),
            decreases slc_counts@.len() - i,
        {
            let c = slc_counts[i];
            if c > usize::MAX - total {
                proof {
                    assert(sum_counts(slc_counts@, i as int + 1) == total + c);
                    lemma_sum_counts_monotonic(slc_counts@, i as int + 1, slc_counts@.len() as int);
                }
                return Err(BufferError::SizeMismatch);
            }
            total = total + c;
            offsets.push(total);
            i = i + 1;
        }
        Ok(SliceRangeMap { slc_counts, offsets })
    }

    /// The declared total slice-id range, `0 .. slc_count()`.
    pub fn slc_id_range(&self) -> (r: Range<u8>)
        requires
            self.wf(),
        ensures
            r.start == 0,
            r.end == self.slc_count(),
    {
        Range { start: 0u8, end: self.slc_counts.len() as u8 }
    }

    /// The byte-index range covered by the slice-id range `slc_range`.
    ///
    /// Fails with `OutOfRange` unless `slc_range` lies inside the total
    /// range; no clamped or partial result is ever returned.
    pub fn axn_id_range(&self, slc_range: Range<u8>) -> (r: Result<Range<usize>, BufferError>)
        requires
            self.wf(),
        ensures
            match r {
                Ok(br) => {
                    &&& self.in_total(slc_range.start as int, slc_range.end as int)
                    &&& br.start == self.offset(slc_range.start as int)
                    &&& br.end == self.offset(slc_range.end as int)
                },
                Err(e) => {
                    &&& e == BufferError::OutOfRange
                    &&& !self.in_total(slc_range.start as int, slc_range.end as int)
                },
            },
    {
        if slc_range.start > slc_range.end || (slc_range.end as usize) > self.slc_counts.len() {
            return Err(BufferError::OutOfRange);
        }
        let bs = self.offsets[slc_range.start as usize];
        let be = self.offsets[slc_range.end as usize];
        Ok(Range { start: bs, end: be })
    }

    /// The element count of the slice-id range `slc_range`.
    ///
    /// Fails with `OutOfRange` exactly as `axn_id_range` does.
    pub fn axn_count(&self, slc_range: Range<u8>) -> (r: Result<usize, BufferError>)
        requires
            self.wf(),
        ensures
            match r {
                Ok(c) => {
                    &&& self.in_total(slc_range.start as int, slc_range.end as int)
                    &&& c == self.offset(slc_range.end as int) - self.offset(
                        slc_range.start as int,
                    )
                },
                Err(e) => {
                    &&& e == BufferError::OutOfRange
                    &&& !self.in_total(slc_range.start as int, slc_range.end as int)
                },
            },
    {
        match self.axn_id_range(slc_range) {
            Ok(br) => {
                proof {
                    lemma_sum_counts_monotonic(
                        self.counts(),
                        slc_range.start as int,
                        slc_range.end as int,
                    );
                }
                Ok(br.end - br.start)
            },
            Err(e) => Err(e),
        }
    }

    /// The element count of the whole declared total range: the length every
    /// buffer laid out by this map must have.
    pub fn total_axn_count(&self) -> (r: usize)
        requires
            self.wf(),
        ensures
            r == self.offset(self.slc_count()),
    {
        self.offsets[self.slc_counts.len()]
    }
}

/// Disjoint, ordered slice-id ranges are mapped to disjoint byte ranges that
/// appear in the same order: when `a_start .. a_end` lies entirely before
/// `b_start .. b_end` in slice-id space, the byte range of the first ends at
/// or before the byte range of the second begins, so no byte index belongs
/// to both.
pub proof fn lemma_disjoint_ranges_stay_disjoint(
    m: SliceRangeMap,
    a_start: int,
    a_end: int,
    b_start: int,
    b_end: int,
)
    requires
        m.wf(),
        0 <= a_start <= a_end,
        a_end <= b_start,
        b_start <= b_end <= m.slc_count(),
    ensures
        m.offset(a_start) <= m.offset(a_end) <= m.offset(b_start) <= m.offset(b_end),
{
    lemma_sum_counts_monotonic(m.counts(), a_start, a_end);
    lemma_sum_counts_monotonic(m.counts(), a_end, b_start);
    lemma_sum_counts_monotonic(m.counts(), b_start, b_end);
}

} // verus!
