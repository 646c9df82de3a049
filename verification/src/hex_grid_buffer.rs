//! The render-side bridge: owns the mirror buffer (a fixed-length typed
//! copy of the shared state buffer), the slice-range map, and the three
//! slice-id windows (total, default, current). Implements the refresh
//! protocol that keeps the mirror in sync with the shared buffer without
//! ever blocking the render loop, and the per-slice lookup the draw call
//! uses.

use vstd::prelude::*;
use core::ops::Range;
use crate::BufferError;
use crate::map::{SliceRangeMap, lemma_sum_counts_monotonic};
use crate::rng::RandomSource;
use crate::state::{SharedStateBuffer, TryReadOutcome, ReadOutcome};

verus! {

/// One mirror-buffer element: a single one-byte field, so a sequence of
/// `StateVertex` has exactly the byte layout of the raw state sequence and
/// the refresh copy is a typed bulk copy with no conversion pass.
#[derive(Copy, Clone, Debug, PartialEq, Eq, Structural)]
pub struct StateVertex {
    pub state: u8,
}

/// What a refresh accomplished: `Refreshed` after a whole-buffer copy,
/// `Skipped` when an opportunistic attempt met contention and deliberately
/// copied nothing.
#[derive(Copy, Clone, Debug, PartialEq, Eq, Structural)]
pub enum RefreshStatus {
    Refreshed,
    Skipped,
}

/// Handles raw state data from the producer and feeds it to the mirror
/// buffer consumed by the draw call.
pub struct HexGridBuffer {
    raw_states_vec: SharedStateBuffer,
    raw_states_buf: Vec<StateVertex>,
    total_slc_range: Range<u8>,
    default_slc_range: Range<u8>,
    cur_slc_range: Range<u8>,
    tract_map: SliceRangeMap,
    smooth_refresh: bool,
}

impl HexGridBuffer {
    /// The mirror buffer's bytes.
    pub closed spec fn mirror(&self) -> Seq<u8> {
        self.raw_states_buf@.map_values(|v: StateVertex| v.state)
    }

    /// The slice-range map in use.
    pub closed spec fn map_spec(&self) -> SliceRangeMap {
        self.tract_map
    }

    /// The shared-state handle this bridge copies from.
    pub closed spec fn shared_spec(&self) -> SharedStateBuffer {
        self.raw_states_vec
    }

    /// The immutable total slice-id range.
    pub closed spec fn total_range_spec(&self) -> Range<u8> {
        self.total_slc_range
    }

    /// The default display window.
    pub closed spec fn default_range_spec(&self) -> Range<u8> {
        self.default_slc_range
    }

    /// The window drawn this frame.
    pub closed spec fn cur_range_spec(&self) -> Range<u8> {
        self.cur_slc_range
    }

    /// Whether refreshes block for the lock (smooth mode) instead of
    /// skipping on contention (opportunistic mode).
    pub closed spec fn smooth_spec(&self) -> bool {
        self.smooth_refresh
    }

    pub closed spec fn wf(&self) -> bool {
        &&& self.tract_map.wf()
        &&& self.total_slc_range.start == 0
        &&& self.total_slc_range.end == self.tract_map.slc_count()
        &&& self.default_slc_range.start <= self.default_slc_range.end
        &&& self.default_slc_range.end <= self.total_slc_range.end
        &&& self.cur_slc_range.start <= self.cur_slc_range.end
        &&& self.cur_slc_range.end <= self.total_slc_range.end
        &&& self.raw_states_buf@.len() == self.tract_map.offset(self.tract_map.slc_count())
        &&& self.raw_states_vec.spec_len() == self.raw_states_buf@.len()
    }

    /// Everything but the mirror contents is the same in `self` as in
    /// `other`: map, windows, shared handle, refresh policy.
    pub open spec fn same_config_as(&self, other: &HexGridBuffer) -> bool {
        &&& self.map_spec() == other.map_spec()
        &&& self.shared_spec() == other.shared_spec()
        &&& self.total_range_spec() == other.total_range_spec()
        &&& self.default_range_spec() == other.default_range_spec()
        &&& self.cur_range_spec() == other.cur_range_spec()
        &&& self.smooth_spec() == other.smooth_spec()
    }

    /// `self` and `other` agree on everything except the default window:
    /// map, mirror contents, shared handle, total and current windows,
    /// refresh policy.
    pub open spec fn same_but_default(&self, other: &HexGridBuffer) -> bool {
        &&& self.map_spec() == other.map_spec()
        &&& self.mirror() == other.mirror()
        &&& self.shared_spec() == other.shared_spec()
        &&& self.total_range_spec() == other.total_range_spec()
        &&& self.cur_range_spec() == other.cur_range_spec()
        &&& self.smooth_spec() == other.smooth_spec()
    }

    /// Builds the bridge for `tract_map`: allocates the shared buffer and
    /// the mirror buffer, both sized to the map's total element count and
    /// zero-filled, and sets the default and current windows to the total
    /// range. `smooth_refresh` selects the blocking refresh policy.
    pub fn new(tract_map: SliceRangeMap, smooth_refresh: bool) -> (r: HexGridBuffer)
        requires
            tract_map.wf(),
        ensures
            r.wf(),
            r.map_spec() == tract_map,
            r.smooth_spec() == smooth_refresh,
            r.total_range_spec().start == 0,
            r.total_range_spec().end == tract_map.slc_count(),
            r.default_range_spec() == r.total_range_spec(),
            r.cur_range_spec() == r.total_range_spec(),
            r.mirror().len() == tract_map.offset(tract_map.slc_count()),
            forall|i: int| 0 <= i < r.mirror().len() ==> r.mirror()[i] == 0,
    {
        let grid_count = tract_map.total_axn_count();
        let mut raw_states: Vec<u8> = Vec::new();
        let mut mirror: Vec<StateVertex> = Vec::new();
        let mut i: usize = 0;
        while i < grid_count
            invariant
                i <= grid_count,
                raw_states@.len() == i,
                mirror@.len() == i,
                forall|k: int| 0 <= k < i ==> raw_states@[k] == 0,
                forall|k: int| 0 <= k < i ==> mirror@[k].state == 0,
            decreases grid_count - i,
        {
            raw_states.push(0);
            mirror.push(StateVertex { state: 0 });
            i = i + 1;
        }
        let total_slc_range = tract_map.slc_id_range();
        let default_slc_range = tract_map.slc_id_range();
        let cur_slc_range = tract_map.slc_id_range();
        let r = HexGridBuffer {
            raw_states_vec: SharedStateBuffer::new(raw_states),
            raw_states_buf: mirror,
            total_slc_range,
            default_slc_range,
            cur_slc_range,
            tract_map,
            smooth_refresh,
        };
        r
    }

    /// Copies `raw_states`, whole, into the mirror buffer: the typed bulk
    /// copy behind every successful refresh. A payload whose length differs
    /// from the mirror length fails with `LengthMismatch` and changes
    /// nothing, so the mirror always holds either its previous contents or a
    /// complete snapshot, never a partial mix.
    pub fn write_to_buf(&mut self, raw_states: &Vec<u8>) -> (r: Result<(), BufferError>)
        requires
            old(self).wf(),
        ensures
            final(self).wf(),
            final(self).same_config_as(old(self)),
            final(self).mirror().len() == old(self).mirror().len(),
            r is Ok <==> raw_states@.len() == old(self).mirror().len(),
            r is Ok ==> final(self).mirror() == raw_states@,
            r is Err ==> *final(self) == *old(self),
            r matches Err(e) ==> e == BufferError::LengthMismatch,
    {
        if raw_states.len() != self.raw_states_buf.len() {
            return Err(BufferError::LengthMismatch);
        }
        let n = raw_states.len();
        let mut fresh: Vec<StateVertex> = Vec::new();
        let mut i: usize = 0;
        while i < n
            invariant
                i <= n,
                n == raw_states@.len(),
                fresh@.len() == i,
                forall|k: int| 0 <= k < i ==> fresh@[k].state == raw_states@[k],
            decreases n - i,
        {
            fresh.push(StateVertex { state: raw_states[i] });
            i = i + 1;
        }
        self.raw_states_buf = fresh;
        proof {
            assert(self.mirror() =~= raw_states@);
        }
        Ok(())
    }

    /// Refreshes the mirror buffer from the shared state buffer.
    ///
    /// In opportunistic mode (the default) the lock is tried without
    /// waiting: on contention nothing is copied, the mirror keeps its
    /// previous contents, and `Skipped` is returned — contention is an
    /// expected, silent outcome, not an error. In smooth mode the call
    /// waits for the lock, so it never skips; the wait is unbounded by
    /// deliberate choice, trading frame cadence for freshness. Either way a
    /// successful acquisition copies the entire snapshot, atomically with
    /// respect to the producer's own full-buffer writes. A poisoned lock surfaces
    /// `LockPoisoned` in both modes; a snapshot whose length differs from
    /// the mirror (a producer that broke the write contract) surfaces
    /// `LengthMismatch` with the mirror unchanged.
    pub fn refresh_vertex_buf(&mut self) -> (r: Result<RefreshStatus, BufferError>)
        requires
            old(self).wf(),
        ensures
            final(self).wf(),
            final(self).same_config_as(old(self)),
            final(self).mirror().len() == old(self).mirror().len(),
            (r matches Ok(s) && s == RefreshStatus::Skipped) ==> final(self).mirror()
                == old(self).mirror() && !old(self).smooth_spec(),
            r is Err ==> final(self).mirror() == old(self).mirror(),
            r matches Err(e) ==> e == BufferError::LockPoisoned || e
                == BufferError::LengthMismatch,
    {
        if self.smooth_refresh {
            match self.raw_states_vec.read_locked() {
                ReadOutcome::Data(v) => match self.write_to_buf(&v) {
                    Ok(()) => Ok(RefreshStatus::Refreshed),
                    Err(e) => Err(e),
                },
                ReadOutcome::Poisoned => Err(BufferError::LockPoisoned),
            }
        } else {
            match self.raw_states_vec.try_read() {
                TryReadOutcome::Data(v) => match self.write_to_buf(&v) {
                    Ok(()) => Ok(RefreshStatus::Refreshed),
                    Err(e) => Err(e),
                },
                TryReadOutcome::Contended => Ok(RefreshStatus::Skipped),
                TryReadOutcome::Poisoned => Err(BufferError::LockPoisoned),
            }
        }
    }

    /// Replaces the default display window. Fails with `OutOfRange`,
    /// changing nothing, unless `slc_range` lies inside the total range;
    /// callers that want clamping must clamp before calling.
    pub fn set_default_slc_range(&mut self, slc_range: Range<u8>) -> (r: Result<(), BufferError>)
        requires
            old(self).wf(),
        ensures
            final(self).wf(),
            r is Ok <==> slc_range.start <= slc_range.end
                && slc_range.end <= old(self).total_range_spec().end,
            r is Ok ==> final(self).default_range_spec() == slc_range,
            r is Ok ==> final(self).same_but_default(old(self)),
            r is Err ==> *final(self) == *old(self),
            r matches Err(e) ==> e == BufferError::OutOfRange,
    {
        if slc_range.start > slc_range.end || slc_range.end > self.total_slc_range.end {
            return Err(BufferError::OutOfRange);
        }
        self.default_slc_range = slc_range;
        Ok(())
    }

    /// Swaps in a new slice map. Fails with `SizeMismatch`, changing
    /// nothing, when the new map's total element count differs from the
    /// mirror length: the bridge must be reconstructed, never resized in
    /// place. On success all three windows are reset to the new map's total
    /// range, invalidating any window derived from the old map.
    pub fn set_tract_map(&mut self, tract_map: SliceRangeMap) -> (r: Result<(), BufferError>)
        requires
            old(self).wf(),
            tract_map.wf(),
        ensures
            final(self).wf(),
            final(self).mirror() == old(self).mirror(),
            final(self).shared_spec() == old(self).shared_spec(),
            final(self).smooth_spec() == old(self).smooth_spec(),
            r is Ok <==> tract_map.offset(tract_map.slc_count()) == old(self).mirror().len(),
            r is Ok ==> final(self).map_spec() == tract_map,
            r is Ok ==> final(self).total_range_spec().start == 0
                && final(self).total_range_spec().end == tract_map.slc_count(),
            r is Ok ==> final(self).default_range_spec() == final(self).total_range_spec()
                && final(self).cur_range_spec() == final(self).total_range_spec(),
            r is Err ==> *final(self) == *old(self),
            r matches Err(e) ==> e == BufferError::SizeMismatch,
    {
        if tract_map.total_axn_count() != self.raw_states_buf.len() {
            return Err(BufferError::SizeMismatch);
        }
        self.total_slc_range = tract_map.slc_id_range();
        self.default_slc_range = tract_map.slc_id_range();
        self.cur_slc_range = tract_map.slc_id_range();
        self.tract_map = tract_map;
        Ok(())
    }

    /// Test-support fill: overwrites every cell of the shared state buffer
    /// with a value drawn independently from `rng`, in [0, 255], through
    /// the full blocking write, so the buffer keeps its length and is left
    /// fully written, never partially. The mirror buffer is untouched until
    /// the next refresh.
    pub fn fill_rand(&mut self, rng: &mut RandomSource) -> (r: Result<(), BufferError>)
        requires
            old(self).wf(),
        ensures
            *final(self) == *old(self),
            r matches Err(e) ==> e == BufferError::LockPoisoned,
    {
        let n = self.raw_states_vec.len();
        let mut payload: Vec<u8> = Vec::new();
        let mut i: usize = 0;
        while i < n
            invariant
                i <= n,
                payload@.len() == i,
            decreases n - i,
        {
            payload.push(rng.next_byte());
            i = i + 1;
        }
        match self.raw_states_vec.write(&payload) {
            Ok(()) => Ok(()),
            Err(e) => Err(e),
        }
    }

    /// The mirror-buffer bytes of one slice: the sub-slice at
    /// `axn_id_range(slc_id .. slc_id + 1)`, as the draw call consumes it.
    /// Fails with `OutOfRange` when `slc_id` lies outside the total range
    /// (`total.end` itself, one past the last valid id, already fails).
    pub fn raw_states_buf(&self, slc_id: u8) -> (r: Result<Vec<StateVertex>, BufferError>)
        requires
            self.wf(),
        ensures
            match r {
                Ok(v) => {
                    &&& (slc_id as int) < self.total_range_spec().end
                    &&& v@.len() == self.map_spec().offset(slc_id as int + 1)
                        - self.map_spec().offset(slc_id as int)
                    &&& forall|j: int|
                        0 <= j < v@.len() ==> v@[j].state == self.mirror()[self.map_spec().offset(
                            slc_id as int,
                        ) + j]
                },
                Err(e) => {
                    &&& e == BufferError::OutOfRange
                    &&& (slc_id as int) >= self.total_range_spec().end
                },
            },
    {
        if slc_id >= self.total_slc_range.end {
            return Err(BufferError::OutOfRange);
        }
        let br = match self.tract_map.axn_id_range(Range { start: slc_id, end: slc_id + 1 }) {
            Ok(br) => br,
            Err(_) => {
                proof {
                    assert(false);
                }
                Range { start: 0, end: 0 }
            },
        };
        proof {
            lemma_sum_counts_monotonic(self.tract_map.counts(), slc_id as int, slc_id as int + 1);
            lemma_sum_counts_monotonic(
                self.tract_map.counts(),
                slc_id as int + 1,
                self.tract_map.slc_count(),
            );
        }
        let mut v: Vec<StateVertex> = Vec::new();
        let mut k: usize = br.start;
        while k < br.end
            invariant
                br.start <= k <= br.end,
                br.end <= self.raw_states_buf@.len(),
                v@.len() == k - br.start,
                forall|j: int| 0 <= j < v@.len() ==> v@[j] == self.raw_states_buf@[br.start + j],
            decreases br.end - k,
        {
            v.push(self.raw_states_buf[k]);
            k = k + 1;
        }
        Ok(v)
    }

    /// The byte-index range of the current window; always a valid range of
    /// the mirror, because `current` never leaves the total range.
    pub fn cur_axn_range(&self) -> (r: Range<usize>)
        requires
            self.wf(),
        ensures
            r.start == self.map_spec().offset(self.cur_range_spec().start as int),
            r.end == self.map_spec().offset(self.cur_range_spec().end as int),
    {
        match self.tract_map.axn_id_range(self.cur_slc_range()) {
            Ok(br) => br,
            Err(_) => {
                proof {
                    assert(false);
                }
                Range { start: 0, end: 0 }
            },
        }
    }

    /// The window drawn this frame.
    pub fn cur_slc_range(&self) -> (r: Range<u8>)
        ensures
            r == self.cur_range_spec(),
    {
        Range { start: self.cur_slc_range.start, end: self.cur_slc_range.end }
    }

    /// The slice-range map in use.
    pub fn tract_map(&self) -> (r: &SliceRangeMap)
        ensures
            *r == self.map_spec(),
    {
        &self.tract_map
    }

    /// A shared-ownership handle to the state buffer, for the producer: it
    /// writes whole snapshots through the handle's write contract, at its
    /// own cadence.
    pub fn raw_states_vec(&mut self) -> (r: SharedStateBuffer)
        ensures
            *final(self) == *old(self),
            r == final(self).shared_spec(),
    {
        self.raw_states_vec.clone_handle()
    }
}

/// The displayed window never leaves the declared total range: in every
/// well-formed bridge, `current` is a sub-range of `total`, so the read
/// accessors of the current window are always consistent with it.
pub proof fn lemma_cur_range_in_total(b: &HexGridBuffer)
    requires
        b.wf(),
    ensures
        b.total_range_spec().start == 0,
        b.cur_range_spec().start <= b.cur_range_spec().end,
        b.cur_range_spec().end <= b.total_range_spec().end,
{
}

/// The mirror buffer's length equals the byte length of the map's total
/// range. Every method of the bridge requires and preserves `wf` and keeps
/// the mirror length fixed, so this holds over the bridge's whole lifetime.
pub proof fn lemma_mirror_len_matches_map(b: &HexGridBuffer)
    requires
        b.wf(),
    ensures
        b.mirror().len() == b.map_spec().offset(b.map_spec().slc_count()) - b.map_spec().offset(0),
{
    assert(b.map_spec().offset(0) == 0);
}

} // verus!
