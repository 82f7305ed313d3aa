//! Observation of reader scratch allocations.
use crate::diagnostics::counters;
use crate::diagnostics::RuntimeDiagnostics;
use vstd::prelude::*;

verus! {

/// Record of one reader's already allocated, fixed-capacity scratch. Create it
/// after allocation with `Vec<u8>::capacity()` and hand it back through
/// `release_reader` when that buffer is freed; the release subtracts the same
/// observed bytes. Resetting diagnostics does not reset these live gauges.
///
/// It has no destructor: an allocation record that is dropped, on an error
/// path or while unwinding, without going through `release_reader` releases
/// nothing, and the live gauges keep its bytes. Every exit of the reader that
/// owns the buffer hands the record back.
pub struct ReaderAllocation {
    bytes: usize,
}

impl ReaderAllocation {
    /// Bytes this allocation was recorded with.
    pub closed spec fn spec_bytes(&self) -> usize {
        self.bytes
    }

    /// Bytes this allocation was recorded with.
    pub fn bytes(&self) -> (bytes: usize)
        ensures
            bytes == self.spec_bytes(),
    {
        self.bytes
    }
}

impl RuntimeDiagnostics {
    /// Track an actual reader allocation, not configured size or session count.
    pub fn reader_allocation(&mut self, allocated_bytes: usize) -> (allocation: ReaderAllocation)
        ensures
            allocation.spec_bytes() == allocated_bytes,
            final(self).aggregate_view().live_readers
                == old(self).aggregate_view().live_readers.saturating_add(1),
            final(self).aggregate_view().reader_scratch_allocated_bytes
                == old(self).aggregate_view().reader_scratch_allocated_bytes.saturating_add(
                allocated_bytes as u64,
            ),
            final(self).aggregate_view().active_sessions
                == old(self).aggregate_view().active_sessions,
            final(self).aggregate_view().retained_replay_bytes
                == old(self).aggregate_view().retained_replay_bytes,
            final(self).aggregate_view().counters == old(self).aggregate_view().counters,
            final(self).latencies_unchanged(&*old(self)),
    {
        self.counters.reader(allocated_bytes, true);
        ReaderAllocation { bytes: allocated_bytes }
    }

    /// The scratch buffer of `allocation` has been freed: subtract exactly what it recorded.
    pub fn release_reader(&mut self, allocation: ReaderAllocation)
        ensures
            final(self).aggregate_view().live_readers == counters::sat_sub(
                old(self).aggregate_view().live_readers,
                1,
            ),
            final(self).aggregate_view().reader_scratch_allocated_bytes == counters::sat_sub(
                old(self).aggregate_view().reader_scratch_allocated_bytes,
                allocation.spec_bytes() as u64,
            ),
            final(self).aggregate_view().active_sessions
                == old(self).aggregate_view().active_sessions,
            final(self).aggregate_view().retained_replay_bytes
                == old(self).aggregate_view().retained_replay_bytes,
            final(self).aggregate_view().counters == old(self).aggregate_view().counters,
            final(self).latencies_unchanged(&*old(self)),
    {
        self.counters.reader(allocation.bytes, false);
    }
}

} // verus!
