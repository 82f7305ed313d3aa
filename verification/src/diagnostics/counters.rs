//! Cumulative bounded operation counters and current activity gauges.
use vstd::prelude::*;

verus! {

/// Number of aggregate operation counters.
pub const COUNTER_KINDS: usize = 13;

/// Cumulative bounded operation counters. Values saturate instead of wrapping.
#[derive(Debug, Clone, Copy, PartialEq, Eq, Structural)]
pub enum CounterKind {
    /// Bytes returned by successful host PTY reads, before admission/backpressure.
    BytesRead,
    /// Bytes successfully written to the host PTY, including authoritative replies.
    BytesWritten,
    /// Input payload bytes admitted by the process adapter, including replies.
    InputAdmittedBytes,
    /// Bytes accepted into raw replay (including immediately evicted bytes).
    PublishedBytes,
    /// Gap events delivered to observers; multiple observers count separately.
    ObserverGaps,
    /// Lost-byte ranges delivered to observers; multiple observers count separately.
    ObserverGapBytes,
    /// Global public input or adapter queue byte/chunk/slot admission rejections.
    InputSaturation,
    /// Lossless output admission attempts that required backpressure.
    OutputBackpressure,
    /// Failed process operations or supervision reports; not unique sessions.
    FailedOperations,
    /// TERM grace expiration escalations to a KILL request, once per process owner.
    CancellationEscalations,
    /// Process owners whose helper cleanup completed without supervision loss.
    CleanupCompleted,
    /// Process owners that completed teardown with supervision loss.
    CleanupFailed,
    /// Observed helper acknowledgements of successful direct-workload SIGKILL
    /// escalation after TERM.
    AcknowledgedWorkloadEscalations,
}

impl CounterKind {
    /// Position of this counter in snapshot order.
    pub open spec fn spec_index(self) -> int {
        match self {
            CounterKind::BytesRead => 0,
            CounterKind::BytesWritten => 1,
            CounterKind::InputAdmittedBytes => 2,
            CounterKind::PublishedBytes => 3,
            CounterKind::ObserverGaps => 4,
            CounterKind::ObserverGapBytes => 5,
            CounterKind::InputSaturation => 6,
            CounterKind::OutputBackpressure => 7,
            CounterKind::FailedOperations => 8,
            CounterKind::CancellationEscalations => 9,
            CounterKind::CleanupCompleted => 10,
            CounterKind::CleanupFailed => 11,
            CounterKind::AcknowledgedWorkloadEscalations => 12,
        }
    }

    /// Position of this counter in snapshot order.
    pub fn index(&self) -> (index: usize)
        ensures
            index == self.spec_index(),
            index < COUNTER_KINDS,
    {
        match self {
            CounterKind::BytesRead => 0,
            CounterKind::BytesWritten => 1,
            CounterKind::InputAdmittedBytes => 2,
            CounterKind::PublishedBytes => 3,
            CounterKind::ObserverGaps => 4,
            CounterKind::ObserverGapBytes => 5,
            CounterKind::InputSaturation => 6,
            CounterKind::OutputBackpressure => 7,
            CounterKind::FailedOperations => 8,
            CounterKind::CancellationEscalations => 9,
            CounterKind::CleanupCompleted => 10,
            CounterKind::CleanupFailed => 11,
            CounterKind::AcknowledgedWorkloadEscalations => 12,
        }
    }

    /// All aggregate counter names in snapshot order.
    pub fn all() -> (kinds: [CounterKind; COUNTER_KINDS])
        ensures
            forall|i: int| 0 <= i < COUNTER_KINDS ==> (#[trigger] kinds@[i]).spec_index() == i,
    {
        [
            CounterKind::BytesRead,
            CounterKind::BytesWritten,
            CounterKind::InputAdmittedBytes,
            CounterKind::PublishedBytes,
            CounterKind::ObserverGaps,
            CounterKind::ObserverGapBytes,
            CounterKind::InputSaturation,
            CounterKind::OutputBackpressure,
            CounterKind::FailedOperations,
            CounterKind::CancellationEscalations,
            CounterKind::CleanupCompleted,
            CounterKind::CleanupFailed,
            CounterKind::AcknowledgedWorkloadEscalations,
        ]
    }
}

/// Fixed aggregate counters plus current activity/retention gauges.
#[derive(Debug, Clone, Copy)]
pub struct AggregateSnapshot {
    /// Current admitted session contexts whose process/drain completion is unfinished.
    pub active_sessions: u64,
    /// Logical bytes currently retained in raw replay across surviving contexts.
    pub retained_replay_bytes: u64,
    /// Reader scratch allocations currently alive.
    pub live_readers: u64,
    /// Bytes of reader scratch currently allocated.
    pub reader_scratch_allocated_bytes: u64,
    /// Cumulative operation counters indexed by CounterKind.
    pub counters: [u64; COUNTER_KINDS],
}

impl AggregateSnapshot {
    /// The current gauges of `self` equal those of `other`.
    pub open spec fn same_gauges(&self, other: AggregateSnapshot) -> bool {
        &&& self.active_sessions == other.active_sessions
        &&& self.retained_replay_bytes == other.retained_replay_bytes
        &&& self.live_readers == other.live_readers
        &&& self.reader_scratch_allocated_bytes == other.reader_scratch_allocated_bytes
    }

    /// Read one cumulative operation counter.
    pub fn count(&self, kind: CounterKind) -> (value: u64)
        ensures
            value == self.counters@[kind.spec_index()],
    {
        self.counters[kind.index()]
    }
}

/// Saturating subtraction on `u64`, as the gauges apply it.
pub open spec fn sat_sub(a: u64, b: u64) -> u64 {
    if a >= b {
        (a - b) as u64
    } else {
        0
    }
}

/// Retained bytes after replay retention moves from `before` to `after`.
pub open spec fn retained_after(retained: u64, before: usize, after: usize) -> u64 {
    if after >= before {
        retained.saturating_add((after - before) as u64)
    } else {
        sat_sub(retained, (before - after) as u64)
    }
}

/// Live counters. Every value saturates rather than wrapping.
pub struct Counters {
    values: [u64; COUNTER_KINDS],
    active: u64,
    retained: u64,
    readers: u64,
    reader_bytes: u64,
}

impl View for Counters {
    type V = AggregateSnapshot;

    closed spec fn view(&self) -> AggregateSnapshot {
        AggregateSnapshot {
            active_sessions: self.active,
            retained_replay_bytes: self.retained,
            live_readers: self.readers,
            reader_scratch_allocated_bytes: self.reader_bytes,
            counters: self.values,
        }
    }
}

impl Counters {
    /// Every counter and gauge at zero.
    pub fn new() -> (counters: Self)
        ensures
            counters@.active_sessions == 0,
            counters@.retained_replay_bytes == 0,
            counters@.live_readers == 0,
            counters@.reader_scratch_allocated_bytes == 0,
            forall|i: int| 0 <= i < COUNTER_KINDS ==> #[trigger] counters@.counters@[i] == 0,
    {
        Self { values: [0u64; COUNTER_KINDS], active: 0, retained: 0, readers: 0, reader_bytes: 0 }
    }

    /// Add to one cumulative counter, saturating.
    pub fn add(&mut self, kind: CounterKind, count: u64)
        ensures
            final(self)@.counters@ == old(self)@.counters@.update(
                kind.spec_index(),
                old(self)@.counters@[kind.spec_index()].saturating_add(count),
            ),
            final(self)@.same_gauges(old(self)@),
    {
        let index = kind.index();
        self.values[index] = self.values[index].saturating_add(count);
    }

    /// A session context became active (`true`) or finished (`false`).
    pub fn session(&mut self, active: bool)
        ensures
            final(self)@.active_sessions == if active {
                old(self)@.active_sessions.saturating_add(1)
            } else {
                sat_sub(old(self)@.active_sessions, 1)
            },
            final(self)@.retained_replay_bytes == old(self)@.retained_replay_bytes,
            final(self)@.live_readers == old(self)@.live_readers,
            final(self)@.reader_scratch_allocated_bytes == old(self)@.reader_scratch_allocated_bytes,
            final(self)@.counters == old(self)@.counters,
    {
        if active {
            self.active = self.active.saturating_add(1);
        } else {
            self.active = self.active.saturating_sub(1);
        }
    }

    /// Replay retention changed from `before` to `after` bytes.
    pub fn replay(&mut self, before: usize, after: usize)
        ensures
            final(self)@.retained_replay_bytes == retained_after(
                old(self)@.retained_replay_bytes,
                before,
                after,
            ),
            final(self)@.active_sessions == old(self)@.active_sessions,
            final(self)@.live_readers == old(self)@.live_readers,
            final(self)@.reader_scratch_allocated_bytes == old(self)@.reader_scratch_allocated_bytes,
            final(self)@.counters == old(self)@.counters,
    {
        if after >= before {
            self.retained = self.retained.saturating_add((after - before) as u64);
        } else {
            self.retained = self.retained.saturating_sub((before - after) as u64);
        }
    }

    /// A reader scratch allocation of `bytes` was made (`true`) or released (`false`).
    pub fn reader(&mut self, bytes: usize, allocated: bool)
        ensures
            allocated ==> {
                &&& final(self)@.live_readers == old(self)@.live_readers.saturating_add(1)
                &&& final(self)@.reader_scratch_allocated_bytes
                    == old(self)@.reader_scratch_allocated_bytes.saturating_add(bytes as u64)
            },
            !allocated ==> {
                &&& final(self)@.live_readers == sat_sub(old(self)@.live_readers, 1)
                &&& final(self)@.reader_scratch_allocated_bytes == sat_sub(
                    old(self)@.reader_scratch_allocated_bytes,
                    bytes as u64,
                )
            },
            final(self)@.active_sessions == old(self)@.active_sessions,
            final(self)@.retained_replay_bytes == old(self)@.retained_replay_bytes,
            final(self)@.counters == old(self)@.counters,
    {
        if allocated {
            self.readers = self.readers.saturating_add(1);
            self.reader_bytes = self.reader_bytes.saturating_add(bytes as u64);
        } else {
            self.readers = self.readers.saturating_sub(1);
            self.reader_bytes = self.reader_bytes.saturating_sub(bytes as u64);
        }
    }

    /// Zero every cumulative counter; current gauges survive measurement-interval resets.
    pub fn reset_quiescent(&mut self)
        ensures
            final(self)@.same_gauges(old(self)@),
            forall|i: int| 0 <= i < COUNTER_KINDS ==> #[trigger] final(self)@.counters@[i] == 0,
    {
        self.values = [0u64; COUNTER_KINDS];
    }

    /// Copy the counters and gauges.
    pub fn snapshot(&self) -> (snapshot: AggregateSnapshot)
        ensures
            snapshot == self@,
    {
        AggregateSnapshot {
            active_sessions: self.active,
            retained_replay_bytes: self.retained,
            live_readers: self.readers,
            reader_scratch_allocated_bytes: self.reader_bytes,
            counters: self.values,
        }
    }
}

} // verus!
