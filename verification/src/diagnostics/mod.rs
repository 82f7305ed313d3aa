//! Optional bounded runtime measurements. No commands, bytes or session labels are retained.
pub mod counters;
pub mod histogram;
pub mod reader;
pub mod resources;

use crate::diagnostics::counters::{AggregateSnapshot, CounterKind, Counters};
use crate::diagnostics::histogram::{recorded, Histogram, LatencySnapshot};
use vstd::prelude::*;

verus! {

/// Number of measured latency boundaries.
pub const LATENCY_KINDS: usize = 8;

/// Distinct internal boundaries; dispatch is never inferred from child echo latency.
#[derive(Debug, Clone, Copy, PartialEq, Eq, Structural)]
pub enum LatencyKind {
    /// Public write entry through synchronous admission, including rejected calls.
    InputAdmission,
    /// Accepted adapter input through completion of the host PTY write.
    InputDispatch,
    /// Host read completion through raw replay publication.
    RawOutput,
    /// Host read completion through ordered terminal feed and continuation publication.
    ProjectedOutput,
    /// Public resize entry through synchronous admission, including rejected calls.
    ResizeAdmission,
    /// Admitted resize through the host OS resize operation.
    ResizeDispatch,
    /// Public cancel entry through synchronous admission, including rejected calls.
    CancelAdmission,
    /// Admitted cancellation through acknowledgements of the TERM signals.
    CancelDispatch,
}

impl LatencyKind {
    /// Position of this boundary in the stable ordering.
    pub open spec fn spec_index(self) -> int {
        match self {
            LatencyKind::InputAdmission => 0,
            LatencyKind::InputDispatch => 1,
            LatencyKind::RawOutput => 2,
            LatencyKind::ProjectedOutput => 3,
            LatencyKind::ResizeAdmission => 4,
            LatencyKind::ResizeDispatch => 5,
            LatencyKind::CancelAdmission => 6,
            LatencyKind::CancelDispatch => 7,
        }
    }

    /// Position of this boundary in the stable ordering.
    pub fn index(&self) -> (index: usize)
        ensures
            index == self.spec_index(),
            index < LATENCY_KINDS,
    {
        match self {
            LatencyKind::InputAdmission => 0,
            LatencyKind::InputDispatch => 1,
            LatencyKind::RawOutput => 2,
            LatencyKind::ProjectedOutput => 3,
            LatencyKind::ResizeAdmission => 4,
            LatencyKind::ResizeDispatch => 5,
            LatencyKind::CancelAdmission => 6,
            LatencyKind::CancelDispatch => 7,
        }
    }

    /// Stable ordering of all measured boundaries.
    pub fn all() -> (kinds: [LatencyKind; LATENCY_KINDS])
        ensures
            forall|i: int| 0 <= i < LATENCY_KINDS ==> (#[trigger] kinds@[i]).spec_index() == i,
    {
        [
            LatencyKind::InputAdmission,
            LatencyKind::InputDispatch,
            LatencyKind::RawOutput,
            LatencyKind::ProjectedOutput,
            LatencyKind::ResizeAdmission,
            LatencyKind::ResizeDispatch,
            LatencyKind::CancelAdmission,
            LatencyKind::CancelDispatch,
        ]
    }
}

/// Fixed histogram storage per boundary plus aggregate counters. Histograms
/// have 100us buckets through 102.4ms plus overflow, and retain exact maximum
/// microseconds. Failed operations are counted separately and excluded from
/// success percentiles; unavailable measurements are separate from failures.
pub struct RuntimeDiagnostics {
    histograms: [Histogram; LATENCY_KINDS],
    counters: Counters,
}

impl RuntimeDiagnostics {
    /// Current histogram of one boundary.
    pub closed spec fn latency(&self, kind: LatencyKind) -> LatencySnapshot {
        self.histograms@[kind.spec_index()]@
    }

    /// Current aggregate counters and gauges.
    pub closed spec fn aggregate_view(&self) -> AggregateSnapshot {
        self.counters@
    }

    /// Every histogram other than that of `kind` equals its counterpart in `other`.
    pub open spec fn others_unchanged(&self, other: &RuntimeDiagnostics, kind: LatencyKind) -> bool {
        forall|k: LatencyKind| k != kind ==> #[trigger] self.latency(k) == other.latency(k)
    }

    /// Every histogram equals its counterpart in `other`.
    pub open spec fn latencies_unchanged(&self, other: &RuntimeDiagnostics) -> bool {
        forall|k: LatencyKind| #[trigger] self.latency(k) == other.latency(k)
    }

    /// Allocate one fixed measurement object with every count at zero.
    pub fn new() -> (diagnostics: Self)
        ensures
            forall|k: LatencyKind| (#[trigger] diagnostics.latency(k)).is_zero(),
            diagnostics.aggregate_view().active_sessions == 0,
            diagnostics.aggregate_view().retained_replay_bytes == 0,
            diagnostics.aggregate_view().live_readers == 0,
            diagnostics.aggregate_view().reader_scratch_allocated_bytes == 0,
            forall|i: int|
                0 <= i < counters::COUNTER_KINDS
                    ==> #[trigger] diagnostics.aggregate_view().counters@[i] == 0,
    {
        let histograms = [
            Histogram::new(),
            Histogram::new(),
            Histogram::new(),
            Histogram::new(),
            Histogram::new(),
            Histogram::new(),
            Histogram::new(),
            Histogram::new(),
        ];
        let diagnostics = Self { histograms, counters: Counters::new() };
        assert forall|k: LatencyKind| (#[trigger] diagnostics.latency(k)).is_zero() by {
            assert(0 <= k.spec_index() < LATENCY_KINDS);
        }
        diagnostics
    }

    /// Add a finite aggregate value without allocating or retaining labels.
    pub fn count(&mut self, kind: CounterKind, count: u64)
        ensures
            final(self).aggregate_view().counters@ == old(self).aggregate_view().counters@.update(
                kind.spec_index(),
                old(self).aggregate_view().counters@[kind.spec_index()].saturating_add(count),
            ),
            final(self).aggregate_view().same_gauges(old(self).aggregate_view()),
            final(self).latencies_unchanged(&*old(self)),
    {
        self.counters.add(kind, count);
    }

    /// Copy aggregate operation counters and current session/replay/reader gauges.
    pub fn aggregate(&self) -> (snapshot: AggregateSnapshot)
        ensures
            snapshot == self.aggregate_view(),
    {
        self.counters.snapshot()
    }

    /// A session context became active (`true`) or finished (`false`).
    pub fn session_activity(&mut self, active: bool)
        ensures
            final(self).aggregate_view().active_sessions == if active {
                old(self).aggregate_view().active_sessions.saturating_add(1)
            } else {
                counters::sat_sub(old(self).aggregate_view().active_sessions, 1)
            },
            final(self).aggregate_view().retained_replay_bytes
                == old(self).aggregate_view().retained_replay_bytes,
            final(self).aggregate_view().live_readers == old(self).aggregate_view().live_readers,
            final(self).aggregate_view().reader_scratch_allocated_bytes
                == old(self).aggregate_view().reader_scratch_allocated_bytes,
            final(self).aggregate_view().counters == old(self).aggregate_view().counters,
            final(self).latencies_unchanged(&*old(self)),
    {
        self.counters.session(active);
    }

    /// Replay retention changed from `before` to `after` bytes.
    pub fn replay_retention(&mut self, before: usize, after: usize)
        ensures
            final(self).aggregate_view().retained_replay_bytes == counters::retained_after(
                old(self).aggregate_view().retained_replay_bytes,
                before,
                after,
            ),
            final(self).aggregate_view().active_sessions
                == old(self).aggregate_view().active_sessions,
            final(self).aggregate_view().live_readers == old(self).aggregate_view().live_readers,
            final(self).aggregate_view().reader_scratch_allocated_bytes
                == old(self).aggregate_view().reader_scratch_allocated_bytes,
            final(self).aggregate_view().counters == old(self).aggregate_view().counters,
            final(self).latencies_unchanged(&*old(self)),
    {
        self.counters.replay(before, after);
    }

    /// Record an adapter/application boundary without retaining its payload or identity.
    pub fn record(&mut self, kind: LatencyKind, elapsed_nanos: u128, success: bool)
        ensures
            final(self).latency(kind) == recorded(old(self).latency(kind), elapsed_nanos, success),
            final(self).others_unchanged(&*old(self), kind),
            final(self).aggregate_view() == old(self).aggregate_view(),
    {
        let index = kind.index();
        self.histograms[index].record(elapsed_nanos, success);
    }

    /// Count one boundary the adapter did not observe.
    pub fn unavailable(&mut self, kind: LatencyKind)
        ensures
            final(self).latency(kind).unavailable == old(self).latency(kind).unavailable.saturating_add(1),
            final(self).latency(kind).buckets == old(self).latency(kind).buckets,
            final(self).latency(kind).failures == old(self).latency(kind).failures,
            final(self).latency(kind).maximum_us == old(self).latency(kind).maximum_us,
            final(self).others_unchanged(&*old(self), kind),
            final(self).aggregate_view() == old(self).aggregate_view(),
    {
        let index = kind.index();
        self.histograms[index].unavailable();
    }

    /// Copy bounded counters for one boundary.
    pub fn snapshot(&self, kind: LatencyKind) -> (snapshot: LatencySnapshot)
        ensures
            snapshot == self.latency(kind),
    {
        self.histograms[kind.index()].snapshot()
    }

    /// Begin a new measurement interval after all measured activity has stopped.
    /// Cumulative counters and every histogram return to zero; current gauges survive.
    pub fn reset_quiescent(&mut self)
        ensures
            forall|k: LatencyKind| (#[trigger] final(self).latency(k)).is_zero(),
            final(self).aggregate_view().same_gauges(old(self).aggregate_view()),
            forall|i: int|
                0 <= i < counters::COUNTER_KINDS
                    ==> #[trigger] final(self).aggregate_view().counters@[i] == 0,
    {
        self.counters.reset_quiescent();
        let mut index: usize = 0;
        while index < LATENCY_KINDS
            invariant
                index <= LATENCY_KINDS,
                forall|i: int| 0 <= i < index ==> (#[trigger] self.histograms@[i]@).is_zero(),
                self.counters@.same_gauges(old(self).counters@),
                forall|i: int|
                    0 <= i < counters::COUNTER_KINDS ==> #[trigger] self.counters@.counters@[i] == 0,
            decreases LATENCY_KINDS - index,
        {
            self.histograms[index].reset_quiescent();
            index += 1;
        }
        assert forall|k: LatencyKind| (#[trigger] self.latency(k)).is_zero() by {
            assert(0 <= k.spec_index() < LATENCY_KINDS);
        }
    }

    /// Fixed inline counter bytes, excluding allocator overhead.
    pub fn storage_bytes() -> (bytes: usize)
        ensures
            bytes as nat == vstd::layout::size_of::<RuntimeDiagnostics>(),
    {
        core::mem::size_of::<RuntimeDiagnostics>()
    }
}


/// Monotonic timestamps, carried through the library as opaque values.
#[verifier::external_type_specification]
#[verifier::external_body]
pub struct ExInstant(std::time::Instant);

/// Nanoseconds elapsed since `started`, by `Instant::elapsed` converted with
/// `Duration::as_nanos`. It depends on the clock, so nothing is stated of it.
#[verifier::external_body]
fn elapsed_nanos(started: &std::time::Instant) -> u128 {
    started.elapsed().as_nanos()
}

/// Timestamp carried by a bounded admitted operation. Its outcome is reported
/// once: `finish`, `unavailable`, or `abandon` for an operation dropped before
/// its boundary, which counts as a failure.
///
/// It has no destructor: a `Timing` that is dropped without one of those three
/// calls records nothing. Whoever drops an admitted operation early calls
/// `abandon` on its timing.
pub struct Timing {
    kind: LatencyKind,
    started: std::time::Instant,
}

impl Timing {
    /// Boundary this timing measures.
    pub closed spec fn spec_kind(&self) -> LatencyKind {
        self.kind
    }

    /// Start at a caller-supplied monotonic boundary (for example actual host read).
    pub fn new(kind: LatencyKind, started: std::time::Instant) -> (timing: Self)
        ensures
            timing.spec_kind() == kind,
    {
        Self { kind, started }
    }

    /// Boundary this timing measures.
    pub fn kind(&self) -> (kind: LatencyKind)
        ensures
            kind == self.spec_kind(),
    {
        self.kind
    }

    /// Mark an injected boundary uninstrumented without inventing an operation failure.
    pub fn unavailable(self, diagnostics: &mut RuntimeDiagnostics)
        ensures
            final(diagnostics).latency(self.spec_kind()).unavailable == old(diagnostics).latency(
                self.spec_kind(),
            ).unavailable.saturating_add(1),
            final(diagnostics).latency(self.spec_kind()).buckets == old(diagnostics).latency(
                self.spec_kind(),
            ).buckets,
            final(diagnostics).latency(self.spec_kind()).failures == old(diagnostics).latency(
                self.spec_kind(),
            ).failures,
            final(diagnostics).latency(self.spec_kind()).maximum_us == old(diagnostics).latency(
                self.spec_kind(),
            ).maximum_us,
            final(diagnostics).others_unchanged(&*old(diagnostics), self.spec_kind()),
            final(diagnostics).aggregate_view() == old(diagnostics).aggregate_view(),
    {
        diagnostics.unavailable(self.kind);
    }

    /// Record the outcome once at the actual boundary. The elapsed time is read
    /// from the clock, so the recorded sample holds for some elapsed duration.
    pub fn finish(self, diagnostics: &mut RuntimeDiagnostics, success: bool)
        ensures
            exists|elapsed: u128|
                final(diagnostics).latency(self.spec_kind()) == #[trigger] recorded(
                    old(diagnostics).latency(self.spec_kind()),
                    elapsed,
                    success,
                ),
            final(diagnostics).others_unchanged(&*old(diagnostics), self.spec_kind()),
            final(diagnostics).aggregate_view() == old(diagnostics).aggregate_view(),
    {
        let elapsed = elapsed_nanos(&self.started);
        diagnostics.record(self.kind, elapsed, success);
    }

    /// The operation ended before its boundary: record a failure, never a sample.
    pub fn abandon(self, diagnostics: &mut RuntimeDiagnostics)
        ensures
            final(diagnostics).latency(self.spec_kind()) == recorded(
                old(diagnostics).latency(self.spec_kind()),
                0,
                false,
            ),
            final(diagnostics).others_unchanged(&*old(diagnostics), self.spec_kind()),
            final(diagnostics).aggregate_view() == old(diagnostics).aggregate_view(),
    {
        // A failure records no duration, so the clock is not read.
        diagnostics.record(self.kind, 0, false);
    }
}

} // verus!
pub mod laws;
