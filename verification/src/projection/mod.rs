//! The projection's own rules, as state and step functions: the admitted-work
//! queue, the continuation journal, applying commands and replies, vetting a
//! new projection, applying finished jobs and starting reads, teardown, the
//! rules for provider answers, the single in-flight blocking job, the source
//! reaper, the ledger of unreclaimed storage, the injected collaborators,
//! single-use result tickets and the lock-order tracker. Each step takes what
//! the engine, the process, the domain policy and the quotas answered.
pub mod blocking;
pub mod budgets;
pub mod coordinator;
pub mod inflight;
pub mod journal;
pub mod lifecycle;
pub mod native;
pub mod queue;
pub mod reaper;
pub mod ticket;
pub mod tier;
pub mod wiring;
pub mod worker;

use vstd::prelude::*;

verus! {

/// Why a checkpoint provider or protector refused.
#[derive(Debug, Clone, Copy, PartialEq, Eq, Structural)]
pub enum CheckpointError {
    /// Ciphertext failed authentication.
    AuthenticationFailed,
    /// The provider's capacity is exhausted.
    CapacityExceeded,
    /// No object under the reference.
    NotFound,
    /// The provider answered, but not with what was asked for, or not at all.
    Unavailable,
}

/// Why the process adapter refused or failed.
#[derive(Debug, Clone, Copy, PartialEq, Eq, Structural)]
pub enum ProcessError {
    /// A bounded queue or quota was full; retrying later may succeed.
    Capacity,
    /// The adapter's own invariant broke.
    Internal,
    /// The operating system reported an I/O failure.
    Io,
    /// The operation is not supported by this adapter.
    Unsupported,
}

/// Why the terminal engine refused.
#[derive(Debug, Clone, Copy, PartialEq, Eq, Structural)]
pub enum TerminalError {
    /// A checkpoint could not be restored.
    CorruptCheckpoint,
    /// The engine failed.
    EngineFailure,
}

/// Why a projection operation did not succeed.
#[derive(Debug, Clone, Copy, PartialEq, Eq, Structural)]
pub enum ProjectionError {
    /// The projection is closing or closed.
    Closed,
    /// A bounded reservation was full.
    Capacity,
    /// A worker failed or was lost.
    Worker,
    /// A collaborator contradicted the configuration or its own contract.
    InvalidConfiguration,
    /// Checkpoint storage failed.
    Storage(CheckpointError),
    /// The process adapter failed.
    Process(ProcessError),
    /// The terminal engine failed.
    Terminal(TerminalError),
}

/// What a worker run asks of the scheduler next.
#[derive(Debug, Clone, Copy, PartialEq, Eq, Structural)]
pub enum WorkSchedule {
    /// Nothing more will ever be needed.
    Finished,
    /// Run again only when woken.
    Dormant,
    /// Run again after this many milliseconds.
    AfterMillis(u64),
}

} // verus!
