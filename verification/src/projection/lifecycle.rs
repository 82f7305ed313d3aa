//! Applying a finished blocking job, starting a read of the committed source,
//! and the last-resort teardown after both pools have shut down, over the
//! admission state, the source reaper and the unreclaimed-storage ledger.
use crate::projection::blocking::CommitOutcome;
use crate::projection::budgets::UnreclaimedLedger;
use crate::projection::queue::{AdmissionQueue, AdmissionView, Command, Residency};
use crate::projection::reaper::{sources, DeleteAttempt, SourceReaper, RETRY_SOON_MILLIS};
use crate::projection::{ProjectionError, WorkSchedule};
use std::collections::VecDeque;
use vstd::prelude::*;

verus! {

/// A blocking job that has published its result.
pub enum Finished<S> {
    /// A park commit, with the disk charge of what it wrote.
    Commit { outcome: CommitOutcome<S>, charge: usize },
    /// A restore read, and whether the engine rebuilt the model from it.
    Restore { restored: Result<(), ProjectionError> },
    /// A transfer read of the parked source.
    Transfer { read: Result<(), ProjectionError> },
    /// A deletion attempt of a superseded source.
    Delete { attempt: DeleteAttempt<S>, result: Result<(), ProjectionError> },
}

/// What the owner does with the native model and the waiters after a job.
pub enum FinishStep<S> {
    /// The commit released the model: drop it; this is the committed source now.
    Park(S),
    /// The commit was published but activity arrived: the source was retired
    /// for deletion and the live model stays.
    Retired,
    /// The commit's outcome is unknown: its charge stays in the ledger, the
    /// live model stays resident, and the policy hears of a failed park.
    Uncertain(ProjectionError),
    /// Nothing reached the store: the live model stays and the policy hears of
    /// a failed park.
    Rejected(ProjectionError),
    /// Install the restored model.
    Install,
    /// Fail the projection with this.
    Fail(ProjectionError),
    /// Answer the transfer request with this.
    Answer(Result<(), ProjectionError>),
    /// Nothing more to do.
    Done,
}

/// Apply a finished job. `closing` says whether cleanup has been requested;
/// `engine_idle` whether no reply or resize is outstanding; `policy_releases`
/// is the policy's answer to a published commit on a quiet projection (a
/// projection with work queued or native work outstanding never releases).
///
/// A published commit parks the model only when released, and otherwise
/// retires its source for deletion. An uncertain commit records its charge in
/// the ledger for good and marks cleanup as failed, and the model stays. A
/// closing projection ignores a finished restore and answers a transfer with
/// `Closed`. A failed deletion goes back to the reaper, and once its retries
/// are spent its error is recorded as a cleanup failure.
pub fn finish_io<W, D: Copy, S>(
    finished: Finished<S>,
    closing: bool,
    engine_idle: bool,
    policy_releases: bool,
    queue: &mut AdmissionQueue<W, D>,
    ledger: &mut UnreclaimedLedger,
    reaper: &mut SourceReaper<S>,
) -> (step: FinishStep<S>)
    ensures
        final(reaper).spec_max_attempts() == old(reaper).spec_max_attempts(),
        match finished {
            Finished::Commit { outcome, charge } => match outcome {
                CommitOutcome::Published(source) => {
                    let release = engine_idle && old(queue)@.queue.len() == 0 && policy_releases;
                    &&& final(queue)@ == old(queue)@
                    &&& final(ledger)@ == old(ledger)@
                    &&& release ==> step == FinishStep::Park(source) && final(reaper).spec_queue()
                        == old(reaper).spec_queue()
                    &&& !release ==> step is Retired && final(reaper).spec_queue() == old(
                        reaper,
                    ).spec_queue().push(DeleteAttempt { source, attempts: 0 })
                },
                CommitOutcome::Uncertain(error) => {
                    &&& step == FinishStep::<S>::Uncertain(error)
                    &&& final(ledger)@ == old(ledger)@.push(charge)
                    &&& final(queue)@ == (AdmissionView {
                        unreclaimed_failure: Some(error),
                        ..old(queue)@
                    })
                    &&& final(reaper).spec_queue() == old(reaper).spec_queue()
                },
                CommitOutcome::Rejected(error) => {
                    &&& step == FinishStep::<S>::Rejected(error)
                    &&& final(ledger)@ == old(ledger)@
                    &&& final(queue)@ == old(queue)@
                    &&& final(reaper).spec_queue() == old(reaper).spec_queue()
                },
            },
            Finished::Restore { restored } => {
                &&& final(queue)@ == old(queue)@
                &&& final(ledger)@ == old(ledger)@
                &&& final(reaper).spec_queue() == old(reaper).spec_queue()
                &&& step == if closing {
                    FinishStep::<S>::Done
                } else {
                    match restored {
                        Ok(()) => FinishStep::<S>::Install,
                        Err(error) => FinishStep::<S>::Fail(error),
                    }
                }
            },
            Finished::Transfer { read } => {
                &&& final(queue)@ == old(queue)@
                &&& final(ledger)@ == old(ledger)@
                &&& final(reaper).spec_queue() == old(reaper).spec_queue()
                &&& step == FinishStep::<S>::Answer(
                    if closing {
                        Err(ProjectionError::Closed)
                    } else {
                        read
                    },
                )
            },
            Finished::Delete { attempt, result } => {
                &&& step is Done
                &&& final(ledger)@ == old(ledger)@
                &&& match result {
                    Ok(()) => {
                        &&& final(reaper).spec_queue() == old(reaper).spec_queue()
                        &&& final(queue)@ == old(queue)@
                    },
                    Err(error) => {
                        let spent = attempt.attempts.saturating_add(1);
                        &&& final(reaper).spec_queue() == seq![
                            DeleteAttempt { source: attempt.source, attempts: spent },
                        ] + old(reaper).spec_queue()
                        &&& final(queue)@ == if spent >= old(reaper).spec_max_attempts() {
                            AdmissionView { cleanup_failure: Some(error), ..old(queue)@ }
                        } else {
                            old(queue)@
                        }
                    },
                }
            },
        },
{
    match finished {
        Finished::Commit { outcome, charge } => match outcome {
            CommitOutcome::Published(source) => {
                let release = queue.is_quiet(engine_idle) && policy_releases;
                if release {
                    FinishStep::Park(source)
                } else {
                    reaper.retire(source);
                    FinishStep::Retired
                }
            },
            CommitOutcome::Uncertain(error) => {
                ledger.record(charge);
                queue.park_outcome_uncertain(error);
                FinishStep::Uncertain(error)
            },
            CommitOutcome::Rejected(error) => FinishStep::Rejected(error),
        },
        Finished::Restore { restored } => {
            if closing {
                FinishStep::Done
            } else {
                match restored {
                    Ok(()) => FinishStep::Install,
                    Err(error) => FinishStep::Fail(error),
                }
            }
        },
        Finished::Transfer { read } => {
            if closing {
                FinishStep::Answer(Err(ProjectionError::Closed))
            } else {
                FinishStep::Answer(read)
            }
        },
        Finished::Delete { attempt, result } => {
            if let Some(error) = reaper.finish_delete(attempt, result) {
                queue.maintenance_failed(error);
            }
            FinishStep::Done
        },
    }
}

/// What starting a read of the committed source did.
#[derive(Debug, Clone, Copy, PartialEq, Eq, Structural)]
pub struct ReadStep {
    /// What to ask of the scheduler.
    pub schedule: WorkSchedule,
    /// Fail the projection with this.
    pub failure: Option<ProjectionError>,
    /// Answer the transfer request with this error.
    pub answer: Option<ProjectionError>,
    /// The read was submitted; for a restore, tell the policy restoration began.
    pub submitted: bool,
}

/// Start reading the committed source back, for a queued transfer
/// (`transfer`) or to restore the model. With no committed source the
/// projection fails with `Worker`. Without read memory a transfer is answered
/// with that error and the read is retried shortly. A restore also needs its
/// resident reservation, and is retried shortly without it. A submission the
/// pool refuses answers a transfer with the refusal, and is retried shortly.
pub fn read_step(
    has_source: bool,
    transfer: bool,
    memory: Result<(), ProjectionError>,
    resident: bool,
    submitted: Result<(), ProjectionError>,
) -> (step: ReadStep)
    ensures
        step == if !has_source {
            ReadStep {
                schedule: WorkSchedule::Dormant,
                failure: Some(ProjectionError::Worker),
                answer: None,
                submitted: false,
            }
        } else if memory is Err {
            ReadStep {
                schedule: WorkSchedule::AfterMillis(RETRY_SOON_MILLIS),
                failure: None,
                answer: if transfer {
                    Some(memory->Err_0)
                } else {
                    None
                },
                submitted: false,
            }
        } else if !transfer && !resident {
            ReadStep {
                schedule: WorkSchedule::AfterMillis(RETRY_SOON_MILLIS),
                failure: None,
                answer: None,
                submitted: false,
            }
        } else {
            match submitted {
                Ok(()) => ReadStep {
                    schedule: WorkSchedule::Dormant,
                    failure: None,
                    answer: None,
                    submitted: true,
                },
                Err(error) => ReadStep {
                    schedule: WorkSchedule::AfterMillis(RETRY_SOON_MILLIS),
                    failure: None,
                    answer: if transfer {
                        Some(error)
                    } else {
                        None
                    },
                    submitted: false,
                },
            }
        },
{
    let idle = ReadStep {
        schedule: WorkSchedule::AfterMillis(RETRY_SOON_MILLIS),
        failure: None,
        answer: None,
        submitted: false,
    };
    if !has_source {
        return ReadStep { schedule: WorkSchedule::Dormant, failure: Some(ProjectionError::Worker), ..idle };
    }
    if let Err(error) = memory {
        return ReadStep {
            answer: if transfer {
                Some(error)
            } else {
                None
            },
            ..idle
        };
    }
    if !transfer && !resident {
        return idle;
    }
    match submitted {
        Ok(()) => ReadStep { schedule: WorkSchedule::Dormant, submitted: true, ..idle },
        Err(error) => ReadStep {
            answer: if transfer {
                Some(error)
            } else {
                None
            },
            ..idle
        },
    }
}

/// What starting to park decided.
#[derive(Debug, Clone, Copy, PartialEq, Eq, Structural)]
pub enum ParkStep {
    /// Work is queued: run again at once and try later.
    Busy,
    /// The policy offers no park now: sleep.
    NotDue,
    /// The commit was submitted: wait for it.
    Submitted,
    /// Parking failed with this; the live model stays and the policy retries
    /// after its delay.
    Failed(ProjectionError),
}

/// Start parking. A nonempty queue is busy; a policy that offers no attempt is
/// not due. Otherwise the memory and disk reservations and the engine's
/// checkpoint (already vetted) must all be there, in that order, and the pool
/// must accept the commit; the first refusal is the failure.
pub fn park_step(
    queued: usize,
    offered: bool,
    memory: Result<(), ProjectionError>,
    disk: Result<(), ProjectionError>,
    checkpoint: Result<(), ProjectionError>,
    submitted: Result<(), ProjectionError>,
) -> (step: ParkStep)
    ensures
        step == if queued > 0 {
            ParkStep::Busy
        } else if !offered {
            ParkStep::NotDue
        } else if memory is Err {
            ParkStep::Failed(memory->Err_0)
        } else if disk is Err {
            ParkStep::Failed(disk->Err_0)
        } else if checkpoint is Err {
            ParkStep::Failed(checkpoint->Err_0)
        } else if submitted is Err {
            ParkStep::Failed(submitted->Err_0)
        } else {
            ParkStep::Submitted
        },
{
    if queued > 0 {
        return ParkStep::Busy;
    }
    if !offered {
        return ParkStep::NotDue;
    }
    if let Err(error) = memory {
        return ParkStep::Failed(error);
    }
    if let Err(error) = disk {
        return ParkStep::Failed(error);
    }
    if let Err(error) = checkpoint {
        return ParkStep::Failed(error);
    }
    match submitted {
        Err(error) => ParkStep::Failed(error),
        Ok(()) => ParkStep::Submitted,
    }
}

/// The blocking job still outstanding when both pools have shut down.
pub enum Abandoned<S> {
    /// A commit whose outcome will never be known, for this source.
    Commit(S),
    /// A restore read.
    Restore,
    /// A transfer read.
    Transfer,
    /// A deletion of this source.
    Delete(S),
}

/// What the owner must settle after teardown: every queued command fails with
/// `Worker`, every close waiter is answered `Worker`, every listed source
/// stays charged for the runtime's life, and an abandoned transfer is answered
/// `Worker`.
pub struct Shutdown<W, S> {
    pub rejected: VecDeque<Command<W>>,
    pub waiters: Vec<W>,
    pub unreclaimed: Vec<S>,
    pub transfer_failed: bool,
}

/// The sources an abandoned job leaves charged.
pub open spec fn abandoned_sources<S>(pending: Option<Abandoned<S>>) -> Seq<S> {
    match pending {
        Some(Abandoned::Commit(source)) => seq![source],
        Some(Abandoned::Delete(source)) => seq![source],
        _ => Seq::empty(),
    }
}

/// The committed source, if any, as a sequence.
pub open spec fn held_source<S>(source: Option<S>) -> Seq<S> {
    match source {
        Some(source) => seq![source],
        None => Seq::empty(),
    }
}

/// Teardown acts on every residency but `Closed`.
pub open spec fn shutdown_acts(residency: Residency) -> bool {
    !(residency is Closed)
}

/// Last-resort cleanup after both the scheduler and the blocking pool have
/// joined. A closed projection is left exactly as it is. Otherwise the
/// projection ends `Closed` with cleanup failed as `Worker`; every queued
/// command is handed back to be failed with `Worker`, releasing its staging;
/// every close waiter is handed back to be answered `Worker`; and no provider
/// call is made, so the source of an abandoned commit or deletion, every
/// source awaiting deletion and the committed source all stay charged, in
/// that order.
pub fn finish_after_shutdown<W, D: Copy, S>(
    residency: &mut Residency,
    queue: &mut AdmissionQueue<W, D>,
    reaper: &mut SourceReaper<S>,
    pending: Option<Abandoned<S>>,
    source: Option<S>,
) -> (shutdown: Shutdown<W, S>)
    ensures
        final(reaper).spec_max_attempts() == old(reaper).spec_max_attempts(),
        !shutdown_acts(*old(residency)) ==> {
            &&& *final(residency) == *old(residency)
            &&& final(queue)@ == old(queue)@
            &&& final(reaper).spec_queue() == old(reaper).spec_queue()
            &&& shutdown.rejected@.len() == 0
            &&& shutdown.waiters@.len() == 0
            &&& shutdown.unreclaimed@.len() == 0
            &&& !shutdown.transfer_failed
        },
        shutdown_acts(*old(residency)) ==> {
            &&& *final(residency) == Residency::Closed
            &&& shutdown.rejected@ == old(queue)@.queue
            &&& shutdown.waiters@ == old(queue)@.close_waiters
            &&& final(queue)@ == (AdmissionView {
                queue: Seq::empty(),
                close_waiters: Seq::empty(),
                cleanup_failure: Some(ProjectionError::Worker),
                ..old(queue)@
            })
            &&& shutdown.unreclaimed@ == abandoned_sources(pending) + sources(
                old(reaper).spec_queue(),
            ) + held_source(source)
            &&& final(reaper).spec_queue().len() == 0
            &&& shutdown.transfer_failed == (pending matches Some(Abandoned::Transfer))
        },
{
    if let Residency::Closed = *residency {
        return Shutdown {
            rejected: VecDeque::new(),
            waiters: Vec::new(),
            unreclaimed: Vec::new(),
            transfer_failed: false,
        };
    }
    let rejected = queue.abandon_close();
    let mut unreclaimed: Vec<S> = Vec::new();
    let mut transfer_failed = false;
    match pending {
        Some(Abandoned::Commit(source)) => unreclaimed.push(source),
        Some(Abandoned::Delete(source)) => unreclaimed.push(source),
        Some(Abandoned::Transfer) => transfer_failed = true,
        Some(Abandoned::Restore) => {},
        None => {},
    }
    let mut surrendered = reaper.surrender();
    unreclaimed.append(&mut surrendered);
    if let Some(source) = source {
        unreclaimed.push(source);
    }
    let waiters = queue.abandon_waiters();
    *residency = Residency::Closed;
    proof {
        assert(unreclaimed@ =~= abandoned_sources(pending) + sources(old(reaper).spec_queue())
            + held_source(source));
    }
    Shutdown { rejected, waiters, unreclaimed, transfer_failed }
}

/// Teardown runs once: the residency it leaves is one on which it does nothing.
pub proof fn shutdown_is_idempotent(residency: Residency)
    ensures
        shutdown_acts(residency) ==> !shutdown_acts(Residency::Closed),
        !shutdown_acts(Residency::Closed),
{
}

} // verus!
