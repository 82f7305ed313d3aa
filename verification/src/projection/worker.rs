//! The decisions a projection worker run makes between native calls: which
//! phase it is in, which queued command a restore step may take, how long an
//! output batch may run, and what to ask of the scheduler when idle.
use crate::projection::queue::{spec_is_closing, Command, Residency};
use crate::projection::WorkSchedule;
use vstd::prelude::*;

verus! {

/// How many queued output chunks one worker run may feed before returning.
pub const OUTPUT_BATCH: usize = 32;

/// How many queued output bytes one worker run may feed in total. Checked
/// before a chunk is taken, so the chunk that crosses it may overshoot.
pub const OUTPUT_BATCH_BYTES: usize = 256 * 1024;

/// What a run is for, once closing and failure are ruled out.
#[derive(Debug, Clone, Copy, PartialEq, Eq, Structural)]
pub enum Phase {
    /// No live model: read the committed source back.
    Detached,
    /// Screens are usable: interleave history steps with commands.
    Restoring,
    /// Drain the queue, reap sources, consider parking.
    Serving,
}

impl Phase {
    /// The phase for this residency, given whether a native model is held.
    pub fn of(residency: Residency, has_terminal: bool) -> (phase: Phase)
        ensures
            phase == if !has_terminal {
                Phase::Detached
            } else if residency is Usable {
                Phase::Restoring
            } else {
                Phase::Serving
            },
    {
        if !has_terminal {
            Phase::Detached
        } else if let Residency::Usable = residency {
            Phase::Restoring
        } else {
            Phase::Serving
        }
    }
}

/// The first step of a run, decided from the residency observed after the
/// finished blocking job was applied.
#[derive(Debug, Clone, Copy, PartialEq, Eq, Structural)]
pub enum RunStep {
    /// Closing or closed: run cleanup.
    Cleanup,
    /// Failed: only reap sources.
    WhileFailed,
    /// Poll in-flight operations, then work in the phase for this residency.
    Work,
}

/// The first step of a run for this residency.
pub fn run_step(residency: Residency) -> (step: RunStep)
    ensures
        step == if spec_is_closing(residency) {
            RunStep::Cleanup
        } else if residency is Failed {
            RunStep::WhileFailed
        } else {
            RunStep::Work
        },
{
    match residency {
        Residency::Closing | Residency::Closed => RunStep::Cleanup,
        Residency::Failed => RunStep::WhileFailed,
        _ => RunStep::Work,
    }
}

/// What a worker asks of the scheduler after its run itself failed.
pub fn failed_schedule(residency: Residency) -> (schedule: WorkSchedule)
    ensures
        schedule == match residency {
            Residency::Closing => WorkSchedule::AfterMillis(0),
            Residency::Closed => WorkSchedule::Finished,
            _ => WorkSchedule::Dormant,
        },
{
    match residency {
        Residency::Closing => WorkSchedule::AfterMillis(0),
        Residency::Closed => WorkSchedule::Finished,
        _ => WorkSchedule::Dormant,
    }
}

/// Whether a restore step may take this command: a view always, output and
/// resizes only from an engine that accepts mutation during restore, and a
/// checkpoint never.
pub open spec fn spec_restoring_admits<W>(command: Command<W>, mutation_during_restore: bool) -> bool {
    match command {
        Command::View(_) => true,
        Command::Output(_) | Command::Resize(_, _) => mutation_during_restore,
        Command::Checkpoint(_) => false,
    }
}

/// Whether a restore step may take this command.
pub fn restoring_admits<W>(command: &Command<W>, mutation_during_restore: bool) -> (admits: bool)
    ensures
        admits == spec_restoring_admits(*command, mutation_during_restore),
{
    match command {
        Command::View(_) => true,
        Command::Output(_) | Command::Resize(_, _) => mutation_during_restore,
        Command::Checkpoint(_) => false,
    }
}

/// What a restore step may take: with an engine that does not accept mutation
/// during restore, views and nothing else; with one that does, everything but
/// a checkpoint. Allowing mutation only ever admits more.
pub proof fn restoring_admits_only_views_without_mutation<W>(command: Command<W>)
    ensures
        spec_restoring_admits(command, false) <==> command is View,
        spec_restoring_admits(command, true) <==> !(command is Checkpoint),
        spec_restoring_admits(command, false) ==> spec_restoring_admits(command, true),
        command is Checkpoint ==> !spec_restoring_admits(command, true),
{
}

/// Whether an output batch may take another chunk: fewer than the chunk and
/// byte bounds have been applied, the last chunk asked to run again at once,
/// and no reply or resize is outstanding.
pub fn continue_batch(
    applied: usize,
    batched_bytes: usize,
    schedule: WorkSchedule,
    engine_idle: bool,
) -> (more: bool)
    ensures
        more == (applied < OUTPUT_BATCH && batched_bytes < OUTPUT_BATCH_BYTES && schedule
            == WorkSchedule::AfterMillis(0) && engine_idle),
        more ==> applied + 1 <= OUTPUT_BATCH,
{
    let immediate = match schedule {
        WorkSchedule::AfterMillis(delay) => delay == 0,
        _ => false,
    };
    applied < OUTPUT_BATCH && batched_bytes < OUTPUT_BATCH_BYTES && immediate && engine_idle
}

/// What an idle serving run does about parking.
#[derive(Debug, Clone, Copy, PartialEq, Eq, Structural)]
pub enum IdleStep {
    /// Parking is due now: start it.
    StartPark,
    /// Ask the scheduler for this.
    Schedule(WorkSchedule),
}

/// The idle step for the policy's parking delay in milliseconds, `None` when
/// parking is not on offer.
pub fn idle_step(park_delay_millis: Option<u64>) -> (step: IdleStep)
    ensures
        step == match park_delay_millis {
            Some(delay) => if delay == 0 {
                IdleStep::StartPark
            } else {
                IdleStep::Schedule(WorkSchedule::AfterMillis(delay))
            },
            None => IdleStep::Schedule(WorkSchedule::Dormant),
        },
{
    match park_delay_millis {
        Some(delay) => if delay == 0 {
            IdleStep::StartPark
        } else {
            IdleStep::Schedule(WorkSchedule::AfterMillis(delay))
        },
        None => IdleStep::Schedule(WorkSchedule::Dormant),
    }
}

} // verus!
