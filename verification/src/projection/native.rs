//! What a worker does with one admitted command and with the reply the engine
//! generated, given the answers of the engine, the process adapter and the
//! reply-memory quota. The owner makes those calls and carries out the step.
use crate::projection::coordinator::vet_generated_reply;
use crate::projection::queue::{spec_is_closing, Command, Residency};
use crate::projection::reaper::RETRY_SOON_MILLIS;
use crate::projection::{ProcessError, ProjectionError, TerminalError, WorkSchedule};
use vstd::prelude::*;

verus! {

/// What feeding a chunk to the engine answered.
#[derive(Debug, Clone, Copy, PartialEq, Eq, Structural)]
pub enum FeedResult {
    /// No native model is held.
    NoModel,
    /// The engine panicked.
    Panicked,
    /// The engine refused with this error.
    Refused(TerminalError),
    /// The engine consumed the chunk and generated a reply of this many bytes.
    Fed(usize),
}

/// What the process and the control order answered for a queued resize.
#[derive(Debug, Clone, Copy, PartialEq, Eq)]
pub struct ResizeFacts {
    /// Whether a process is bound.
    pub process_bound: bool,
    /// The next control generation, or `None` if the generations ran out.
    pub next_generation: Option<u64>,
    /// The process adapter's answer to the timed resize.
    pub admitted: Result<(), ProcessError>,
}

/// What becomes of the command's waiter, or of the operation it started.
#[derive(Debug, Clone, Copy, PartialEq, Eq, Structural)]
pub enum Settle {
    /// Nothing is answered now.
    Nothing,
    /// The waiter is answered with this error.
    Fail(ProjectionError),
    /// The resize was refused by the process: the waiter is answered with
    /// this generation, the OS error, and the same error as the model's.
    OsRefused { generation: u64, error: ProcessError },
    /// The resize of this generation is now outstanding.
    Outstanding(u64),
    /// Extract the view and answer with it (or with its extraction error).
    Extract,
    /// Take a snapshot for the checkpoint request.
    Snapshot,
}

/// One applied command: whether it goes back to the head unfed, what the
/// projection fails with, how far the processed offset advances, whether a
/// reply is owed, what its waiter gets, and what to ask of the scheduler.
#[derive(Debug, Clone, Copy, PartialEq, Eq, Structural)]
pub struct ApplyStep {
    pub requeue: bool,
    pub failure: Option<ProjectionError>,
    pub processed: usize,
    pub reply: bool,
    pub settle: Settle,
    pub schedule: WorkSchedule,
}

/// The step that puts a command back at the head unfed, failing the
/// projection with `failure`, asking for `schedule`.
pub open spec fn put_back(failure: Option<ProjectionError>, schedule: WorkSchedule) -> ApplyStep {
    ApplyStep {
        requeue: true,
        failure,
        processed: 0,
        reply: false,
        settle: Settle::Nothing,
        schedule,
    }
}

/// A step that leaves the queue and the offset alone.
pub open spec fn settled(
    failure: Option<ProjectionError>,
    settle: Settle,
    schedule: WorkSchedule,
) -> ApplyStep {
    ApplyStep { requeue: false, failure, processed: 0, reply: false, settle, schedule }
}

/// What applying `command` does.
///
/// Output: without reply memory the chunk goes back to the head unfed and is
/// retried shortly. A missing model, an engine error or an engine panic puts
/// the chunk back, unfed, and fails the projection (`Closed`, the engine's
/// error, `Worker`); the worker then sleeps. A generated reply longer than
/// `reply_bytes` fails the projection with `Capacity` and the chunk is not
/// counted. Otherwise the processed offset advances by the chunk and a
/// nonempty reply is owed.
///
/// Resize: with no process bound it goes back to the head and the worker
/// sleeps; with no generation left its waiter and the projection fail with
/// `Capacity`; a refused OS resize is answered at once; an admitted one is
/// outstanding.
///
/// View: a waiter that has already given up (`waiter_cancelled`) gets
/// nothing and no view is extracted; otherwise a closing projection answers
/// `Closed` and an open one extracts the view. Checkpoint: a snapshot is
/// taken unless its requester has given up. Every command that was not put
/// back asks to run again at once.
pub open spec fn apply_spec<W>(
    residency: Residency,
    command: Command<W>,
    waiter_cancelled: bool,
    reply_room: bool,
    reply_bytes: usize,
    feed: FeedResult,
    resize: ResizeFacts,
) -> ApplyStep {
    let now = WorkSchedule::AfterMillis(0);
    match command {
        Command::Output(bytes) => if !reply_room {
            put_back(None, WorkSchedule::AfterMillis(RETRY_SOON_MILLIS))
        } else {
            match feed {
                FeedResult::NoModel => put_back(Some(ProjectionError::Closed), WorkSchedule::Dormant),
                FeedResult::Panicked => put_back(Some(ProjectionError::Worker), WorkSchedule::Dormant),
                FeedResult::Refused(error) => put_back(
                    Some(ProjectionError::Terminal(error)),
                    WorkSchedule::Dormant,
                ),
                FeedResult::Fed(reply_len) => if reply_len > reply_bytes {
                    settled(Some(ProjectionError::Capacity), Settle::Nothing, now)
                } else {
                    ApplyStep {
                        requeue: false,
                        failure: None,
                        processed: bytes.len(),
                        reply: reply_len > 0,
                        settle: Settle::Nothing,
                        schedule: now,
                    }
                },
            }
        },
        Command::Resize(_, _) => if !resize.process_bound {
            put_back(None, WorkSchedule::Dormant)
        } else {
            match resize.next_generation {
                None => settled(
                    Some(ProjectionError::Capacity),
                    Settle::Fail(ProjectionError::Capacity),
                    WorkSchedule::Dormant,
                ),
                Some(generation) => match resize.admitted {
                    Ok(()) => settled(None, Settle::Outstanding(generation), now),
                    Err(error) => settled(None, Settle::OsRefused { generation, error }, now),
                },
            }
        },
        Command::View(_) => if waiter_cancelled {
            settled(None, Settle::Nothing, now)
        } else if spec_is_closing(residency) {
            settled(None, Settle::Fail(ProjectionError::Closed), now)
        } else {
            settled(None, Settle::Extract, now)
        },
        Command::Checkpoint(_) => if waiter_cancelled {
            settled(None, Settle::Nothing, now)
        } else {
            settled(None, Settle::Snapshot, now)
        },
    }
}

/// Decide what applying `command` does. See `apply_spec`.
pub fn apply_step<W>(
    residency: Residency,
    command: &Command<W>,
    waiter_cancelled: bool,
    reply_room: bool,
    reply_bytes: usize,
    feed: FeedResult,
    resize: ResizeFacts,
) -> (step: ApplyStep)
    ensures
        step == apply_spec(residency, *command, waiter_cancelled, reply_room, reply_bytes, feed, resize),
{
    let now = WorkSchedule::AfterMillis(0);
    let nothing = ApplyStep {
        requeue: false,
        failure: None,
        processed: 0,
        reply: false,
        settle: Settle::Nothing,
        schedule: now,
    };
    match command {
        Command::Output(bytes) => {
            if !reply_room {
                return ApplyStep {
                    requeue: true,
                    schedule: WorkSchedule::AfterMillis(RETRY_SOON_MILLIS),
                    ..nothing
                };
            }
            let refused = match feed {
                FeedResult::NoModel => Some(ProjectionError::Closed),
                FeedResult::Panicked => Some(ProjectionError::Worker),
                FeedResult::Refused(error) => Some(ProjectionError::Terminal(error)),
                FeedResult::Fed(_) => None,
            };
            match refused {
                Some(error) => ApplyStep {
                    requeue: true,
                    failure: Some(error),
                    schedule: WorkSchedule::Dormant,
                    ..nothing
                },
                None => {
                    let reply_len = match feed {
                        FeedResult::Fed(len) => len,
                        _ => 0,
                    };
                    match vet_generated_reply(reply_len, reply_bytes) {
                        Err(error) => ApplyStep { failure: Some(error), ..nothing },
                        Ok(()) => ApplyStep {
                            processed: bytes.len(),
                            reply: reply_len > 0,
                            ..nothing
                        },
                    }
                },
            }
        },
        Command::Resize(_, _) => {
            if !resize.process_bound {
                return ApplyStep { requeue: true, schedule: WorkSchedule::Dormant, ..nothing };
            }
            match resize.next_generation {
                None => ApplyStep {
                    failure: Some(ProjectionError::Capacity),
                    settle: Settle::Fail(ProjectionError::Capacity),
                    schedule: WorkSchedule::Dormant,
                    ..nothing
                },
                Some(generation) => match resize.admitted {
                    Ok(()) => ApplyStep { settle: Settle::Outstanding(generation), ..nothing },
                    Err(error) => ApplyStep {
                        settle: Settle::OsRefused { generation, error },
                        ..nothing
                    },
                },
            }
        },
        Command::View(_) => {
            if waiter_cancelled {
                nothing
            } else if crate::projection::queue::is_closing(residency) {
                ApplyStep { settle: Settle::Fail(ProjectionError::Closed), ..nothing }
            } else {
                ApplyStep { settle: Settle::Extract, ..nothing }
            }
        },
        Command::Checkpoint(_) => if waiter_cancelled {
            nothing
        } else {
            ApplyStep { settle: Settle::Snapshot, ..nothing }
        },
    }
}

/// Where the write of a generated reply stands, as the process adapter last
/// answered.
#[derive(Debug, Clone, Copy, PartialEq, Eq)]
pub enum WriteAnswer {
    /// Not submitted yet; submitting it now was answered with this.
    Submit(Result<(), ProcessError>),
    /// Submitted and still running.
    Pending,
    /// Submitted and finished, with the bytes written and the error, if any.
    Finished { written: usize, error: Option<ProcessError> },
}

/// What becomes of a generated reply in this run.
#[derive(Debug, Clone, Copy, PartialEq, Eq, Structural)]
pub enum ReplyStep {
    /// Keep the reply and ask the scheduler for this.
    Keep(WorkSchedule),
    /// The write was submitted; poll it.
    Submitted,
    /// Drop the reply, failing the projection with this if it was not written whole.
    Drop(Option<ProjectionError>),
}

/// What happens to a generated reply of `len` bytes.
///
/// Before submission: with no process bound it is kept and the worker sleeps;
/// a full input quota (`quota_full`) or a write refused for capacity keeps it
/// and retries shortly; any other refusal drops it and fails the projection
/// with that process error. A submitted write that is still running keeps it.
/// A finished write drops it; an error or a written count other than `len`
/// fails the projection with the process error (`Io` when none was given), so
/// a partial reply is never resent.
pub open spec fn reply_spec(bound: bool, quota_full: bool, answer: WriteAnswer, len: usize) -> ReplyStep {
    match answer {
        WriteAnswer::Submit(submitted) => if !bound {
            ReplyStep::Keep(WorkSchedule::Dormant)
        } else if quota_full {
            ReplyStep::Keep(WorkSchedule::AfterMillis(RETRY_SOON_MILLIS))
        } else {
            match submitted {
                Ok(()) => ReplyStep::Submitted,
                Err(ProcessError::Capacity) => ReplyStep::Keep(
                    WorkSchedule::AfterMillis(RETRY_SOON_MILLIS),
                ),
                Err(error) => ReplyStep::Drop(Some(ProjectionError::Process(error))),
            }
        },
        WriteAnswer::Pending => ReplyStep::Keep(WorkSchedule::Dormant),
        WriteAnswer::Finished { written, error } => if error is Some || written != len {
            ReplyStep::Drop(
                Some(
                    ProjectionError::Process(
                        match error {
                            Some(error) => error,
                            None => ProcessError::Io,
                        },
                    ),
                ),
            )
        } else {
            ReplyStep::Drop(None)
        },
    }
}

/// Decide what happens to a generated reply. See `reply_spec`.
pub fn reply_step(bound: bool, quota_full: bool, answer: WriteAnswer, len: usize) -> (step: ReplyStep)
    ensures
        step == reply_spec(bound, quota_full, answer, len),
{
    match answer {
        WriteAnswer::Submit(submitted) => {
            if !bound {
                return ReplyStep::Keep(WorkSchedule::Dormant);
            }
            if quota_full {
                return ReplyStep::Keep(WorkSchedule::AfterMillis(RETRY_SOON_MILLIS));
            }
            match submitted {
                Ok(()) => ReplyStep::Submitted,
                Err(ProcessError::Capacity) => ReplyStep::Keep(
                    WorkSchedule::AfterMillis(RETRY_SOON_MILLIS),
                ),
                Err(error) => ReplyStep::Drop(Some(ProjectionError::Process(error))),
            }
        },
        WriteAnswer::Pending => ReplyStep::Keep(WorkSchedule::Dormant),
        WriteAnswer::Finished { written, error } => {
            if error.is_some() || written != len {
                let error = match error {
                    Some(error) => error,
                    None => ProcessError::Io,
                };
                ReplyStep::Drop(Some(ProjectionError::Process(error)))
            } else {
                ReplyStep::Drop(None)
            }
        },
    }
}

/// How a finished OS resize settles.
#[derive(Debug, Clone, Copy, PartialEq, Eq)]
pub struct ResizeCompletion {
    /// The model's result, answered to the waiter beside the OS result.
    pub model: Result<(), ProjectionError>,
    /// Whether the resize was applied: the size is adopted, the control
    /// generation recorded and the journal told.
    pub applied: bool,
    /// Fail the projection with this.
    pub failure: Option<ProjectionError>,
}

/// Settle a finished OS resize in a running projection. A refused OS resize
/// leaves the model alone and answers its error as the model's too. After an
/// accepted one the engine resizes the model (`native`, which is `Closed`
/// when no model is held); only if that succeeds is the resize applied, and
/// if it fails the projection fails with that error, because the OS and the
/// model now disagree.
pub fn resize_completion(
    os: Result<(), ProcessError>,
    native: Result<(), ProjectionError>,
) -> (completion: ResizeCompletion)
    ensures
        completion == match os {
            Err(error) => ResizeCompletion {
                model: Err(ProjectionError::Process(error)),
                applied: false,
                failure: None,
            },
            Ok(()) => match native {
                Ok(()) => ResizeCompletion { model: Ok(()), applied: true, failure: None },
                Err(error) => ResizeCompletion {
                    model: Err(error),
                    applied: false,
                    failure: Some(error),
                },
            },
        },
{
    match os {
        Err(error) => ResizeCompletion {
            model: Err(ProjectionError::Process(error)),
            applied: false,
            failure: None,
        },
        Ok(()) => match native {
            Ok(()) => ResizeCompletion { model: Ok(()), applied: true, failure: None },
            Err(error) => ResizeCompletion { model: Err(error), applied: false, failure: Some(error) },
        },
    }
}

/// Settle an outstanding resize during cleanup: whatever the OS answered,
/// the model is answered `Closed`, nothing is applied and nothing more fails.
/// The OS result itself goes to the waiter unchanged.
pub fn closing_resize_completion(os: Result<(), ProcessError>) -> (completion: ResizeCompletion)
    ensures
        completion == (ResizeCompletion {
            model: Err(ProjectionError::Closed),
            applied: false,
            failure: None,
        }),
{
    ResizeCompletion { model: Err(ProjectionError::Closed), applied: false, failure: None }
}

/// Where `poll_inflight_operations` goes after the reply step.
#[derive(Debug, Clone, Copy, PartialEq, Eq, Structural)]
pub enum ReplyNext {
    /// Return this schedule from the poll at once.
    Return(WorkSchedule),
    /// The write was just submitted: poll it now.
    PollWrite,
    /// The reply is settled (or there was none): go on to poll the resize.
    PollResize,
}

/// What the poll does after a reply step on `answer`: a kept reply returns
/// its schedule at once; a fresh submission is polled at once; a reply
/// dropped because the process refused the submission returns `Dormant` at
/// once; a reply dropped after its write finished (whole or not) goes on to
/// the pending resize in the same poll.
pub open spec fn reply_next_spec(bound: bool, quota_full: bool, answer: WriteAnswer, len: usize) -> ReplyNext {
    match reply_spec(bound, quota_full, answer, len) {
        ReplyStep::Keep(schedule) => ReplyNext::Return(schedule),
        ReplyStep::Submitted => ReplyNext::PollWrite,
        ReplyStep::Drop(_) => if answer is Submit {
            ReplyNext::Return(WorkSchedule::Dormant)
        } else {
            ReplyNext::PollResize
        },
    }
}

/// Decide where the poll goes after the reply step. See `reply_next_spec`.
pub fn reply_next(bound: bool, quota_full: bool, answer: WriteAnswer, len: usize) -> (next: ReplyNext)
    ensures
        next == reply_next_spec(bound, quota_full, answer, len),
{
    match reply_step(bound, quota_full, answer, len) {
        ReplyStep::Keep(schedule) => ReplyNext::Return(schedule),
        ReplyStep::Submitted => ReplyNext::PollWrite,
        ReplyStep::Drop(_) => match answer {
            WriteAnswer::Submit(_) => ReplyNext::Return(WorkSchedule::Dormant),
            _ => ReplyNext::PollResize,
        },
    }
}

/// A chunk that met no reply memory, a missing model, an engine error or an
/// engine panic is never counted: it goes back to the head and the processed
/// offset does not move. A chunk is counted only when the engine consumed it
/// within the reply bound, and then by exactly its length.
pub proof fn unfed_chunks_are_never_counted<W>(
    residency: Residency,
    bytes: Vec<u8>,
    reply_room: bool,
    reply_bytes: usize,
    feed: FeedResult,
    resize: ResizeFacts,
)
    ensures
        ({
            let step = apply_spec(
                residency,
                Command::<W>::Output(bytes),
                false,
                reply_room,
                reply_bytes,
                feed,
                resize,
            );
            &&& step.requeue ==> step.processed == 0
            &&& step.processed != 0 ==> (reply_room && (feed matches FeedResult::Fed(len)
                && len <= reply_bytes) && step.processed == bytes.len())
            &&& (!reply_room || !(feed is Fed)) ==> step.requeue
        }),
{
}

} // verus!
