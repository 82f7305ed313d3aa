//! The admitted-work half of a projection.
//!
//! Holds what has been accepted and not yet applied, the reader's final drain
//! fact, who is waiting on cleanup, and the failures cleanup must report. The
//! policy that decides residency and positions stays with its owner: each
//! operation here that depends on it is handed the policy's current answer, and
//! the owner runs the operation and its policy update under one exclusive
//! borrow, so no other admission can interleave between the two.
use crate::process::OutputAcceptance;
use crate::projection::ProjectionError;
use crate::terminal::TerminalSize;
use std::collections::VecDeque;
use vstd::prelude::*;

verus! {

/// Who owns the terminal model right now.
#[derive(Debug, Clone, Copy, PartialEq, Eq, Structural)]
pub enum Residency {
    /// A live native model serves every command.
    Resident,
    /// A checkpoint of the live model is being committed.
    Parking,
    /// The model lives only in its committed source.
    Parked,
    /// The committed source is being read back.
    Restoring,
    /// Screens are usable while history is still being validated.
    Usable,
    /// The projection failed; staged output is retained.
    Failed,
    /// Cleanup has been requested.
    Closing,
    /// Cleanup has finished.
    Closed,
}

/// Whether cleanup has been requested or has finished.
pub open spec fn spec_is_closing(residency: Residency) -> bool {
    residency is Closing || residency is Closed
}

/// Whether cleanup has been requested or has finished.
pub fn is_closing(residency: Residency) -> (closing: bool)
    ensures
        closing == spec_is_closing(residency),
{
    match residency {
        Residency::Closing | Residency::Closed => true,
        _ => false,
    }
}

/// One admitted unit of work. `W` is the handle by which the caller waiting on
/// its outcome is found again.
#[derive(Debug, Clone, PartialEq, Eq)]
pub enum Command<W> {
    /// Reader bytes to feed to the engine.
    Output(Vec<u8>),
    /// A resize to apply to the process and the model.
    Resize(TerminalSize, W),
    /// A copied observation of the model.
    View(W),
    /// A binary transfer pin at an exact boundary.
    Checkpoint(W),
}

/// Whether a command is staged reader output.
pub open spec fn is_output<W>(command: Command<W>) -> bool {
    command is Output
}

/// Whether a command mutates the model: output or a resize.
pub open spec fn is_mutation<W>(command: Command<W>) -> bool {
    command is Output || command is Resize
}

/// The commands of a queue that are staged output, in order.
pub open spec fn outputs<W>(queue: Seq<Command<W>>) -> Seq<Command<W>> {
    queue.filter(|command: Command<W>| is_output(command))
}

/// The commands of a queue that are not staged output, in order.
pub open spec fn non_outputs<W>(queue: Seq<Command<W>>) -> Seq<Command<W>> {
    queue.filter(|command: Command<W>| !is_output(command))
}

/// Why admission is refused right now: closing first, then a recorded failure.
pub open spec fn refusal(residency: Residency, failure: Option<ProjectionError>) -> Option<
    ProjectionError,
> {
    if spec_is_closing(residency) {
        Some(ProjectionError::Closed)
    } else {
        failure
    }
}

/// Whether any queued command would still mutate the model.
pub open spec fn holds_mutation<W>(queue: Seq<Command<W>>) -> bool {
    exists|i: int| 0 <= i < queue.len() && is_mutation(#[trigger] queue[i])
}

/// The durable cleanup result a recorded failure stands for.
pub open spec fn outcome_of(failure: Option<ProjectionError>) -> Result<(), ProjectionError> {
    match failure {
        Some(error) => Err(error),
        None => Ok(()),
    }
}

/// What a reader chunk should become, decided before anything is reserved.
#[derive(Debug, Clone, Copy, PartialEq, Eq, Structural)]
pub enum OutputScreen {
    /// Refuse with this answer; no position may advance.
    Refuse(OutputAcceptance),
    /// Accept with nothing to queue, as an empty chunk is.
    Empty,
    /// Reserve staging, copy and record the bytes, then queue them.
    Stage,
}

/// What an output chunk should become, decided under the admission borrow.
pub enum OutputAdmission<W> {
    /// Queue this command.
    Queue(Command<W>),
    /// Accept with nothing to queue, as an empty chunk does.
    Nothing,
    /// Do not accept, for this reason. No position may advance.
    Rejected(OutputAcceptance),
}

/// What admitting an output chunk actually did. Only `Queued` has given the
/// worker something to do.
#[derive(Debug, Clone, Copy, PartialEq, Eq, Structural)]
pub enum OutputOutcome {
    /// Queued; the caller must wake the worker.
    Queued,
    /// Accepted without queueing; the caller must not wake.
    Accepted,
    /// Rejected with this reason.
    Rejected(OutputAcceptance),
}

/// The outcome of asking for cleanup.
pub enum CloseRequest<W> {
    /// Cleanup already finished; this is its durable result.
    AlreadyClosed(Result<(), ProjectionError>),
    /// Closure has begun; these commands were queued and must be rejected.
    Started(VecDeque<Command<W>>),
}

/// The failure a finished close reports: the one given, or else the failure
/// of a commit whose outcome was never known.
pub open spec fn close_failure(
    unreclaimed_failure: Option<ProjectionError>,
    failed: Option<ProjectionError>,
) -> Option<ProjectionError> {
    if failed is Some {
        failed
    } else {
        unreclaimed_failure
    }
}

/// The admission state as plain values.
pub struct AdmissionView<W, D> {
    /// Admitted commands, oldest first.
    pub queue: Seq<Command<W>>,
    /// The reader's final drain, once reported.
    pub drain: Option<D>,
    /// Callers waiting for the durable cleanup outcome.
    pub close_waiters: Seq<W>,
    /// A commit whose outcome is unknown; cleanup must report it.
    pub unreclaimed_failure: Option<ProjectionError>,
    /// The cleanup failure carried so far.
    pub cleanup_failure: Option<ProjectionError>,
    /// Whether an explicit close asked for abandoned sources to be retried.
    pub retry_cleanup: bool,
}

/// What has been admitted and not yet applied, and what cleanup must settle.
pub struct AdmissionQueue<W, D> {
    queue: VecDeque<Command<W>>,
    output_drain: Option<D>,
    close_waiters: Vec<W>,
    unreclaimed_failure: Option<ProjectionError>,
    cleanup_failure: Option<ProjectionError>,
    retry_cleanup: bool,
}

impl<W, D> View for AdmissionQueue<W, D> {
    type V = AdmissionView<W, D>;

    closed spec fn view(&self) -> AdmissionView<W, D> {
        AdmissionView {
            queue: self.queue@,
            drain: self.output_drain,
            close_waiters: self.close_waiters@,
            unreclaimed_failure: self.unreclaimed_failure,
            cleanup_failure: self.cleanup_failure,
            retry_cleanup: self.retry_cleanup,
        }
    }
}

impl<W, D: Copy> AdmissionQueue<W, D> {
    /// Nothing admitted, no drain reported, nobody waiting, nothing failed.
    pub fn new() -> (admission: Self)
        ensures
            admission@.queue == Seq::<Command<W>>::empty(),
            admission@.drain is None,
            admission@.close_waiters == Seq::<W>::empty(),
            admission@.unreclaimed_failure is None,
            admission@.cleanup_failure is None,
            !admission@.retry_cleanup,
    {
        AdmissionQueue {
            queue: VecDeque::new(),
            output_drain: None,
            close_waiters: Vec::new(),
            unreclaimed_failure: None,
            cleanup_failure: None,
            retry_cleanup: false,
        }
    }

    /// Whether new work may be admitted, given the policy's residency and
    /// recorded failure. A closing projection refuses with `Closed` before a
    /// recorded failure is reported.
    pub fn check_accepting(residency: Residency, failure: Option<ProjectionError>) -> (accepting:
        Result<(), ProjectionError>)
        ensures
            accepting == match refusal(residency, failure) {
                Some(error) => Err(error),
                None => Ok(()),
            },
    {
        if is_closing(residency) {
            return Err(ProjectionError::Closed);
        }
        match failure {
            Some(error) => Err(error),
            None => Ok(()),
        }
    }

    /// Admit one command at the back, if work is being accepted. The command is
    /// built by the owner after `check_accepting` passed, under the same
    /// exclusive borrow; a refused command is handed back untouched.
    pub fn accept_command(
        &mut self,
        residency: Residency,
        failure: Option<ProjectionError>,
        command: Command<W>,
    ) -> (admitted: Result<(), (Command<W>, ProjectionError)>)
        ensures
            refusal(residency, failure) matches Some(error) ==> {
                &&& admitted == Err::<(), _>((command, error))
                &&& final(self)@ == old(self)@
            },
            refusal(residency, failure) is None ==> {
                &&& admitted is Ok
                &&& final(self)@ == (AdmissionView { queue: old(self)@.queue.push(command), ..old(self)@ })
            },
    {
        match Self::check_accepting(residency, failure) {
            Err(error) => Err((command, error)),
            Ok(()) => {
                self.queue.push_back(command);
                Ok(())
            },
        }
    }

    /// Put a command back at the head. A closing projection hands it back to
    /// be failed with `Closed` instead.
    pub fn requeue(&mut self, residency: Residency, command: Command<W>) -> (refused: Option<
        Command<W>,
    >)
        ensures
            spec_is_closing(residency) ==> {
                &&& refused == Some(command)
                &&& final(self)@ == old(self)@
            },
            !spec_is_closing(residency) ==> {
                &&& refused is None
                &&& final(self)@ == (AdmissionView {
                    queue: seq![command] + old(self)@.queue,
                    ..old(self)@
                })
            },
    {
        if is_closing(residency) {
            Some(command)
        } else {
            let ghost before = self.queue@;
            self.queue.push_front(command);
            assert(self.queue@ =~= seq![command] + before);
            None
        }
    }

    /// Take the oldest command, if any.
    pub fn take_next(&mut self) -> (next: Option<Command<W>>)
        ensures
            old(self)@.queue.len() == 0 ==> {
                &&& next is None
                &&& final(self)@ == old(self)@
            },
            old(self)@.queue.len() > 0 ==> {
                &&& next == Some(old(self)@.queue[0])
                &&& final(self)@ == (AdmissionView {
                    queue: old(self)@.queue.drop_first(),
                    ..old(self)@
                })
            },
    {
        self.queue.pop_front()
    }

    /// Decide what a reader chunk of `len` bytes becomes, before anything is
    /// reserved: closing or an already reported drain refuses with `Closed`, an
    /// empty chunk is accepted without queueing, a chunk over `feed_bytes` is
    /// refused with `Backpressure`, and anything else goes on to be staged.
    pub fn screen_output(&self, residency: Residency, len: usize, feed_bytes: usize) -> (screen:
        OutputScreen)
        ensures
            screen == if spec_is_closing(residency) || self@.drain is Some {
                OutputScreen::Refuse(OutputAcceptance::Closed)
            } else if len == 0 {
                OutputScreen::Empty
            } else if len > feed_bytes {
                OutputScreen::Refuse(OutputAcceptance::Backpressure)
            } else {
                OutputScreen::Stage
            },
    {
        if is_closing(residency) {
            return OutputScreen::Refuse(OutputAcceptance::Closed);
        }
        if self.is_draining() {
            return OutputScreen::Refuse(OutputAcceptance::Closed);
        }
        if len == 0 {
            return OutputScreen::Empty;
        }
        if len > feed_bytes {
            return OutputScreen::Refuse(OutputAcceptance::Backpressure);
        }
        OutputScreen::Stage
    }

    /// Carry out an output decision: queue the command at the back, or report
    /// what was decided without touching the queue.
    pub fn admit_output(&mut self, admission: OutputAdmission<W>) -> (outcome: OutputOutcome)
        ensures
            admission matches OutputAdmission::Queue(command) ==> {
                &&& outcome == OutputOutcome::Queued
                &&& final(self)@ == (AdmissionView { queue: old(self)@.queue.push(command), ..old(self)@ })
            },
            admission is Nothing ==> {
                &&& outcome == OutputOutcome::Accepted
                &&& final(self)@ == old(self)@
            },
            admission matches OutputAdmission::Rejected(reason) ==> {
                &&& outcome == OutputOutcome::Rejected(reason)
                &&& final(self)@ == old(self)@
            },
    {
        match admission {
            OutputAdmission::Queue(command) => {
                self.queue.push_back(command);
                OutputOutcome::Queued
            },
            OutputAdmission::Nothing => OutputOutcome::Accepted,
            OutputAdmission::Rejected(reason) => OutputOutcome::Rejected(reason),
        }
    }

    /// Whether any work is queued and, if the head is a checkpoint, that
    /// command, both from one look at the queue.
    pub fn take_checkpoint_if_any_work(&mut self) -> (taken: Option<Option<Command<W>>>)
        ensures
            old(self)@.queue.len() == 0 ==> {
                &&& taken is None
                &&& final(self)@ == old(self)@
            },
            old(self)@.queue.len() > 0 && old(self)@.queue[0] is Checkpoint ==> {
                &&& taken == Some(Some(old(self)@.queue[0]))
                &&& final(self)@ == (AdmissionView {
                    queue: old(self)@.queue.drop_first(),
                    ..old(self)@
                })
            },
            old(self)@.queue.len() > 0 && !(old(self)@.queue[0] is Checkpoint) ==> {
                &&& taken == Some(None::<Command<W>>)
                &&& final(self)@ == old(self)@
            },
    {
        if self.queue.len() == 0 {
            return None;
        }
        let head_is_checkpoint = match &self.queue[0] {
            Command::Checkpoint(_) => true,
            _ => false,
        };
        if head_is_checkpoint {
            Some(self.queue.pop_front())
        } else {
            Some(None)
        }
    }

    /// Take the head only if `allowed` accepts it.
    pub fn take_next_if<F: Fn(&Command<W>) -> bool>(&mut self, allowed: F) -> (taken: Option<
        Command<W>,
    >)
        requires
            forall|command: Command<W>| allowed.requires((&command,)),
        ensures
            old(self)@.queue.len() == 0 ==> {
                &&& taken is None
                &&& final(self)@ == old(self)@
            },
            taken matches Some(command) ==> {
                &&& old(self)@.queue.len() > 0
                &&& command == old(self)@.queue[0]
                &&& allowed.ensures((&old(self)@.queue[0],), true)
                &&& final(self)@ == (AdmissionView {
                    queue: old(self)@.queue.drop_first(),
                    ..old(self)@
                })
            },
            taken is None && old(self)@.queue.len() > 0 ==> {
                &&& allowed.ensures((&old(self)@.queue[0],), false)
                &&& final(self)@ == old(self)@
            },
    {
        if self.queue.len() == 0 {
            return None;
        }
        let take = allowed(&self.queue[0]);
        if take {
            self.queue.pop_front()
        } else {
            None
        }
    }

    /// Take the head for an output batch: only staged output, and only while
    /// the projection has not failed. A failure read between chunks ends the
    /// batch and leaves the retained output queued.
    pub fn take_next_output_while_serving(&mut self, failure: Option<ProjectionError>) -> (taken:
        Option<Command<W>>)
        ensures
            failure is None && old(self)@.queue.len() > 0 && is_output(old(self)@.queue[0]) ==> {
                &&& taken == Some(old(self)@.queue[0])
                &&& final(self)@ == (AdmissionView {
                    queue: old(self)@.queue.drop_first(),
                    ..old(self)@
                })
            },
            !(failure is None && old(self)@.queue.len() > 0 && is_output(old(self)@.queue[0])) ==> {
                &&& taken is None
                &&& final(self)@ == old(self)@
            },
    {
        if failure.is_some() || self.queue.len() == 0 {
            return None;
        }
        let output = match &self.queue[0] {
            Command::Output(_) => true,
            _ => false,
        };
        if output {
            self.queue.pop_front()
        } else {
            None
        }
    }

    /// Whether parking may observe a quiet projection: the caller's native
    /// state is idle and nothing is queued.
    pub fn is_quiet(&self, engine_idle: bool) -> (quiet: bool)
        ensures
            quiet == (engine_idle && self@.queue.len() == 0),
    {
        engine_idle && self.queue.len() == 0
    }

    /// A commit whose outcome is unknown: storage may hold ciphertext that
    /// cannot be accounted for, so cleanup must report the failure.
    pub fn park_outcome_uncertain(&mut self, error: ProjectionError)
        ensures
            final(self)@ == (AdmissionView { unreclaimed_failure: Some(error), ..old(self)@ }),
    {
        self.unreclaimed_failure = Some(error);
    }

    /// Background cleanup exhausted its retries; the model is still live.
    pub fn maintenance_failed(&mut self, error: ProjectionError)
        ensures
            final(self)@ == (AdmissionView { cleanup_failure: Some(error), ..old(self)@ }),
    {
        self.cleanup_failure = Some(error);
    }

    /// Record the reader's final drain. Only the first report counts.
    pub fn record_drain(&mut self, outcome: D)
        ensures
            final(self)@ == (AdmissionView {
                drain: if old(self)@.drain is Some {
                    old(self)@.drain
                } else {
                    Some(outcome)
                },
                ..old(self)@
            }),
    {
        if self.output_drain.is_none() {
            self.output_drain = Some(outcome);
        }
    }

    /// Whether the reader has reported its final drain, after which no further
    /// output or control may be admitted.
    pub fn is_draining(&self) -> (draining: bool)
        ensures
            draining == (self@.drain is Some),
    {
        self.output_drain.is_some()
    }

    /// Whether any queued command would still mutate the model.
    pub fn holds_mutation(&self) -> (holds: bool)
        ensures
            holds == holds_mutation(self@.queue),
    {
        let mut i: usize = 0;
        while i < self.queue.len()
            invariant
                i <= self.queue@.len(),
                forall|j: int| 0 <= j < i ==> !is_mutation(#[trigger] self.queue@[j]),
            decreases self.queue@.len() - i,
        {
            let mutation = match &self.queue[i] {
                Command::Output(_) | Command::Resize(_, _) => true,
                _ => false,
            };
            if mutation {
                assert(is_mutation(self.queue@[i as int]));
                return true;
            }
            i += 1;
        }
        false
    }

    /// The drain outcome, once every admitted mutation has been applied and
    /// nothing can still extend the stream: a drain was reported, the engine is
    /// idle, the model is neither restoring nor only usable, no output or
    /// resize is queued, everything admitted has been published (`caught_up`)
    /// and nothing has failed.
    pub fn settled_drain(
        &self,
        engine_idle: bool,
        residency: Residency,
        caught_up: bool,
        failure: Option<ProjectionError>,
    ) -> (settled: Option<D>)
        ensures
            settled == if self@.drain is Some && engine_idle && !(residency is Restoring)
                && !(residency is Usable) && !holds_mutation(self@.queue) && caught_up
                && failure is None {
                self@.drain
            } else {
                None
            },
    {
        let live = match residency {
            Residency::Restoring | Residency::Usable => true,
            _ => false,
        };
        let ready = self.output_drain.is_some() && engine_idle && !live && caught_up
            && failure.is_none() && !self.holds_mutation();
        if ready {
            self.output_drain
        } else {
            None
        }
    }

    /// Fail the projection's admitted work: staged output stays queued in its
    /// order, every other command is handed back, in order, to be failed.
    /// Also returns the drain fact known at this moment.
    pub fn fail(&mut self) -> (failed: (Vec<Command<W>>, Option<D>))
        ensures
            failed.0@ == non_outputs(old(self)@.queue),
            failed.1 == old(self)@.drain,
            final(self)@ == (AdmissionView { queue: outputs(old(self)@.queue), ..old(self)@ }),
    {
        let ghost initial = self.queue@;
        let mut queued: VecDeque<Command<W>> = VecDeque::new();
        core::mem::swap(&mut queued, &mut self.queue);
        let mut rejected: Vec<Command<W>> = Vec::new();
        let ghost mut seen: int = 0;
        while queued.len() > 0
            invariant
                0 <= seen <= initial.len(),
                queued@ == initial.skip(seen),
                self.queue@ == outputs(initial.take(seen)),
                rejected@ == non_outputs(initial.take(seen)),
                self.output_drain == old(self).output_drain,
                self.close_waiters == old(self).close_waiters,
                self.unreclaimed_failure == old(self).unreclaimed_failure,
                self.cleanup_failure == old(self).cleanup_failure,
                self.retry_cleanup == old(self).retry_cleanup,
            decreases queued@.len(),
        {
            let ghost prefix = initial.take(seen);
            let front = queued.pop_front();
            match front {
                Some(command) => {
                    proof {
                        assert(command == initial[seen]);
                        assert(initial.take(seen + 1).drop_last() =~= prefix);
                        assert(initial.take(seen + 1).last() == command);
                        reveal(Seq::filter);
                    }
                    let output = match &command {
                        Command::Output(_) => true,
                        _ => false,
                    };
                    if output {
                        self.queue.push_back(command);
                    } else {
                        rejected.push(command);
                    }
                    proof {
                        seen = seen + 1;
                        assert(queued@ =~= initial.skip(seen));
                    }
                },
                None => {},
            }
        }
        assert(initial.take(seen) =~= initial);
        (rejected, self.output_drain)
    }

    /// Request cleanup, registering `waiter` for the durable outcome. A
    /// projection whose cleanup already finished answers with its recorded
    /// outcome and changes nothing; otherwise closure begins: the carried
    /// cleanup failure is cleared, abandoned sources are to be retried, and
    /// everything queued is handed back to be rejected.
    pub fn request_close(&mut self, residency: Residency, waiter: Option<W>) -> (request:
        CloseRequest<W>)
        ensures
            residency is Closed ==> {
                &&& request matches CloseRequest::AlreadyClosed(outcome) && outcome == outcome_of(
                    old(self)@.cleanup_failure,
                )
                &&& final(self)@ == old(self)@
            },
            !(residency is Closed) ==> {
                &&& request matches CloseRequest::Started(rejected) && rejected@ == old(
                    self,
                )@.queue
                &&& final(self)@ == (AdmissionView {
                    queue: Seq::empty(),
                    close_waiters: match waiter {
                        Some(waiter) => old(self)@.close_waiters.push(waiter),
                        None => old(self)@.close_waiters,
                    },
                    cleanup_failure: None,
                    retry_cleanup: true,
                    ..old(self)@
                })
            },
    {
        if let Residency::Closed = residency {
            return CloseRequest::AlreadyClosed(
                match self.cleanup_failure {
                    Some(error) => Err(error),
                    None => Ok(()),
                },
            );
        }
        self.cleanup_failure = None;
        self.retry_cleanup = true;
        if let Some(waiter) = waiter {
            self.close_waiters.push(waiter);
        }
        let mut rejected: VecDeque<Command<W>> = VecDeque::new();
        core::mem::swap(&mut rejected, &mut self.queue);
        CloseRequest::Started(rejected)
    }

    /// The durable cleanup result, or `None` while cleanup is outstanding.
    pub fn close_outcome(&self, residency: Residency) -> (outcome: Option<
        Result<(), ProjectionError>,
    >)
        ensures
            outcome == if residency is Closed {
                Some(outcome_of(self@.cleanup_failure))
            } else {
                None
            },
    {
        if let Residency::Closed = residency {
            Some(
                match self.cleanup_failure {
                    Some(error) => Err(error),
                    None => Ok(()),
                },
            )
        } else {
            None
        }
    }

    /// The cleanup failure carried so far, and whether an explicit close asked
    /// for abandoned sources to be retried; the request is consumed.
    pub fn take_cleanup_retry(&mut self) -> (taken: (Option<ProjectionError>, bool))
        ensures
            taken == (old(self)@.cleanup_failure, old(self)@.retry_cleanup),
            final(self)@ == (AdmissionView { retry_cleanup: false, ..old(self)@ }),
    {
        let retry = self.retry_cleanup;
        self.retry_cleanup = false;
        (self.cleanup_failure, retry)
    }

    /// Close permanently, folding in any unreclaimed-storage failure. Returns
    /// the waiters to settle and the outcome to settle them with.
    pub fn finish_close(&mut self, failed: Option<ProjectionError>) -> (settled: (
        Vec<W>,
        Option<ProjectionError>,
    ))
        ensures
            settled.0@ == old(self)@.close_waiters,
            settled.1 == close_failure(old(self)@.unreclaimed_failure, failed),
            final(self)@ == (AdmissionView {
                close_waiters: Seq::empty(),
                cleanup_failure: settled.1,
                ..old(self)@
            }),
    {
        let failed = match failed {
            Some(error) => Some(error),
            None => self.unreclaimed_failure,
        };
        self.cleanup_failure = failed;
        let mut waiters: Vec<W> = Vec::new();
        core::mem::swap(&mut waiters, &mut self.close_waiters);
        (waiters, failed)
    }

    /// Abandon cleanup after both pools have joined: nothing can run again, so
    /// the outcome is worker failure. Returns everything that was queued.
    pub fn abandon_close(&mut self) -> (rejected: VecDeque<Command<W>>)
        ensures
            rejected@ == old(self)@.queue,
            final(self)@ == (AdmissionView {
                queue: Seq::empty(),
                cleanup_failure: Some(ProjectionError::Worker),
                ..old(self)@
            }),
    {
        self.cleanup_failure = Some(ProjectionError::Worker);
        let mut rejected: VecDeque<Command<W>> = VecDeque::new();
        core::mem::swap(&mut rejected, &mut self.queue);
        rejected
    }

    /// Settle as failed after abandoning cleanup. Returns the waiters.
    pub fn abandon_waiters(&mut self) -> (waiters: Vec<W>)
        ensures
            waiters@ == old(self)@.close_waiters,
            final(self)@ == (AdmissionView { close_waiters: Seq::empty(), ..old(self)@ }),
    {
        let mut waiters: Vec<W> = Vec::new();
        core::mem::swap(&mut waiters, &mut self.close_waiters);
        waiters
    }

    /// How many commands are waiting.
    pub fn queued(&self) -> (count: usize)
        ensures
            count == self@.queue.len(),
    {
        self.queue.len()
    }
}

/// Failing a projection loses no admitted command: every command is either
/// kept as staged output or handed back to be failed, exactly once.
pub proof fn failure_loses_no_command<W>(queue: Seq<Command<W>>)
    ensures
        outputs(queue).len() + non_outputs(queue).len() == queue.len(),
        outputs(queue).to_multiset().add(non_outputs(queue).to_multiset()) == queue.to_multiset(),
    decreases queue.len(),
{
    broadcast use vstd::seq_lib::group_to_multiset_ensures;

    if queue.len() > 0 {
        let rest = queue.drop_last();
        failure_loses_no_command(rest);
        reveal(Seq::filter);
        assert(queue =~= rest.push(queue.last()));
    } else {
        reveal(Seq::filter);
        assert(outputs(queue).to_multiset() =~= vstd::multiset::Multiset::empty());
        assert(non_outputs(queue).to_multiset() =~= vstd::multiset::Multiset::empty());
        assert(queue.to_multiset() =~= vstd::multiset::Multiset::empty());
    }
}

/// Failing again rejects nothing more: after a failure only staged output is
/// queued, and a second failure keeps all of it.
pub proof fn failure_is_idempotent<W>(queue: Seq<Command<W>>)
    ensures
        outputs(outputs(queue)) == outputs(queue),
        non_outputs(outputs(queue)) == Seq::<Command<W>>::empty(),
    decreases queue.len(),
{
    if queue.len() > 0 {
        let rest = queue.drop_last();
        failure_is_idempotent(rest);
        reveal(Seq::filter);
        if is_output(queue.last()) {
            assert(outputs(queue).drop_last() =~= outputs(rest));
        }
    } else {
        reveal(Seq::filter);
    }
}

/// Putting a command back and taking the next one returns that same command
/// and leaves the queue as it was.
pub proof fn requeue_is_undone_by_take<W>(queue: Seq<Command<W>>, command: Command<W>)
    ensures
        (seq![command] + queue).len() > 0,
        (seq![command] + queue)[0] == command,
        (seq![command] + queue).drop_first() == queue,
{
    assert((seq![command] + queue).drop_first() =~= queue);
}

/// A drain is never settled while any output or resize is still queued.
pub proof fn queued_mutation_blocks_settling<W>(queue: Seq<Command<W>>, i: int)
    requires
        0 <= i < queue.len(),
        is_mutation(queue[i]),
    ensures
        holds_mutation(queue),
{
}

/// After a commit whose outcome was never known, every close fails: beginning
/// a close keeps that failure, finishing one reports a failure, and the state
/// a finished close leaves keeps it for the next.
pub proof fn uncertain_commit_fails_every_close<W, D>(
    view: AdmissionView<W, D>,
    error: ProjectionError,
    waiter: Option<W>,
    failed: Option<ProjectionError>,
)
    requires
        view.unreclaimed_failure == Some(error),
    ensures
        ({
            let begun = AdmissionView {
                queue: Seq::empty(),
                close_waiters: match waiter {
                    Some(waiter) => view.close_waiters.push(waiter),
                    None => view.close_waiters,
                },
                cleanup_failure: None,
                retry_cleanup: true,
                ..view
            };
            let reported = close_failure(begun.unreclaimed_failure, failed);
            let finished = AdmissionView {
                close_waiters: Seq::empty(),
                cleanup_failure: reported,
                ..begun
            };
            &&& begun.unreclaimed_failure == Some(error)
            &&& reported is Some
            &&& finished.unreclaimed_failure == Some(error)
            &&& outcome_of(finished.cleanup_failure) is Err
        }),
{
}

} // verus!
