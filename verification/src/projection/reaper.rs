//! Bounded deletion of committed checkpoint sources.
//!
//! A superseded source must have its ciphertext deleted before the reservation
//! it holds can be released. Deletion can fail, so it is retried a bounded
//! number of times and then given up on; giving up does not release the
//! reservation, which is why a source given up on stays held.
use crate::projection::inflight::InFlight;
use crate::projection::{ProjectionError, WorkSchedule};
use std::collections::VecDeque;
use vstd::prelude::*;

verus! {

/// Milliseconds to wait before retrying a submission the pool refused.
pub const RETRY_SOON_MILLIS: u64 = 5;

/// One source checked out for a deletion attempt, with the attempts already spent on it.
pub struct DeleteAttempt<S> {
    pub source: S,
    pub attempts: u32,
}

/// Committed sources awaiting deletion, oldest first, each with its attempt count.
pub struct SourceReaper<S> {
    queue: VecDeque<DeleteAttempt<S>>,
    max_attempts: u32,
}

/// The sources of a queue, in order.
pub open spec fn sources<S>(queue: Seq<DeleteAttempt<S>>) -> Seq<S> {
    queue.map_values(|attempt: DeleteAttempt<S>| attempt.source)
}

/// Whether the oldest source may be checked out: it exists and has attempts left.
pub open spec fn head_due<S>(queue: Seq<DeleteAttempt<S>>, max_attempts: u32) -> bool {
    queue.len() > 0 && queue[0].attempts < max_attempts
}

impl<S> SourceReaper<S> {
    /// Held sources, oldest first.
    pub closed spec fn spec_queue(&self) -> Seq<DeleteAttempt<S>> {
        self.queue@
    }

    /// Attempts allowed per source before its storage is treated as unreclaimable.
    pub closed spec fn spec_max_attempts(&self) -> u32 {
        self.max_attempts
    }

    /// Start with nothing retired.
    pub fn new(max_attempts: u32) -> (reaper: Self)
        ensures
            reaper.spec_queue() == Seq::<DeleteAttempt<S>>::empty(),
            reaper.spec_max_attempts() == max_attempts,
    {
        SourceReaper { queue: VecDeque::new(), max_attempts }
    }

    /// Queue a superseded source for deletion, starting its attempt count fresh.
    pub fn retire(&mut self, source: S)
        ensures
            final(self).spec_queue() == old(self).spec_queue().push(
                DeleteAttempt { source, attempts: 0 },
            ),
            final(self).spec_max_attempts() == old(self).spec_max_attempts(),
    {
        self.queue.push_back(DeleteAttempt { source, attempts: 0 });
    }

    /// Whether any source is still held, including ones whose retries are spent.
    pub fn holds_sources(&self) -> (holds: bool)
        ensures
            holds == (self.spec_queue().len() > 0),
    {
        self.queue.len() > 0
    }

    /// Take the oldest source if it still has attempts left. A head whose
    /// retries are spent is left in place and blocks the newer sources behind it.
    pub fn check_out(&mut self) -> (attempt: Option<DeleteAttempt<S>>)
        ensures
            head_due(old(self).spec_queue(), old(self).spec_max_attempts()) ==> {
                &&& attempt == Some(old(self).spec_queue()[0])
                &&& final(self).spec_queue() == old(self).spec_queue().drop_first()
            },
            !head_due(old(self).spec_queue(), old(self).spec_max_attempts()) ==> {
                &&& attempt is None
                &&& final(self).spec_queue() == old(self).spec_queue()
            },
            final(self).spec_max_attempts() == old(self).spec_max_attempts(),
    {
        if self.queue.len() == 0 {
            return None;
        }
        if self.queue[0].attempts >= self.max_attempts {
            return None;
        }
        self.queue.pop_front()
    }

    /// The pool refused the submission of a checked-out source: it goes back to
    /// the head with its attempt count untouched, because a full pool says
    /// nothing about the provider. Retried shortly.
    pub fn submission_rejected(&mut self, attempt: DeleteAttempt<S>) -> (schedule: WorkSchedule)
        ensures
            final(self).spec_queue() == seq![attempt] + old(self).spec_queue(),
            final(self).spec_max_attempts() == old(self).spec_max_attempts(),
            schedule == WorkSchedule::AfterMillis(RETRY_SOON_MILLIS),
    {
        self.queue.push_front(attempt);
        WorkSchedule::AfterMillis(RETRY_SOON_MILLIS)
    }

    /// Start deleting the next due source, if there is one the pool will take.
    /// `pool_accepts` is the blocking pool's answer to the submission.
    ///
    /// `Dormant` means there was nothing to start, or the deletion is now
    /// outstanding in `io`. A refused submission (occupied slot or full pool)
    /// puts the source back at the head with its attempt count untouched and
    /// asks to be retried shortly.
    pub fn start_delete(&mut self, io: &mut InFlight<DeleteAttempt<S>>, pool_accepts: bool) -> (schedule:
        WorkSchedule)
        ensures
            final(self).spec_max_attempts() == old(self).spec_max_attempts(),
            !head_due(old(self).spec_queue(), old(self).spec_max_attempts()) ==> {
                &&& schedule == WorkSchedule::Dormant
                &&& final(self).spec_queue() == old(self).spec_queue()
                &&& final(io).spec_slot() == old(io).spec_slot()
            },
            head_due(old(self).spec_queue(), old(self).spec_max_attempts()) && (old(
                io,
            ).spec_slot() is Some || !pool_accepts) ==> {
                &&& schedule == WorkSchedule::AfterMillis(RETRY_SOON_MILLIS)
                &&& final(self).spec_queue() == old(self).spec_queue()
                &&& final(io).spec_slot() == old(io).spec_slot()
            },
            head_due(old(self).spec_queue(), old(self).spec_max_attempts()) && old(
                io,
            ).spec_slot() is None && pool_accepts ==> {
                &&& schedule == WorkSchedule::Dormant
                &&& final(self).spec_queue() == old(self).spec_queue().drop_first()
                &&& final(io).spec_slot() == Some(old(self).spec_queue()[0])
            },
    {
        let ghost before = self.queue@;
        let attempt = match self.check_out() {
            Some(attempt) => attempt,
            None => return WorkSchedule::Dormant,
        };
        match io.submit(attempt, pool_accepts) {
            Ok(()) => WorkSchedule::Dormant,
            Err((attempt, _)) => {
                // Never submitted, so the count is unchanged.
                let schedule = self.submission_rejected(attempt);
                assert(self.queue@ =~= before);
                schedule
            },
        }
    }

    /// Settle a finished deletion. A success drops the attempt, releasing its
    /// source. A failure puts the source back at the head with one more attempt
    /// spent, and is returned only once its retries are spent.
    pub fn finish_delete(
        &mut self,
        attempt: DeleteAttempt<S>,
        result: Result<(), ProjectionError>,
    ) -> (durable: Option<ProjectionError>)
        ensures
            final(self).spec_max_attempts() == old(self).spec_max_attempts(),
            result is Ok ==> {
                &&& durable is None
                &&& final(self).spec_queue() == old(self).spec_queue()
            },
            result matches Err(error) ==> {
                let spent = attempt.attempts.saturating_add(1);
                &&& final(self).spec_queue() == seq![
                    DeleteAttempt { source: attempt.source, attempts: spent },
                ] + old(self).spec_queue()
                &&& durable == if spent >= old(self).spec_max_attempts() {
                    Some(error)
                } else {
                    None
                }
            },
    {
        match result {
            Ok(()) => None,
            Err(error) => self.give_up_or_retry(attempt, error),
        }
    }

    /// Record a failed deletion; the error is returned once retries are spent.
    fn give_up_or_retry(&mut self, attempt: DeleteAttempt<S>, error: ProjectionError) -> (durable:
        Option<ProjectionError>)
        ensures
            final(self).spec_max_attempts() == old(self).spec_max_attempts(),
            ({
                let spent = attempt.attempts.saturating_add(1);
                &&& final(self).spec_queue() == seq![
                    DeleteAttempt { source: attempt.source, attempts: spent },
                ] + old(self).spec_queue()
                &&& durable == if spent >= old(self).spec_max_attempts() {
                    Some(error)
                } else {
                    None
                }
            }),
    {
        let attempts = attempt.attempts.saturating_add(1);
        let exhausted = attempts >= self.max_attempts;
        let ghost before = self.queue@;
        self.queue.push_front(DeleteAttempt { source: attempt.source, attempts });
        assert(self.queue@ =~= seq![DeleteAttempt { source: attempt.source, attempts }] + before);
        if exhausted {
            Some(error)
        } else {
            None
        }
    }

    /// Allow every held source one more full round of attempts.
    pub fn restore_attempts(&mut self)
        ensures
            sources(final(self).spec_queue()) == sources(old(self).spec_queue()),
            final(self).spec_queue().len() == old(self).spec_queue().len(),
            forall|i: int|
                0 <= i < final(self).spec_queue().len()
                    ==> (#[trigger] final(self).spec_queue()[i]).attempts == 0,
            final(self).spec_max_attempts() == old(self).spec_max_attempts(),
    {
        let count = self.queue.len();
        let ghost initial = self.queue@;
        let mut turned: usize = 0;
        while turned < count
            invariant
                turned <= count,
                count == initial.len(),
                self.queue@.len() == count,
                self.max_attempts == old(self).max_attempts,
                initial == old(self).queue@,
                forall|i: int|
                    0 <= i < count - turned ==> #[trigger] self.queue@[i] == initial[turned + i],
                forall|i: int|
                    count - turned <= i < count ==> {
                        &&& (#[trigger] self.queue@[i]).attempts == 0
                        &&& self.queue@[i].source == initial[i - (count - turned)].source
                    },
            decreases count - turned,
        {
            let ghost before = self.queue@;
            let front = self.queue.pop_front();
            match front {
                Some(attempt) => {
                    self.queue.push_back(DeleteAttempt { source: attempt.source, attempts: 0 });
                },
                None => {},
            }
            turned += 1;
        }
        assert(sources(self.queue@) =~= sources(initial));
    }

    /// Hand over every held source, oldest first, releasing none of their
    /// reservations. Used when no further deletion will be attempted.
    pub fn surrender(&mut self) -> (surrendered: Vec<S>)
        ensures
            surrendered@ == sources(old(self).spec_queue()),
            final(self).spec_queue() == Seq::<DeleteAttempt<S>>::empty(),
            final(self).spec_max_attempts() == old(self).spec_max_attempts(),
    {
        let ghost initial = self.queue@;
        let mut surrendered: Vec<S> = Vec::new();
        while self.queue.len() > 0
            invariant
                self.max_attempts == old(self).max_attempts,
                initial == old(self).queue@,
                surrendered@.len() + self.queue@.len() == initial.len(),
                surrendered@ == sources(initial).take(surrendered@.len() as int),
                self.queue@ == initial.skip(surrendered@.len() as int),
            decreases self.queue@.len(),
        {
            let front = self.queue.pop_front();
            match front {
                Some(attempt) => {
                    surrendered.push(attempt.source);
                },
                None => {},
            }
            proof {
                assert(surrendered@ =~= sources(initial).take(surrendered@.len() as int));
                assert(self.queue@ =~= initial.skip(surrendered@.len() as int));
            }
        }
        assert(surrendered@ =~= sources(initial));
        surrendered
    }
}

/// A rejected submission costs the source no attempt: checking it out and
/// handing it back leaves the queue exactly as it was.
pub proof fn rejected_submission_costs_nothing<S>(queue: Seq<DeleteAttempt<S>>, max_attempts: u32)
    requires
        head_due(queue, max_attempts),
    ensures
        seq![queue[0]] + queue.drop_first() == queue,
{
    assert(seq![queue[0]] + queue.drop_first() =~= queue);
}

/// Deletion never reorders sources: the source checked out is always the oldest.
pub proof fn deletion_is_oldest_first<S>(queue: Seq<DeleteAttempt<S>>, max_attempts: u32)
    requires
        head_due(queue, max_attempts),
    ensures
        sources(queue)[0] == queue[0].source,
        sources(queue.drop_first()) == sources(queue).drop_first(),
{
    assert(sources(queue.drop_first()) =~= sources(queue).drop_first());
}

/// A source is attempted at most `max_attempts` times: a failure on its last
/// allowed attempt is durable, and from then on it is never checked out again.
pub proof fn attempts_are_bounded<S>(attempt: DeleteAttempt<S>, max_attempts: u32, rest: Seq<DeleteAttempt<S>>)
    requires
        attempt.attempts < max_attempts,
        attempt.attempts + 1 == max_attempts,
    ensures
        attempt.attempts.saturating_add(1) >= max_attempts,
        !head_due(
            seq![DeleteAttempt { source: attempt.source, attempts: attempt.attempts.saturating_add(1) }]
                + rest,
            max_attempts,
        ),
{
}

} // verus!
