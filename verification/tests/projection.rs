use pty_runtime_application::projection::inflight::InFlight;
use pty_runtime_application::projection::reaper::{DeleteAttempt, SourceReaper};
use pty_runtime_application::projection::ticket::Ticket;
use pty_runtime_application::projection::tier::{Tier, TierTracker};
use pty_runtime_application::projection::{CheckpointError, ProcessError, ProjectionError, WorkSchedule};
use pty_runtime_application::process::OutputAcceptance;

#[test]
fn ticket_completes_once_and_wakes_the_registered_waiter() {
    let mut ticket: Ticket<u32> = Ticket::new();
    assert_eq!(ticket.poll(), None);
    assert!(ticket.complete(Ok(7)));
    assert!(!ticket.complete(Ok(8)));
    assert_eq!(ticket.poll(), Some(Ok(7)));
    assert_eq!(ticket.poll(), Some(Err(ProjectionError::Closed)));
}

#[test]
fn ticket_completion_without_a_waiter_wakes_nobody() {
    let mut ticket: Ticket<u32> = Ticket::new();
    assert!(!ticket.complete(Err(ProjectionError::Capacity)));
    assert_eq!(ticket.poll(), Some(Err(ProjectionError::Capacity)));
}

#[test]
fn cancelled_ticket_keeps_no_result() {
    let mut ticket: Ticket<String> = Ticket::new();
    assert!(!ticket.cancelled());
    assert_eq!(ticket.poll(), None);
    ticket.cancel();
    assert!(ticket.cancelled());
    assert!(!ticket.complete(Ok("late".to_owned())));
    assert_eq!(ticket.poll(), Some(Err(ProjectionError::Closed)));
}

#[test]
fn cancelling_after_completion_releases_the_result() {
    let mut ticket: Ticket<u8> = Ticket::new();
    ticket.complete(Ok(1));
    ticket.cancel();
    assert_eq!(ticket.poll(), Some(Err(ProjectionError::Closed)));
}

#[test]
fn tier_tracker_records_downward_nestings() {
    let mut tracker = TierTracker::new();
    assert!(tracker.holds_none());
    let workspace = tracker.enter(Tier::Workspace);
    assert!(tracker.may_enter(Tier::Admission));
    let admission = tracker.enter(Tier::Admission);
    assert!(!tracker.may_enter(Tier::Workspace));
    assert!(!tracker.may_enter(Tier::Admission));
    let leaf = tracker.enter(Tier::Leaf);
    assert!(!tracker.may_enter(Tier::Leaf));
    tracker.exit(leaf);
    tracker.exit(admission);
    tracker.exit(workspace);
    assert!(tracker.holds_none());
    assert_eq!(
        tracker.observed_nestings(),
        vec![(Tier::Workspace, Tier::Admission), (Tier::Admission, Tier::Leaf)]
    );
    tracker.reset();
    assert!(tracker.observed_nestings().is_empty());
}

#[test]
fn tier_ranks_follow_the_documented_order() {
    assert!(Tier::Workspace.rank() < Tier::Admission.rank());
    assert!(Tier::Admission.rank() < Tier::Leaf.rank());
    let mut tracker = TierTracker::new();
    let leaf = tracker.enter(Tier::Leaf);
    assert!(!tracker.may_enter(Tier::Workspace));
    tracker.exit(leaf);
    assert!(tracker.may_enter(Tier::Workspace));
    assert!(tracker.observed_nestings().is_empty());
}

/// A provider that counts deletions and can be told to refuse them.
#[derive(Default)]
struct Store {
    deletes: usize,
    fail_delete: bool,
}

/// A blocking pool that counts queued jobs and can be told to refuse them.
#[derive(Default)]
struct Jobs {
    queued: usize,
    reject: bool,
}

struct Fixture {
    store: Store,
    jobs: Jobs,
    reaper: SourceReaper<u8>,
    io: InFlight<DeleteAttempt<u8>>,
}

impl Fixture {
    fn new(max_attempts: u32) -> Self {
        Self {
            store: Store::default(),
            jobs: Jobs::default(),
            reaper: SourceReaper::new(max_attempts),
            io: InFlight::new(),
        }
    }
    fn retire(&mut self, id: u8) {
        self.reaper.retire(id);
    }
    fn start(&mut self) -> WorkSchedule {
        let was_busy = self.io.busy();
        let schedule = self.reaper.start_delete(&mut self.io, !self.jobs.reject);
        if !was_busy && self.io.busy() {
            self.jobs.queued += 1;
        }
        schedule
    }
    /// Run the submitted job and settle it, as the worker would.
    fn settle(&mut self) -> Option<ProjectionError> {
        assert!(self.jobs.queued > 0, "no job was submitted");
        self.jobs.queued -= 1;
        self.store.deletes += 1;
        let result = if self.store.fail_delete { Err(ProjectionError::Storage(CheckpointError::Unavailable)) } else { Ok(()) };
        let Some(attempt) = self.io.take_finished(true) else {
            panic!("a finished delete should be waiting in the slot");
        };
        self.reaper.finish_delete(attempt, result)
    }
}

fn retried_shortly(schedule: WorkSchedule) -> bool {
    matches!(schedule, WorkSchedule::AfterMillis(delay) if delay != 0)
}

#[test]
fn a_rejected_submission_costs_no_attempt_and_the_retry_still_deletes() {
    let mut f = Fixture::new(1);
    f.retire(1);
    f.jobs.reject = true;

    let schedule = f.start();
    assert!(retried_shortly(schedule), "a rejected submission should ask to be retried shortly");
    assert_eq!(f.jobs.queued, 0, "nothing should have reached the pool");
    assert!(!f.io.busy(), "the slot must stay free for another job");
    assert!(f.reaper.holds_sources());

    f.jobs.reject = false;
    assert!(matches!(f.start(), WorkSchedule::Dormant));
    assert!(f.io.busy(), "an accepted submission fills the slot");
    assert_eq!(f.settle(), None);
    assert_eq!(f.store.deletes, 1);
    assert!(
        !f.reaper.holds_sources(),
        "a successful delete drops the source and releases its reservation"
    );
}

#[test]
fn a_refusing_provider_spends_attempts_and_reports_only_when_they_run_out() {
    let mut f = Fixture::new(2);
    f.retire(1);
    f.store.fail_delete = true;

    f.start();
    assert_eq!(f.settle(), None, "one attempt left, so not yet durable");
    f.start();
    assert_eq!(
        f.settle(),
        Some(ProjectionError::Storage(CheckpointError::Unavailable)),
        "the last spent attempt is what makes the failure durable"
    );
    assert_eq!(f.store.deletes, 2);

    assert!(f.reaper.holds_sources());
    assert!(
        matches!(f.start(), WorkSchedule::Dormant),
        "a source with no attempts left is not checked out again"
    );
    assert_eq!(f.jobs.queued, 0);

    f.reaper.restore_attempts();
    f.store.fail_delete = false;
    f.start();
    assert_eq!(f.settle(), None);
    assert!(!f.reaper.holds_sources());
}

#[test]
fn a_stuck_oldest_source_blocks_the_newer_one_behind_it() {
    let mut f = Fixture::new(1);
    f.retire(1);
    f.retire(2);
    f.store.fail_delete = true;

    f.start();
    assert!(f.settle().is_some(), "the head has spent its only attempt");
    assert!(
        matches!(f.start(), WorkSchedule::Dormant),
        "the newer source must not be deleted around the stuck one"
    );
    assert_eq!(f.jobs.queued, 0);
    assert_eq!(f.store.deletes, 1);
}

#[test]
fn a_second_deletion_is_refused_while_one_is_outstanding() {
    let mut f = Fixture::new(2);
    f.retire(1);
    f.retire(2);

    assert!(matches!(f.start(), WorkSchedule::Dormant));
    assert!(f.io.busy());
    assert_eq!(f.jobs.queued, 1);

    let schedule = f.start();
    assert!(retried_shortly(schedule), "a refused submission should ask to be retried shortly");
    assert_eq!(f.jobs.queued, 1, "the second job must not reach the pool");
    assert!(f.io.busy(), "the outstanding job must still own the slot");

    assert_eq!(f.settle(), None);
    assert_eq!(f.store.deletes, 1);
    assert!(matches!(f.start(), WorkSchedule::Dormant));
    assert_eq!(f.settle(), None);
    assert_eq!(f.store.deletes, 2);
    assert!(!f.reaper.holds_sources());
}

#[test]
fn checked_out_sources_come_oldest_first_and_restore_resets_counts() {
    let mut reaper = SourceReaper::new(1);
    reaper.retire("head");
    reaper.retire("newer");
    let head = reaper.check_out().unwrap();
    assert_eq!(head.source, "head");
    assert_eq!(reaper.finish_delete(head, Err(ProjectionError::Worker)), Some(ProjectionError::Worker));
    assert!(reaper.check_out().is_none());
    reaper.restore_attempts();
    let again = reaper.check_out().unwrap();
    assert_eq!((again.source, again.attempts), ("head", 0));
    assert_eq!(reaper.finish_delete(again, Ok(())), None);
    assert_eq!(reaper.check_out().unwrap().source, "newer");
}

#[test]
fn in_flight_slot_refuses_a_second_job_and_waits_for_readiness() {
    let mut io: InFlight<u32> = InFlight::new();
    assert!(io.submit(1, false).is_err_and(|(held, error)| held == 1 && error == ProjectionError::Capacity));
    assert!(!io.busy());
    assert!(io.submit(2, true).is_ok());
    assert!(io.submit(3, true).is_err_and(|(held, error)| held == 3 && error == ProjectionError::Worker));
    assert_eq!(io.peek(), Some(&2));
    assert_eq!(io.take_finished(false), None);
    assert!(io.busy());
    assert_eq!(io.take_finished(true), Some(2));
    assert!(!io.busy());
    assert!(io.submit(4, true).is_ok());
    assert_eq!(io.abandon(), Some(4));
    assert_eq!(io.abandon(), None);
}

#[test]
fn surrender_hands_over_every_source_oldest_first() {
    let mut reaper = SourceReaper::new(0);
    reaper.retire('a');
    reaper.retire('b');
    assert!(reaper.check_out().is_none());
    assert_eq!(reaper.surrender(), vec!['a', 'b']);
    assert!(!reaper.holds_sources());
    reaper.retire('c');
    assert_eq!(reaper.surrender(), vec!['c']);
}

#[test]
fn attempt_counts_saturate() {
    let mut reaper = SourceReaper::new(u32::MAX);
    let attempt = DeleteAttempt { source: (), attempts: u32::MAX };
    assert_eq!(reaper.finish_delete(attempt, Err(ProjectionError::Process(ProcessError::Io))), Some(ProjectionError::Process(ProcessError::Io)));
    assert!(reaper.check_out().is_none());
}

#[test]
fn output_acceptance_variants_are_distinct() {
    assert_ne!(OutputAcceptance::Accepted, OutputAcceptance::Backpressure);
    assert_ne!(OutputAcceptance::Backpressure, OutputAcceptance::Closed);
}
