use pty_runtime_application::process::OutputAcceptance;
use pty_runtime_application::projection::queue::{
    is_closing, AdmissionQueue, CloseRequest, Command, OutputAdmission, OutputOutcome,
    OutputScreen, Residency,
};
use pty_runtime_application::projection::worker::{
    continue_batch, failed_schedule, idle_step, restoring_admits, run_step, IdleStep, Phase,
    RunStep, OUTPUT_BATCH, OUTPUT_BATCH_BYTES,
};
use pty_runtime_application::projection::{CheckpointError, ProcessError, ProjectionError, WorkSchedule};
use pty_runtime_application::terminal::TerminalSize;

type Queue = AdmissionQueue<u32, &'static str>;

fn size() -> TerminalSize {
    TerminalSize { cols: 80, rows: 24 }
}

fn mixed_queue() -> Queue {
    let mut queue = Queue::new();
    for command in [
        Command::Output(b"a".to_vec()),
        Command::View(1),
        Command::Output(b"b".to_vec()),
        Command::Resize(size(), 2),
        Command::Checkpoint(3),
        Command::Output(b"c".to_vec()),
    ] {
        assert!(queue.accept_command(Residency::Resident, None, command).is_ok());
    }
    queue
}

#[test]
fn closing_refuses_before_a_recorded_failure() {
    assert_eq!(
        Queue::check_accepting(Residency::Closing, Some(ProjectionError::Capacity)),
        Err(ProjectionError::Closed)
    );
    assert_eq!(
        Queue::check_accepting(Residency::Closed, None),
        Err(ProjectionError::Closed)
    );
    assert_eq!(
        Queue::check_accepting(Residency::Resident, Some(ProjectionError::Storage(CheckpointError::Unavailable))),
        Err(ProjectionError::Storage(CheckpointError::Unavailable))
    );
    assert_eq!(Queue::check_accepting(Residency::Parked, None), Ok(()));
    assert!(is_closing(Residency::Closing));
    assert!(!is_closing(Residency::Failed));
}

#[test]
fn a_refused_command_is_handed_back_and_nothing_is_queued() {
    let mut queue = Queue::new();
    let refused = queue.accept_command(Residency::Closed, None, Command::View(9));
    assert_eq!(refused, Err((Command::View(9), ProjectionError::Closed)));
    assert_eq!(queue.queued(), 0);
}

#[test]
fn commands_are_taken_in_admission_order() {
    let mut queue = mixed_queue();
    assert_eq!(queue.queued(), 6);
    assert_eq!(queue.take_next(), Some(Command::Output(b"a".to_vec())));
    assert_eq!(queue.take_next(), Some(Command::View(1)));
    assert_eq!(queue.queued(), 4);
}

#[test]
fn requeue_puts_back_at_the_head_unless_closing() {
    let mut queue = mixed_queue();
    let first = queue.take_next().unwrap();
    assert_eq!(queue.requeue(Residency::Resident, first.clone()), None);
    assert_eq!(queue.take_next(), Some(first.clone()));
    assert_eq!(queue.requeue(Residency::Closing, first.clone()), Some(first));
    assert_eq!(queue.queued(), 5);
}

#[test]
fn failure_keeps_staged_output_and_rejects_everything_else_in_order() {
    let mut queue = mixed_queue();
    queue.record_drain("eof");
    let (rejected, drain) = queue.fail();
    assert_eq!(
        rejected,
        vec![Command::View(1), Command::Resize(size(), 2), Command::Checkpoint(3)]
    );
    assert_eq!(drain, Some("eof"));
    assert_eq!(queue.queued(), 3);
    assert_eq!(queue.take_next(), Some(Command::Output(b"a".to_vec())));
    assert_eq!(queue.take_next(), Some(Command::Output(b"b".to_vec())));
    assert_eq!(queue.take_next(), Some(Command::Output(b"c".to_vec())));
}

#[test]
fn failing_twice_rejects_nothing_more() {
    let mut queue = mixed_queue();
    let (first, _) = queue.fail();
    assert_eq!(first.len(), 3);
    let (second, drain) = queue.fail();
    assert!(second.is_empty());
    assert_eq!(drain, None);
    assert_eq!(queue.queued(), 3);
}

#[test]
fn only_the_first_drain_report_counts() {
    let mut queue = Queue::new();
    assert!(!queue.is_draining());
    queue.record_drain("eof");
    queue.record_drain("error");
    assert!(queue.is_draining());
    let (_, drain) = queue.fail();
    assert_eq!(drain, Some("eof"));
}

#[test]
fn output_screening_follows_its_precedence() {
    let mut queue = Queue::new();
    assert_eq!(queue.screen_output(Residency::Resident, 0, 16), OutputScreen::Empty);
    assert_eq!(queue.screen_output(Residency::Resident, 16, 16), OutputScreen::Stage);
    assert_eq!(
        queue.screen_output(Residency::Resident, 17, 16),
        OutputScreen::Refuse(OutputAcceptance::Backpressure)
    );
    assert_eq!(
        queue.screen_output(Residency::Closing, 17, 16),
        OutputScreen::Refuse(OutputAcceptance::Closed)
    );
    queue.record_drain("eof");
    assert_eq!(
        queue.screen_output(Residency::Resident, 0, 16),
        OutputScreen::Refuse(OutputAcceptance::Closed)
    );
}

#[test]
fn admitting_output_queues_only_what_was_decided() {
    let mut queue = Queue::new();
    assert_eq!(queue.admit_output(OutputAdmission::Nothing), OutputOutcome::Accepted);
    assert_eq!(
        queue.admit_output(OutputAdmission::Rejected(OutputAcceptance::Backpressure)),
        OutputOutcome::Rejected(OutputAcceptance::Backpressure)
    );
    assert_eq!(queue.queued(), 0);
    assert_eq!(
        queue.admit_output(OutputAdmission::Queue(Command::Output(b"x".to_vec()))),
        OutputOutcome::Queued
    );
    assert_eq!(queue.queued(), 1);
}

#[test]
fn a_checkpoint_at_the_head_is_taken_with_the_work_check() {
    let mut queue = Queue::new();
    assert_eq!(queue.take_checkpoint_if_any_work(), None);
    let _ = queue.accept_command(Residency::Parked, None, Command::Checkpoint(4));
    let _ = queue.accept_command(Residency::Parked, None, Command::View(5));
    assert_eq!(queue.take_checkpoint_if_any_work(), Some(Some(Command::Checkpoint(4))));
    assert_eq!(queue.take_checkpoint_if_any_work(), Some(None));
    assert_eq!(queue.queued(), 1);
}

#[test]
fn restore_steps_take_views_and_mutations_only_when_the_engine_allows() {
    let mut queue = Queue::new();
    let _ = queue.accept_command(Residency::Usable, None, Command::Output(b"z".to_vec()));
    let _ = queue.accept_command(Residency::Usable, None, Command::View(6));
    assert_eq!(queue.take_next_if(|command| restoring_admits(command, false)), None);
    assert_eq!(queue.queued(), 2);
    assert_eq!(
        queue.take_next_if(|command| restoring_admits(command, true)),
        Some(Command::Output(b"z".to_vec()))
    );
    assert_eq!(
        queue.take_next_if(|command| restoring_admits(command, false)),
        Some(Command::View(6))
    );
    assert!(!restoring_admits::<u32>(&Command::Checkpoint(1), true));
}

#[test]
fn a_drain_settles_only_when_nothing_can_still_extend_the_stream() {
    let mut queue = Queue::new();
    assert_eq!(queue.settled_drain(true, Residency::Resident, true, None), None);
    queue.record_drain("eof");
    assert_eq!(queue.settled_drain(true, Residency::Resident, true, None), Some("eof"));
    assert_eq!(queue.settled_drain(false, Residency::Resident, true, None), None);
    assert_eq!(queue.settled_drain(true, Residency::Usable, true, None), None);
    assert_eq!(queue.settled_drain(true, Residency::Restoring, true, None), None);
    assert_eq!(queue.settled_drain(true, Residency::Parked, false, None), None);
    assert_eq!(
        queue.settled_drain(true, Residency::Parked, true, Some(ProjectionError::Worker)),
        None
    );
    let _ = queue.accept_command(Residency::Resident, None, Command::View(1));
    assert!(!queue.holds_mutation());
    assert_eq!(queue.settled_drain(true, Residency::Resident, true, None), Some("eof"));
    let _ = queue.accept_command(Residency::Resident, None, Command::Resize(size(), 2));
    assert!(queue.holds_mutation());
    assert_eq!(queue.settled_drain(true, Residency::Resident, true, None), None);
}

#[test]
fn closing_hands_back_the_queue_and_reports_the_durable_outcome() {
    let mut queue = mixed_queue();
    queue.maintenance_failed(ProjectionError::Storage(CheckpointError::Unavailable));
    assert_eq!(queue.close_outcome(Residency::Closing), None);
    match queue.request_close(Residency::Resident, Some(7)) {
        CloseRequest::Started(rejected) => assert_eq!(rejected.len(), 6),
        CloseRequest::AlreadyClosed(_) => panic!("closure should begin"),
    }
    assert_eq!(queue.queued(), 0);
    assert_eq!(queue.take_cleanup_retry(), (None, true));
    assert_eq!(queue.take_cleanup_retry(), (None, false));
    let (waiters, failed) = queue.finish_close(None);
    assert_eq!(waiters, vec![7]);
    assert_eq!(failed, None);
    assert_eq!(queue.close_outcome(Residency::Closed), Some(Ok(())));
    match queue.request_close(Residency::Closed, Some(8)) {
        CloseRequest::AlreadyClosed(outcome) => assert_eq!(outcome, Ok(())),
        CloseRequest::Started(_) => panic!("cleanup already finished"),
    }
}

#[test]
fn an_uncertain_commit_fails_cleanup() {
    let mut queue = Queue::new();
    queue.park_outcome_uncertain(ProjectionError::Storage(CheckpointError::Unavailable));
    let _ = queue.request_close(Residency::Resident, Some(1));
    let (waiters, failed) = queue.finish_close(None);
    assert_eq!(waiters, vec![1]);
    assert_eq!(failed, Some(ProjectionError::Storage(CheckpointError::Unavailable)));
    assert_eq!(
        queue.close_outcome(Residency::Closed),
        Some(Err(ProjectionError::Storage(CheckpointError::Unavailable)))
    );
    let (_, explicit) = queue.finish_close(Some(ProjectionError::Worker));
    assert_eq!(explicit, Some(ProjectionError::Worker));
}

#[test]
fn abandoning_cleanup_reports_worker_failure() {
    let mut queue = mixed_queue();
    let _ = queue.request_close(Residency::Resident, Some(3));
    let _ = queue.accept_command(Residency::Resident, None, Command::View(4));
    let rejected = queue.abandon_close();
    assert_eq!(rejected.len(), 1);
    assert_eq!(queue.abandon_waiters(), vec![3]);
    assert_eq!(
        queue.close_outcome(Residency::Closed),
        Some(Err(ProjectionError::Worker))
    );
}

#[test]
fn parking_needs_an_idle_engine_and_an_empty_queue() {
    let mut queue = Queue::new();
    assert!(queue.is_quiet(true));
    assert!(!queue.is_quiet(false));
    let _ = queue.accept_command(Residency::Resident, None, Command::View(1));
    assert!(!queue.is_quiet(true));
}

#[test]
fn phases_follow_residency_and_model_ownership() {
    assert_eq!(Phase::of(Residency::Usable, false), Phase::Detached);
    assert_eq!(Phase::of(Residency::Usable, true), Phase::Restoring);
    assert_eq!(Phase::of(Residency::Resident, true), Phase::Serving);
    assert_eq!(run_step(Residency::Closing), RunStep::Cleanup);
    assert_eq!(run_step(Residency::Closed), RunStep::Cleanup);
    assert_eq!(run_step(Residency::Failed), RunStep::WhileFailed);
    assert_eq!(run_step(Residency::Parked), RunStep::Work);
    assert_eq!(failed_schedule(Residency::Closing), WorkSchedule::AfterMillis(0));
    assert_eq!(failed_schedule(Residency::Closed), WorkSchedule::Finished);
    assert_eq!(failed_schedule(Residency::Resident), WorkSchedule::Dormant);
}

#[test]
fn output_batches_stop_at_their_bounds() {
    let now = WorkSchedule::AfterMillis(0);
    assert!(continue_batch(1, 64, now, true));
    assert!(!continue_batch(OUTPUT_BATCH, 64, now, true));
    assert!(continue_batch(OUTPUT_BATCH - 1, OUTPUT_BATCH_BYTES - 1, now, true));
    assert!(!continue_batch(1, OUTPUT_BATCH_BYTES, now, true));
    assert!(!continue_batch(1, 64, WorkSchedule::AfterMillis(5), true));
    assert!(!continue_batch(1, 64, WorkSchedule::Dormant, true));
    assert!(!continue_batch(1, 64, now, false));
    assert_eq!(OUTPUT_BATCH_BYTES, 262_144);
}

#[test]
fn idle_runs_park_when_due() {
    assert_eq!(idle_step(Some(0)), IdleStep::StartPark);
    assert_eq!(idle_step(Some(250)), IdleStep::Schedule(WorkSchedule::AfterMillis(250)));
    assert_eq!(idle_step(None), IdleStep::Schedule(WorkSchedule::Dormant));
}

use pty_runtime_application::projection::blocking::{
    vet_opened, vet_read, vet_receipt, vet_sealed, CommitOutcome, Receipt, Sealed,
};
use pty_runtime_application::projection::wiring::Wiring;

fn sealed(len: usize) -> Sealed {
    Sealed { key_matches: true, descriptor_matches: true, ciphertext_len: len }
}

#[test]
fn a_sealed_checkpoint_must_match_and_fit_before_the_store_is_asked() {
    assert_eq!(vet_sealed::<u8>(Ok(sealed(64)), 64), Ok(64));
    assert_eq!(
        vet_sealed::<u8>(Ok(sealed(65)), 64),
        Err(CommitOutcome::Rejected(ProjectionError::InvalidConfiguration))
    );
    assert_eq!(
        vet_sealed::<u8>(Ok(sealed(0)), 64),
        Err(CommitOutcome::Rejected(ProjectionError::InvalidConfiguration))
    );
    let wrong_key = Sealed { key_matches: false, ..sealed(8) };
    assert_eq!(
        vet_sealed::<u8>(Ok(wrong_key), 64),
        Err(CommitOutcome::Rejected(ProjectionError::InvalidConfiguration))
    );
    let wrong_descriptor = Sealed { descriptor_matches: false, ..sealed(8) };
    assert_eq!(
        vet_sealed::<u8>(Ok(wrong_descriptor), 64),
        Err(CommitOutcome::Rejected(ProjectionError::InvalidConfiguration))
    );
    assert_eq!(
        vet_sealed::<u8>(Err(ProjectionError::Storage(CheckpointError::Unavailable)), 64),
        Err(CommitOutcome::Rejected(ProjectionError::Storage(CheckpointError::Unavailable)))
    );
}

#[test]
fn only_an_exact_acknowledgement_is_published() {
    let exact = Receipt { reference: "ref-1", key_matches: true, bytes: 64 };
    assert_eq!(vet_receipt(Ok(exact), 64), CommitOutcome::Published("ref-1"));
    let short = Receipt { reference: "ref-2", key_matches: true, bytes: 63 };
    assert_eq!(
        vet_receipt(Ok(short), 64),
        CommitOutcome::Uncertain(ProjectionError::InvalidConfiguration)
    );
    let other_key = Receipt { reference: "ref-3", key_matches: false, bytes: 64 };
    assert_eq!(
        vet_receipt(Ok(other_key), 64),
        CommitOutcome::Uncertain(ProjectionError::InvalidConfiguration)
    );
    assert_eq!(
        vet_receipt::<&str>(Err(ProjectionError::Storage(CheckpointError::Unavailable)), 64),
        CommitOutcome::Rejected(ProjectionError::Storage(CheckpointError::Unavailable))
    );
}

#[test]
fn reads_and_opened_checkpoints_are_held_to_what_was_asked() {
    assert_eq!(vet_read(Ok(64), 64), Ok(()));
    assert_eq!(vet_read(Ok(63), 64), Err(ProjectionError::Storage(CheckpointError::Unavailable)));
    assert_eq!(vet_read(Ok(65), 64), Err(ProjectionError::Storage(CheckpointError::Unavailable)));
    assert_eq!(vet_read(Err(ProjectionError::Worker), 64), Err(ProjectionError::Worker));
    assert_eq!(vet_opened(Ok(()), true, 100, 100), Ok(()));
    assert_eq!(
        vet_opened(Ok(()), true, 101, 100),
        Err(ProjectionError::InvalidConfiguration)
    );
    assert_eq!(
        vet_opened(Ok(()), false, 10, 100),
        Err(ProjectionError::InvalidConfiguration)
    );
    assert_eq!(
        vet_opened(Err(ProjectionError::Storage(CheckpointError::Unavailable)), true, 10, 100),
        Err(ProjectionError::Storage(CheckpointError::Unavailable))
    );
}

#[test]
fn wiring_binds_one_process_and_reports_released_collaborators() {
    let mut wiring: Wiring<&str, u8, u32> = Wiring::new("services");
    assert_eq!(wiring.services(), Ok(&"services"));
    assert_eq!(wiring.wake(), Err(ProjectionError::Worker));
    assert_eq!(wiring.handle(), None);
    wiring.attach_handle(3);
    assert_eq!(wiring.wake(), Ok(&3));
    assert_eq!(wiring.bind_process(10), Ok(()));
    assert_eq!(
        wiring.bind_process(11),
        Err((11, ProjectionError::InvalidConfiguration))
    );
    assert_eq!(wiring.process(), Some(&10));
    wiring.unbind_process();
    assert_eq!(wiring.process(), None);
    assert_eq!(wiring.bind_process(12), Ok(()));
    assert_eq!(wiring.take_process(), Some(12));
    assert_eq!(wiring.take_process(), None);
    assert_eq!(wiring.take_services(), Some("services"));
    assert_eq!(wiring.services(), Err(ProjectionError::Closed));
    assert_eq!(wiring.take_handle(), Some(3));
    assert_eq!(wiring.wake(), Err(ProjectionError::Worker));
}

use pty_runtime_application::projection::coordinator::{
    check_budgets, queue_slots, vet_checkpoint, vet_creation, vet_generated_reply, CreationBounds,
    ProjectionLimits,
};

fn limits() -> ProjectionLimits {
    ProjectionLimits {
        staging_bytes: 4096,
        staging_slots: 8,
        resident_bytes: 1 << 20,
        checkpoint_bytes: 3000,
        stored_bytes: 2000,
        stored_slots: 4,
        view_bytes: 1000,
        request_slots: 8,
    }
}

#[test]
fn queue_capacity_covers_both_populations_without_overflow() {
    assert_eq!(queue_slots(16, 8), Ok(24));
    assert_eq!(
        queue_slots(usize::MAX, 1),
        Err(ProjectionError::InvalidConfiguration)
    );
}

#[test]
fn a_projection_must_fit_every_global_budget() {
    let limits = limits();
    assert_eq!(check_budgets(2000, 1000, 4096, 500, Ok(1000), &limits), Ok(3000));
    let invalid = Err(ProjectionError::InvalidConfiguration);
    assert_eq!(check_budgets(0, 1000, 10, 10, Ok(10), &limits), invalid);
    assert_eq!(check_budgets(2001, 999, 10, 10, Ok(10), &limits), invalid);
    assert_eq!(check_budgets(1500, 1501, 10, 10, Ok(10), &limits), invalid);
    assert_eq!(check_budgets(100, 100, 4097, 10, Ok(10), &limits), invalid);
    assert_eq!(check_budgets(100, 100, 10, 1001, Ok(10), &limits), invalid);
    assert_eq!(check_budgets(100, 100, 10, 10, Ok(1001), &limits), invalid);
    assert_eq!(check_budgets(usize::MAX, 1, 10, 10, Ok(10), &limits), invalid);
    assert_eq!(
        check_budgets(100, 100, 10, 10, Err(ProjectionError::Capacity), &limits),
        Err(ProjectionError::Capacity)
    );
    assert_eq!(
        check_budgets(0, 100, 10, 10, Err(ProjectionError::Capacity), &limits),
        invalid
    );
}

#[test]
fn engine_answers_are_held_to_their_bounds() {
    assert_eq!(vet_checkpoint(true, 100, 100), Ok(()));
    assert_eq!(vet_checkpoint(true, 101, 100), Err(ProjectionError::Capacity));
    assert_eq!(
        vet_checkpoint(false, 101, 100),
        Err(ProjectionError::InvalidConfiguration)
    );
    assert_eq!(vet_generated_reply(64, 64), Ok(()));
    assert_eq!(vet_generated_reply(65, 64), Err(ProjectionError::Capacity));
}

/// One serving run as the worker drives it: the head command, then further
/// output while the batch may continue. `feed` stands for the engine and says
/// whether feeding a chunk left a reply outstanding or failed the projection.
/// Returns the bytes fed.
fn serve_run(queue: &mut Queue, feed: impl Fn(&[u8]) -> (bool, Option<ProjectionError>)) -> usize {
    let Some(Command::Output(first)) = queue.take_next() else {
        return 0;
    };
    let (mut replying, mut failure) = feed(&first);
    let mut fed = first.len();
    let mut applied = 1;
    while continue_batch(applied, fed, WorkSchedule::AfterMillis(0), !replying) {
        let Some(Command::Output(bytes)) = queue.take_next_output_while_serving(failure) else {
            break;
        };
        let (reply, failed) = feed(&bytes);
        replying = reply;
        failure = failure.or(failed);
        fed += bytes.len();
        applied += 1;
    }
    fed
}

fn staged(chunks: usize, len: usize) -> Queue {
    let mut queue = Queue::new();
    for _ in 0..chunks {
        assert_eq!(
            queue.admit_output(OutputAdmission::Queue(Command::Output(vec![b'a'; len]))),
            OutputOutcome::Queued
        );
    }
    queue
}

#[test]
fn an_output_batch_feeds_at_most_the_chunk_bound() {
    let mut queue = staged(40, 2);
    assert_eq!(serve_run(&mut queue, |_| (false, None)), 64);
    assert_eq!(queue.queued(), 8);
    assert_eq!(serve_run(&mut queue, |_| (false, None)), 16);
    assert_eq!(queue.queued(), 0);
}

#[test]
fn an_output_batch_is_bounded_by_bytes_including_its_first_chunk() {
    let mut queue = staged(10, 64 * 1024);
    assert_eq!(serve_run(&mut queue, |_| (false, None)), 4 * 64 * 1024);
    assert_eq!(queue.queued(), 6);
}

#[test]
fn a_maximum_sized_chunk_runs_alone() {
    let mut queue = staged(2, 1024 * 1024);
    assert_eq!(serve_run(&mut queue, |_| (false, None)), 1024 * 1024);
    assert_eq!(queue.queued(), 1);
}

#[test]
fn a_failure_between_chunks_ends_the_batch_and_keeps_output_queued() {
    let mut queue = staged(4, 1);
    assert_eq!(serve_run(&mut queue, |_| (false, Some(ProjectionError::Capacity))), 1);
    assert_eq!(queue.queued(), 3);
    let (rejected, _) = queue.fail();
    assert!(rejected.is_empty());
    assert_eq!(queue.queued(), 3);
}

#[test]
fn a_generated_reply_ends_the_batch() {
    let mut queue = Queue::new();
    for bytes in [&b"ab"[..], &b"?"[..], &b"cd"[..]] {
        queue.admit_output(OutputAdmission::Queue(Command::Output(bytes.to_vec())));
    }
    assert_eq!(serve_run(&mut queue, |bytes| (bytes == b"?", None)), 3);
    assert_eq!(queue.queued(), 1);
}

#[test]
fn an_empty_chunk_is_accepted_without_queueing() {
    let mut queue = Queue::new();
    assert_eq!(queue.screen_output(Residency::Resident, 0, 4096), OutputScreen::Empty);
    assert_eq!(queue.admit_output(OutputAdmission::Nothing), OutputOutcome::Accepted);
    assert_eq!(queue.queued(), 0);
    let _ = queue.accept_command(Residency::Resident, None, Command::View(1));
    assert_eq!(queue.take_next_output_while_serving(None), None);
    assert_eq!(queue.queued(), 1);
}

use pty_runtime_application::projection::budgets::UnreclaimedLedger;

#[test]
fn unreclaimed_charges_are_kept_and_only_grow() {
    let mut ledger = UnreclaimedLedger::new();
    assert_eq!(ledger.unreclaimed_sources(), 0);
    assert_eq!(ledger.unreclaimed_reserved_bytes(), 0);
    ledger.record(4096);
    ledger.absorb(vec![100, 28]);
    assert_eq!(ledger.unreclaimed_sources(), 3);
    assert_eq!(ledger.unreclaimed_reserved_bytes(), 4224);
    ledger.absorb(Vec::new());
    assert_eq!(ledger.unreclaimed_sources(), 3);
    assert_eq!(ledger.unreclaimed_reserved_bytes(), 4224);
}
