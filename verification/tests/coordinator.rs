use pty_runtime_application::projection::blocking::CommitOutcome;
use pty_runtime_application::projection::budgets::UnreclaimedLedger;
use pty_runtime_application::projection::coordinator::{
    vet_creation, CreationBounds, ProjectionLimits, MAX_IDENTITY_BYTES,
};
use pty_runtime_application::projection::journal::{Journal, JournalRead, Record, RecordCharge};
use pty_runtime_application::projection::lifecycle::{
    finish_after_shutdown, finish_io, park_step, read_step, Abandoned, FinishStep, Finished,
    ParkStep, ReadStep,
};
use pty_runtime_application::projection::native::{
    apply_step, closing_resize_completion, reply_next, reply_step, resize_completion, ReplyNext, ApplyStep, FeedResult, ReplyStep, ResizeCompletion,
    ResizeFacts, Settle, WriteAnswer,
};
use pty_runtime_application::projection::queue::{AdmissionQueue, Command, Residency};
use pty_runtime_application::projection::reaper::SourceReaper;
use pty_runtime_application::projection::{
    CheckpointError, ProcessError, ProjectionError, TerminalError, WorkSchedule,
};
use pty_runtime_application::terminal::TerminalSize;

type Queue = AdmissionQueue<u32, &'static str>;

fn output(len: usize) -> Command<u32> {
    Command::Output(vec![b'x'; len])
}

fn no_resize() -> ResizeFacts {
    ResizeFacts { process_bound: true, next_generation: Some(1), admitted: Ok(()) }
}

// ---- applying commands ------------------------------------------------------

#[test]
fn output_with_no_reply_memory_goes_back_unfed_and_retries_shortly() {
    let step = apply_step(Residency::Resident, &output(4), false, false, 64, FeedResult::Fed(0), no_resize());
    assert!(step.requeue);
    assert_eq!(step.processed, 0);
    assert_eq!(step.failure, None);
    assert_eq!(step.schedule, WorkSchedule::AfterMillis(5));
}

#[test]
fn a_panicking_or_refusing_engine_keeps_the_chunk_and_fails_the_projection() {
    for (feed, failure) in [
        (FeedResult::Panicked, ProjectionError::Worker),
        (FeedResult::NoModel, ProjectionError::Closed),
        (
            FeedResult::Refused(TerminalError::EngineFailure),
            ProjectionError::Terminal(TerminalError::EngineFailure),
        ),
    ] {
        let step = apply_step(Residency::Resident, &output(4), false, true, 64, feed, no_resize());
        assert!(step.requeue);
        assert_eq!(step.processed, 0);
        assert_eq!(step.failure, Some(failure));
        assert_eq!(step.schedule, WorkSchedule::Dormant);
    }
}

#[test]
fn a_fed_chunk_advances_by_its_length_and_owes_its_reply() {
    let step = apply_step(Residency::Resident, &output(4), false, true, 64, FeedResult::Fed(3), no_resize());
    assert_eq!(
        step,
        ApplyStep {
            requeue: false,
            failure: None,
            processed: 4,
            reply: true,
            settle: Settle::Nothing,
            schedule: WorkSchedule::AfterMillis(0),
        }
    );
    let oversized =
        apply_step(Residency::Resident, &output(4), false, true, 64, FeedResult::Fed(65), no_resize());
    assert_eq!(oversized.failure, Some(ProjectionError::Capacity));
    assert_eq!(oversized.processed, 0);
    assert!(!oversized.requeue);
    assert!(!oversized.reply);
}

#[test]
fn resizes_wait_for_a_process_and_answer_refusals_at_once() {
    let resize = Command::Resize(TerminalSize { cols: 4, rows: 3 }, 7u32);
    let feed = FeedResult::NoModel;
    let unbound = ResizeFacts { process_bound: false, ..no_resize() };
    let step = apply_step(Residency::Resident, &resize, false, true, 64, feed, unbound);
    assert!(step.requeue);
    assert_eq!(step.schedule, WorkSchedule::Dormant);
    let exhausted = ResizeFacts { next_generation: None, ..no_resize() };
    let step = apply_step(Residency::Resident, &resize, false, true, 64, feed, exhausted);
    assert_eq!(step.settle, Settle::Fail(ProjectionError::Capacity));
    assert_eq!(step.failure, Some(ProjectionError::Capacity));
    let refused = ResizeFacts { admitted: Err(ProcessError::Io), ..no_resize() };
    let step = apply_step(Residency::Resident, &resize, false, true, 64, feed, refused);
    assert_eq!(step.settle, Settle::OsRefused { generation: 1, error: ProcessError::Io });
    let step = apply_step(Residency::Resident, &resize, false, true, 64, feed, no_resize());
    assert_eq!(step.settle, Settle::Outstanding(1));
    let view = Command::<u32>::View(8);
    assert_eq!(
        apply_step(Residency::Closing, &view, false, true, 64, feed, no_resize()).settle,
        Settle::Fail(ProjectionError::Closed)
    );
    assert_eq!(apply_step(Residency::Resident, &view, false, true, 64, feed, no_resize()).settle, Settle::Extract);
    assert_eq!(apply_step(Residency::Closing, &view, true, true, 64, feed, no_resize()).settle, Settle::Nothing);
    let checkpoint = Command::<u32>::Checkpoint(9);
    assert_eq!(apply_step(Residency::Resident, &checkpoint, false, true, 64, feed, no_resize()).settle, Settle::Snapshot);
    assert_eq!(apply_step(Residency::Resident, &checkpoint, true, true, 64, feed, no_resize()).settle, Settle::Nothing);
}

// ---- replies ---------------------------------------------------------------

#[test]
fn a_reply_waits_for_a_process_and_for_capacity() {
    let submit = WriteAnswer::Submit(Ok(()));
    assert_eq!(reply_step(false, false, submit, 1), ReplyStep::Keep(WorkSchedule::Dormant));
    assert_eq!(reply_step(true, true, submit, 1), ReplyStep::Keep(WorkSchedule::AfterMillis(5)));
    assert_eq!(
        reply_step(true, false, WriteAnswer::Submit(Err(ProcessError::Capacity)), 1),
        ReplyStep::Keep(WorkSchedule::AfterMillis(5))
    );
    assert_eq!(reply_step(true, false, submit, 1), ReplyStep::Submitted);
    assert_eq!(reply_step(true, false, WriteAnswer::Pending, 1), ReplyStep::Keep(WorkSchedule::Dormant));
}

#[test]
fn any_other_write_error_or_a_short_write_drops_the_reply_and_fails() {
    assert_eq!(
        reply_step(true, false, WriteAnswer::Submit(Err(ProcessError::Io)), 1),
        ReplyStep::Drop(Some(ProjectionError::Process(ProcessError::Io)))
    );
    assert_eq!(
        reply_step(true, false, WriteAnswer::Finished { written: 1, error: None }, 2),
        ReplyStep::Drop(Some(ProjectionError::Process(ProcessError::Io)))
    );
    assert_eq!(
        reply_step(
            true,
            false,
            WriteAnswer::Finished { written: 2, error: Some(ProcessError::Internal) },
            2
        ),
        ReplyStep::Drop(Some(ProjectionError::Process(ProcessError::Internal)))
    );
    assert_eq!(
        reply_step(true, false, WriteAnswer::Finished { written: 2, error: None }, 2),
        ReplyStep::Drop(None)
    );
}

// ---- creation --------------------------------------------------------------

fn limits() -> ProjectionLimits {
    ProjectionLimits {
        staging_bytes: 4096,
        staging_slots: 8,
        resident_bytes: 1 << 20,
        checkpoint_bytes: 3000,
        stored_bytes: 2000,
        stored_slots: 4,
        view_bytes: 1000,
        request_slots: 8,
    }
}

#[test]
fn creation_refuses_an_empty_or_oversized_identity() {
    let create = |identity: usize| vet_creation(8, 8, 2000, 1000, 4096, 500, Ok(1000), true, identity, &limits());
    assert_eq!(create(16), Ok(CreationBounds { queue_slots: 16, peak: 3000 }));
    assert_eq!(create(MAX_IDENTITY_BYTES), Ok(CreationBounds { queue_slots: 16, peak: 3000 }));
    for identity in [0, MAX_IDENTITY_BYTES + 1] {
        assert_eq!(create(identity), Err(ProjectionError::InvalidConfiguration));
    }
    assert_eq!(
        vet_creation(8, 8, 2000, 1000, 4096, 500, Ok(1000), false, 16, &limits()),
        Err(ProjectionError::InvalidConfiguration)
    );
    assert_eq!(
        vet_creation(usize::MAX, 1, 2000, 1000, 4096, 500, Ok(1000), true, 16, &limits()),
        Err(ProjectionError::InvalidConfiguration)
    );
    assert_eq!(
        vet_creation(8, 8, 2001, 1000, 4096, 500, Ok(1000), true, 16, &limits()),
        Err(ProjectionError::InvalidConfiguration)
    );
}

// ---- finished jobs, reads and teardown --------------------------------------

#[test]
fn an_uncertain_commit_stays_charged_and_every_later_close_fails() {
    let mut queue = Queue::new();
    let mut ledger = UnreclaimedLedger::new();
    let mut reaper: SourceReaper<&str> = SourceReaper::new(3);
    let error = ProjectionError::Storage(CheckpointError::Unavailable);
    let finished = Finished::Commit { outcome: CommitOutcome::Uncertain(error), charge: 512 };
    let step = finish_io(finished, false, true, true, &mut queue, &mut ledger, &mut reaper);
    assert!(matches!(step, FinishStep::Uncertain(e) if e == error));
    assert_eq!(ledger.unreclaimed_sources(), 1);
    assert_eq!(ledger.unreclaimed_reserved_bytes(), 512);
    for waiter in 1..=2 {
        let _ = queue.request_close(Residency::Resident, Some(waiter));
        let (waiters, failed) = queue.finish_close(None);
        assert_eq!(waiters, vec![waiter]);
        assert_eq!(failed, Some(error));
        assert_eq!(queue.close_outcome(Residency::Closed), Some(Err(error)));
    }
}

#[test]
fn a_published_commit_parks_only_a_quiet_projection() {
    let mut queue = Queue::new();
    let mut ledger = UnreclaimedLedger::new();
    let mut reaper: SourceReaper<&str> = SourceReaper::new(3);
    let publish = |source| Finished::Commit { outcome: CommitOutcome::Published(source), charge: 8 };
    let step = finish_io(publish("a"), false, true, true, &mut queue, &mut ledger, &mut reaper);
    assert!(matches!(step, FinishStep::Park("a")));
    assert!(!reaper.holds_sources());
    let _ = queue.accept_command(Residency::Resident, None, Command::View(1));
    let step = finish_io(publish("b"), false, true, true, &mut queue, &mut ledger, &mut reaper);
    assert!(matches!(step, FinishStep::Retired));
    assert!(reaper.holds_sources());
    assert_eq!(ledger.unreclaimed_sources(), 0);
}

#[test]
fn closing_answers_transfers_closed_and_ignores_restores() {
    let mut queue = Queue::new();
    let mut ledger = UnreclaimedLedger::new();
    let mut reaper: SourceReaper<&str> = SourceReaper::new(3);
    let step = finish_io(
        Finished::Transfer { read: Ok(()) },
        true,
        true,
        false,
        &mut queue,
        &mut ledger,
        &mut reaper,
    );
    assert!(matches!(step, FinishStep::Answer(Err(ProjectionError::Closed))));
    let step = finish_io(
        Finished::Restore { restored: Ok(()) },
        true,
        true,
        false,
        &mut queue,
        &mut ledger,
        &mut reaper,
    );
    assert!(matches!(step, FinishStep::Done));
    let step = finish_io(
        Finished::Restore { restored: Ok(()) },
        false,
        true,
        false,
        &mut queue,
        &mut ledger,
        &mut reaper,
    );
    assert!(matches!(step, FinishStep::Install));
}

#[test]
fn reads_need_a_source_memory_and_a_willing_pool() {
    let idle = ReadStep {
        schedule: WorkSchedule::AfterMillis(5),
        failure: None,
        answer: None,
        submitted: false,
    };
    assert_eq!(
        read_step(false, true, Ok(()), true, Ok(())),
        ReadStep { schedule: WorkSchedule::Dormant, failure: Some(ProjectionError::Worker), ..idle }
    );
    assert_eq!(
        read_step(true, true, Err(ProjectionError::Capacity), true, Ok(())),
        ReadStep { answer: Some(ProjectionError::Capacity), ..idle }
    );
    assert_eq!(read_step(true, false, Ok(()), false, Ok(())), idle);
    assert_eq!(
        read_step(true, false, Ok(()), true, Ok(())),
        ReadStep { schedule: WorkSchedule::Dormant, submitted: true, ..idle }
    );
    assert_eq!(
        read_step(true, true, Ok(()), false, Err(ProjectionError::Capacity)),
        ReadStep { answer: Some(ProjectionError::Capacity), ..idle }
    );
}

#[test]
fn teardown_fails_every_wait_keeps_every_source_charged_and_runs_once() {
    let mut residency = Residency::Resident;
    let mut queue = Queue::new();
    let _ = queue.accept_command(Residency::Resident, None, Command::View(1));
    let _ = queue.accept_command(Residency::Resident, None, output(3));
    let _ = queue.request_close(Residency::Resident, Some(9));
    let _ = queue.accept_command(Residency::Resident, None, Command::View(2));
    let mut reaper: SourceReaper<&str> = SourceReaper::new(3);
    reaper.retire("old");
    let shutdown = finish_after_shutdown(
        &mut residency,
        &mut queue,
        &mut reaper,
        Some(Abandoned::Commit("uncertain")),
        Some("parked"),
    );
    assert_eq!(residency, Residency::Closed);
    assert_eq!(shutdown.rejected.len(), 1);
    assert_eq!(shutdown.waiters, vec![9]);
    assert_eq!(shutdown.unreclaimed, vec!["uncertain", "old", "parked"]);
    assert!(!shutdown.transfer_failed);
    assert_eq!(queue.queued(), 0);
    assert!(!reaper.holds_sources());
    assert_eq!(queue.close_outcome(residency), Some(Err(ProjectionError::Worker)));

    let _ = queue.accept_command(Residency::Resident, None, Command::View(3));
    let again = finish_after_shutdown(
        &mut residency,
        &mut queue,
        &mut reaper,
        Some(Abandoned::Transfer),
        Some("parked"),
    );
    assert_eq!(residency, Residency::Closed);
    assert!(again.rejected.is_empty() && again.waiters.is_empty() && again.unreclaimed.is_empty());
    assert!(!again.transfer_failed);
    assert_eq!(queue.queued(), 1);
}

// ---- the continuation journal -----------------------------------------------

fn sequences(journal: &Journal) -> Vec<u64> {
    journal.records().iter().map(|record| record.sequence).collect()
}

#[test]
fn with_no_observer_nothing_is_kept() {
    let mut journal = Journal::new();
    assert!(journal.append(RecordCharge::Output { bytes: 4 }, Some(4), 8, 64).is_empty());
    assert!(journal.records().is_empty());
}

#[test]
fn records_are_evicted_oldest_first_until_the_new_one_fits() {
    let mut journal = Journal::new();
    assert_eq!(journal.open(), Some(0));
    for offset in 1..=3 {
        assert!(journal.append(RecordCharge::Output { bytes: 10 }, Some(offset * 10), 8, 64).is_empty());
    }
    assert_eq!(sequences(&journal), vec![0, 1, 2]);
    // 5 free bytes: two 10-byte records must go before 20 bytes fit.
    let evicted = journal.append(RecordCharge::Output { bytes: 20 }, Some(50), 8, 5);
    assert_eq!(evicted, vec![0, 1]);
    assert_eq!(sequences(&journal), vec![2, 3]);
    // A resize needs only a slot.
    let evicted = journal.append(RecordCharge::Resize { generation: 1 }, None, 0, 0);
    assert_eq!(evicted, vec![2]);
    assert_eq!(journal.records()[1], Record { sequence: 4, bytes: 0 });
}

#[test]
fn a_record_that_never_fits_clears_everything() {
    let mut journal = Journal::new();
    let _ = journal.open();
    journal.append(RecordCharge::Output { bytes: 10 }, Some(10), 8, 64);
    let evicted = journal.append(RecordCharge::Output { bytes: 1000 }, Some(20), 8, 0);
    assert_eq!(evicted, vec![0]);
    assert!(journal.records().is_empty());
}

#[test]
fn an_event_out_of_order_invalidates_the_journal() {
    let mut journal = Journal::new();
    let _ = journal.open();
    journal.append(RecordCharge::Output { bytes: 1 }, Some(10), 8, 64);
    journal.append(RecordCharge::Output { bytes: 1 }, Some(11), 8, 64);
    assert_eq!(journal.append(RecordCharge::Output { bytes: 1 }, None, 8, 64), vec![0, 1]);
    assert!(journal.records().is_empty());
    assert!(journal.append(RecordCharge::Output { bytes: 1 }, Some(12), 8, 64).is_empty());
    assert!(journal.records().is_empty());
    assert_eq!(journal.open(), None);

    let mut resized = Journal::new();
    let _ = resized.open();
    resized.append(RecordCharge::Resize { generation: 2 }, None, 8, 64);
    assert_eq!(resized.append(RecordCharge::Resize { generation: 2 }, None, 8, 64), vec![0]);
}

#[test]
fn the_last_observer_leaving_releases_every_record() {
    let mut journal = Journal::new();
    let _ = journal.open();
    let _ = journal.open();
    journal.append(RecordCharge::Output { bytes: 1 }, Some(1), 8, 64);
    journal.remove();
    assert_eq!(sequences(&journal), vec![0]);
    journal.remove();
    assert!(journal.records().is_empty());
    journal.close();
    assert_eq!(journal.open(), None);
}

#[test]
fn a_finished_resize_applies_only_when_os_and_model_agree() {
    let io = ProjectionError::Process(ProcessError::Io);
    assert_eq!(
        resize_completion(Err(ProcessError::Io), Ok(())),
        ResizeCompletion { model: Err(io), applied: false, failure: None }
    );
    assert_eq!(
        resize_completion(Ok(()), Ok(())),
        ResizeCompletion { model: Ok(()), applied: true, failure: None }
    );
    let engine = ProjectionError::Terminal(TerminalError::EngineFailure);
    assert_eq!(
        resize_completion(Ok(()), Err(engine)),
        ResizeCompletion { model: Err(engine), applied: false, failure: Some(engine) }
    );
    assert_eq!(
        resize_completion(Ok(()), Err(ProjectionError::Closed)),
        ResizeCompletion {
            model: Err(ProjectionError::Closed),
            applied: false,
            failure: Some(ProjectionError::Closed)
        }
    );
    for os in [Ok(()), Err(ProcessError::Io)] {
        assert_eq!(
            closing_resize_completion(os),
            ResizeCompletion { model: Err(ProjectionError::Closed), applied: false, failure: None }
        );
    }
}

#[test]
fn parking_waits_for_a_quiet_queue_and_reports_the_first_refusal() {
    let ok = Ok(());
    assert_eq!(park_step(1, true, ok, ok, ok, ok), ParkStep::Busy);
    assert_eq!(park_step(0, false, ok, ok, ok, ok), ParkStep::NotDue);
    assert_eq!(park_step(0, true, ok, ok, ok, ok), ParkStep::Submitted);
    assert_eq!(
        park_step(0, true, ok, Err(ProjectionError::Capacity), Err(ProjectionError::Closed), ok),
        ParkStep::Failed(ProjectionError::Capacity)
    );
    assert_eq!(
        park_step(0, true, ok, ok, Err(ProjectionError::InvalidConfiguration), ok),
        ParkStep::Failed(ProjectionError::InvalidConfiguration)
    );
    assert_eq!(
        park_step(0, true, ok, ok, ok, Err(ProjectionError::Capacity)),
        ParkStep::Failed(ProjectionError::Capacity)
    );
}

// ---- fault scenarios, on the steps that decide them ---------------------------

#[test]
fn a_reply_with_no_bound_process_is_retained_rather_than_failed() {
    let answer = WriteAnswer::Submit(Ok(()));
    assert_eq!(reply_step(false, false, answer, 1), ReplyStep::Keep(WorkSchedule::Dormant));
    assert_eq!(reply_next(false, false, answer, 1), ReplyNext::Return(WorkSchedule::Dormant));
}

#[test]
fn a_full_input_quota_defers_the_reply_and_the_retry_sends_it() {
    let answer = WriteAnswer::Submit(Ok(()));
    assert_eq!(reply_step(true, true, answer, 1), ReplyStep::Keep(WorkSchedule::AfterMillis(5)));
    assert_eq!(reply_step(true, false, answer, 1), ReplyStep::Submitted);
    assert_eq!(reply_next(true, false, answer, 1), ReplyNext::PollWrite);
    let written = WriteAnswer::Finished { written: 1, error: None };
    assert_eq!(reply_step(true, false, written, 1), ReplyStep::Drop(None));
}

#[test]
fn a_capacity_refusal_retries_but_any_other_write_error_fails_the_projection() {
    let capacity = WriteAnswer::Submit(Err(ProcessError::Capacity));
    assert_eq!(reply_step(true, false, capacity, 1), ReplyStep::Keep(WorkSchedule::AfterMillis(5)));
    assert_eq!(reply_next(true, false, capacity, 1), ReplyNext::Return(WorkSchedule::AfterMillis(5)));
    let io = WriteAnswer::Submit(Err(ProcessError::Io));
    assert_eq!(
        reply_step(true, false, io, 1),
        ReplyStep::Drop(Some(ProjectionError::Process(ProcessError::Io)))
    );
    assert_eq!(reply_next(true, false, io, 1), ReplyNext::Return(WorkSchedule::Dormant));
}

#[test]
fn partial_generated_reply_fails_projection_and_is_never_resent() {
    let partial = WriteAnswer::Finished { written: 0, error: None };
    assert_eq!(
        reply_step(true, false, partial, 1),
        ReplyStep::Drop(Some(ProjectionError::Process(ProcessError::Io)))
    );
    assert_eq!(reply_next(true, false, partial, 1), ReplyNext::PollResize);
}

#[test]
fn an_oversized_generated_reply_is_zeroed_and_fails_the_projection() {
    let step = apply_step(Residency::Resident, &output(1), false, true, 64, FeedResult::Fed(65), no_resize());
    assert_eq!(step.failure, Some(ProjectionError::Capacity));
    assert!(!step.reply);
    assert_eq!(step.processed, 0);
}

#[test]
fn a_resize_with_no_bound_process_is_requeued_and_the_caller_keeps_waiting() {
    let resize = Command::Resize(TerminalSize { cols: 4, rows: 3 }, 1u32);
    let unbound = ResizeFacts { process_bound: false, ..no_resize() };
    let step = apply_step(Residency::Resident, &resize, false, true, 64, FeedResult::NoModel, unbound);
    assert!(step.requeue);
    assert_eq!(step.schedule, WorkSchedule::Dormant);
    assert_eq!(step.failure, None);
    assert_eq!(step.settle, Settle::Nothing);
}

#[test]
fn output_with_no_reply_memory_is_requeued_unfed() {
    let step = apply_step(Residency::Resident, &output(2), false, false, 64, FeedResult::Fed(0), no_resize());
    assert!(step.requeue);
    assert_eq!(step.processed, 0);
    assert_eq!(step.failure, None);
    assert_eq!(step.schedule, WorkSchedule::AfterMillis(5));
}

#[test]
fn native_feed_panic_preserves_unprocessed_staging_and_rejects_projection_operations() {
    let step = apply_step(Residency::Resident, &output(2), false, true, 64, FeedResult::Panicked, no_resize());
    assert!(step.requeue);
    assert_eq!(step.processed, 0);
    assert_eq!(step.failure, Some(ProjectionError::Worker));
}

#[test]
fn an_observer_reads_each_mutation_in_order_or_is_told_to_resync() {
    let mut journal = Journal::new();
    assert_eq!(journal.read(0, 0), JournalRead::Closed);
    let start = journal.open().unwrap();
    assert_eq!(journal.read(start, start), JournalRead::Pending);
    for offset in 1..=3 {
        journal.append(RecordCharge::Output { bytes: 10 }, Some(offset), 8, 64);
    }
    for cursor in 0..3 {
        assert_eq!(journal.read(start, cursor), JournalRead::Event(Record { sequence: cursor, bytes: 10 }));
    }
    assert_eq!(journal.read(start, 3), JournalRead::Pending);
    assert_eq!(journal.read(start, 4), JournalRead::Unknown);
    // Evict the first two by making room for 20 bytes with 5 free.
    assert_eq!(journal.append(RecordCharge::Output { bytes: 20 }, Some(4), 8, 5), vec![0, 1]);
    assert_eq!(journal.read(start, 0), JournalRead::Resync { oldest: 2 });
    assert_eq!(journal.read(start, 2), JournalRead::Event(Record { sequence: 2, bytes: 10 }));
    assert_eq!(journal.read(3, 2), JournalRead::Resync { oldest: 3 });
    journal.close();
    assert_eq!(journal.read(start, 4), JournalRead::End);
    assert_eq!(journal.read(start, 2), JournalRead::Resync { oldest: 2 });
}

#[test]
fn an_invalidated_journal_asks_every_reader_to_resync() {
    let mut journal = Journal::new();
    let start = journal.open().unwrap();
    journal.append(RecordCharge::Output { bytes: 1 }, Some(5), 8, 64);
    journal.append(RecordCharge::Output { bytes: 1 }, Some(4), 8, 64);
    assert_eq!(journal.read(start, 0), JournalRead::Resync { oldest: 1 });
}
