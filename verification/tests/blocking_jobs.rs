//! What the blocking pool accepts from a provider, and what it refuses: each
//! provider answer is handed to the library's vetting as the facts it reads.
use pty_runtime_application::projection::blocking::{
    vet_opened, vet_read, vet_receipt, vet_sealed, CommitOutcome, Receipt, Sealed,
};
use pty_runtime_application::projection::reaper::SourceReaper;
use pty_runtime_application::projection::{CheckpointError, ProcessError, ProjectionError};

const PROTECTED_MAX: usize = 4096;

/// A read of `read_len` ciphertext bytes against a reference recording
/// `reference_bytes`, then the protector's verdict, then the descriptor and
/// plaintext checks.
fn read(
    read_len: usize,
    reference_bytes: usize,
    descriptor_matches: bool,
    plaintext_len: usize,
    plaintext_max: usize,
) -> Result<(), ProjectionError> {
    vet_read(Ok(read_len), reference_bytes)?;
    vet_opened(Ok(()), descriptor_matches, plaintext_len, plaintext_max)
}

/// Protect, then (only if the sealed checkpoint passes) commit.
fn commit(
    sealed: Result<Sealed, ProjectionError>,
    store: impl FnOnce(usize) -> Result<Receipt<[u8; 16]>, ProjectionError>,
) -> CommitOutcome<[u8; 16]> {
    match vet_sealed(sealed, PROTECTED_MAX) {
        Err(outcome) => outcome,
        Ok(len) => vet_receipt(store(len), len),
    }
}

fn sealed(ciphertext_len: usize) -> Sealed {
    Sealed { key_matches: true, descriptor_matches: true, ciphertext_len }
}

fn receipt(key_matches: bool, bytes: usize) -> Receipt<[u8; 16]> {
    Receipt { reference: [1; 16], key_matches, bytes }
}

#[test]
fn a_read_whose_length_disagrees_with_the_reference_is_unavailable_not_opened() {
    assert_eq!(read(10, 11, true, 4, 4096), Err(ProjectionError::Storage(CheckpointError::Unavailable)));
}

#[test]
fn an_authenticated_checkpoint_with_a_different_descriptor_is_still_refused() {
    assert_eq!(
        read(10, 10, false, 1, 4096),
        Err(ProjectionError::InvalidConfiguration)
    );
}

#[test]
fn plaintext_larger_than_the_configured_cap_is_refused_after_authentication() {
    assert_eq!(
        read(10, 10, true, 64, 16),
        Err(ProjectionError::InvalidConfiguration)
    );
}

#[test]
fn a_matching_read_is_returned() {
    assert_eq!(read(10, 10, true, 4, 4096), Ok(()));
}

#[test]
fn a_protector_failure_is_rejected_because_nothing_reached_the_store() {
    let outcome = commit(Err(ProjectionError::Storage(CheckpointError::Unavailable)), |_| {
        panic!("the store must not be asked")
    });
    assert!(matches!(outcome, CommitOutcome::Rejected(_)));
}

#[test]
fn a_store_failure_is_rejected_because_a_failed_commit_stores_nothing() {
    let outcome = commit(Ok(sealed(8)), |_| Err(ProjectionError::Storage(CheckpointError::Unavailable)));
    assert!(matches!(outcome, CommitOutcome::Rejected(_)));
}

#[test]
fn protected_output_that_contradicts_the_request_is_rejected_before_committing() {
    for protected_out in [
        Sealed { key_matches: false, ..sealed(8) },
        Sealed { descriptor_matches: false, ..sealed(8) },
        sealed(0),
        sealed(9000),
    ] {
        let outcome = commit(Ok(protected_out), |_| panic!("the store must not be asked"));
        assert!(matches!(outcome, CommitOutcome::Rejected(_)));
    }
}

#[test]
fn a_store_that_acknowledges_but_disagrees_is_uncertain_not_rejected() {
    for answer in [receipt(false, 8), receipt(true, 4096)] {
        let outcome = commit(Ok(sealed(8)), |_| Ok(answer.clone()));
        assert!(
            matches!(outcome, CommitOutcome::Uncertain(_)),
            "an acknowledged commit that disagrees must stay charged",
        );
    }
}

#[test]
fn a_consistent_commit_is_published() {
    let outcome = commit(Ok(sealed(8)), |len| Ok(receipt(true, len)));
    assert!(matches!(outcome, CommitOutcome::Published(_)));
}

#[test]
fn delete_reports_the_provider_failure_for_the_reaper_to_retry() {
    let mut reaper: SourceReaper<&str> = SourceReaper::new(3);
    reaper.retire("source");
    let attempt = reaper.check_out().unwrap();
    assert_eq!(reaper.finish_delete(attempt, Err(ProjectionError::Storage(CheckpointError::Unavailable))), None);
    assert!(reaper.holds_sources(), "a failed delete keeps the source for a retry");

    let attempt = reaper.check_out().unwrap();
    assert_eq!(attempt.attempts, 1);
    assert_eq!(reaper.finish_delete(attempt, Ok(())), None);
    assert!(!reaper.holds_sources());
}
