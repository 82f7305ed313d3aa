//! What counts as a valid provider answer on the blocking pool.
//!
//! Reading a committed source back, and protecting and committing a new one,
//! go through a store and a protector that are not trusted to answer what was
//! asked. Each answer they give becomes a specific outcome here. For commits
//! the difference between "nothing was stored" and "something may have been"
//! decides whether a disk reservation can ever be released.
use crate::projection::{CheckpointError, ProjectionError};
use vstd::prelude::*;

verus! {

/// How a commit ended, as its completion needs to know it.
#[derive(Debug, Clone, PartialEq, Eq)]
pub enum CommitOutcome<R> {
    /// The store published exactly what was written, under this reference.
    Published(R),
    /// Nothing reached the store; its reservation can be released.
    Rejected(ProjectionError),
    /// The store acknowledged but disagreed about what it wrote. Ciphertext may
    /// exist under a key that cannot be confirmed, so the reservation stays.
    Uncertain(ProjectionError),
}

/// What the protector handed back, as far as the commit rule reads it.
#[derive(Debug, Clone, Copy, PartialEq, Eq, Structural)]
pub struct Sealed {
    /// Whether the protected checkpoint carries the key it was sealed under.
    pub key_matches: bool,
    /// Whether it carries the descriptor of the checkpoint that was sealed.
    pub descriptor_matches: bool,
    /// Length of its ciphertext.
    pub ciphertext_len: usize,
}

/// What the store acknowledged for a commit.
#[derive(Debug, Clone, PartialEq, Eq)]
pub struct Receipt<R> {
    /// The reference the store published.
    pub reference: R,
    /// Whether the reference names the key that was written.
    pub key_matches: bool,
    /// The byte count the reference records.
    pub bytes: usize,
}

/// Whether a sealed checkpoint may be handed to the store: it names the right
/// key and descriptor, and its ciphertext is nonempty and within the bound.
pub open spec fn sealed_is_valid(sealed: Sealed, protected_max: usize) -> bool {
    sealed.key_matches && sealed.descriptor_matches && 0 < sealed.ciphertext_len
        && sealed.ciphertext_len <= protected_max
}

/// Vet the protector's answer. `Ok` carries the ciphertext length to commit;
/// otherwise the commit is rejected before the store is asked anything: with
/// the protector's own error, or `InvalidConfiguration` for an answer that
/// breaks the rule.
pub fn vet_sealed<R>(sealed: Result<Sealed, ProjectionError>, protected_max: usize) -> (vetted:
    Result<usize, CommitOutcome<R>>)
    ensures
        match sealed {
            Err(error) => vetted == Err::<usize, _>(CommitOutcome::<R>::Rejected(error)),
            Ok(sealed) => if sealed_is_valid(sealed, protected_max) {
                vetted == Ok::<_, CommitOutcome<R>>(sealed.ciphertext_len)
            } else {
                vetted == Err::<usize, _>(
                    CommitOutcome::<R>::Rejected(ProjectionError::InvalidConfiguration),
                )
            },
        },
{
    match sealed {
        Err(error) => Err(CommitOutcome::Rejected(error)),
        Ok(sealed) => {
            if sealed.key_matches && sealed.descriptor_matches && sealed.ciphertext_len > 0
                && sealed.ciphertext_len <= protected_max {
                Ok(sealed.ciphertext_len)
            } else {
                Err(CommitOutcome::Rejected(ProjectionError::InvalidConfiguration))
            }
        },
    }
}

/// The outcome of a commit of `written` ciphertext bytes, given the store's answer.
pub open spec fn receipt_outcome<R>(receipt: Result<Receipt<R>, ProjectionError>, written: usize) -> CommitOutcome<R> {
    match receipt {
        Err(error) => CommitOutcome::Rejected(error),
        Ok(receipt) => if receipt.key_matches && receipt.bytes == written {
            CommitOutcome::Published(receipt.reference)
        } else {
            CommitOutcome::Uncertain(ProjectionError::InvalidConfiguration)
        },
    }
}

/// Settle a commit of `written` ciphertext bytes from the store's answer. A
/// refusal stored nothing; an acknowledgement that names another key or
/// another length is uncertain; only an exact one is published.
pub fn vet_receipt<R>(receipt: Result<Receipt<R>, ProjectionError>, written: usize) -> (outcome:
    CommitOutcome<R>)
    ensures
        outcome == receipt_outcome(receipt, written),
{
    match receipt {
        Err(error) => CommitOutcome::Rejected(error),
        Ok(receipt) => {
            if receipt.key_matches && receipt.bytes == written {
                CommitOutcome::Published(receipt.reference)
            } else {
                CommitOutcome::Uncertain(ProjectionError::InvalidConfiguration)
            }
        },
    }
}

/// Vet the store's answer to a read of a source recorded as `reference_bytes`
/// long: a short or long read is unavailable storage (`Storage(Unavailable)`) and is not handed to the
/// protector.
pub fn vet_read(read: Result<usize, ProjectionError>, reference_bytes: usize) -> (vetted: Result<
    (),
    ProjectionError,
>)
    ensures
        vetted == match read {
            Err(error) => Err(error),
            Ok(len) => if len == reference_bytes {
                Ok(())
            } else {
                Err(ProjectionError::Storage(CheckpointError::Unavailable))
            },
        },
{
    match read {
        Err(error) => Err(error),
        Ok(len) => if len == reference_bytes {
            Ok(())
        } else {
            Err(ProjectionError::Storage(CheckpointError::Unavailable))
        },
    }
}

/// Vet an authenticated checkpoint: it must carry the descriptor that was
/// asked for and fit the plaintext bound, or it is refused even though it
/// authenticated.
pub fn vet_opened(
    opened: Result<(), ProjectionError>,
    descriptor_matches: bool,
    plaintext_len: usize,
    plaintext_max: usize,
) -> (vetted: Result<(), ProjectionError>)
    ensures
        vetted == match opened {
            Err(error) => Err(error),
            Ok(()) => if descriptor_matches && plaintext_len <= plaintext_max {
                Ok(())
            } else {
                Err(ProjectionError::InvalidConfiguration)
            },
        },
{
    match opened {
        Err(error) => Err(error),
        Ok(()) => if descriptor_matches && plaintext_len <= plaintext_max {
            Ok(())
        } else {
            Err(ProjectionError::InvalidConfiguration)
        },
    }
}

/// A commit is published only when the store acknowledged exactly the bytes
/// that were written under the right key; it is rejected, with nothing stored,
/// exactly when the store refused; any other acknowledgement is uncertain.
pub proof fn published_means_exact<R>(receipt: Result<Receipt<R>, ProjectionError>, written: usize)
    ensures
        receipt_outcome(receipt, written) is Published ==> (receipt matches Ok(r) && r.key_matches
            && r.bytes == written && receipt_outcome(receipt, written) == CommitOutcome::Published(
            r.reference,
        )),
        receipt_outcome(receipt, written) is Rejected <==> receipt is Err,
        receipt_outcome(receipt, written) is Uncertain ==> receipt is Ok,
{
}

} // verus!
