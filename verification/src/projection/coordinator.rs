//! The checks a projection owner makes on numbers: the bounds a new projection
//! must fit before any native state exists, and what a checkpoint or a reply
//! handed back by the engine or the process must satisfy.
use crate::projection::ProjectionError;
use vstd::prelude::*;

verus! {

/// One runtime's global projection limits, in bytes or slots.
#[derive(Debug, Clone, Copy, PartialEq, Eq, Structural)]
pub struct ProjectionLimits {
    pub staging_bytes: usize,
    pub staging_slots: usize,
    pub resident_bytes: usize,
    pub checkpoint_bytes: usize,
    pub stored_bytes: usize,
    pub stored_slots: usize,
    pub view_bytes: usize,
    pub request_slots: usize,
}

/// The queue capacity a projection preallocates: every queued control owns a
/// request slot and every queued output a staging slot, so both finite
/// populations are reserved together. An overflowing sum is a configuration
/// error.
pub fn queue_slots(staging_slots: usize, request_slots: usize) -> (slots: Result<
    usize,
    ProjectionError,
>)
    ensures
        staging_slots + request_slots <= usize::MAX ==> slots == Ok::<usize, ProjectionError>(
            (staging_slots + request_slots) as usize,
        ),
        staging_slots + request_slots > usize::MAX ==> slots == Err::<usize, _>(
            ProjectionError::InvalidConfiguration,
        ),
{
    match staging_slots.checked_add(request_slots) {
        Some(slots) => Ok(slots),
        None => Err(ProjectionError::InvalidConfiguration),
    }
}

/// Whether a projection with these per-session sizes fits the global limits:
/// the protector reports a usable nonzero ciphertext bound, a checkpoint and
/// its ciphertext fit the checkpoint budget together, the ciphertext fits
/// storage, a feed fits staging, and the larger of a view and a reply fits the
/// view budget.
pub open spec fn fits_limits(
    protected_bytes: usize,
    checkpoint_bytes: usize,
    feed_bytes: usize,
    reply_bytes: usize,
    view_reservation: usize,
    limits: ProjectionLimits,
) -> bool {
    &&& 0 < protected_bytes <= isize::MAX
    &&& protected_bytes + checkpoint_bytes <= limits.checkpoint_bytes
    &&& protected_bytes <= limits.stored_bytes
    &&& feed_bytes <= limits.staging_bytes
    &&& view_reservation <= limits.view_bytes
    &&& reply_bytes <= limits.view_bytes
}

/// What `check_budgets` answers: the peak checkpoint memory, or why the
/// projection does not fit.
pub open spec fn check_budgets_spec(
    protected_bytes: usize,
    checkpoint_bytes: usize,
    feed_bytes: usize,
    reply_bytes: usize,
    view_reservation: Result<usize, ProjectionError>,
    limits: ProjectionLimits,
) -> Result<usize, ProjectionError> {
    if protected_bytes + checkpoint_bytes > usize::MAX {
        Err(ProjectionError::InvalidConfiguration)
    } else if !{
        &&& 0 < protected_bytes <= isize::MAX
        &&& protected_bytes + checkpoint_bytes <= limits.checkpoint_bytes
        &&& protected_bytes <= limits.stored_bytes
        &&& feed_bytes <= limits.staging_bytes
    } {
        Err(ProjectionError::InvalidConfiguration)
    } else {
        match view_reservation {
            Err(error) => Err(error),
            Ok(view) => if view <= limits.view_bytes && reply_bytes <= limits.view_bytes {
                Ok((protected_bytes + checkpoint_bytes) as usize)
            } else {
                Err(ProjectionError::InvalidConfiguration)
            },
        }
    }
}

/// Check a new projection's sizes against the global limits before any native
/// state is created, and return the peak checkpoint memory (plaintext plus
/// ciphertext). Every violated bound is `InvalidConfiguration`; a view size the
/// options could not compute is reported only when every other bound holds.
pub fn check_budgets(
    protected_bytes: usize,
    checkpoint_bytes: usize,
    feed_bytes: usize,
    reply_bytes: usize,
    view_reservation: Result<usize, ProjectionError>,
    limits: &ProjectionLimits,
) -> (peak: Result<usize, ProjectionError>)
    ensures
        protected_bytes + checkpoint_bytes > usize::MAX ==> peak == Err::<usize, _>(
            ProjectionError::InvalidConfiguration,
        ),
        protected_bytes + checkpoint_bytes <= usize::MAX ==> match view_reservation {
            Ok(view) => peak == if fits_limits(
                protected_bytes,
                checkpoint_bytes,
                feed_bytes,
                reply_bytes,
                view,
                *limits,
            ) {
                Ok::<usize, ProjectionError>((protected_bytes + checkpoint_bytes) as usize)
            } else {
                Err::<usize, _>(ProjectionError::InvalidConfiguration)
            },
            Err(error) => peak == if {
                &&& 0 < protected_bytes <= isize::MAX
                &&& protected_bytes + checkpoint_bytes <= limits.checkpoint_bytes
                &&& protected_bytes <= limits.stored_bytes
                &&& feed_bytes <= limits.staging_bytes
            } {
                Err::<usize, _>(error)
            } else {
                Err::<usize, _>(ProjectionError::InvalidConfiguration)
            },
        },
{
    let peak = match protected_bytes.checked_add(checkpoint_bytes) {
        Some(peak) => peak,
        None => return Err(ProjectionError::InvalidConfiguration),
    };
    if protected_bytes == 0 || protected_bytes > isize::MAX as usize || limits.checkpoint_bytes
        < peak || limits.stored_bytes < protected_bytes || limits.staging_bytes < feed_bytes {
        return Err(ProjectionError::InvalidConfiguration);
    }
    let view = match view_reservation {
        Ok(view) => view,
        Err(error) => return Err(error),
    };
    let needed = if view > reply_bytes {
        view
    } else {
        reply_bytes
    };
    if limits.view_bytes < needed {
        return Err(ProjectionError::InvalidConfiguration);
    }
    Ok(peak)
}

/// Vet a checkpoint the engine produced: it must describe exactly the
/// boundary that was asked for, and its buffer must fit the configured bound.
/// A wrong descriptor is reported before an oversized buffer.
pub fn vet_checkpoint(descriptor_matches: bool, capacity: usize, checkpoint_bytes: usize) -> (vetted:
    Result<(), ProjectionError>)
    ensures
        vetted == if !descriptor_matches {
            Err(ProjectionError::InvalidConfiguration)
        } else if capacity > checkpoint_bytes {
            Err(ProjectionError::Capacity)
        } else {
            Ok(())
        },
{
    if !descriptor_matches {
        Err(ProjectionError::InvalidConfiguration)
    } else if capacity > checkpoint_bytes {
        Err(ProjectionError::Capacity)
    } else {
        Ok(())
    }
}

/// Vet a reply the engine generated while feeding: one longer than the
/// configured reply bound fails the projection with `Capacity`.
pub fn vet_generated_reply(len: usize, reply_bytes: usize) -> (vetted: Result<(), ProjectionError>)
    ensures
        vetted == if len > reply_bytes {
            Err(ProjectionError::Capacity)
        } else {
            Ok(())
        },
{
    if len > reply_bytes {
        Err(ProjectionError::Capacity)
    } else {
        Ok(())
    }
}

/// The longest compatibility identity, in bytes, that a terminal factory may report.
pub const MAX_IDENTITY_BYTES: usize = 4096;

/// The preallocations a created projection starts with.
#[derive(Debug, Clone, Copy, PartialEq, Eq, Structural)]
pub struct CreationBounds {
    /// Capacity of the admitted-work queue.
    pub queue_slots: usize,
    /// Peak checkpoint memory: plaintext plus ciphertext.
    pub peak: usize,
}

/// Whether a factory's compatibility identity is usable: nonempty and within
/// `MAX_IDENTITY_BYTES`.
pub open spec fn identity_is_valid(identity_len: usize) -> bool {
    0 < identity_len <= MAX_IDENTITY_BYTES
}

/// What `vet_creation` answers for these arguments.
pub open spec fn creation_verdict(
    staging_slots: usize,
    request_slots: usize,
    protected_bytes: usize,
    checkpoint_bytes: usize,
    feed_bytes: usize,
    reply_bytes: usize,
    view_reservation: Result<usize, ProjectionError>,
    checkpoints_supported: bool,
    identity_len: usize,
    limits: ProjectionLimits,
) -> Result<CreationBounds, ProjectionError> {
    if staging_slots + request_slots > usize::MAX {
        Err(ProjectionError::InvalidConfiguration)
    } else {
        match check_budgets_spec(
            protected_bytes,
            checkpoint_bytes,
            feed_bytes,
            reply_bytes,
            view_reservation,
            limits,
        ) {
            Err(error) => Err(error),
            Ok(peak) => if !checkpoints_supported || !identity_is_valid(identity_len) {
                Err(ProjectionError::InvalidConfiguration)
            } else {
                Ok(CreationBounds { queue_slots: (staging_slots + request_slots) as usize, peak })
            },
        }
    }
}

/// The whole admission decision for a new projection, made before any native
/// state exists: the queue capacity must not overflow, the sizes must fit
/// every global budget (`check_budgets`), the engine must support
/// checkpoints, and the factory's identity must be nonempty and at most
/// `MAX_IDENTITY_BYTES`. Each failure is `InvalidConfiguration`, except a view
/// size the options could not compute, which keeps its own error.
pub fn vet_creation(
    staging_slots: usize,
    request_slots: usize,
    protected_bytes: usize,
    checkpoint_bytes: usize,
    feed_bytes: usize,
    reply_bytes: usize,
    view_reservation: Result<usize, ProjectionError>,
    checkpoints_supported: bool,
    identity_len: usize,
    limits: &ProjectionLimits,
) -> (vetted: Result<CreationBounds, ProjectionError>)
    ensures
        staging_slots + request_slots > usize::MAX ==> vetted == Err::<CreationBounds, _>(
            ProjectionError::InvalidConfiguration,
        ),
        staging_slots + request_slots <= usize::MAX ==> {
            let budgets = check_budgets_spec(
                protected_bytes,
                checkpoint_bytes,
                feed_bytes,
                reply_bytes,
                view_reservation,
                *limits,
            );
            vetted == match budgets {
                Err(error) => Err(error),
                Ok(peak) => if !checkpoints_supported || !identity_is_valid(identity_len) {
                    Err(ProjectionError::InvalidConfiguration)
                } else {
                    Ok(CreationBounds { queue_slots: (staging_slots + request_slots) as usize, peak })
                },
            }
        },
        vetted == creation_verdict(
            staging_slots,
            request_slots,
            protected_bytes,
            checkpoint_bytes,
            feed_bytes,
            reply_bytes,
            view_reservation,
            checkpoints_supported,
            identity_len,
            *limits,
        ),
{
    let queue_slots = match queue_slots(staging_slots, request_slots) {
        Ok(slots) => slots,
        Err(error) => return Err(error),
    };
    let peak = match check_budgets(
        protected_bytes,
        checkpoint_bytes,
        feed_bytes,
        reply_bytes,
        view_reservation,
        limits,
    ) {
        Ok(peak) => peak,
        Err(error) => return Err(error),
    };
    if !checkpoints_supported || identity_len == 0 || identity_len > MAX_IDENTITY_BYTES {
        return Err(ProjectionError::InvalidConfiguration);
    }
    Ok(CreationBounds { queue_slots, peak })
}

/// A new projection is created exactly when everything fits, and then with
/// the queue holding every staging and request slot and the peak checkpoint
/// memory being plaintext plus ciphertext:
/// - slot counts whose sum overflows are refused with `InvalidConfiguration`;
/// - so is a zero or oversized ciphertext bound, a checkpoint and ciphertext
///   over the checkpoint budget, a ciphertext over the storage budget, or a
///   feed larger than the staging budget, whatever the view size;
/// - with those bounds met, a view size the options could not compute is
///   answered with its own error;
/// - otherwise a view or reply over the view budget, an engine without
///   checkpoints, or an empty or overlong identity is `InvalidConfiguration`.
pub proof fn creation_admits_exactly_what_fits(
    staging_slots: usize,
    request_slots: usize,
    protected_bytes: usize,
    checkpoint_bytes: usize,
    feed_bytes: usize,
    reply_bytes: usize,
    view_reservation: Result<usize, ProjectionError>,
    checkpoints_supported: bool,
    identity_len: usize,
    limits: ProjectionLimits,
)
    ensures
        ({
            let verdict = creation_verdict(
                staging_slots,
                request_slots,
                protected_bytes,
                checkpoint_bytes,
                feed_bytes,
                reply_bytes,
                view_reservation,
                checkpoints_supported,
                identity_len,
                limits,
            );
            let slots_fit = staging_slots + request_slots <= usize::MAX;
            let sizes_fit = {
                &&& 0 < protected_bytes <= isize::MAX
                &&& protected_bytes + checkpoint_bytes <= limits.checkpoint_bytes
                &&& protected_bytes <= limits.stored_bytes
                &&& feed_bytes <= limits.staging_bytes
            };
            &&& !slots_fit ==> verdict == Err::<CreationBounds, _>(ProjectionError::InvalidConfiguration)
            &&& feed_bytes > limits.staging_bytes ==> verdict == Err::<CreationBounds, _>(
                ProjectionError::InvalidConfiguration,
            )
            &&& !sizes_fit ==> verdict == Err::<CreationBounds, _>(ProjectionError::InvalidConfiguration)
            &&& (slots_fit && sizes_fit && view_reservation is Err) ==> verdict == Err::<
                CreationBounds,
                _,
            >(view_reservation->Err_0)
            &&& (verdict is Ok) <==> {
                &&& slots_fit
                &&& sizes_fit
                &&& view_reservation is Ok
                &&& view_reservation->Ok_0 <= limits.view_bytes
                &&& reply_bytes <= limits.view_bytes
                &&& checkpoints_supported
                &&& 0 < identity_len <= MAX_IDENTITY_BYTES
            }
            &&& verdict is Ok ==> verdict->Ok_0.queue_slots == staging_slots + request_slots
                && verdict->Ok_0.peak == protected_bytes + checkpoint_bytes
            &&& verdict is Err ==> (verdict->Err_0 == ProjectionError::InvalidConfiguration || (
            view_reservation is Err && verdict->Err_0 == view_reservation->Err_0))
        }),
{
}

} // verus!
