//! Replaceable process ports, as far as the library's logic reads them.
use vstd::prelude::*;

verus! {

/// Result of bounded lossless output admission.
#[derive(Debug, Clone, Copy, PartialEq, Eq, Structural)]
pub enum OutputAcceptance {
    /// The entire offered chunk was accepted exactly once.
    Accepted,
    /// Nothing was accepted. Retain the same chunk and wait for capacity.
    Backpressure,
    /// Session has been removed; delivery must stop.
    Closed,
}

/// A runtime admission lease transferred to the actual queued input owner.
/// The owner of the queued input releases it only after clearing or
/// releasing that input, even if its waiter is gone.
pub trait IInputReservation: Send {}

} // verus!
