//! The one blocking job a projection may have outstanding, and its slot.
//!
//! Submitting *is* recording: a job is handed to the pool and its completion
//! state stored in the same step, and a rejected submission hands the held
//! state straight back so the caller cannot forget it still owns it.
use crate::projection::ProjectionError;
use vstd::prelude::*;

verus! {

/// At most one outstanding blocking job, with whatever its completion needs.
pub struct InFlight<P> {
    slot: Option<P>,
}

impl<P> InFlight<P> {
    /// The outstanding job's state, if any.
    pub closed spec fn spec_slot(&self) -> Option<P> {
        self.slot
    }

    /// Nothing outstanding.
    pub fn new() -> (io: Self)
        ensures
            io.spec_slot() is None,
    {
        InFlight { slot: None }
    }

    /// Whether a job is outstanding.
    pub fn busy(&self) -> (busy: bool)
        ensures
            busy == (self.spec_slot() is Some),
    {
        self.slot.is_some()
    }

    /// Take the job only once its worker has published a result (`ready`). An
    /// unfinished job stays in place: the slot is what stops a second one.
    pub fn take_finished(&mut self, ready: bool) -> (finished: Option<P>)
        ensures
            ready ==> finished == old(self).spec_slot() && final(self).spec_slot() is None,
            !ready ==> finished is None && final(self).spec_slot() == old(self).spec_slot(),
    {
        if !ready {
            return None;
        }
        self.slot.take()
    }

    /// Abandon whatever is outstanding, finished or not.
    pub fn abandon(&mut self) -> (abandoned: Option<P>)
        ensures
            abandoned == old(self).spec_slot(),
            final(self).spec_slot() is None,
    {
        self.slot.take()
    }

    /// What is outstanding, without taking it.
    pub fn peek(&self) -> (outstanding: Option<&P>)
        ensures
            outstanding == match self.spec_slot() {
                Some(held) => Some(&held),
                None => None::<&P>,
            },
    {
        self.slot.as_ref()
    }

    /// Submit one job and record it in the same step. `pool_accepts` is the
    /// blocking pool's answer to the submission. An occupied slot refuses with
    /// `Worker` before the pool is asked; a refusing pool gives `Capacity`.
    /// Either way the slot is untouched and `held` comes straight back.
    pub fn submit(&mut self, held: P, pool_accepts: bool) -> (submitted: Result<(), (P, ProjectionError)>)
        ensures
            old(self).spec_slot() is Some ==> {
                &&& submitted == Err::<(), (P, ProjectionError)>((held, ProjectionError::Worker))
                &&& final(self).spec_slot() == old(self).spec_slot()
            },
            old(self).spec_slot() is None && !pool_accepts ==> {
                &&& submitted == Err::<(), (P, ProjectionError)>((held, ProjectionError::Capacity))
                &&& final(self).spec_slot() is None
            },
            old(self).spec_slot() is None && pool_accepts ==> {
                &&& submitted is Ok
                &&& final(self).spec_slot() == Some(held)
            },
    {
        if self.slot.is_some() {
            return Err((held, ProjectionError::Worker));
        }
        if !pool_accepts {
            return Err((held, ProjectionError::Capacity));
        }
        self.slot = Some(held);
        Ok(())
    }
}

} // verus!
