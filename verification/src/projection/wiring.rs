//! The injected collaborators of one projection, each released during cleanup:
//! the service bundle `S`, the scheduler registration `H` and the bound
//! process `P`. The slots are private, so nothing can swap a collaborator or
//! observe a released one.
use crate::projection::ProjectionError;
use vstd::prelude::*;

verus! {

/// The three slots as plain values.
pub struct WiringView<S, H, P> {
    pub services: Option<S>,
    pub handle: Option<H>,
    pub process: Option<P>,
}

/// The injected collaborators, each released during cleanup.
pub struct Wiring<S, H, P> {
    services: Option<S>,
    handle: Option<H>,
    process: Option<P>,
}

impl<S, H, P> View for Wiring<S, H, P> {
    type V = WiringView<S, H, P>;

    closed spec fn view(&self) -> WiringView<S, H, P> {
        WiringView { services: self.services, handle: self.handle, process: self.process }
    }
}

impl<S, H, P> Wiring<S, H, P> {
    /// Hold the service bundle. The scheduler registration and the process are
    /// bound later, once they exist.
    pub fn new(services: S) -> (wiring: Self)
        ensures
            wiring@.services == Some(services),
            wiring@.handle is None,
            wiring@.process is None,
    {
        Wiring { services: Some(services), handle: None, process: None }
    }

    /// The service bundle, or `Closed` once cleanup has released it.
    pub fn services(&self) -> (services: Result<&S, ProjectionError>)
        ensures
            match self@.services {
                Some(held) => services == Ok::<&S, ProjectionError>(&held),
                None => services == Err::<&S, _>(ProjectionError::Closed),
            },
    {
        match &self.services {
            Some(services) => Ok(services),
            None => Err(ProjectionError::Closed),
        }
    }

    /// Publish the scheduler registration made after construction.
    pub fn attach_handle(&mut self, handle: H)
        ensures
            final(self)@ == (WiringView { handle: Some(handle), ..old(self)@ }),
    {
        self.handle = Some(handle);
    }

    /// The registration to wake for one more worker run, or `Worker` once it
    /// has been released (or was never attached).
    pub fn wake(&self) -> (target: Result<&H, ProjectionError>)
        ensures
            match self@.handle {
                Some(held) => target == Ok::<&H, ProjectionError>(&held),
                None => target == Err::<&H, _>(ProjectionError::Worker),
            },
    {
        match &self.handle {
            Some(handle) => Ok(handle),
            None => Err(ProjectionError::Worker),
        }
    }

    /// The registration itself, if attached and not yet released.
    pub fn handle(&self) -> (handle: Option<&H>)
        ensures
            match self@.handle {
                Some(held) => handle == Some(&held),
                None => handle is None,
            },
    {
        match &self.handle {
            Some(handle) => Some(handle),
            None => None,
        }
    }

    /// Bind exactly one admitted process; a second binding is refused with
    /// `InvalidConfiguration` and the process is handed back.
    pub fn bind_process(&mut self, process: P) -> (bound: Result<(), (P, ProjectionError)>)
        ensures
            old(self)@.process is Some ==> {
                &&& bound == Err::<(), _>((process, ProjectionError::InvalidConfiguration))
                &&& final(self)@ == old(self)@
            },
            old(self)@.process is None ==> {
                &&& bound is Ok
                &&& final(self)@ == (WiringView { process: Some(process), ..old(self)@ })
            },
    {
        if self.process.is_some() {
            return Err((process, ProjectionError::InvalidConfiguration));
        }
        self.process = Some(process);
        Ok(())
    }

    /// Undo a bind that raced a completing cleanup.
    pub fn unbind_process(&mut self)
        ensures
            final(self)@ == (WiringView { process: None, ..old(self)@ }),
    {
        self.process = None;
    }

    /// The bound process, if a child has been admitted yet.
    pub fn process(&self) -> (process: Option<&P>)
        ensures
            match self@.process {
                Some(held) => process == Some(&held),
                None => process is None,
            },
    {
        match &self.process {
            Some(process) => Some(process),
            None => None,
        }
    }

    /// Release the bound process.
    pub fn take_process(&mut self) -> (process: Option<P>)
        ensures
            process == old(self)@.process,
            final(self)@ == (WiringView { process: None, ..old(self)@ }),
    {
        self.process.take()
    }

    /// Release the service bundle; every later `services` reports `Closed`.
    pub fn take_services(&mut self) -> (services: Option<S>)
        ensures
            services == old(self)@.services,
            final(self)@ == (WiringView { services: None, ..old(self)@ }),
    {
        self.services.take()
    }

    /// Release the scheduler registration; every later `wake` reports `Worker`.
    pub fn take_handle(&mut self) -> (handle: Option<H>)
        ensures
            handle == old(self)@.handle,
            final(self)@ == (WiringView { handle: None, ..old(self)@ }),
    {
        self.handle.take()
    }
}

} // verus!
