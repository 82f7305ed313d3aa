//! A single-use result slot shared by an admitted operation and its waiter.
use crate::projection::ProjectionError;
use vstd::prelude::*;

verus! {

/// A ticket as a mathematical value: the kept result, whether the operation
/// has completed, whether its waiter gave up, and whether a waiter must be woken.
pub struct TicketView<T> {
    pub result: Option<Result<T, ProjectionError>>,
    pub complete: bool,
    pub cancelled: bool,
    pub waiting: bool,
}

/// A fresh ticket.
pub open spec fn fresh_ticket<T>() -> TicketView<T> {
    TicketView { result: None, complete: false, cancelled: false, waiting: false }
}

/// Completing with `result`: only the first completion counts; its result is
/// kept only if the waiter has not given up; a registered waiter is woken.
pub open spec fn completed<T>(ticket: TicketView<T>, result: Result<T, ProjectionError>) -> (
    TicketView<T>,
    bool,
) {
    if ticket.complete {
        (ticket, false)
    } else {
        (
            TicketView {
                result: if ticket.cancelled {
                    ticket.result
                } else {
                    Some(result)
                },
                complete: true,
                cancelled: ticket.cancelled,
                waiting: false,
            },
            ticket.waiting,
        )
    }
}

/// Polling: the kept result is handed over (once); a completed ticket with no
/// kept result answers `Closed`; otherwise the waiter registers and waits.
pub open spec fn polled<T>(ticket: TicketView<T>) -> (TicketView<T>, Option<
    Result<T, ProjectionError>,
>) {
    match ticket.result {
        Some(result) => (TicketView { result: None, waiting: false, ..ticket }, Some(result)),
        None => if ticket.complete {
            (TicketView { waiting: false, ..ticket }, Some(Err(ProjectionError::Closed)))
        } else {
            (TicketView { waiting: true, ..ticket }, None)
        },
    }
}

/// The waiter gives up: nothing is kept for it and nobody waits.
pub open spec fn given_up<T>(ticket: TicketView<T>) -> TicketView<T> {
    TicketView { result: None, cancelled: true, waiting: false, ..ticket }
}

/// The state of one admitted operation's result.
pub struct Ticket<T> {
    result: Option<Result<T, ProjectionError>>,
    complete: bool,
    cancelled: bool,
    waiting: bool,
}

impl<T> View for Ticket<T> {
    type V = TicketView<T>;

    closed spec fn view(&self) -> TicketView<T> {
        TicketView {
            result: self.result,
            complete: self.complete,
            cancelled: self.cancelled,
            waiting: self.waiting,
        }
    }
}

impl<T> Ticket<T> {
    /// A ticket nobody has completed, cancelled or waited on.
    pub fn new() -> (ticket: Self)
        ensures
            ticket@ == fresh_ticket::<T>(),
    {
        Ticket { result: None, complete: false, cancelled: false, waiting: false }
    }

    /// Settle the operation; returns whether a registered waiter must now be woken.
    pub fn complete(&mut self, result: Result<T, ProjectionError>) -> (wake: bool)
        ensures
            (final(self)@, wake) == completed(old(self)@, result),
    {
        if self.complete {
            return false;
        }
        self.complete = true;
        if !self.cancelled {
            self.result = Some(result);
        }
        let wake = self.waiting;
        self.waiting = false;
        wake
    }

    /// Whether the waiter has given up.
    pub fn cancelled(&self) -> (cancelled: bool)
        ensures
            cancelled == self@.cancelled,
    {
        self.cancelled
    }

    /// Poll on behalf of the waiter; `None` means it is registered to be woken.
    pub fn poll(&mut self) -> (ready: Option<Result<T, ProjectionError>>)
        ensures
            (final(self)@, ready) == polled(old(self)@),
    {
        match self.result.take() {
            Some(result) => {
                self.waiting = false;
                Some(result)
            },
            None => {
                if self.complete {
                    self.waiting = false;
                    Some(Err(ProjectionError::Closed))
                } else {
                    self.waiting = true;
                    None
                }
            },
        }
    }

    /// The waiter gives up, releasing any kept result.
    pub fn cancel(&mut self)
        ensures
            final(self)@ == given_up(old(self)@),
    {
        self.cancelled = true;
        self.waiting = false;
        self.result = None;
    }
}

/// A ticket completes once: a second completion changes nothing and wakes nobody.
pub proof fn completion_happens_once<T>(
    ticket: TicketView<T>,
    first: Result<T, ProjectionError>,
    second: Result<T, ProjectionError>,
)
    ensures
        completed(completed(ticket, first).0, second) == (completed(ticket, first).0, false),
{
}

/// Once the waiter has given up, a later completion keeps nothing for it.
pub proof fn cancelled_waiter_keeps_nothing<T>(ticket: TicketView<T>, result: Result<T, ProjectionError>)
    ensures
        completed(given_up(ticket), result).0.result is None,
{
}

/// A waiter that polls after completion is always answered; it never waits again.
pub proof fn completed_ticket_never_pends<T>(ticket: TicketView<T>, result: Result<T, ProjectionError>)
    ensures
        polled(completed(ticket, result).0).1 is Some,
{
}

/// A result is handed over at most once: the poll after it answers `Closed`.
pub proof fn result_is_delivered_once<T>(ticket: TicketView<T>)
    requires
        ticket.complete,
        ticket.result is Some,
    ensures
        polled(ticket).1 == ticket.result,
        polled(polled(ticket).0).1 == Some(Err::<T, ProjectionError>(ProjectionError::Closed)),
{
}

/// A completion wakes exactly the waiter registered by a pending poll.
pub proof fn pending_poll_is_woken<T>(ticket: TicketView<T>, result: Result<T, ProjectionError>)
    requires
        !ticket.complete,
        ticket.result is None,
    ensures
        polled(ticket).1 is None,
        completed(polled(ticket).0, result).1,
{
}

} // verus!
