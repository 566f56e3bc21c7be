//! The responder's acceptor loop as a state machine. The driver accepts
//! units, spawns one task per unit and reports what happened; the machine
//! decides whether to accept the next unit, wait for a task to end, or stop.
//! It stops only once the connection has closed and every task has ended,
//! and never has more tasks in flight than its cap.

use vstd::prelude::*;
use crate::config::SessionConfig;
use crate::exchange::TransportError;

verus! {

/// What the driver observed.
#[derive(Debug, Clone, Copy, PartialEq, Eq, Structural)]
pub enum AcceptEvent {
    /// A unit was accepted and a task spawned for it.
    Accepted,
    /// Accepting failed with this error.
    AcceptFailed(TransportError),
    /// A spawned task ended, having served its unit or not.
    TaskFinished(bool),
}

/// What the driver does next.
#[derive(Debug, Clone, Copy, PartialEq, Eq, Structural)]
pub enum AcceptorAction {
    /// Accept the next unit.
    AcceptNext,
    /// Wait for a spawned task to end.
    AwaitTask,
    /// Leave the loop.
    Stop,
}

#[derive(Debug, Clone, Copy, PartialEq, Eq, Structural)]
pub struct Acceptor {
    pub max_in_flight: usize,
    pub in_flight: usize,
    pub accepted: u64,
    pub served: u64,
    pub failed: u64,
    pub open: bool,
}

/// The action that follows a state.
pub open spec fn action_of(s: Acceptor) -> AcceptorAction {
    if s.open && s.in_flight < s.max_in_flight {
        AcceptorAction::AcceptNext
    } else if s.in_flight > 0 {
        AcceptorAction::AwaitTask
    } else {
        AcceptorAction::Stop
    }
}

/// An event can follow a state: a unit is accepted only when the state asks
/// for one and the count has room, and a task ends only while one runs.
pub open spec fn allowed(s: Acceptor, ev: AcceptEvent) -> bool {
    match ev {
        AcceptEvent::Accepted => action_of(s) == AcceptorAction::AcceptNext && s.accepted < u64::MAX,
        AcceptEvent::AcceptFailed(_) => s.open,
        AcceptEvent::TaskFinished(_) => s.in_flight > 0,
    }
}

/// The state after an allowed event. Only a closed connection ends
/// accepting; a failed task is counted and changes nothing else.
pub open spec fn stepped(s: Acceptor, ev: AcceptEvent) -> Acceptor {
    match ev {
        AcceptEvent::Accepted => Acceptor {
            in_flight: (s.in_flight + 1) as usize,
            accepted: (s.accepted + 1) as u64,
            ..s
        },
        AcceptEvent::AcceptFailed(e) => {
            if e == TransportError::ConnectionClosed {
                Acceptor { open: false, ..s }
            } else {
                s
            }
        },
        AcceptEvent::TaskFinished(ok) => {
            if ok {
                Acceptor { in_flight: (s.in_flight - 1) as usize, served: (s.served + 1) as u64, ..s }
            } else {
                Acceptor { in_flight: (s.in_flight - 1) as usize, failed: (s.failed + 1) as u64, ..s }
            }
        },
    }
}

/// Every event of `evs` is allowed in the state it meets.
pub open spec fn run_allowed(s: Acceptor, evs: Seq<AcceptEvent>) -> bool
    decreases evs.len(),
{
    evs.len() == 0 || (allowed(s, evs[0]) && run_allowed(stepped(s, evs[0]), evs.drop_first()))
}

/// The state after a run of events.
pub open spec fn run(s: Acceptor, evs: Seq<AcceptEvent>) -> Acceptor
    decreases evs.len(),
{
    if evs.len() == 0 {
        s
    } else {
        run(stepped(s, evs[0]), evs.drop_first())
    }
}

impl Acceptor {
    /// The cap is positive and respected, and every accepted unit is either
    /// in flight or counted as served or failed.
    pub open spec fn wf(&self) -> bool {
        &&& 0 < self.max_in_flight
        &&& self.in_flight <= self.max_in_flight
        &&& self.accepted == self.served + self.failed + self.in_flight
    }

    /// A fresh loop on an open connection.
    pub fn new(cfg: &SessionConfig) -> (r: Acceptor)
        requires
            cfg.is_valid(),
        ensures
            r.wf(),
            r == (Acceptor {
                max_in_flight: cfg.max_in_flight,
                in_flight: 0,
                accepted: 0,
                served: 0,
                failed: 0,
                open: true,
            }),
    {
        Acceptor { max_in_flight: cfg.max_in_flight, in_flight: 0, accepted: 0, served: 0, failed: 0, open: true }
    }

    /// What the driver does next.
    pub fn next_action(&self) -> (r: AcceptorAction)
        ensures
            r == action_of(*self),
    {
        if self.open && self.in_flight < self.max_in_flight {
            AcceptorAction::AcceptNext
        } else if self.in_flight > 0 {
            AcceptorAction::AwaitTask
        } else {
            AcceptorAction::Stop
        }
    }

    /// Whether `ev` may be reported now.
    pub fn permits(&self, ev: AcceptEvent) -> (r: bool)
        ensures
            r == allowed(*self, ev),
    {
        match ev {
            AcceptEvent::Accepted => self.open && self.in_flight < self.max_in_flight && self.accepted < u64::MAX,
            AcceptEvent::AcceptFailed(_) => self.open,
            AcceptEvent::TaskFinished(_) => self.in_flight > 0,
        }
    }

    /// Takes in an event and returns the next action.
    pub fn step(&mut self, ev: AcceptEvent) -> (r: AcceptorAction)
        requires
            old(self).wf(),
            allowed(*old(self), ev),
        ensures
            *final(self) == stepped(*old(self), ev),
            final(self).wf(),
            r == action_of(*final(self)),
    {
        match ev {
            AcceptEvent::Accepted => {
                self.in_flight = self.in_flight + 1;
                self.accepted = self.accepted + 1;
            },
            AcceptEvent::AcceptFailed(e) => {
                if e == TransportError::ConnectionClosed {
                    self.open = false;
                }
            },
            AcceptEvent::TaskFinished(ok) => {
                self.in_flight = self.in_flight - 1;
                if ok {
                    self.served = self.served + 1;
                } else {
                    self.failed = self.failed + 1;
                }
            },
        }
        self.next_action()
    }
}

/// Every allowed event keeps the state well formed.
pub proof fn lemma_step_wf(s: Acceptor, ev: AcceptEvent)
    requires
        s.wf(),
        allowed(s, ev),
    ensures
        stepped(s, ev).wf(),
{
}

/// Along any allowed run the cap on tasks in flight holds, and as long as
/// no accept reports a closed connection the loop stays open: failed units,
/// however many, never end it.
pub proof fn lemma_run_isolated(s: Acceptor, evs: Seq<AcceptEvent>)
    requires
        s.wf(),
        s.open,
        run_allowed(s, evs),
        forall|i: int| 0 <= i < evs.len() ==> evs[i] != AcceptEvent::AcceptFailed(TransportError::ConnectionClosed),
    ensures
        run(s, evs).wf(),
        run(s, evs).open,
        run(s, evs).in_flight <= s.max_in_flight,
        run(s, evs).max_in_flight == s.max_in_flight,
        action_of(run(s, evs)) != AcceptorAction::Stop,
    decreases evs.len(),
{
    if evs.len() > 0 {
        lemma_step_wf(s, evs[0]);
        let rest = evs.drop_first();
        assert forall|i: int| 0 <= i < rest.len() implies rest[i] != AcceptEvent::AcceptFailed(
            TransportError::ConnectionClosed,
        ) by {
            assert(rest[i] == evs[i + 1]);
        }
        lemma_run_isolated(stepped(s, evs[0]), rest);
    }
}

/// Once the connection has closed the loop stops as soon as the last task
/// has ended.
pub proof fn lemma_stops_after_drain(s: Acceptor)
    requires
        s.wf(),
        !s.open,
        s.in_flight == 0,
    ensures
        action_of(s) == AcceptorAction::Stop,
{
}

} // verus!
