//! The accept loop: bind, then accept connections one after another, handing
//! each to the caller's connection handler and waiting for it before the next
//! accept. It stops only on a bind or accept failure: a connection handler
//! that fails ends its own connection, not the loop.
use vstd::prelude::*;

use crate::error::TransportError;

verus! {

/// Where the accept loop stands.
#[derive(PartialEq, Eq, Structural, Debug, Clone, Copy)]
pub enum ListenPhase {
    Binding,
    Accepting,
    /// A connection handler is running; the loop waits for it.
    Serving,
    Stopped,
}

/// What the host reports after doing the last action.
#[derive(PartialEq, Eq, Debug, Clone)]
pub enum ListenEvent {
    Bound,
    BindFailed(String),
    Accepted,
    AcceptFailed(String),
    /// The connection handler finished without error.
    Served,
    /// The connection handler failed with this error; the loop goes on.
    ServeFailed(TransportError),
}

/// What the host is to do next.
#[derive(Debug)]
pub enum ListenAction {
    /// Bind the listener to the address.
    Bind,
    /// Accept the next connection.
    Accept,
    /// Run the connection handler on the accepted connection and the shared
    /// state, and wait for it.
    Dispatch,
    /// The loop is over, with this bind or accept error.
    Finish(TransportError),
}

impl ListenPhase {
    /// The events that can follow the action of this phase.
    pub open spec fn expects(self, e: ListenEvent) -> bool {
        match self {
            ListenPhase::Binding => e is Bound || e is BindFailed,
            ListenPhase::Accepting => e is Accepted || e is AcceptFailed,
            ListenPhase::Serving => e is Served || e is ServeFailed,
            ListenPhase::Stopped => false,
        }
    }

    /// Whether `e` can follow the action of this phase.
    pub fn accepts(&self, e: &ListenEvent) -> (r: bool)
        ensures
            r == self.expects(*e),
    {
        match self {
            ListenPhase::Binding => matches!(e, ListenEvent::Bound | ListenEvent::BindFailed(_)),
            ListenPhase::Accepting => matches!(e, ListenEvent::Accepted | ListenEvent::AcceptFailed(_)),
            ListenPhase::Serving => matches!(e, ListenEvent::Served | ListenEvent::ServeFailed(_)),
            ListenPhase::Stopped => false,
        }
    }
}

/// The first step of the loop: bind.
pub fn listen_start() -> (r: (ListenPhase, ListenAction))
    ensures
        r.0 == ListenPhase::Binding,
        r.1 is Bind,
{
    (ListenPhase::Binding, ListenAction::Bind)
}

/// The next phase and action of the loop in `phase` after `event`. A
/// connection is dispatched only from an accept, and the next accept comes
/// only after its handler has finished, whether it succeeded or failed. Only
/// a bind or accept failure stops the loop.
pub fn listen_step(phase: ListenPhase, event: ListenEvent) -> (r: (ListenPhase, ListenAction))
    requires
        phase.expects(event),
    ensures
        r.0 == ListenPhase::Stopped <==> r.1 is Finish,
        r.0 != ListenPhase::Binding,
        r.1 matches ListenAction::Finish(e) ==> (e is BindFailed || e is AcceptFailed),
        match event {
            ListenEvent::Bound => r == (ListenPhase::Accepting, ListenAction::Accept),
            ListenEvent::BindFailed(m) => r == (ListenPhase::Stopped, ListenAction::Finish(TransportError::BindFailed(m))),
            ListenEvent::Accepted => r == (ListenPhase::Serving, ListenAction::Dispatch),
            ListenEvent::AcceptFailed(m) => r == (ListenPhase::Stopped, ListenAction::Finish(TransportError::AcceptFailed(m))),
            ListenEvent::Served => r == (ListenPhase::Accepting, ListenAction::Accept),
            ListenEvent::ServeFailed(_) => r == (ListenPhase::Accepting, ListenAction::Accept),
        },
{
    match event {
        ListenEvent::Bound => (ListenPhase::Accepting, ListenAction::Accept),
        ListenEvent::BindFailed(m) => (ListenPhase::Stopped, ListenAction::Finish(TransportError::BindFailed(m))),
        ListenEvent::Accepted => (ListenPhase::Serving, ListenAction::Dispatch),
        ListenEvent::AcceptFailed(m) => (ListenPhase::Stopped, ListenAction::Finish(TransportError::AcceptFailed(m))),
        ListenEvent::Served => (ListenPhase::Accepting, ListenAction::Accept),
        ListenEvent::ServeFailed(_) => (ListenPhase::Accepting, ListenAction::Accept),
    }
}

} // verus!
