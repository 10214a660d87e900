//! The client call: connect, write one frame, read one window, close. One
//! request and one response per call, no retry, no reassembly of a response
//! longer than the window.
use vstd::prelude::*;

use crate::codec::{frame, Request};
use crate::error::TransportError;
use crate::exchange::{take_window, window};
use crate::{Response, BUFFER_SIZE};

verus! {

/// A client of the server at one address (`host:port`).
#[derive(PartialEq, Eq, Debug, Clone)]
pub struct Network {
    server_url: String,
}

impl Network {
    /// The address the client sends to.
    pub closed spec fn url_view(&self) -> Seq<char> {
        self.server_url@
    }

    /// A client that sends its requests to `server_url`.
    pub fn new(server_url: &str) -> (r: Network)
        ensures
            r.url_view() == server_url@,
    {
        Network { server_url: server_url.to_owned() }
    }

    /// The address the client sends to.
    pub fn server_url(&self) -> (r: &str)
        ensures
            r@ == self.url_view(),
    {
        self.server_url.as_str()
    }
}

/// Where a client call stands.
#[derive(PartialEq, Eq, Debug, Clone)]
pub enum CallPhase {
    /// Connecting; the frame waits to be written.
    Connecting(Vec<u8>),
    Writing,
    Reading,
    Closed,
}

/// What the host reports after doing the last action.
#[derive(PartialEq, Eq, Debug, Clone)]
pub enum CallEvent {
    Connected,
    ConnectFailed(String),
    /// The frame was written in full and flushed.
    Written,
    WriteFailed(String),
    /// The bytes one read call delivered.
    Read(Vec<u8>),
    ReadFailed(String),
}

/// What the host is to do next.
#[derive(Debug)]
pub enum CallAction {
    /// Open a connection to the address.
    Connect,
    /// Write these bytes in full, then flush.
    Write(Vec<u8>),
    /// Read once, up to this many bytes.
    Read(usize),
    /// The call is over, with this outcome; the connection is closed.
    Finish(Result<Response, TransportError>),
}

impl CallPhase {
    /// The events that can follow the action of this phase.
    pub open spec fn expects(self, e: CallEvent) -> bool {
        match self {
            CallPhase::Connecting(_) => e is Connected || e is ConnectFailed,
            CallPhase::Writing => e is Written || e is WriteFailed,
            CallPhase::Reading => e is Read || e is ReadFailed,
            CallPhase::Closed => false,
        }
    }

    /// Whether `e` can follow the action of this phase.
    pub fn accepts(&self, e: &CallEvent) -> (r: bool)
        ensures
            r == self.expects(*e),
    {
        match self {
            CallPhase::Connecting(_) => matches!(e, CallEvent::Connected | CallEvent::ConnectFailed(_)),
            CallPhase::Writing => matches!(e, CallEvent::Written | CallEvent::WriteFailed(_)),
            CallPhase::Reading => matches!(e, CallEvent::Read(_) | CallEvent::ReadFailed(_)),
            CallPhase::Closed => false,
        }
    }
}

/// The first step of a call that sends `request`: connect, holding its frame.
pub fn call_start(request: &Request) -> (r: (CallPhase, CallAction))
    ensures
        r.0 matches CallPhase::Connecting(f) && f@ == frame(request.url_view(), request.payload_view()),
        r.1 is Connect,
{
    (CallPhase::Connecting(request.encode()), CallAction::Connect)
}

/// The next phase and action of a call in `phase` after `event`. The response
/// is exactly the bytes of the one read, cut to the window: a longer response
/// is truncated, not an error.
pub fn call_step(phase: CallPhase, event: CallEvent) -> (r: (CallPhase, CallAction))
    requires
        phase.expects(event),
    ensures
        r.0 == CallPhase::Closed <==> r.1 is Finish,
        !(r.0 is Connecting),
        match event {
            CallEvent::Connected => phase matches CallPhase::Connecting(f) && r == (CallPhase::Writing, CallAction::Write(f)),
            CallEvent::ConnectFailed(m) => r == (CallPhase::Closed, CallAction::Finish(Err(TransportError::ConnectFailed(m)))),
            CallEvent::Written => r == (CallPhase::Reading, CallAction::Read(BUFFER_SIZE)),
            CallEvent::WriteFailed(m) => r == (CallPhase::Closed, CallAction::Finish(Err(TransportError::WriteFailed(m)))),
            CallEvent::Read(b) => r.0 == CallPhase::Closed && (r.1 matches CallAction::Finish(Ok(resp)) && resp@ == window(b@)),
            CallEvent::ReadFailed(m) => r == (CallPhase::Closed, CallAction::Finish(Err(TransportError::ReadFailed(m)))),
        },
{
    match event {
        CallEvent::Connected => match phase {
            CallPhase::Connecting(f) => (CallPhase::Writing, CallAction::Write(f)),
            _ => vstd::pervasive::unreached(),
        },
        CallEvent::ConnectFailed(m) => (CallPhase::Closed, CallAction::Finish(Err(TransportError::ConnectFailed(m)))),
        CallEvent::Written => (CallPhase::Reading, CallAction::Read(BUFFER_SIZE)),
        CallEvent::WriteFailed(m) => (CallPhase::Closed, CallAction::Finish(Err(TransportError::WriteFailed(m)))),
        CallEvent::Read(b) => (CallPhase::Closed, CallAction::Finish(Ok(take_window(b.as_slice())))),
        CallEvent::ReadFailed(m) => (CallPhase::Closed, CallAction::Finish(Err(TransportError::ReadFailed(m)))),
    }
}

} // verus!
