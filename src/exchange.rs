//! One request/response exchange on an accepted connection: read one window,
//! decode it, hand the request to the caller's handler, write the response.
//! A connection carries a single exchange and never goes back to reading.
use vstd::prelude::*;
use vstd::slice::slice_to_vec;

use crate::codec::{decoded, frame, lemma_round_trip, DecodeError, Request, CR, LF};
use vstd::utf8::encode_utf8;
use crate::error::TransportError;
use crate::BUFFER_SIZE;

verus! {

/// What a read of one window keeps of the bytes the transport delivered: the
/// first `BUFFER_SIZE` of them.
pub open spec fn window(b: Seq<u8>) -> Seq<u8> {
    if b.len() <= BUFFER_SIZE {
        b
    } else {
        b.take(BUFFER_SIZE as int)
    }
}

/// A request whose frame fits in one window, and whose route text holds no
/// line feed and no carriage return byte, is read by the server as it was
/// sent.
pub proof fn lemma_request_delivered(route: Seq<char>, payload: Seq<u8>)
    requires
        !encode_utf8(route).contains(LF),
        !encode_utf8(route).contains(CR),
        frame(route, payload).len() <= BUFFER_SIZE,
    ensures
        decoded(window(frame(route, payload))) == Ok::<(Seq<char>, Seq<u8>), DecodeError>((route, payload)),
{
    lemma_round_trip(route, payload);
}

/// Keeps the first window's worth of `bytes`.
pub fn take_window(bytes: &[u8]) -> (r: Vec<u8>)
    ensures
        r@ == window(bytes@),
{
    if bytes.len() <= BUFFER_SIZE {
        slice_to_vec(bytes)
    } else {
        slice_to_vec(&bytes[0..BUFFER_SIZE])
    }
}

/// Where an exchange stands.
#[derive(PartialEq, Eq, Structural, Debug, Clone, Copy)]
pub enum ExchangePhase {
    Reading,
    Handling,
    Writing,
    Closed,
}

/// What the host reports after doing the last action.
#[derive(PartialEq, Eq, Debug, Clone)]
pub enum ExchangeEvent {
    /// The bytes one read call delivered.
    Read(Vec<u8>),
    ReadFailed(String),
    /// The response the handler produced.
    Handled(Vec<u8>),
    HandlerFailed(String),
    /// The response was written in full and flushed.
    Written,
    WriteFailed(String),
}

/// What the host is to do next.
#[derive(Debug)]
pub enum ExchangeAction {
    /// Read once, up to this many bytes.
    Read(usize),
    /// Call the request handler on this request.
    Handle(Request),
    /// Write these bytes in full, then flush.
    Write(Vec<u8>),
    /// The exchange is over, with this outcome.
    Finish(Result<(), TransportError>),
}

impl ExchangePhase {
    /// The events that can follow the action of this phase.
    pub open spec fn expects(self, e: ExchangeEvent) -> bool {
        match self {
            ExchangePhase::Reading => e is Read || e is ReadFailed,
            ExchangePhase::Handling => e is Handled || e is HandlerFailed,
            ExchangePhase::Writing => e is Written || e is WriteFailed,
            ExchangePhase::Closed => false,
        }
    }

    /// Whether `e` can follow the action of this phase.
    pub fn accepts(&self, e: &ExchangeEvent) -> (r: bool)
        ensures
            r == self.expects(*e),
    {
        match self {
            ExchangePhase::Reading => matches!(e, ExchangeEvent::Read(_) | ExchangeEvent::ReadFailed(_)),
            ExchangePhase::Handling => matches!(e, ExchangeEvent::Handled(_) | ExchangeEvent::HandlerFailed(_)),
            ExchangePhase::Writing => matches!(e, ExchangeEvent::Written | ExchangeEvent::WriteFailed(_)),
            ExchangePhase::Closed => false,
        }
    }
}

/// The first step of an exchange: read one window.
pub fn exchange_start() -> (r: (ExchangePhase, ExchangeAction))
    ensures
        r.0 == ExchangePhase::Reading,
        r.1 == ExchangeAction::Read(BUFFER_SIZE),
{
    (ExchangePhase::Reading, ExchangeAction::Read(BUFFER_SIZE))
}

/// The next phase and action of an exchange in `phase` after `event`.
pub fn exchange_step(phase: ExchangePhase, event: ExchangeEvent) -> (r: (ExchangePhase, ExchangeAction))
    requires
        phase.expects(event),
    ensures
        r.0 != ExchangePhase::Reading,
        r.0 == ExchangePhase::Closed <==> r.1 is Finish,
        match event {
            ExchangeEvent::Read(b) => match decoded(window(b@)) {
                Ok((url, payload)) => r.0 == ExchangePhase::Handling && (r.1 matches ExchangeAction::Handle(req)
                    && req.url_view() == url && req.payload_view() == payload),
                Err(e) => r == (ExchangePhase::Closed, ExchangeAction::Finish(Err(TransportError::MalformedRequest(e)))),
            },
            ExchangeEvent::ReadFailed(m) => r == (ExchangePhase::Closed, ExchangeAction::Finish(Err(TransportError::ReadFailed(m)))),
            ExchangeEvent::Handled(resp) => r == (ExchangePhase::Writing, ExchangeAction::Write(resp)),
            ExchangeEvent::HandlerFailed(m) => r == (ExchangePhase::Closed, ExchangeAction::Finish(Err(TransportError::HandlerFailed(m)))),
            ExchangeEvent::Written => r == (ExchangePhase::Closed, ExchangeAction::Finish(Ok(()))),
            ExchangeEvent::WriteFailed(m) => r == (ExchangePhase::Closed, ExchangeAction::Finish(Err(TransportError::WriteFailed(m)))),
        },
        event matches ExchangeEvent::Read(b) && !window(b@).contains(LF) ==> r == (
            ExchangePhase::Closed,
            ExchangeAction::Finish(Err(TransportError::MalformedRequest(DecodeError::NoTerminator))),
        ),
{
    match event {
        ExchangeEvent::Read(b) => {
            let w = take_window(b.as_slice());
            match Request::decode(w.as_slice()) {
                Ok(req) => (ExchangePhase::Handling, ExchangeAction::Handle(req)),
                Err(e) => (ExchangePhase::Closed, ExchangeAction::Finish(Err(TransportError::MalformedRequest(e)))),
            }
        },
        ExchangeEvent::ReadFailed(m) => (ExchangePhase::Closed, ExchangeAction::Finish(Err(TransportError::ReadFailed(m)))),
        ExchangeEvent::Handled(resp) => (ExchangePhase::Writing, ExchangeAction::Write(resp)),
        ExchangeEvent::HandlerFailed(m) => (ExchangePhase::Closed, ExchangeAction::Finish(Err(TransportError::HandlerFailed(m)))),
        ExchangeEvent::Written => (ExchangePhase::Closed, ExchangeAction::Finish(Ok(()))),
        ExchangeEvent::WriteFailed(m) => (ExchangePhase::Closed, ExchangeAction::Finish(Err(TransportError::WriteFailed(m)))),
    }
}

} // verus!
