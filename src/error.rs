//! The ways an operation of this layer fails.
use vstd::prelude::*;

use crate::codec::DecodeError;

verus! {

/// Why a client call, an exchange or the accept loop stopped. Each kind is
/// terminal to the operation it occurs in; nothing here is retried. The text
/// is what the transport reported.
#[derive(PartialEq, Eq, Debug, Clone)]
pub enum TransportError {
    ConnectFailed(String),
    BindFailed(String),
    AcceptFailed(String),
    ReadFailed(String),
    WriteFailed(String),
    MalformedRequest(DecodeError),
    HandlerFailed(String),
}

} // verus!
