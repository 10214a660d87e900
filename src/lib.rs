//! A minimal request/response layer over a byte stream: a wire codec for
//! `(route, payload)` frames, and the decisions of the client call, the
//! message exchange and the accept loop, as step functions that a host drives
//! over real connections.
use vstd::prelude::*;

pub mod acceptor;
pub mod client;
pub mod codec;
pub mod error;
pub mod exchange;

verus! {

/// Size of the window that a single read of a connection fills.
pub const BUFFER_SIZE: usize = 2048;

/// A response: bytes with no structure imposed by this layer.
pub type Response = Vec<u8>;

} // verus!
