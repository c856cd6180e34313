use vstd::prelude::*;

verus! {

/// Errors reported by the body cell and the WebSocket protocol.
///
/// Failures of the transport engine are carried as their message text.
#[derive(Debug, Clone, PartialEq, Eq)]
pub enum Error {
    /// The body was already consumed, closed, or is held by another access.
    Memory,
    StopIteration,
    StopAsyncIteration,
    /// The WebSocket actor is no longer reachable.
    WebSocketDisconnected,
    InvalidHeaderName(String),
    InvalidHeaderValue(String),
    /// A receive deadline elapsed before a frame arrived.
    Timeout,
    Builder(String),
    IO(String),
    Decode(String),
    /// A failure of the transport engine.
    Library(String),
}

/// Why a label given by a caller was refused.
#[derive(Clone, Copy, Debug, PartialEq, Eq, Structural)]
pub enum LabelError {
    /// The label is empty or white space only.
    Empty,
    /// No known value has this label.
    Unsupported,
}

} // verus!
