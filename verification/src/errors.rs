//! Error taxonomy of the wire protocol.
//!
//! Transport failures, per-stream protocol errors carrying a status code,
//! state-machine misuse and the normal end-of-stream signals each get a
//! distinct variant, so callers can state exactly which one an operation
//! yields on which inputs.

use vstd::prelude::*;

verus! {

/// Status code carried by a structured RPC error.
#[allow(non_camel_case_types)]
#[derive(Debug, Clone, Copy, PartialEq, Eq, Structural)]
pub enum Code {
    OK,
    INVALID_ARGUMENT,
}

/// Structured RPC status, as reported to the peer for recoverable
/// protocol errors such as an oversized frame.
#[derive(Debug, Clone, Copy, PartialEq, Eq, Structural)]
pub struct Status {
    pub code: Code,
}

impl Status {
    /// The status code of this status.
    pub fn code(&self) -> (c: Code)
        ensures
            c == self.code,
    {
        self.code
    }
}

/// Errors surfaced by the framing layer and the stream state machine.
#[derive(Debug, Clone, Copy, PartialEq, Eq, Structural)]
pub enum Error {
    /// I/O failure on the underlying connection, including a short read.
    Socket,
    /// Protocol error with a structured status, recoverable per stream.
    RpcStatus(Status),
    /// Send attempted after this side signalled close of its send half.
    LocalClosed,
    /// Receive attempted after the peer already closed its send half.
    RemoteClosed,
    /// Normal end-of-stream signal from the peer.
    Eof,
    /// The peer closed the transport in the middle of a frame.
    PeerClosed,
    /// A frame of an unexpected type arrived on the stream.
    NotSupported,
    /// A DATA frame arrived on a stream that is not receivable.
    NotReceivable,
    /// Payload encoding or decoding failed.
    Codec,
    /// Validation failure outside the RPC status path.
    Others,
}

/// The structured status used for frames whose length exceeds the maximum.
pub fn invalid_argument_status() -> (s: Status)
    ensures
        s == (Status { code: Code::INVALID_ARGUMENT }),
{
    Status { code: Code::INVALID_ARGUMENT }
}

} // verus!
