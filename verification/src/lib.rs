//! A lightweight RPC wire protocol and its multiplexed-streaming core.
//!
//! The crate covers the binary framing format — a fixed 10-byte header
//! followed by a payload and, optionally, passed file descriptors — the
//! typed message layer that binds a frame to a pluggable payload codec,
//! and the per-stream state machine that turns frames into independent
//! request/response or streaming channels. The connection itself (sockets,
//! the dispatcher, the accept loop) is an external collaborator that hands
//! this core byte buffers and takes byte buffers back.

pub mod codec;
pub mod errors;
pub mod framing;
pub mod proto;
pub mod stream;
pub mod transport;

pub use codec::{Codec, EchoPayload, Message};
pub use errors::{Code, Error, Status};
pub use framing::{
    discard_message_body, fd_count_of, payload_len_of, read_from_with_fd, FrameAssembly,
};
pub use proto::{
    check_oversize, GenMessage, GenMessageError, MessageHeader, DEFAULT_PAGE_SIZE, FLAG_NO_DATA,
    FLAG_REMOTE_CLOSED, FLAG_REMOTE_OPEN, MESSAGE_HEADER_LENGTH, MESSAGE_LENGTH_MAX,
    MESSAGE_TYPE_DATA, MESSAGE_TYPE_REQUEST, MESSAGE_TYPE_RESPONSE,
};
pub use stream::{
    CSReceiver, CSSender, ClientStream, ClientStreamSender, Kind, SSReceiver, SSSender,
    ServerStream, StreamInner, StreamReceiver, StreamSender,
};
pub use transport::{ByteRead, ByteReader, FdReader, FdWriter};
