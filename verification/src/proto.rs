//! Fixed-size message header and its byte-exact codec.
//!
//! A frame starts with a 10-byte header in network byte order:
//! `length(4) stream_id(4) type(1) flags(1)`. When descriptor passing is
//! active the top 8 bits of `length` carry the descriptor count and the low
//! 24 bits the payload byte length.

use vstd::prelude::*;

use crate::errors::{invalid_argument_status, Error};

verus! {

/// Wire size of the fixed message header, in bytes.
pub const MESSAGE_HEADER_LENGTH: usize = 10;

/// Maximum payload byte length of a frame (4 MiB).
pub const MESSAGE_LENGTH_MAX: usize = 0x400000;

/// Chunk size used when draining the body of a rejected frame.
pub const DEFAULT_PAGE_SIZE: usize = 0x1000;

/// Frame type: the request half of a unary call.
pub const MESSAGE_TYPE_REQUEST: u8 = 0x1;

/// Frame type: the response half of a unary call.
pub const MESSAGE_TYPE_RESPONSE: u8 = 0x2;

/// Frame type: streaming payload.
pub const MESSAGE_TYPE_DATA: u8 = 0x3;

/// Flag: the sender closes its send half with this frame.
pub const FLAG_REMOTE_CLOSED: u8 = 0x1;

/// Flag: the sender keeps its send half open.
pub const FLAG_REMOTE_OPEN: u8 = 0x2;

/// Flag: the frame carries no payload for the receiver.
pub const FLAG_NO_DATA: u8 = 0x4;

/// The four big-endian bytes of a 32-bit integer, most significant first.
pub open spec fn spec_u32_to_be(x: u32) -> Seq<u8> {
    seq![(x >> 24) as u8, (x >> 16) as u8, (x >> 8) as u8, x as u8]
}

/// The 32-bit integer read from four big-endian bytes.
pub open spec fn spec_u32_from_be(b0: u8, b1: u8, b2: u8, b3: u8) -> u32 {
    ((b0 as u32) << 24) | ((b1 as u32) << 16) | ((b2 as u32) << 8) | (b3 as u32)
}

/// Reading back the big-endian bytes of an integer gives the integer.
pub proof fn lemma_u32_be_round_trip(x: u32)
    ensures
        spec_u32_from_be(
            spec_u32_to_be(x)[0],
            spec_u32_to_be(x)[1],
            spec_u32_to_be(x)[2],
            spec_u32_to_be(x)[3],
        ) == x,
{
    assert((((x >> 24) as u8 as u32) << 24) | (((x >> 16) as u8 as u32) << 16) | (((x >> 8)
        as u8 as u32) << 8) | (x as u8 as u32) == x) by (bit_vector);
}

/// Re-encoding the integer read from four bytes gives the same four bytes.
pub proof fn lemma_u32_be_parse_encode(b0: u8, b1: u8, b2: u8, b3: u8)
    ensures
        spec_u32_to_be(spec_u32_from_be(b0, b1, b2, b3)) == seq![b0, b1, b2, b3],
{
    let x = spec_u32_from_be(b0, b1, b2, b3);
    assert(((((b0 as u32) << 24) | ((b1 as u32) << 16) | ((b2 as u32) << 8) | (b3 as u32)) >> 24)
        as u8 == b0) by (bit_vector);
    assert(((((b0 as u32) << 24) | ((b1 as u32) << 16) | ((b2 as u32) << 8) | (b3 as u32)) >> 16)
        as u8 == b1) by (bit_vector);
    assert(((((b0 as u32) << 24) | ((b1 as u32) << 16) | ((b2 as u32) << 8) | (b3 as u32)) >> 8)
        as u8 == b2) by (bit_vector);
    assert((((b0 as u32) << 24) | ((b1 as u32) << 16) | ((b2 as u32) << 8) | (b3 as u32)) as u8
        == b3) by (bit_vector);
    assert(spec_u32_to_be(x) =~= seq![b0, b1, b2, b3]);
}

/// Append the four big-endian bytes of `x` to `out`.
pub(crate) fn push_u32_be(out: &mut Vec<u8>, x: u32)
    ensures
        final(out)@ == old(out)@ + spec_u32_to_be(x),
{
    proof {
        assert(x >> 24 <= 0xff && x >> 16 <= 0xffff && x >> 8 <= 0xffffff) by (bit_vector);
    }
    out.push((x >> 24) as u8);
    out.push((x >> 16) as u8);
    out.push((x >> 8) as u8);
    out.push(#[verifier::truncate] (x as u8));
    assert(out@ =~= old(out)@ + spec_u32_to_be(x));
}

/// Message header of a frame.
#[derive(Debug, Clone, Copy, PartialEq, Eq, Structural)]
pub struct MessageHeader {
    pub length: u32,
    pub stream_id: u32,
    pub type_: u8,
    pub flags: u8,
}

impl Default for MessageHeader {
    /// The all-zero header.
    fn default() -> (h: MessageHeader)
        ensures
            h == (MessageHeader { length: 0, stream_id: 0, type_: 0, flags: 0 }),
    {
        MessageHeader { length: 0, stream_id: 0, type_: 0, flags: 0 }
    }
}

/// The 10 wire bytes of a header.
pub open spec fn spec_header_bytes(h: MessageHeader) -> Seq<u8> {
    spec_u32_to_be(h.length) + spec_u32_to_be(h.stream_id) + seq![h.type_, h.flags]
}

/// The header read from the first 10 bytes of `s`.
pub open spec fn spec_parse_header(s: Seq<u8>) -> MessageHeader {
    MessageHeader {
        length: spec_u32_from_be(s[0], s[1], s[2], s[3]),
        stream_id: spec_u32_from_be(s[4], s[5], s[6], s[7]),
        type_: s[8],
        flags: s[9],
    }
}

/// Decoding the encoding of any header gives the header back.
pub proof fn lemma_header_round_trip(h: MessageHeader)
    ensures
        spec_parse_header(spec_header_bytes(h)) == h,
{
    lemma_u32_be_round_trip(h.length);
    lemma_u32_be_round_trip(h.stream_id);
    assert(spec_parse_header(spec_header_bytes(h)) == h);
}

/// Encoding the header parsed from any 10 bytes gives the same bytes.
pub proof fn lemma_header_parse_encode(s: Seq<u8>)
    requires
        s.len() == MESSAGE_HEADER_LENGTH,
    ensures
        spec_header_bytes(spec_parse_header(s)) == s,
{
    lemma_u32_be_parse_encode(s[0], s[1], s[2], s[3]);
    lemma_u32_be_parse_encode(s[4], s[5], s[6], s[7]);
    assert(spec_header_bytes(spec_parse_header(s)) =~= s);
}

impl MessageHeader {
    /// Creates a request header from stream_id and len, with flags 0.
    pub fn new_request(stream_id: u32, len: u32) -> (h: Self)
        ensures
            h == (MessageHeader {
                length: len,
                stream_id: stream_id,
                type_: MESSAGE_TYPE_REQUEST,
                flags: 0,
            }),
    {
        Self { length: len, stream_id, type_: MESSAGE_TYPE_REQUEST, flags: 0 }
    }

    /// Creates a response header from stream_id and len, with flags 0.
    pub fn new_response(stream_id: u32, len: u32) -> (h: Self)
        ensures
            h == (MessageHeader {
                length: len,
                stream_id: stream_id,
                type_: MESSAGE_TYPE_RESPONSE,
                flags: 0,
            }),
    {
        Self { length: len, stream_id, type_: MESSAGE_TYPE_RESPONSE, flags: 0 }
    }

    /// Creates a streaming-data header from stream_id and len, with flags 0.
    pub fn new_data(stream_id: u32, len: u32) -> (h: Self)
        ensures
            h == (MessageHeader {
                length: len,
                stream_id: stream_id,
                type_: MESSAGE_TYPE_DATA,
                flags: 0,
            }),
    {
        Self { length: len, stream_id, type_: MESSAGE_TYPE_DATA, flags: 0 }
    }

    /// Set the stream_id of the header to the given value.
    pub fn set_stream_id(&mut self, stream_id: u32)
        ensures
            *final(self) == (MessageHeader { stream_id: stream_id, ..*old(self) }),
    {
        self.stream_id = stream_id;
    }

    /// Replace the flags of the header with the given flags.
    pub fn set_flags(&mut self, flags: u8)
        ensures
            *final(self) == (MessageHeader { flags: flags, ..*old(self) }),
    {
        self.flags = flags;
    }

    /// Add the given flags to the flags already set.
    pub fn add_flags(&mut self, flags: u8)
        ensures
            *final(self) == (MessageHeader { flags: old(self).flags | flags, ..*old(self) }),
    {
        self.flags = self.flags | flags;
    }

    /// The header decoded from the first 10 bytes of `buf`.
    ///
    /// The caller must supply a full header; a short buffer is a
    /// transport-level short read, handled before decoding.
    pub fn from_bytes(buf: &[u8]) -> (h: Self)
        requires
            buf@.len() >= MESSAGE_HEADER_LENGTH,
        ensures
            h == spec_parse_header(buf@),
    {
        Self {
            length: read_u32_be(buf, 0),
            stream_id: read_u32_be(buf, 4),
            type_: *vstd::slice::slice_index_get(buf, 8),
            flags: *vstd::slice::slice_index_get(buf, 9),
        }
    }

    /// The 10 wire bytes of this header, as a fresh buffer.
    pub fn to_bytes(&self) -> (r: Vec<u8>)
        ensures
            r@ == spec_header_bytes(*self),
    {
        let mut out: Vec<u8> = Vec::new();
        self.write_to(&mut out);
        out
    }

    /// Append the 10 wire bytes of this header to `out`.
    pub fn write_to(&self, out: &mut Vec<u8>)
        ensures
            final(out)@ == old(out)@ + spec_header_bytes(*self),
    {
        push_u32_be(out, self.length);
        push_u32_be(out, self.stream_id);
        out.push(self.type_);
        out.push(self.flags);
        assert(out@ =~= old(out)@ + spec_header_bytes(*self));
    }
}

/// The 32-bit big-endian integer at `buf[at..at + 4]`.
pub(crate) fn read_u32_be(buf: &[u8], at: usize) -> (x: u32)
    requires
        at + 4 <= buf@.len(),
    ensures
        x == spec_u32_from_be(buf@[at as int], buf@[at + 1], buf@[at + 2], buf@[at + 3]),
{
    let n: usize = buf.len();
    assert(at + 4 <= n);
    let b0 = *vstd::slice::slice_index_get(buf, at);
    let b1 = *vstd::slice::slice_index_get(buf, at + 1);
    let b2 = *vstd::slice::slice_index_get(buf, at + 2);
    let b3 = *vstd::slice::slice_index_get(buf, at + 3);
    ((b0 as u32) << 24) | ((b1 as u32) << 16) | ((b2 as u32) << 8) | (b3 as u32)
}

/// Generic message: one frame as read from or written to the wire,
/// its payload still raw bytes.
///
/// After a successful read the caller exclusively owns the payload buffer
/// and any received descriptor values.
#[derive(Debug, Clone, PartialEq, Eq)]
pub struct GenMessage {
    pub header: MessageHeader,
    pub payload: Vec<u8>,
    pub fds: Vec<i32>,
}

impl Default for GenMessage {
    /// The empty frame: all-zero header, no payload, no descriptors.
    fn default() -> (m: GenMessage)
        ensures
            m.header == (MessageHeader { length: 0, stream_id: 0, type_: 0, flags: 0 }),
            m.payload@ == Seq::<u8>::empty(),
            m.fds@ == Seq::<i32>::empty(),
    {
        GenMessage {
            header: MessageHeader { length: 0, stream_id: 0, type_: 0, flags: 0 },
            payload: Vec::new(),
            fds: Vec::new(),
        }
    }
}

/// Failure of a frame read: either a local error to surface as-is, or a
/// protocol error to report back to the peer of the offending stream.
#[derive(Debug, PartialEq, Eq)]
pub enum GenMessageError {
    InternalError(Error),
    ReturnError(MessageHeader, Error),
}

impl From<Error> for GenMessageError {
    fn from(e: Error) -> (r: GenMessageError) {
        GenMessageError::InternalError(e)
    }
}

impl vstd::std_specs::convert::FromSpecImpl<Error> for GenMessageError {
    open spec fn obeys_from_spec() -> bool {
        true
    }

    open spec fn from_spec(e: Error) -> GenMessageError {
        GenMessageError::InternalError(e)
    }
}

/// Rejects a payload length above the maximum message size.
///
/// With `return_rpc_error` the failure carries the structured
/// INVALID_ARGUMENT status reported back to the peer; without it the
/// failure is a plain validation error for local callers.
pub fn check_oversize(len: usize, return_rpc_error: bool) -> (r: Result<(), Error>)
    ensures
        len <= MESSAGE_LENGTH_MAX <==> r is Ok,
        len > MESSAGE_LENGTH_MAX && return_rpc_error ==> r == Err::<(), Error>(
            Error::RpcStatus(crate::errors::Status { code: crate::errors::Code::INVALID_ARGUMENT }),
        ),
        len > MESSAGE_LENGTH_MAX && !return_rpc_error ==> r == Err::<(), Error>(Error::Others),
{
    if len > MESSAGE_LENGTH_MAX {
        let e = if return_rpc_error {
            Error::RpcStatus(invalid_argument_status())
        } else {
            Error::Others
        };
        return Err(e);
    }
    Ok(())
}

} // verus!
