//! Typed message layer: a pluggable payload codec bound to a frame.
//!
//! Any serialization format with a size, an encode and a decode operation
//! plugs in without touching the framing layer. The codec laws pin the
//! round trip: decoding the encoding of a well-formed value gives the
//! value back. `EchoPayload` is the crate's own codec — a sequence
//! number and a message body — used by streaming echo exchanges.

use vstd::prelude::*;

use crate::errors::Error;
use crate::proto::{
    check_oversize, read_u32_be, spec_header_bytes, spec_parse_header, spec_u32_from_be,
    spec_u32_to_be, GenMessage, MessageHeader, MESSAGE_HEADER_LENGTH, MESSAGE_LENGTH_MAX,
    MESSAGE_TYPE_REQUEST,
};
use crate::transport::ByteRead;

verus! {

/// Payload serialization capability.
///
/// `wf` marks the values the codec can encode; `encoding` and `decoded`
/// are the mathematical codec the executable operations implement.
pub trait Codec: Sized + View {
    type E;

    /// Whether this value can be encoded.
    spec fn wf(&self) -> bool;

    /// The bytes this value encodes to.
    spec fn encoding(&self) -> Seq<u8>;

    /// The value a byte sequence decodes to, if any.
    spec fn decoded(buf: Seq<u8>) -> Option<Self::V>;

    /// Law: an encodable value fits the 32-bit size field.
    proof fn encoding_fits(&self)
        requires
            self.wf(),
        ensures
            self.encoding().len() <= u32::MAX,
    ;

    /// Law: decoding the encoding of a well-formed value gives the
    /// value back.
    proof fn round_trip(&self)
        requires
            self.wf(),
        ensures
            Self::decoded(self.encoding()) == Some(self@),
    ;

    /// Byte length of this value's encoding.
    fn size(&self) -> (n: u32)
        requires
            self.wf(),
        ensures
            n == self.encoding().len(),
    ;

    /// Encode this value.
    fn encode(&self) -> (r: Result<Vec<u8>, Self::E>)
        requires
            self.wf(),
        ensures
            r matches Ok(v) && v@ == self.encoding(),
    ;

    /// Decode a value from bytes.
    fn decode(buf: &[u8]) -> (r: Result<Self, Self::E>)
        ensures
            match Self::decoded(buf@) {
                Some(v) => r matches Ok(x) && x@ == v && x.wf(),
                None => r is Err,
            },
    ;
}

/// Mathematical value of an `EchoPayload`.
pub struct EchoPayloadData {
    pub seq: u32,
    pub msg: Seq<u8>,
}

/// A streamed echo item: a sequence number followed by the message
/// bytes, the number in network byte order.
#[derive(Debug, Clone, PartialEq, Eq)]
pub struct EchoPayload {
    pub seq: u32,
    pub msg: Vec<u8>,
}

impl View for EchoPayload {
    type V = EchoPayloadData;

    open spec fn view(&self) -> EchoPayloadData {
        EchoPayloadData { seq: self.seq, msg: self.msg@ }
    }
}

impl Codec for EchoPayload {
    type E = Error;

    open spec fn wf(&self) -> bool {
        self.msg@.len() + 4 <= u32::MAX
    }

    open spec fn encoding(&self) -> Seq<u8> {
        spec_u32_to_be(self.seq) + self.msg@
    }

    open spec fn decoded(buf: Seq<u8>) -> Option<EchoPayloadData> {
        if buf.len() == 0 {
            Some(EchoPayloadData { seq: 0, msg: Seq::<u8>::empty() })
        } else if 4 <= buf.len() && buf.len() <= u32::MAX {
            Some(
                EchoPayloadData {
                    seq: spec_u32_from_be(buf[0], buf[1], buf[2], buf[3]),
                    msg: buf.skip(4),
                },
            )
        } else {
            None
        }
    }

    proof fn encoding_fits(&self) {
    }

    proof fn round_trip(&self) {
        crate::proto::lemma_u32_be_round_trip(self.seq);
        assert(self.encoding().skip(4) =~= self.msg@);
    }

    fn size(&self) -> (n: u32) {
        4 + self.msg.len() as u32
    }

    fn encode(&self) -> (r: Result<Vec<u8>, Error>) {
        let mut out: Vec<u8> = Vec::new();
        crate::proto::push_u32_be(&mut out, self.seq);
        out.extend_from_slice(self.msg.as_slice());
        Ok(out)
    }

    fn decode(buf: &[u8]) -> (r: Result<EchoPayload, Error>) {
        let n = buf.len();
        if n == 0 {
            return Ok(EchoPayload { seq: 0, msg: Vec::new() });
        }
        if n < 4 {
            return Err(Error::Codec);
        }
        if n > u32::MAX as usize {
            return Err(Error::Codec);
        }
        let seq = read_u32_be(buf, 0);
        let msg = vstd::slice::slice_to_vec(vstd::slice::slice_subrange(buf, 4, n));
        assert(msg@ =~= buf@.skip(4));
        Ok(EchoPayload { seq, msg })
    }
}

/// Raw-bytes codec: a payload buffer is its own encoding. It gives
/// callers that frame untyped data the same typed-message interface.
impl Codec for Vec<u8> {
    type E = Error;

    open spec fn wf(&self) -> bool {
        self@.len() <= u32::MAX
    }

    open spec fn encoding(&self) -> Seq<u8> {
        self@
    }

    open spec fn decoded(buf: Seq<u8>) -> Option<Seq<u8>> {
        if buf.len() <= u32::MAX {
            Some(buf)
        } else {
            None
        }
    }

    proof fn encoding_fits(&self) {
    }

    proof fn round_trip(&self) {
    }

    fn size(&self) -> (n: u32) {
        self.len() as u32
    }

    fn encode(&self) -> (r: Result<Vec<u8>, Error>) {
        Ok(vstd::slice::slice_to_vec(self.as_slice()))
    }

    fn decode(buf: &[u8]) -> (r: Result<Vec<u8>, Error>) {
        if buf.len() > u32::MAX as usize {
            return Err(Error::Codec);
        }
        Ok(vstd::slice::slice_to_vec(buf))
    }
}

/// A frame bound to a typed, codec-decoded payload.
#[derive(Debug, Clone, PartialEq, Eq)]
pub struct Message<C> {
    pub header: MessageHeader,
    pub payload: C,
}

impl<C: Codec> Message<C> {
    /// A request message for a new call: validates the payload size
    /// before any I/O, then binds a request header to the payload.
    pub fn new_request(stream_id: u32, message: C) -> (r: Result<Self, Error>)
        requires
            message.wf(),
        ensures
            message.encoding().len() > MESSAGE_LENGTH_MAX ==> r == Err::<Message<C>, Error>(
                Error::Others,
            ),
            message.encoding().len() <= MESSAGE_LENGTH_MAX ==> (r matches Ok(m) && m.header == (
            MessageHeader {
                length: message.encoding().len() as u32,
                stream_id: stream_id,
                type_: MESSAGE_TYPE_REQUEST,
                flags: 0,
            }) && m.payload == message),
    {
        proof {
            message.encoding_fits();
        }
        let size = message.size();
        match check_oversize(size as usize, false) {
            Ok(_) => {},
            Err(e) => {
                return Err(e);
            },
        }
        Ok(Self { header: MessageHeader::new_request(stream_id, size), payload: message })
    }

    /// Bind a typed payload to a raw frame's header by decoding its
    /// payload bytes.
    pub fn from_gen(gen: GenMessage) -> (r: Result<Self, C::E>)
        ensures
            match C::decoded(gen.payload@) {
                Some(v) => r matches Ok(m) && m.header == gen.header && m.payload@ == v
                    && m.payload.wf(),
                None => r is Err,
            },
    {
        match C::decode(gen.payload.as_slice()) {
            Ok(payload) => Ok(Self { header: gen.header, payload }),
            Err(e) => Err(e),
        }
    }

    /// Encode the payload, producing the raw frame with this header.
    pub fn into_gen(self) -> (r: Result<GenMessage, C::E>)
        requires
            self.payload.wf(),
        ensures
            r matches Ok(g) && g.header == self.header && g.payload@ == self.payload.encoding()
                && g.fds@ == Seq::<i32>::empty(),
    {
        match self.payload.encode() {
            Ok(payload) => Ok(GenMessage { header: self.header, payload, fds: Vec::new() }),
            Err(e) => Err(e),
        }
    }

    /// Write this message: header first — its length field set to the
    /// encoded payload size — then the encoded payload.
    pub fn write_to(&self, out: &mut Vec<u8>)
        requires
            self.payload.wf(),
        ensures
            final(out)@ == old(out)@ + spec_header_bytes(
                (MessageHeader { length: self.payload.encoding().len() as u32, ..self.header }),
            ) + self.payload.encoding(),
    {
        proof {
            self.payload.encoding_fits();
        }
        let content = match self.payload.encode() {
            Ok(v) => v,
            Err(_) => {
                proof {
                    assert(false);
                }
                return ;
            },
        };
        let header = MessageHeader {
            length: content.len() as u32,
            stream_id: self.header.stream_id,
            type_: self.header.type_,
            flags: self.header.flags,
        };
        header.write_to(out);
        out.extend_from_slice(content.as_slice());
    }

    /// Read one typed message from a byte transport.
    ///
    /// An oversized frame is not surfaced as an error here: its body is
    /// drained and the caller observes a message whose payload is the
    /// codec's decoding of the empty buffer, when the codec has one.
    /// A codec without an empty decoding reports a codec failure.
    pub fn read_from<R: ByteRead>(reader: &mut R) -> (r: Result<Self, Error>)
        ensures
            ({
                let s = old(reader).remaining();
                let h = spec_parse_header(s.take(MESSAGE_HEADER_LENGTH as int));
                &&& final(reader).fd_side() == old(reader).fd_side()
                &&& s.len() < MESSAGE_HEADER_LENGTH ==> r == Err::<Message<C>, Error>(Error::Socket)
                &&& (s.len() >= MESSAGE_HEADER_LENGTH && h.length > MESSAGE_LENGTH_MAX && s.len()
                    >= MESSAGE_HEADER_LENGTH + h.length) ==> (match C::decoded(Seq::<u8>::empty()) {
                    Some(v) => r matches Ok(m) && m.header == h && m.payload@ == v
                        && m.payload.wf(),
                    None => r == Err::<Message<C>, Error>(Error::Codec),
                } && final(reader).remaining() == s.skip(MESSAGE_HEADER_LENGTH + h.length as int))
                &&& (s.len() >= MESSAGE_HEADER_LENGTH && h.length > MESSAGE_LENGTH_MAX && s.len()
                    < MESSAGE_HEADER_LENGTH + h.length) ==> r == Err::<Message<C>, Error>(
                    Error::Socket,
                )
                &&& (s.len() >= MESSAGE_HEADER_LENGTH && h.length <= MESSAGE_LENGTH_MAX && s.len()
                    >= MESSAGE_HEADER_LENGTH + h.length) ==> (match C::decoded(
                    s.skip(MESSAGE_HEADER_LENGTH as int).take(h.length as int),
                ) {
                    Some(v) => r matches Ok(m) && m.header == h && m.payload@ == v
                        && m.payload.wf(),
                    None => r == Err::<Message<C>, Error>(Error::Codec),
                } && final(reader).remaining() == s.skip(MESSAGE_HEADER_LENGTH + h.length as int))
                &&& (s.len() >= MESSAGE_HEADER_LENGTH && h.length <= MESSAGE_LENGTH_MAX && s.len()
                    < MESSAGE_HEADER_LENGTH + h.length) ==> r == Err::<Message<C>, Error>(
                    Error::Socket,
                )
            }),
    {
        let hbuf = match reader.read_exact(MESSAGE_HEADER_LENGTH) {
            Ok(v) => v,
            Err(_) => {
                return Err(Error::Socket);
            },
        };
        let header = MessageHeader::from_bytes(hbuf.as_slice());
        if check_oversize(header.length as usize, true).is_err() {
            match crate::framing::discard_message_body(reader, &header) {
                Ok(_) => {},
                Err(_) => {
                    return Err(Error::Socket);
                },
            }
            proof {
                let s = old(reader).remaining();
                assert(s.skip(MESSAGE_HEADER_LENGTH as int).skip(header.length as int) =~= s.skip(
                    MESSAGE_HEADER_LENGTH + header.length as int,
                ));
            }
            let empty: Vec<u8> = Vec::new();
            let payload = match C::decode(empty.as_slice()) {
                Ok(p) => p,
                Err(_) => {
                    return Err(Error::Codec);
                },
            };
            return Ok(Self { header, payload });
        }
        let content = match reader.read_exact(header.length as usize) {
            Ok(v) => v,
            Err(_) => {
                return Err(Error::Socket);
            },
        };
        proof {
            let s = old(reader).remaining();
            assert(s.skip(MESSAGE_HEADER_LENGTH as int).skip(header.length as int) =~= s.skip(
                MESSAGE_HEADER_LENGTH + header.length as int,
            ));
        }
        let payload = match C::decode(content.as_slice()) {
            Ok(p) => p,
            Err(_) => {
                return Err(Error::Codec);
            },
        };
        Ok(Self { header, payload })
    }
}

} // verus!
