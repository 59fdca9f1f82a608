//! Frame-level read and write.
//!
//! The generic path moves a header plus raw payload over any byte
//! transport, draining the body of an oversized frame in page-sized
//! chunks so the stream stays aligned at the next frame. The
//! descriptor-capable path packs the descriptor count into the top
//! 8 bits of the header's length field and accumulates payload bytes
//! and descriptors across partial receive calls.

use vstd::prelude::*;

use crate::errors::{Code, Error, Status};
use crate::proto::{
    check_oversize, spec_header_bytes, spec_parse_header, GenMessage, GenMessageError,
    MessageHeader, DEFAULT_PAGE_SIZE, MESSAGE_HEADER_LENGTH, MESSAGE_LENGTH_MAX,
};
use crate::transport::{spec_min, ByteRead, FdReader, FdWriter};

verus! {

/// The wire bytes of a frame: header then payload.
pub open spec fn spec_frame_bytes(m: GenMessage) -> Seq<u8> {
    spec_header_bytes(m.header) + m.payload@
}

/// Descriptor count carried in the top 8 bits of a length field.
pub open spec fn spec_fd_count(length: u32) -> u32 {
    length >> 24
}

/// True payload byte length: the length field without its count bits.
pub open spec fn spec_payload_len(length: u32) -> u32 {
    length & 0x00ffffff
}

/// The two parts of a length field stay within their widths.
pub proof fn lemma_length_split(x: u32)
    ensures
        spec_fd_count(x) <= 0xff,
        spec_payload_len(x) <= 0xffffff,
{
    assert((x >> 24) <= 0xff && (x & 0x00ffffff) <= 0xffffff) by (bit_vector);
}

/// Packing a payload length and a descriptor count into one length
/// field loses neither.
pub proof fn lemma_length_pack(len: u32, cnt: u32)
    requires
        len <= 0xffffff,
        cnt <= 0xff,
    ensures
        spec_fd_count(len | (cnt << 24)) == cnt,
        spec_payload_len(len | (cnt << 24)) == len,
{
    assert(len <= 0xffffff && cnt <= 0xff ==> ((len | (cnt << 24)) >> 24) == cnt && ((len | (cnt
        << 24)) & 0x00ffffff) == len) by (bit_vector);
}

/// Drain the body of a rejected frame in bounded chunks, so the read
/// position ends at the start of the next frame.
pub fn discard_message_body<R: ByteRead>(reader: &mut R, header: &MessageHeader) -> (r: Result<
    (),
    Error,
>)
    ensures
        old(reader).remaining().len() >= header.length ==> (r is Ok && final(reader).remaining()
            == old(reader).remaining().skip(header.length as int)),
        old(reader).remaining().len() < header.length ==> r == Err::<(), Error>(Error::Socket),
        r is Err ==> r == Err::<(), Error>(Error::Socket),
        final(reader).fd_side() == old(reader).fd_side(),
{
    let total: usize = header.length as usize;
    if reader.available() < total {
        return Err(Error::Socket);
    }
    let mut need: usize = total;
    while need > 0
        invariant
            need <= total,
            total <= old(reader).remaining().len(),
            reader.remaining() == old(reader).remaining().skip((total - need) as int),
            reader.fd_side() == old(reader).fd_side(),
        decreases need,
    {
        let once: usize = if DEFAULT_PAGE_SIZE < need {
            DEFAULT_PAGE_SIZE
        } else {
            need
        };
        let chunk = reader.read_exact(once);
        proof {
            assert(chunk is Ok);
            assert(old(reader).remaining().skip((total - need) as int).skip(once as int)
                =~= old(reader).remaining().skip((total - (need - once)) as int));
        }
        need = need - once;
    }
    Ok(())
}

impl MessageHeader {
    /// Read and decode one header from a byte transport.
    ///
    /// A transport with fewer than 10 bytes left is a short read,
    /// reported as a transport error with nothing consumed.
    pub fn read_from<R: ByteRead>(reader: &mut R) -> (r: Result<MessageHeader, Error>)
        ensures
            final(reader).fd_side() == old(reader).fd_side(),
            old(reader).remaining().len() >= MESSAGE_HEADER_LENGTH ==> (r matches Ok(h) && h
                == spec_parse_header(old(reader).remaining().take(MESSAGE_HEADER_LENGTH as int))
                && final(reader).remaining() == old(reader).remaining().skip(
                MESSAGE_HEADER_LENGTH as int,
            )),
            old(reader).remaining().len() < MESSAGE_HEADER_LENGTH ==> (r matches Err(e) && e
                == Error::Socket && *final(reader) == *old(reader)),
    {
        let hbuf = match reader.read_exact(MESSAGE_HEADER_LENGTH) {
            Ok(v) => v,
            Err(e) => {
                return Err(e);
            },
        };
        Ok(MessageHeader::from_bytes(hbuf.as_slice()))
    }
}

impl GenMessage {
    /// Append this frame's wire bytes — header then payload — to `out`.
    pub fn write_to(&self, out: &mut Vec<u8>)
        ensures
            final(out)@ == old(out)@ + spec_frame_bytes(*self),
    {
        self.header.write_to(out);
        out.extend_from_slice(self.payload.as_slice());
        assert(out@ =~= old(out)@ + spec_frame_bytes(*self));
    }

    /// Read one frame from a byte transport.
    ///
    /// A frame whose length field exceeds the maximum is rejected with
    /// the INVALID_ARGUMENT status after its body has been drained, so
    /// the transport stays aligned at the next frame. A transport that
    /// runs short of bytes yields a socket error.
    pub fn read_from<R: ByteRead>(reader: &mut R) -> (r: Result<GenMessage, GenMessageError>)
        ensures
            ({
                let s = old(reader).remaining();
                let h = spec_parse_header(s.take(MESSAGE_HEADER_LENGTH as int));
                &&& final(reader).fd_side() == old(reader).fd_side()
                &&& s.len() < MESSAGE_HEADER_LENGTH ==> r == Err::<GenMessage, GenMessageError>(
                    GenMessageError::InternalError(Error::Socket),
                ) && *final(reader) == *old(reader)
                &&& (s.len() >= MESSAGE_HEADER_LENGTH && h.length > MESSAGE_LENGTH_MAX && s.len()
                    >= MESSAGE_HEADER_LENGTH + h.length) ==> r == Err::<GenMessage, GenMessageError>(
                    GenMessageError::ReturnError(
                        h,
                        Error::RpcStatus(Status { code: Code::INVALID_ARGUMENT }),
                    ),
                ) && final(reader).remaining() == s.skip(MESSAGE_HEADER_LENGTH + h.length as int)
                &&& (s.len() >= MESSAGE_HEADER_LENGTH && h.length > MESSAGE_LENGTH_MAX && s.len()
                    < MESSAGE_HEADER_LENGTH + h.length) ==> r == Err::<GenMessage, GenMessageError>(
                    GenMessageError::InternalError(Error::Socket),
                )
                &&& (s.len() >= MESSAGE_HEADER_LENGTH && h.length <= MESSAGE_LENGTH_MAX && s.len()
                    >= MESSAGE_HEADER_LENGTH + h.length) ==> (r matches Ok(m) && m.header == h
                    && m.payload@ == s.skip(MESSAGE_HEADER_LENGTH as int).take(h.length as int)
                    && m.fds@ == Seq::<i32>::empty() && final(reader).remaining() == s.skip(
                    MESSAGE_HEADER_LENGTH + h.length as int,
                ))
                &&& (s.len() >= MESSAGE_HEADER_LENGTH && h.length <= MESSAGE_LENGTH_MAX && s.len()
                    < MESSAGE_HEADER_LENGTH + h.length) ==> r == Err::<GenMessage, GenMessageError>(
                    GenMessageError::InternalError(Error::Socket),
                )
            }),
    {
        let hbuf = match reader.read_exact(MESSAGE_HEADER_LENGTH) {
            Ok(v) => v,
            Err(e) => {
                return Err(GenMessageError::InternalError(e));
            },
        };
        let header = MessageHeader::from_bytes(hbuf.as_slice());
        if let Err(e) = check_oversize(header.length as usize, true) {
            match discard_message_body(reader, &header) {
                Ok(_) => {},
                Err(e2) => {
                    return Err(GenMessageError::InternalError(e2));
                },
            }
            proof {
                let s = old(reader).remaining();
                assert(s.skip(MESSAGE_HEADER_LENGTH as int).skip(header.length as int) =~= s.skip(
                    MESSAGE_HEADER_LENGTH + header.length as int,
                ));
            }
            return Err(GenMessageError::ReturnError(header, e));
        }
        let payload = match reader.read_exact(header.length as usize) {
            Ok(v) => v,
            Err(e) => {
                return Err(GenMessageError::InternalError(e));
            },
        };
        proof {
            let s = old(reader).remaining();
            assert(s.skip(MESSAGE_HEADER_LENGTH as int).skip(header.length as int) =~= s.skip(
                MESSAGE_HEADER_LENGTH + header.length as int,
            ));
        }
        Ok(GenMessage { header, payload, fds: Vec::new() })
    }

    /// Rejects this frame if its length field exceeds the maximum.
    pub fn check(&self) -> (r: Result<(), Error>)
        ensures
            self.header.length <= MESSAGE_LENGTH_MAX <==> r is Ok,
            self.header.length > MESSAGE_LENGTH_MAX ==> r == Err::<(), Error>(
                Error::RpcStatus(Status { code: Code::INVALID_ARGUMENT }),
            ),
    {
        check_oversize(self.header.length as usize, true)
    }
}

/// Whether a receive loop over a transport with the given delivery
/// script reconstructs `need_b` payload bytes and `need_f` descriptors
/// out of the `avail_b` bytes and `avail_f` descriptors the peer sent,
/// before some call delivers nothing — which signals the peer closed
/// the transport mid-frame.
pub open spec fn fd_read_completes(
    script: Seq<(usize, usize)>,
    avail_b: nat,
    avail_f: nat,
    need_b: nat,
    need_f: nat,
) -> bool
    decreases script.len(),
{
    if need_b == 0 && need_f == 0 {
        true
    } else if script.len() == 0 {
        avail_b >= need_b && avail_f >= need_f
    } else {
        let nb = spec_min(script[0].0 as nat, spec_min(need_b, avail_b));
        let nf = spec_min(script[0].1 as nat, spec_min(need_f, avail_f));
        if nb == 0 && nf == 0 {
            false
        } else {
            fd_read_completes(
                script.skip(1),
                (avail_b - nb) as nat,
                (avail_f - nf) as nat,
                (need_b - nb) as nat,
                (need_f - nf) as nat,
            )
        }
    }
}

/// A receive loop can only complete if the peer sent at least as many
/// bytes and descriptors as the frame claims.
pub proof fn lemma_fd_read_completes_implies_avail(
    script: Seq<(usize, usize)>,
    avail_b: nat,
    avail_f: nat,
    need_b: nat,
    need_f: nat,
)
    requires
        fd_read_completes(script, avail_b, avail_f, need_b, need_f),
    ensures
        avail_b >= need_b,
        avail_f >= need_f,
    decreases script.len(),
{
    if need_b == 0 && need_f == 0 {
    } else if script.len() == 0 {
    } else {
        let nb = spec_min(script[0].0 as nat, spec_min(need_b, avail_b));
        let nf = spec_min(script[0].1 as nat, spec_min(need_f, avail_f));
        lemma_fd_read_completes_implies_avail(
            script.skip(1),
            (avail_b - nb) as nat,
            (avail_f - nf) as nat,
            (need_b - nb) as nat,
            (need_f - nf) as nat,
        );
    }
}

/// A transport that delivers everything it has in each call completes
/// whenever the peer sent at least the frame's bytes and descriptors.
pub proof fn lemma_full_delivery_completes(avail_b: nat, avail_f: nat, need_b: nat, need_f: nat)
    requires
        avail_b >= need_b,
        avail_f >= need_f,
    ensures
        fd_read_completes(Seq::<(usize, usize)>::empty(), avail_b, avail_f, need_b, need_f),
{
}

/// Accumulate exactly `cont_len` payload bytes and `fds_len` descriptors
/// across however many partial receive calls the transport takes.
///
/// Whenever the loop completes, the reconstructed pair is exactly the
/// first `cont_len` bytes and first `fds_len` descriptors the peer sent,
/// no matter how delivery was split. A call that delivers neither bytes
/// nor descriptors while more are expected means the peer closed the
/// transport mid-frame.
#[verifier::rlimit(60)]
pub fn read_from_with_fd(reader: &mut FdReader, cont_len: usize, fds_len: usize) -> (r: Result<
    (Vec<u8>, Vec<i32>),
    Error,
>)
    ensures
        ({
            let ok = fd_read_completes(
                old(reader).script_view(),
                old(reader).remaining().len(),
                old(reader).remaining_fds().len(),
                cont_len as nat,
                fds_len as nat,
            );
            &&& ok ==> (r matches Ok(p) && p.0@ == old(reader).remaining().take(cont_len as int)
                && p.1@ == old(reader).remaining_fds().take(fds_len as int)
                && final(reader).remaining() == old(reader).remaining().skip(cont_len as int)
                && final(reader).remaining_fds() == old(reader).remaining_fds().skip(
                fds_len as int))
            &&& !ok ==> r == Err::<(Vec<u8>, Vec<i32>), Error>(Error::PeerClosed)
        }),
{
    let mut content: Vec<u8> = Vec::new();
    let mut fds: Vec<i32> = Vec::new();
    while content.len() < cont_len || fds.len() < fds_len
        invariant
            content@.len() <= cont_len,
            fds@.len() <= fds_len,
            content@.len() <= old(reader).remaining().len(),
            fds@.len() <= old(reader).remaining_fds().len(),
            content@ == old(reader).remaining().take(content@.len() as int),
            fds@ == old(reader).remaining_fds().take(fds@.len() as int),
            reader.remaining() == old(reader).remaining().skip(content@.len() as int),
            reader.remaining_fds() == old(reader).remaining_fds().skip(fds@.len() as int),
            fd_read_completes(
                reader.script_view(),
                reader.remaining().len(),
                reader.remaining_fds().len(),
                (cont_len - content@.len()) as nat,
                (fds_len - fds@.len()) as nat,
            ) == fd_read_completes(
                old(reader).script_view(),
                old(reader).remaining().len(),
                old(reader).remaining_fds().len(),
                cont_len as nat,
                fds_len as nat,
            ),
        decreases reader.script_view().len() + (cont_len - content.len()) + (fds_len - fds.len()),
    {
        let want_b = cont_len - content.len();
        let want_f = fds_len - fds.len();
        let ghost pre = *reader;
        let ghost need_b = want_b as nat;
        let ghost need_f = want_f as nat;
        let (mut cb, mut cf) = reader.recv(want_b, want_f);
        proof {
            let nb = cb@.len();
            let nf = cf@.len();
            assert(fd_read_completes(pre.script_view(), pre.remaining().len(),
                pre.remaining_fds().len(), need_b, need_f) == (if nb == 0 && nf == 0 {
                false
            } else {
                fd_read_completes(reader.script_view(), reader.remaining().len(),
                    reader.remaining_fds().len(), (need_b - nb) as nat, (need_f - nf) as nat)
            }));
        }
        if cb.len() == 0 && cf.len() == 0 {
            return Err(Error::PeerClosed);
        }
        let ghost chunk_b = cb@;
        let ghost chunk_f = cf@;
        let ghost k = content@.len();
        let ghost kf = fds@.len();
        content.append(&mut cb);
        fds.append(&mut cf);
        proof {
            assert(pre.remaining() == old(reader).remaining().skip(k as int));
            assert(pre.remaining_fds() == old(reader).remaining_fds().skip(kf as int));
            assert(chunk_b == pre.remaining().take(chunk_b.len() as int));
            assert(chunk_f == pre.remaining_fds().take(chunk_f.len() as int));
            assert(chunk_b.len() <= pre.remaining().len());
            assert(chunk_f.len() <= pre.remaining_fds().len());
            assert(content@ == old(reader).remaining().take(k as int) + chunk_b);
            assert(fds@ == old(reader).remaining_fds().take(kf as int) + chunk_f);
            assert(content@ =~= old(reader).remaining().take(content@.len() as int));
            assert(fds@ =~= old(reader).remaining_fds().take(fds@.len() as int));
            assert(reader.remaining() == pre.remaining().skip(chunk_b.len() as int));
            assert(reader.remaining_fds() == pre.remaining_fds().skip(chunk_f.len() as int));
            assert(reader.remaining() =~= old(reader).remaining().skip(content@.len() as int));
            assert(reader.remaining_fds() =~= old(reader).remaining_fds().skip(
                fds@.len() as int,
            ));
        }
    }
    Ok((content, fds))
}

/// The descriptor count of a length field, as executable code.
pub fn fd_count_of(length: u32) -> (r: u32)
    ensures
        r == spec_fd_count(length),
        r <= 0xff,
{
    proof {
        lemma_length_split(length);
    }
    length >> 24
}

/// The true payload length of a length field, as executable code.
pub fn payload_len_of(length: u32) -> (r: u32)
    ensures
        r == spec_payload_len(length),
        r <= 0xffffff,
{
    proof {
        lemma_length_split(length);
    }
    length & 0x00ffffff
}

/// Step-wise reassembly of one descriptor-carrying frame.
///
/// The loop that drives a real transport hands each partial delivery to
/// `absorb` and asks `missing_payload` and `missing_fds` how much to
/// request next; the assembly is complete when `is_done` holds. A
/// delivery with neither bytes nor descriptors while more are expected
/// is the peer closing the transport mid-frame.
pub struct FrameAssembly {
    payload: Vec<u8>,
    fds: Vec<i32>,
    payload_target: usize,
    fds_target: usize,
}

impl FrameAssembly {
    /// Never more is accumulated than the frame announced.
    #[verifier::type_invariant]
    spec fn inv(&self) -> bool {
        self.payload@.len() <= self.payload_target && self.fds@.len() <= self.fds_target
    }

    /// The payload bytes delivered so far.
    pub closed spec fn payload_so_far(&self) -> Seq<u8> {
        self.payload@
    }

    /// The descriptors delivered so far.
    pub closed spec fn fds_so_far(&self) -> Seq<i32> {
        self.fds@
    }

    /// The payload byte count the frame announced.
    pub closed spec fn payload_goal(&self) -> nat {
        self.payload_target as nat
    }

    /// The descriptor count the frame announced.
    pub closed spec fn fds_goal(&self) -> nat {
        self.fds_target as nat
    }

    /// Start assembling a frame with the announced counts.
    pub fn new(payload_target: usize, fds_target: usize) -> (a: Self)
        ensures
            a.payload_so_far() == Seq::<u8>::empty(),
            a.fds_so_far() == Seq::<i32>::empty(),
            a.payload_goal() == payload_target,
            a.fds_goal() == fds_target,
    {
        FrameAssembly { payload: Vec::new(), fds: Vec::new(), payload_target, fds_target }
    }

    /// How many payload bytes the next receive should ask for.
    pub fn missing_payload(&self) -> (n: usize)
        ensures
            n == self.payload_goal() - self.payload_so_far().len(),
    {
        proof {
            use_type_invariant(&*self);
        }
        self.payload_target - self.payload.len()
    }

    /// How many descriptors the next receive should ask for.
    pub fn missing_fds(&self) -> (n: usize)
        ensures
            n == self.fds_goal() - self.fds_so_far().len(),
    {
        proof {
            use_type_invariant(&*self);
        }
        self.fds_target - self.fds.len()
    }

    /// Whether the whole frame has arrived.
    pub fn is_done(&self) -> (r: bool)
        ensures
            r == (self.payload_so_far().len() == self.payload_goal() && self.fds_so_far().len()
                == self.fds_goal()),
    {
        self.payload.len() == self.payload_target && self.fds.len() == self.fds_target
    }

    /// Take in one partial delivery.
    pub fn absorb(&mut self, mut chunk: Vec<u8>, mut fds: Vec<i32>) -> (r: Result<(), Error>)
        requires
            old(self).payload_so_far().len() + chunk@.len() <= old(self).payload_goal(),
            old(self).fds_so_far().len() + fds@.len() <= old(self).fds_goal(),
        ensures
            final(self).payload_goal() == old(self).payload_goal(),
            final(self).fds_goal() == old(self).fds_goal(),
            ({
                let incomplete = old(self).payload_so_far().len() < old(self).payload_goal()
                    || old(self).fds_so_far().len() < old(self).fds_goal();
                if chunk@.len() == 0 && fds@.len() == 0 && incomplete {
                    r matches Err(e) && e == Error::PeerClosed && final(self).payload_so_far()
                        == old(self).payload_so_far() && final(self).fds_so_far() == old(
                        self,
                    ).fds_so_far()
                } else {
                    r is Ok && final(self).payload_so_far() == old(self).payload_so_far() + chunk@
                        && final(self).fds_so_far() == old(self).fds_so_far() + fds@
                }
            }),
    {
        proof {
            use_type_invariant(&*self);
        }
        if chunk.len() == 0 && fds.len() == 0 && !self.is_done() {
            return Err(Error::PeerClosed);
        }
        let mut p: Vec<u8> = Vec::new();
        core::mem::swap(&mut self.payload, &mut p);
        p.append(&mut chunk);
        core::mem::swap(&mut self.payload, &mut p);
        let mut f: Vec<i32> = Vec::new();
        core::mem::swap(&mut self.fds, &mut f);
        f.append(&mut fds);
        core::mem::swap(&mut self.fds, &mut f);
        Ok(())
    }

    /// Hand out what was assembled.
    pub fn into_parts(self) -> (r: (Vec<u8>, Vec<i32>))
        ensures
            r.0@ == self.payload_so_far(),
            r.1@ == self.fds_so_far(),
    {
        (self.payload, self.fds)
    }
}

/// One combined send of a frame's payload bytes and its descriptors.
fn write_to_with_fd(writer: &mut FdWriter, payload: &Vec<u8>, fds: &Vec<i32>)
    ensures
        final(writer).bytes() == old(writer).bytes() + payload@,
        final(writer).fd_list() == old(writer).fd_list() + fds@,
{
    writer.send_with_fd(payload.as_slice(), fds.as_slice());
}

impl GenMessage {
    /// Write this frame to a descriptor-capable transport.
    ///
    /// The header goes out as plain bytes. A frame whose length field
    /// carries no descriptor count sends its payload plainly; otherwise
    /// payload bytes and descriptor list leave in one combined send.
    pub fn write_to_fd(&self, writer: &mut FdWriter)
        ensures
            final(writer).bytes() == old(writer).bytes() + spec_frame_bytes(*self),
            final(writer).fd_list() == old(writer).fd_list() + (
            if spec_fd_count(self.header.length) == 0 {
                Seq::<i32>::empty()
            } else {
                self.fds@
            }),
    {
        let hdr = self.header.to_bytes();
        writer.write_all(hdr.as_slice());
        let fds_count = self.header.length >> 24;
        if fds_count == 0 {
            writer.write_all(self.payload.as_slice());
        } else {
            write_to_with_fd(writer, &self.payload, &self.fds);
        }
        proof {
            assert(final(writer).bytes() =~= old(writer).bytes() + spec_frame_bytes(*self));
        }
    }

    /// Read one frame from a descriptor-capable transport.
    ///
    /// The descriptor count comes out of the top 8 bits of the length
    /// field and is masked off to leave the true payload length. The
    /// same oversize policy applies as on the generic path — though the
    /// drain consumes payload bytes only, never descriptors. A frame
    /// that carries descriptors is accumulated across however many
    /// partial receive calls the transport takes; a receive that yields
    /// nothing while more is expected reports the peer closing.
    pub fn read_from_fd(reader: &mut FdReader) -> (r: Result<GenMessage, GenMessageError>)
        ensures
            ({
                let s = old(reader).remaining();
                let f = old(reader).remaining_fds();
                let sc = old(reader).script_view();
                let h0 = spec_parse_header(s.take(MESSAGE_HEADER_LENGTH as int));
                let cnt = spec_fd_count(h0.length);
                let plen = spec_payload_len(h0.length);
                let h = (MessageHeader { length: plen, ..h0 });
                &&& s.len() < MESSAGE_HEADER_LENGTH ==> r == Err::<GenMessage, GenMessageError>(
                    GenMessageError::InternalError(Error::Socket),
                ) && *final(reader) == *old(reader)
                &&& (s.len() >= MESSAGE_HEADER_LENGTH && plen > MESSAGE_LENGTH_MAX && s.len()
                    >= MESSAGE_HEADER_LENGTH + plen) ==> r == Err::<GenMessage, GenMessageError>(
                    GenMessageError::ReturnError(
                        h,
                        Error::RpcStatus(Status { code: Code::INVALID_ARGUMENT }),
                    ),
                ) && final(reader).remaining() == s.skip(MESSAGE_HEADER_LENGTH + plen as int)
                    && final(reader).remaining_fds() == f
                &&& (s.len() >= MESSAGE_HEADER_LENGTH && plen > MESSAGE_LENGTH_MAX && s.len()
                    < MESSAGE_HEADER_LENGTH + plen) ==> r == Err::<GenMessage, GenMessageError>(
                    GenMessageError::InternalError(Error::Socket),
                )
                &&& (s.len() >= MESSAGE_HEADER_LENGTH && plen <= MESSAGE_LENGTH_MAX && cnt == 0
                    && s.len() >= MESSAGE_HEADER_LENGTH + plen) ==> (r matches Ok(m) && m.header
                    == h && m.payload@ == s.skip(MESSAGE_HEADER_LENGTH as int).take(plen as int)
                    && m.fds@ == Seq::<i32>::empty() && final(reader).remaining() == s.skip(
                    MESSAGE_HEADER_LENGTH + plen as int,
                ) && final(reader).remaining_fds() == f)
                &&& (s.len() >= MESSAGE_HEADER_LENGTH && plen <= MESSAGE_LENGTH_MAX && cnt == 0
                    && s.len() < MESSAGE_HEADER_LENGTH + plen) ==> r == Err::<
                    GenMessage,
                    GenMessageError,
                >(GenMessageError::InternalError(Error::Socket))
                &&& (s.len() >= MESSAGE_HEADER_LENGTH && plen <= MESSAGE_LENGTH_MAX && cnt > 0)
                    ==> {
                    let ok = fd_read_completes(
                        sc,
                        (s.len() - MESSAGE_HEADER_LENGTH) as nat,
                        f.len(),
                        plen as nat,
                        cnt as nat,
                    );
                    &&& ok ==> (r matches Ok(m) && m.header == h && m.payload@ == s.skip(
                        MESSAGE_HEADER_LENGTH as int,
                    ).take(plen as int) && m.fds@ == f.take(cnt as int)
                        && final(reader).remaining() == s.skip(MESSAGE_HEADER_LENGTH + plen as int)
                        && final(reader).remaining_fds() == f.skip(cnt as int))
                    &&& !ok ==> r == Err::<GenMessage, GenMessageError>(
                        GenMessageError::InternalError(Error::PeerClosed),
                    )
                }
            }),
    {
        let hbuf = match reader.read_exact(MESSAGE_HEADER_LENGTH) {
            Ok(v) => v,
            Err(e) => {
                return Err(GenMessageError::InternalError(e));
            },
        };
        let mut header = MessageHeader::from_bytes(hbuf.as_slice());
        let fds_count = header.length >> 24;
        header.length = header.length & 0x00ffffff;
        if let Err(e) = check_oversize(header.length as usize, true) {
            match discard_message_body(reader, &header) {
                Ok(_) => {},
                Err(e2) => {
                    return Err(GenMessageError::InternalError(e2));
                },
            }
            proof {
                let s = old(reader).remaining();
                assert(s.skip(MESSAGE_HEADER_LENGTH as int).skip(header.length as int) =~= s.skip(
                    MESSAGE_HEADER_LENGTH + header.length as int,
                ));
            }
            return Err(GenMessageError::ReturnError(header, e));
        }
        if fds_count == 0 {
            let payload = match reader.read_exact(header.length as usize) {
                Ok(v) => v,
                Err(e) => {
                    return Err(GenMessageError::InternalError(e));
                },
            };
            proof {
                let s = old(reader).remaining();
                assert(s.skip(MESSAGE_HEADER_LENGTH as int).skip(header.length as int) =~= s.skip(
                    MESSAGE_HEADER_LENGTH + header.length as int,
                ));
            }
            Ok(GenMessage { header, payload, fds: Vec::new() })
        } else {
            proof {
                lemma_length_split(spec_parse_header(
                    old(reader).remaining().take(MESSAGE_HEADER_LENGTH as int),
                ).length);
            }
            let ghost mid = *reader;
            let (payload, fds) = match read_from_with_fd(
                reader,
                header.length as usize,
                fds_count as usize,
            ) {
                Ok(p) => p,
                Err(e) => {
                    return Err(GenMessageError::InternalError(e));
                },
            };
            proof {
                let s = old(reader).remaining();
                lemma_fd_read_completes_implies_avail(
                    mid.script_view(),
                    mid.remaining().len(),
                    mid.remaining_fds().len(),
                    header.length as nat,
                    fds_count as nat,
                );
                assert(s.skip(MESSAGE_HEADER_LENGTH as int).skip(header.length as int) =~= s.skip(
                    MESSAGE_HEADER_LENGTH + header.length as int,
                ));
            }
            Ok(GenMessage { header, payload, fds })
        }
    }
}

/// Law: a frame built for descriptor passing — its length field packing
/// payload length and descriptor count — parses back from its own wire
/// bytes into the same header, payload and descriptor list, whatever
/// follows it on the byte stream.
pub proof fn lemma_fd_frame_round_trip(m: GenMessage, rest: Seq<u8>)
    requires
        spec_payload_len(m.header.length) == m.payload@.len(),
        spec_fd_count(m.header.length) == m.fds@.len(),
        m.payload@.len() <= MESSAGE_LENGTH_MAX,
    ensures
        ({
            let s = spec_frame_bytes(m) + rest;
            let h0 = spec_parse_header(s.take(MESSAGE_HEADER_LENGTH as int));
            &&& h0 == m.header
            &&& spec_payload_len(h0.length) == m.payload@.len()
            &&& spec_fd_count(h0.length) == m.fds@.len()
            &&& s.skip(MESSAGE_HEADER_LENGTH as int).take(spec_payload_len(h0.length) as int)
                == m.payload@
            &&& m.fds@.take(spec_fd_count(h0.length) as int) == m.fds@
            &&& s.skip(MESSAGE_HEADER_LENGTH + spec_payload_len(h0.length) as int) == rest
        }),
{
    let s = spec_frame_bytes(m) + rest;
    assert(s.take(MESSAGE_HEADER_LENGTH as int) =~= spec_header_bytes(m.header));
    crate::proto::lemma_header_round_trip(m.header);
    assert(s.skip(MESSAGE_HEADER_LENGTH as int).take(spec_payload_len(m.header.length) as int)
        =~= m.payload@);
    assert(m.fds@.take(spec_fd_count(m.header.length) as int) =~= m.fds@);
    assert(s.skip(MESSAGE_HEADER_LENGTH + spec_payload_len(m.header.length) as int) =~= rest);
}

/// Law: every frame whose header length matches its payload length and
/// stays within the maximum reads back, from its own wire bytes followed
/// by anything else, as exactly the frame that was written, leaving the
/// read position at the following bytes.
pub proof fn lemma_frame_round_trip(m: GenMessage, rest: Seq<u8>)
    requires
        m.header.length == m.payload@.len(),
        m.payload@.len() <= MESSAGE_LENGTH_MAX,
    ensures
        ({
            let s = spec_frame_bytes(m) + rest;
            &&& s.len() >= MESSAGE_HEADER_LENGTH
            &&& spec_parse_header(s.take(MESSAGE_HEADER_LENGTH as int)) == m.header
            &&& s.skip(MESSAGE_HEADER_LENGTH as int).take(m.header.length as int) == m.payload@
            &&& s.skip(MESSAGE_HEADER_LENGTH + m.header.length as int) == rest
        }),
{
    let s = spec_frame_bytes(m) + rest;
    assert(s.take(MESSAGE_HEADER_LENGTH as int) =~= spec_header_bytes(m.header));
    crate::proto::lemma_header_round_trip(m.header);
    assert(s.skip(MESSAGE_HEADER_LENGTH as int).take(m.header.length as int) =~= m.payload@);
    assert(s.skip(MESSAGE_HEADER_LENGTH + m.header.length as int) =~= rest);
}

/// Law: a frame whose length field exceeds the maximum is reported with
/// the INVALID_ARGUMENT status, and afterwards the read position stands
/// exactly at the start of whatever follows the oversized body — a
/// second frame written behind it parses intact.
pub proof fn lemma_oversize_read_aligns(h: MessageHeader, body: Seq<u8>, rest: Seq<u8>)
    requires
        h.length > MESSAGE_LENGTH_MAX,
        body.len() == h.length,
    ensures
        ({
            let s = spec_header_bytes(h) + body + rest;
            &&& s.len() >= MESSAGE_HEADER_LENGTH + h.length
            &&& spec_parse_header(s.take(MESSAGE_HEADER_LENGTH as int)) == h
            &&& s.skip(MESSAGE_HEADER_LENGTH + h.length as int) == rest
        }),
{
    let s = spec_header_bytes(h) + body + rest;
    assert(s.take(MESSAGE_HEADER_LENGTH as int) =~= spec_header_bytes(h));
    crate::proto::lemma_header_round_trip(h);
    assert(s.skip(MESSAGE_HEADER_LENGTH + h.length as int) =~= rest);
}

} // verus!
