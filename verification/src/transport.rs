//! In-memory transport endpoints that the framing layer runs on.
//!
//! The dispatcher owns the real connection; this core sees each direction
//! as a byte stream, plus a descriptor stream on transports capable of
//! ancillary-data transfer. `ByteReader` and `FdReader` model the read
//! half of those two transports: a reader holds exactly the bytes (and
//! descriptors) the peer has sent. An `FdReader` additionally carries a
//! delivery script describing how the transport splits one frame across
//! partial receive calls, so every possible split is covered by the one
//! contract. `FdWriter` models the descriptor-capable write half.

use vstd::prelude::*;

use crate::errors::Error;

verus! {

/// The smaller of two sizes.
pub open spec fn spec_min(a: nat, b: nat) -> nat {
    if a <= b {
        a
    } else {
        b
    }
}

/// The smaller of two sizes, as executable code.
fn min_usize(a: usize, b: usize) -> (r: usize)
    ensures
        r == spec_min(a as nat, b as nat),
{
    if a <= b {
        a
    } else {
        b
    }
}

/// Read half of a byte-oriented transport.
///
/// An exhausted reader models a transport whose peer has sent nothing
/// further; asking for more bytes than remain is a transport-level short
/// read.
pub struct ByteReader {
    data: Vec<u8>,
    pos: usize,
}

/// Read half of any transport this core can parse frames from.
pub trait ByteRead: Sized {
    /// The bytes not yet consumed.
    spec fn remaining(&self) -> Seq<u8>;

    /// The descriptor stream and delivery script of the transport, if it
    /// has them; plain byte reads leave both untouched.
    spec fn fd_side(&self) -> (Seq<i32>, Seq<(usize, usize)>);

    /// How many bytes are left unconsumed.
    fn available(&self) -> (n: usize)
        ensures
            n == self.remaining().len(),
    ;

    /// Read exactly `n` bytes, or fail with a transport error.
    fn read_exact(&mut self, n: usize) -> (r: Result<Vec<u8>, Error>)
        ensures
            old(self).remaining().len() >= n ==> (r matches Ok(v)
                && v@ == old(self).remaining().take(n as int)
                && final(self).remaining() == old(self).remaining().skip(n as int)),
            old(self).remaining().len() < n ==> (r == Err::<Vec<u8>, Error>(Error::Socket)
                && *final(self) == *old(self)),
            final(self).fd_side() == old(self).fd_side(),
    ;
}

impl ByteReader {
    /// The consumed prefix never runs past the end of the data.
    #[verifier::type_invariant]
    spec fn inv(&self) -> bool {
        self.pos <= self.data@.len()
    }

    /// A reader over the bytes the peer has sent.
    pub fn new(data: Vec<u8>) -> (r: ByteReader)
        ensures
            r.remaining() == data@,
    {
        ByteReader { data, pos: 0 }
    }

    /// How many bytes are left unconsumed.
    pub fn remaining_len(&self) -> (n: usize)
        ensures
            n == self.remaining().len(),
    {
        proof {
            use_type_invariant(&*self);
        }
        self.data.len() - self.pos
    }
}

impl ByteRead for ByteReader {
    closed spec fn remaining(&self) -> Seq<u8> {
        self.data@.skip(self.pos as int)
    }

    open spec fn fd_side(&self) -> (Seq<i32>, Seq<(usize, usize)>) {
        (Seq::<i32>::empty(), Seq::<(usize, usize)>::empty())
    }

    fn available(&self) -> (n: usize) {
        proof {
            use_type_invariant(&*self);
        }
        self.data.len() - self.pos
    }

    fn read_exact(&mut self, n: usize) -> (r: Result<Vec<u8>, Error>) {
        proof {
            use_type_invariant(&*self);
        }
        if n > self.data.len() - self.pos {
            return Err(Error::Socket);
        }
        let out = vstd::slice::slice_to_vec(
            vstd::slice::slice_subrange(self.data.as_slice(), self.pos, self.pos + n),
        );
        self.pos = self.pos + n;
        proof {
            assert(out@ =~= old(self).remaining().take(n as int));
            assert(self.data@.skip(self.pos as int) =~= old(self).remaining().skip(n as int));
        }
        Ok(out)
    }
}

/// Write half of a descriptor-capable transport.
///
/// Bytes and descriptors each form one ordered stream; a combined send
/// appends to both at once, which models the atomic delivery of payload
/// bytes plus descriptor list that ancillary-data transfer provides.
pub struct FdWriter {
    data: Vec<u8>,
    fds: Vec<i32>,
}

impl FdWriter {
    /// The bytes written so far.
    pub closed spec fn bytes(&self) -> Seq<u8> {
        self.data@
    }

    /// The descriptors written so far.
    pub closed spec fn fd_list(&self) -> Seq<i32> {
        self.fds@
    }

    /// An empty write half.
    pub fn new() -> (w: FdWriter)
        ensures
            w.bytes() == Seq::<u8>::empty(),
            w.fd_list() == Seq::<i32>::empty(),
    {
        FdWriter { data: Vec::new(), fds: Vec::new() }
    }

    /// Append plain bytes, with no descriptors.
    pub fn write_all(&mut self, buf: &[u8])
        ensures
            final(self).bytes() == old(self).bytes() + buf@,
            final(self).fd_list() == old(self).fd_list(),
    {
        self.data.extend_from_slice(buf);
    }

    /// One combined send of payload bytes and descriptor list.
    pub fn send_with_fd(&mut self, buf: &[u8], fds: &[i32])
        ensures
            final(self).bytes() == old(self).bytes() + buf@,
            final(self).fd_list() == old(self).fd_list() + fds@,
    {
        self.data.extend_from_slice(buf);
        self.fds.extend_from_slice(fds);
    }

    /// Hand the two streams over, e.g. to the read half of a test pair.
    pub fn into_parts(self) -> (r: (Vec<u8>, Vec<i32>))
        ensures
            r.0@ == self.bytes(),
            r.1@ == self.fd_list(),
    {
        (self.data, self.fds)
    }
}

/// Read half of a descriptor-capable transport.
///
/// `data` and `fds` hold what the peer has sent. `script` drives partial
/// delivery: while it is non-empty, each receive call delivers at most the
/// byte and descriptor counts of its first entry; once it is exhausted,
/// a receive delivers everything available up to what was asked for. An
/// entry that yields nothing models the peer closing the transport.
pub struct FdReader {
    data: Vec<u8>,
    fds: Vec<i32>,
    script: Vec<(usize, usize)>,
}

impl FdReader {
    /// The descriptors not yet consumed.
    pub closed spec fn remaining_fds(&self) -> Seq<i32> {
        self.fds@
    }

    /// The delivery script not yet used.
    pub closed spec fn script_view(&self) -> Seq<(usize, usize)> {
        self.script@
    }

    /// A reader over the given byte and descriptor streams, splitting
    /// deliveries as `script` dictates.
    pub fn new(data: Vec<u8>, fds: Vec<i32>, script: Vec<(usize, usize)>) -> (r: FdReader)
        ensures
            r.remaining() == data@,
            r.remaining_fds() == fds@,
            r.script_view() == script@,
    {
        FdReader { data, fds, script }
    }

    /// How many bytes are left unconsumed.
    pub fn remaining_len(&self) -> (n: usize)
        ensures
            n == self.remaining().len(),
    {
        self.data.len()
    }

    /// How many descriptors are left unconsumed.
    pub fn remaining_fds_len(&self) -> (n: usize)
        ensures
            n == self.remaining_fds().len(),
    {
        self.fds.len()
    }

    /// One underlying receive call: delivers up to `max_bytes` payload
    /// bytes and `max_fds` descriptors, possibly fewer of each, as the
    /// delivery script dictates.
    pub fn recv(&mut self, max_bytes: usize, max_fds: usize) -> (r: (Vec<u8>, Vec<i32>))
        ensures
            ({
                let cap_b = if old(self).script_view().len() > 0 {
                    old(self).script_view()[0].0 as nat
                } else {
                    max_bytes as nat
                };
                let cap_f = if old(self).script_view().len() > 0 {
                    old(self).script_view()[0].1 as nat
                } else {
                    max_fds as nat
                };
                let nb = spec_min(cap_b, spec_min(max_bytes as nat, old(self).remaining().len()));
                let nf = spec_min(
                    cap_f,
                    spec_min(max_fds as nat, old(self).remaining_fds().len()),
                );
                r.0@ == old(self).remaining().take(nb as int)
                    && r.1@ == old(self).remaining_fds().take(nf as int)
                    && final(self).remaining() == old(self).remaining().skip(nb as int)
                    && final(self).remaining_fds() == old(self).remaining_fds().skip(nf as int)
                    && final(self).script_view() == (if old(self).script_view().len() > 0 {
                    old(self).script_view().skip(1)
                } else {
                    old(self).script_view()
                })
            }),
    {
        let (cap_b, cap_f) = if self.script.len() > 0 {
            self.script.remove(0)
        } else {
            (max_bytes, max_fds)
        };
        let nb = min_usize(cap_b, min_usize(max_bytes, self.data.len()));
        let nf = min_usize(cap_f, min_usize(max_fds, self.fds.len()));
        let mut byte_tail = self.data.split_off(nb);
        core::mem::swap(&mut self.data, &mut byte_tail);
        let mut fd_tail = self.fds.split_off(nf);
        core::mem::swap(&mut self.fds, &mut fd_tail);
        (byte_tail, fd_tail)
    }
}

impl ByteRead for FdReader {
    closed spec fn remaining(&self) -> Seq<u8> {
        self.data@
    }

    open spec fn fd_side(&self) -> (Seq<i32>, Seq<(usize, usize)>) {
        (self.remaining_fds(), self.script_view())
    }

    fn available(&self) -> (n: usize) {
        self.data.len()
    }

    fn read_exact(&mut self, n: usize) -> (r: Result<Vec<u8>, Error>) {
        if n > self.data.len() {
            return Err(Error::Socket);
        }
        let mut tail = self.data.split_off(n);
        core::mem::swap(&mut self.data, &mut tail);
        Ok(tail)
    }
}

} // verus!
