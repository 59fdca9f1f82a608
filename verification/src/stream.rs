//! Per-stream state machine and the typed send/receive handles over it.
//!
//! Each logical stream is a sender half and a receiver half, coordinated
//! only through their closed flags. The sender enqueues DATA frames for
//! the dispatcher to put on the shared transport; the receiver consumes
//! the frames the dispatcher routed to this stream. The sender enforces
//! the local half-close — every send after the close-send signal fails —
//! and the receiver tracks the remote half-close, end-of-stream, and the
//! role-specific receivability of streaming data.

use core::marker::PhantomData;

use vstd::prelude::*;

use crate::codec::Codec;
use crate::errors::{Code, Error, Status};
use crate::proto::{
    GenMessage, MessageHeader, FLAG_NO_DATA, FLAG_REMOTE_CLOSED, MESSAGE_LENGTH_MAX,
    MESSAGE_TYPE_DATA, MESSAGE_TYPE_RESPONSE,
};

verus! {

/// Which side of the connection opened the stream.
#[derive(Debug, Clone, Copy, PartialEq, Eq, Structural)]
pub enum Kind {
    Client,
    Server,
}

/// Whether every bit of `flag` is set in `flags`.
pub open spec fn spec_has_flag(flags: u8, flag: u8) -> bool {
    flags & flag == flag
}

/// The length field of a descriptor-carrying DATA frame: descriptor
/// count in the top 8 bits, payload byte length below.
pub open spec fn spec_packed_length(payload_len: u32, fd_count: u32) -> u32 {
    payload_len | (fd_count << 24)
}

/// Send half of one logical stream.
///
/// `local_closed` is the one-way close-send signal: once set, every
/// further send fails. `tx` holds the frames awaiting the dispatcher.
pub struct StreamSender {
    pub stream_id: u32,
    pub kind: Kind,
    pub sendable: bool,
    pub local_closed: bool,
    pub tx: Vec<GenMessage>,
}

/// The fields of a sender that no send operation changes.
pub open spec fn sender_meta_unchanged(a: StreamSender, b: StreamSender) -> bool {
    a.stream_id == b.stream_id && a.kind == b.kind && a.sendable == b.sendable
}

/// Contract of one plain send of `buf`: rejected with `LocalClosed`
/// after the close-send signal, rejected with the INVALID_ARGUMENT
/// status when oversized, and otherwise enqueueing exactly one DATA
/// frame carrying `buf` with no descriptors.
pub open spec fn spec_send_result(
    pre: StreamSender,
    post: StreamSender,
    buf: Seq<u8>,
    r: Result<(), Error>,
) -> bool {
    &&& sender_meta_unchanged(pre, post)
    &&& post.local_closed == pre.local_closed
    &&& pre.local_closed ==> (r matches Err(e) && e == Error::LocalClosed && post.tx@ == pre.tx@)
    &&& !pre.local_closed && buf.len() > MESSAGE_LENGTH_MAX ==> (r matches Err(e) && e
        == Error::RpcStatus(Status { code: Code::INVALID_ARGUMENT }) && post.tx@ == pre.tx@)
    &&& !pre.local_closed && buf.len() <= MESSAGE_LENGTH_MAX ==> (r is Ok && post.tx@.len()
        == pre.tx@.len() + 1 && post.tx@.take(pre.tx@.len() as int) == pre.tx@
        && post.tx@.last().header == (MessageHeader {
        length: buf.len() as u32,
        stream_id: pre.stream_id,
        type_: MESSAGE_TYPE_DATA,
        flags: 0,
    }) && post.tx@.last().payload@ == buf && post.tx@.last().fds@ == Seq::<i32>::empty())
}

/// Contract of one descriptor-carrying send of `buf` and `fds`: the
/// same close and oversize rejections as a plain send, a rejection of
/// more than 255 descriptors, and otherwise exactly one DATA frame
/// whose length field packs the payload length with the descriptor
/// count and which carries `buf` and `fds`.
pub open spec fn spec_send_fd_result(
    pre: StreamSender,
    post: StreamSender,
    buf: Seq<u8>,
    fds: Seq<i32>,
    r: Result<(), Error>,
) -> bool {
    &&& sender_meta_unchanged(pre, post)
    &&& post.local_closed == pre.local_closed
    &&& pre.local_closed ==> (r matches Err(e) && e == Error::LocalClosed && post.tx@ == pre.tx@)
    &&& !pre.local_closed && fds.len() > 255 ==> (r matches Err(e) && e == Error::RpcStatus(
        Status { code: Code::INVALID_ARGUMENT },
    ) && post.tx@ == pre.tx@)
    &&& !pre.local_closed && fds.len() <= 255 && buf.len() > MESSAGE_LENGTH_MAX ==> (r matches Err(e)
        && e == Error::RpcStatus(Status { code: Code::INVALID_ARGUMENT }) && post.tx@ == pre.tx@)
    &&& !pre.local_closed && fds.len() <= 255 && buf.len() <= MESSAGE_LENGTH_MAX ==> (r is Ok
        && post.tx@.len() == pre.tx@.len() + 1 && post.tx@.take(pre.tx@.len() as int) == pre.tx@
        && post.tx@.last().header == (MessageHeader {
        length: spec_packed_length(buf.len() as u32, fds.len() as u32),
        stream_id: pre.stream_id,
        type_: MESSAGE_TYPE_DATA,
        flags: 0,
    }) && crate::framing::spec_payload_len(post.tx@.last().header.length) == buf.len()
        && crate::framing::spec_fd_count(post.tx@.last().header.length) == fds.len()
        && post.tx@.last().payload@ == buf && post.tx@.last().fds@ == fds)
}

/// Contract of one close-send signal: always succeeds, is idempotent,
/// leaves the sender locally closed, and — the first time — enqueues
/// the empty DATA frame flagged REMOTE_CLOSED and NO_DATA.
pub open spec fn spec_close_send_result(
    pre: StreamSender,
    post: StreamSender,
    r: Result<(), Error>,
) -> bool {
    &&& r is Ok
    &&& sender_meta_unchanged(pre, post)
    &&& post.local_closed
    &&& pre.local_closed ==> post.tx@ == pre.tx@
    &&& !pre.local_closed ==> (post.tx@.len() == pre.tx@.len() + 1 && post.tx@.take(
        pre.tx@.len() as int,
    ) == pre.tx@ && post.tx@.last().header == (MessageHeader {
        length: 0,
        stream_id: pre.stream_id,
        type_: MESSAGE_TYPE_DATA,
        flags: FLAG_REMOTE_CLOSED | FLAG_NO_DATA,
    }) && post.tx@.last().payload@ == Seq::<u8>::empty() && post.tx@.last().fds@
        == Seq::<i32>::empty())
}

impl StreamSender {
    /// A fresh, open send half with nothing pending.
    pub fn new(stream_id: u32, kind: Kind, sendable: bool) -> (s: Self)
        ensures
            s.stream_id == stream_id,
            s.kind == kind,
            s.sendable == sendable,
            !s.local_closed,
            s.tx@ == Seq::<GenMessage>::empty(),
    {
        StreamSender { stream_id, kind, sendable, local_closed: false, tx: Vec::new() }
    }

    /// Enqueue one plain DATA frame carrying `buf`.
    ///
    /// Fails with `LocalClosed` after the close-send signal, and rejects
    /// an oversized payload rather than truncating its length field.
    pub fn send(&mut self, buf: Vec<u8>) -> (r: Result<(), Error>)
        requires
            old(self).sendable,
        ensures
            spec_send_result(*old(self), *final(self), buf@, r),
    {
        if self.local_closed {
            return Err(Error::LocalClosed);
        }
        if buf.len() > MESSAGE_LENGTH_MAX {
            return Err(Error::RpcStatus(crate::errors::invalid_argument_status()));
        }
        let header = MessageHeader::new_data(self.stream_id, buf.len() as u32);
        let msg = GenMessage { header, payload: buf, fds: Vec::new() };
        self.tx.push(msg);
        proof {
            assert(self.tx@.take(old(self).tx@.len() as int) =~= old(self).tx@);
        }
        Ok(())
    }

    /// Enqueue one DATA frame carrying `buf` plus passed descriptors,
    /// their count packed into the top bits of the length field.
    ///
    /// More than 255 descriptors cannot be represented in the header and
    /// are rejected before framing, as is an oversized payload.
    pub fn send_with_fd(&mut self, buf: Vec<u8>, fds: Vec<i32>) -> (r: Result<(), Error>)
        requires
            old(self).sendable,
        ensures
            spec_send_fd_result(*old(self), *final(self), buf@, fds@, r),
    {
        if self.local_closed {
            return Err(Error::LocalClosed);
        }
        if fds.len() > 255 {
            return Err(Error::RpcStatus(crate::errors::invalid_argument_status()));
        }
        if buf.len() > MESSAGE_LENGTH_MAX {
            return Err(Error::RpcStatus(crate::errors::invalid_argument_status()));
        }
        proof {
            crate::framing::lemma_length_pack(buf@.len() as u32, fds@.len() as u32);
        }
        let mut header = MessageHeader::new_data(self.stream_id, buf.len() as u32);
        header.length = header.length | ((fds.len() as u32) << 24);
        let msg = GenMessage { header, payload: buf, fds };
        self.tx.push(msg);
        proof {
            assert(self.tx@.take(old(self).tx@.len() as int) =~= old(self).tx@);
        }
        Ok(())
    }

    /// Send the close-send signal: a DATA frame with the REMOTE_CLOSED
    /// and NO_DATA flags and an empty payload. One-way and idempotent;
    /// only the client role may half-close its outbound direction.
    pub fn close_send(&mut self) -> (r: Result<(), Error>)
        requires
            old(self).kind == Kind::Client,
        ensures
            spec_close_send_result(*old(self), *final(self), r),
    {
        if self.local_closed {
            return Ok(());
        }
        self.local_closed = true;
        let mut header = MessageHeader::new_data(self.stream_id, 0);
        header.set_flags(FLAG_REMOTE_CLOSED | FLAG_NO_DATA);
        let msg = GenMessage { header, payload: Vec::new(), fds: Vec::new() };
        self.tx.push(msg);
        proof {
            assert(self.tx@.take(old(self).tx@.len() as int) =~= old(self).tx@);
        }
        Ok(())
    }

    /// Hand every pending frame to the dispatcher, in send order.
    pub fn take_pending(&mut self) -> (r: Vec<GenMessage>)
        ensures
            sender_meta_unchanged(*old(self), *final(self)),
            final(self).local_closed == old(self).local_closed,
            r@ == old(self).tx@,
            final(self).tx@ == Seq::<GenMessage>::empty(),
    {
        let mut out: Vec<GenMessage> = Vec::new();
        core::mem::swap(&mut self.tx, &mut out);
        out
    }
}

/// Receive half of one logical stream.
///
/// `remote_closed` becomes true once the peer's half-close is observed;
/// every receive after that is rejected. `rx` holds the frames the
/// dispatcher routed to this stream, oldest first.
pub struct StreamReceiver {
    pub stream_id: u32,
    pub kind: Kind,
    pub receivable: bool,
    pub remote_closed: bool,
    pub rx: Vec<GenMessage>,
}

/// The fields of a receiver that no receive operation changes.
pub open spec fn receiver_meta_unchanged(a: StreamReceiver, b: StreamReceiver) -> bool {
    a.stream_id == b.stream_id && a.kind == b.kind && a.receivable == b.receivable
}

/// Whether observing frame `m` marks the peer's half of the stream
/// closed: a RESPONSE completes a unary call; a DATA frame does so when
/// it carries REMOTE_CLOSED, or when it arrives on a stream that is not
/// receivable, which terminates that direction.
pub open spec fn spec_recv_closes(rcv: StreamReceiver, m: GenMessage) -> bool {
    ||| m.header.type_ == MESSAGE_TYPE_RESPONSE
    ||| (m.header.type_ == MESSAGE_TYPE_DATA && !rcv.receivable)
    ||| (m.header.type_ == MESSAGE_TYPE_DATA && rcv.receivable && spec_has_flag(
        m.header.flags,
        FLAG_REMOTE_CLOSED,
    ))
}

/// The error observing frame `m` yields, if any: end-of-stream for a
/// half-close with NO_DATA, a distinct protocol violation for data on a
/// non-receivable stream, and "not supported" for unexpected types.
pub open spec fn spec_recv_error(rcv: StreamReceiver, m: GenMessage) -> Option<Error> {
    if m.header.type_ == MESSAGE_TYPE_RESPONSE {
        None
    } else if m.header.type_ == MESSAGE_TYPE_DATA {
        if !rcv.receivable {
            Some(Error::NotReceivable)
        } else if spec_has_flag(m.header.flags, FLAG_REMOTE_CLOSED) && spec_has_flag(
            m.header.flags,
            FLAG_NO_DATA,
        ) {
            Some(Error::Eof)
        } else {
            None
        }
    } else {
        Some(Error::NotSupported)
    }
}

/// Contract of one receive call: after the remote half closed, every
/// receive is rejected and consumes nothing; otherwise the first queued
/// frame is consumed, the remote-closed flag follows what the frame
/// announced, and the result is the frame's payload and descriptors or
/// the error the frame calls for.
pub open spec fn spec_recv_fd_result(
    pre: StreamReceiver,
    post: StreamReceiver,
    r: Result<(Vec<u8>, Vec<i32>), Error>,
) -> bool {
    &&& receiver_meta_unchanged(pre, post)
    &&& pre.remote_closed ==> (r matches Err(e) && e == Error::RemoteClosed && post.remote_closed
        && post.rx@ == pre.rx@)
    &&& (!pre.remote_closed && pre.rx@.len() > 0) ==> ({
        let m = pre.rx@[0];
        &&& post.rx@ == pre.rx@.skip(1)
        &&& post.remote_closed == spec_recv_closes(pre, m)
        &&& match spec_recv_error(pre, m) {
            Some(e) => r matches Err(x) && x == e,
            None => r matches Ok(p) && p.0@ == m.payload@ && p.1@ == m.fds@,
        }
    })
}

impl StreamReceiver {
    /// A fresh, open receive half with nothing queued.
    pub fn new(stream_id: u32, kind: Kind, receivable: bool) -> (s: Self)
        ensures
            s.stream_id == stream_id,
            s.kind == kind,
            s.receivable == receivable,
            !s.remote_closed,
            s.rx@ == Seq::<GenMessage>::empty(),
    {
        StreamReceiver { stream_id, kind, receivable, remote_closed: false, rx: Vec::new() }
    }

    /// The dispatcher routes one inbound frame to this stream.
    pub fn push_incoming(&mut self, msg: GenMessage)
        ensures
            receiver_meta_unchanged(*old(self), *final(self)),
            final(self).remote_closed == old(self).remote_closed,
            final(self).rx@ == old(self).rx@.push(msg),
    {
        self.rx.push(msg);
    }

    /// Receive the next frame's payload and descriptors.
    ///
    /// In a running connection a receive suspends until the dispatcher
    /// has routed a frame to this stream; the model therefore asks that
    /// a frame be queued, unless the remote half is already closed.
    ///
    /// A RESPONSE frame completes a unary call and closes the remote
    /// half. A DATA frame yields its payload; one carrying REMOTE_CLOSED
    /// closes the remote half, and with NO_DATA as well it is reported
    /// as end-of-stream instead of a payload. Receiving after the remote
    /// half closed, on a non-receivable stream, or a frame of unexpected
    /// type, each fail distinctly.
    pub fn recv_with_fd(&mut self) -> (r: Result<(Vec<u8>, Vec<i32>), Error>)
        requires
            old(self).remote_closed || old(self).rx@.len() > 0,
        ensures
            spec_recv_fd_result(*old(self), *final(self), r),
    {
        if self.remote_closed {
            return Err(Error::RemoteClosed);
        }
        let msg = self.rx.remove(0);
        if msg.header.type_ == MESSAGE_TYPE_RESPONSE {
            self.remote_closed = true;
            Ok((msg.payload, msg.fds))
        } else if msg.header.type_ == MESSAGE_TYPE_DATA {
            if !self.receivable {
                self.remote_closed = true;
                return Err(Error::NotReceivable);
            }
            if (msg.header.flags & FLAG_REMOTE_CLOSED) == FLAG_REMOTE_CLOSED {
                self.remote_closed = true;
                if (msg.header.flags & FLAG_NO_DATA) == FLAG_NO_DATA {
                    return Err(Error::Eof);
                }
            }
            Ok((msg.payload, msg.fds))
        } else {
            Err(Error::NotSupported)
        }
    }

    /// Receive the next frame's payload, without descriptors.
    pub fn recv(&mut self) -> (r: Result<Vec<u8>, Error>)
        requires
            old(self).remote_closed || old(self).rx@.len() > 0,
        ensures
            receiver_meta_unchanged(*old(self), *final(self)),
            old(self).remote_closed ==> (r matches Err(e) && e == Error::RemoteClosed && final(self).remote_closed && final(self).rx@ == old(self).rx@),
            !old(self).remote_closed ==> ({
                let m = old(self).rx@[0];
                &&& final(self).rx@ == old(self).rx@.skip(1)
                &&& final(self).remote_closed == spec_recv_closes(*old(self), m)
                &&& match spec_recv_error(*old(self), m) {
                    Some(e) => r matches Err(x) && x == e,
                    None => r matches Ok(p) && p@ == m.payload@,
                }
            }),
    {
        match self.recv_with_fd() {
            Ok((payload, _fds)) => Ok(payload),
            Err(e) => Err(e),
        }
    }
}

/// Everything about a sender one receive operation leaves untouched.
pub open spec fn sender_unchanged(a: StreamSender, b: StreamSender) -> bool {
    sender_meta_unchanged(a, b) && a.local_closed == b.local_closed && a.tx@ == b.tx@
}

/// Everything about a receiver one send operation leaves untouched.
pub open spec fn receiver_unchanged(a: StreamReceiver, b: StreamReceiver) -> bool {
    receiver_meta_unchanged(a, b) && a.remote_closed == b.remote_closed && a.rx@ == b.rx@
}

/// How one receive call moves the receiver: nothing changes after the
/// remote half already closed; otherwise the first queued frame is
/// consumed and the remote-closed flag follows what it announced.
pub open spec fn spec_recv_step(pre: StreamReceiver, post: StreamReceiver) -> bool {
    &&& receiver_meta_unchanged(pre, post)
    &&& pre.remote_closed ==> (post.remote_closed && post.rx@ == pre.rx@)
    &&& (!pre.remote_closed && pre.rx@.len() > 0) ==> (post.rx@ == pre.rx@.skip(1)
        && post.remote_closed == spec_recv_closes(pre, pre.rx@[0]))
}

/// The two halves of one logical stream, owned together.
pub struct StreamInner {
    pub sender: StreamSender,
    pub receiver: StreamReceiver,
}

impl StreamInner {
    /// A fresh stream: open in both directions, nothing queued.
    pub fn new(stream_id: u32, kind: Kind, sendable: bool, receivable: bool) -> (s: Self)
        ensures
            s.sender.stream_id == stream_id && s.sender.kind == kind && s.sender.sendable
                == sendable && !s.sender.local_closed && s.sender.tx@
                == Seq::<GenMessage>::empty(),
            s.receiver.stream_id == stream_id && s.receiver.kind == kind && s.receiver.receivable
                == receivable && !s.receiver.remote_closed && s.receiver.rx@
                == Seq::<GenMessage>::empty(),
    {
        StreamInner {
            sender: StreamSender::new(stream_id, kind, sendable),
            receiver: StreamReceiver::new(stream_id, kind, receivable),
        }
    }

    /// Send raw bytes and descriptors on this stream.
    pub fn send_with_fd(&mut self, buf: Vec<u8>, fds: Vec<i32>) -> (r: Result<(), Error>)
        requires
            old(self).sender.sendable,
        ensures
            spec_send_fd_result(old(self).sender, final(self).sender, buf@, fds@, r),
            receiver_unchanged(old(self).receiver, final(self).receiver),
    {
        self.sender.send_with_fd(buf, fds)
    }

    /// Receive the next frame's payload and descriptors.
    pub fn recv_with_fd(&mut self) -> (r: Result<(Vec<u8>, Vec<i32>), Error>)
        requires
            old(self).receiver.remote_closed || old(self).receiver.rx@.len() > 0,
        ensures
            spec_recv_fd_result(old(self).receiver, final(self).receiver, r),
            sender_unchanged(old(self).sender, final(self).sender),
    {
        self.receiver.recv_with_fd()
    }
}

/// Client-side send handle of a client-streaming call, bound to the
/// request codec.
pub struct ClientStreamSender<Q, P> {
    pub inner: StreamInner,
    pub marker: PhantomData<(Q, P)>,
}

impl<Q: Codec, P: Codec> ClientStreamSender<Q, P> {
    /// A fresh client-side send handle for stream `stream_id`.
    pub fn new(stream_id: u32) -> (s: Self)
        ensures
            s.inner.sender.stream_id == stream_id && s.inner.sender.kind == Kind::Client
                && s.inner.sender.sendable && !s.inner.sender.local_closed && s.inner.sender.tx@
                == Seq::<GenMessage>::empty(),
            !s.inner.receiver.remote_closed,
    {
        ClientStreamSender { inner: StreamInner::new(stream_id, Kind::Client, true, true), marker: PhantomData }
    }

    /// Encode one request and send it with passed descriptors.
    pub fn send_with_fd(&mut self, req: &Q, fds: Vec<i32>) -> (r: Result<(), Error>)
        requires
            old(self).inner.sender.sendable,
            req.wf(),
        ensures
            spec_send_fd_result(
                old(self).inner.sender,
                final(self).inner.sender,
                req.encoding(),
                fds@,
                r,
            ),
            receiver_unchanged(old(self).inner.receiver, final(self).inner.receiver),
    {
        let buf = match req.encode() {
            Ok(v) => v,
            Err(_) => {
                proof {
                    assert(false);
                }
                return Err(Error::Codec);
            },
        };
        self.inner.send_with_fd(buf, fds)
    }
}

/// Server-side send handle of a server-streaming call, bound to the
/// response codec.
pub struct SSSender<P> {
    pub tx: StreamSender,
    pub marker: PhantomData<P>,
}

impl<P: Codec> SSSender<P> {
    /// A fresh server-side send handle for stream `stream_id`.
    pub fn new(stream_id: u32) -> (s: Self)
        ensures
            s.tx.stream_id == stream_id && s.tx.kind == Kind::Server && s.tx.sendable
                && !s.tx.local_closed && s.tx.tx@ == Seq::<GenMessage>::empty(),
    {
        SSSender { tx: StreamSender::new(stream_id, Kind::Server, true), marker: PhantomData }
    }

    /// Encode one response and send it.
    pub fn send(&mut self, resp: &P) -> (r: Result<(), Error>)
        requires
            old(self).tx.sendable,
            resp.wf(),
        ensures
            spec_send_result(old(self).tx, final(self).tx, resp.encoding(), r),
    {
        let buf = match resp.encode() {
            Ok(v) => v,
            Err(_) => {
                proof {
                    assert(false);
                }
                return Err(Error::Codec);
            },
        };
        self.tx.send(buf)
    }

    /// Encode one response and send it with passed descriptors.
    pub fn send_with_fd(&mut self, resp: &P, fds: Vec<i32>) -> (r: Result<(), Error>)
        requires
            old(self).tx.sendable,
            resp.wf(),
        ensures
            spec_send_fd_result(old(self).tx, final(self).tx, resp.encoding(), fds@, r),
    {
        let buf = match resp.encode() {
            Ok(v) => v,
            Err(_) => {
                proof {
                    assert(false);
                }
                return Err(Error::Codec);
            },
        };
        self.tx.send_with_fd(buf, fds)
    }
}

/// Server-side receive handle of a streaming call, bound to the request
/// codec. End-of-stream is reported as "no more items", not an error.
pub struct SSReceiver<Q> {
    pub rx: StreamReceiver,
    pub marker: PhantomData<Q>,
}

impl<Q: Codec> SSReceiver<Q> {
    /// A fresh server-side receive handle for stream `stream_id`.
    pub fn new(stream_id: u32) -> (s: Self)
        ensures
            s.rx.stream_id == stream_id && s.rx.kind == Kind::Server && s.rx.receivable
                && !s.rx.remote_closed && s.rx.rx@ == Seq::<GenMessage>::empty(),
    {
        SSReceiver { rx: StreamReceiver::new(stream_id, Kind::Server, true), marker: PhantomData }
    }

    /// Receive and decode the next item with its descriptors; `None`
    /// once the peer closed its send half.
    pub fn recv_with_fd(&mut self) -> (r: Result<(Option<Q>, Vec<i32>), Error>)
        requires
            old(self).rx.remote_closed || old(self).rx.rx@.len() > 0,
        ensures
            spec_recv_step(old(self).rx, final(self).rx),
            old(self).rx.remote_closed ==> (r matches Err(e) && e == Error::RemoteClosed),
            !old(self).rx.remote_closed ==> ({
                let m = old(self).rx.rx@[0];
                match spec_recv_error(old(self).rx, m) {
                    Some(e) => if e == Error::Eof {
                        r matches Ok(p) && p.0 is None && p.1@ == Seq::<i32>::empty()
                    } else {
                        r matches Err(x) && x == e
                    },
                    None => match Q::decoded(m.payload@) {
                        Some(v) => r matches Ok(p) && p.0 matches Some(q) && q@ == v && q.wf()
                            && p.1@ == m.fds@,
                        None => r matches Err(x) && x == Error::Codec,
                    },
                }
            }),
    {
        let res = self.rx.recv_with_fd();
        match res {
            Err(Error::Eof) => Ok((None, Vec::new())),
            Err(e) => Err(e),
            Ok((buf, fds)) => match Q::decode(buf.as_slice()) {
                Ok(q) => Ok((Some(q), fds)),
                Err(_) => Err(Error::Codec),
            },
        }
    }

    /// Receive and decode the next item; `None` once the peer closed
    /// its send half.
    pub fn recv(&mut self) -> (r: Result<Option<Q>, Error>)
        requires
            old(self).rx.remote_closed || old(self).rx.rx@.len() > 0,
        ensures
            spec_recv_step(old(self).rx, final(self).rx),
            old(self).rx.remote_closed ==> (r matches Err(e) && e == Error::RemoteClosed),
            !old(self).rx.remote_closed ==> ({
                let m = old(self).rx.rx@[0];
                match spec_recv_error(old(self).rx, m) {
                    Some(e) => if e == Error::Eof {
                        r matches Ok(p) && p is None
                    } else {
                        r matches Err(x) && x == e
                    },
                    None => match Q::decoded(m.payload@) {
                        Some(v) => r matches Ok(p) && p matches Some(q) && q@ == v && q.wf(),
                        None => r matches Err(x) && x == Error::Codec,
                    },
                }
            }),
    {
        match self.recv_with_fd() {
            Ok((item, _fds)) => Ok(item),
            Err(e) => Err(e),
        }
    }
}

/// Server side of one streaming call: response sender plus request
/// receiver.
pub struct ServerStream<P, Q> {
    pub tx: SSSender<P>,
    pub rx: SSReceiver<Q>,
}

impl<P: Codec, Q: Codec> ServerStream<P, Q> {
    /// A fresh server-side stream handle for stream `stream_id`.
    pub fn new(stream_id: u32) -> (s: Self)
        ensures
            s.tx.tx.stream_id == stream_id && s.tx.tx.kind == Kind::Server && s.tx.tx.sendable
                && !s.tx.tx.local_closed && s.tx.tx.tx@ == Seq::<GenMessage>::empty(),
            s.rx.rx.stream_id == stream_id && s.rx.rx.kind == Kind::Server && s.rx.rx.receivable
                && !s.rx.rx.remote_closed && s.rx.rx.rx@ == Seq::<GenMessage>::empty(),
    {
        ServerStream { tx: SSSender::new(stream_id), rx: SSReceiver::new(stream_id) }
    }

    /// Encode one response and send it with passed descriptors.
    pub fn send_with_fd(&mut self, resp: &P, fds: Vec<i32>) -> (r: Result<(), Error>)
        requires
            old(self).tx.tx.sendable,
            resp.wf(),
        ensures
            spec_send_fd_result(old(self).tx.tx, final(self).tx.tx, resp.encoding(), fds@, r),
            receiver_unchanged(old(self).rx.rx, final(self).rx.rx),
    {
        self.tx.send_with_fd(resp, fds)
    }

    /// Receive and decode the next request item with its descriptors;
    /// `None` once the peer closed its send half.
    pub fn recv_with_fd(&mut self) -> (r: Result<(Option<Q>, Vec<i32>), Error>)
        requires
            old(self).rx.rx.remote_closed || old(self).rx.rx.rx@.len() > 0,
        ensures
            spec_recv_step(old(self).rx.rx, final(self).rx.rx),
            sender_unchanged(old(self).tx.tx, final(self).tx.tx),
            old(self).rx.rx.remote_closed ==> (r matches Err(e) && e == Error::RemoteClosed),
            !old(self).rx.rx.remote_closed ==> ({
                let m = old(self).rx.rx.rx@[0];
                match spec_recv_error(old(self).rx.rx, m) {
                    Some(e) => if e == Error::Eof {
                        r matches Ok(p) && p.0 is None && p.1@ == Seq::<i32>::empty()
                    } else {
                        r matches Err(x) && x == e
                    },
                    None => match Q::decoded(m.payload@) {
                        Some(v) => r matches Ok(p) && p.0 matches Some(q) && q@ == v && q.wf()
                            && p.1@ == m.fds@,
                        None => r matches Err(x) && x == Error::Codec,
                    },
                }
            }),
    {
        self.rx.recv_with_fd()
    }

    /// Receive and decode the next request item; `None` once the peer
    /// closed its send half.
    pub fn recv(&mut self) -> (r: Result<Option<Q>, Error>)
        requires
            old(self).rx.rx.remote_closed || old(self).rx.rx.rx@.len() > 0,
        ensures
            spec_recv_step(old(self).rx.rx, final(self).rx.rx),
            sender_unchanged(old(self).tx.tx, final(self).tx.tx),
            old(self).rx.rx.remote_closed ==> (r matches Err(e) && e == Error::RemoteClosed),
            !old(self).rx.rx.remote_closed ==> ({
                let m = old(self).rx.rx.rx@[0];
                match spec_recv_error(old(self).rx.rx, m) {
                    Some(e) => if e == Error::Eof {
                        r matches Ok(p) && p is None
                    } else {
                        r matches Err(x) && x == e
                    },
                    None => match Q::decoded(m.payload@) {
                        Some(v) => r matches Ok(p) && p matches Some(q) && q@ == v && q.wf(),
                        None => r matches Err(x) && x == Error::Codec,
                    },
                }
            }),
    {
        self.rx.recv()
    }
}

/// Client-side send handle of a streaming call, bound to the request
/// codec; the client may also half-close its send direction.
pub struct CSSender<Q> {
    pub tx: StreamSender,
    pub marker: PhantomData<Q>,
}

impl<Q: Codec> CSSender<Q> {
    /// A fresh client-side send handle for stream `stream_id`.
    pub fn new(stream_id: u32) -> (s: Self)
        ensures
            s.tx.stream_id == stream_id && s.tx.kind == Kind::Client && s.tx.sendable
                && !s.tx.local_closed && s.tx.tx@ == Seq::<GenMessage>::empty(),
    {
        CSSender { tx: StreamSender::new(stream_id, Kind::Client, true), marker: PhantomData }
    }

    /// Encode one request and send it.
    pub fn send(&mut self, req: &Q) -> (r: Result<(), Error>)
        requires
            old(self).tx.sendable,
            req.wf(),
        ensures
            spec_send_result(old(self).tx, final(self).tx, req.encoding(), r),
    {
        let buf = match req.encode() {
            Ok(v) => v,
            Err(_) => {
                proof {
                    assert(false);
                }
                return Err(Error::Codec);
            },
        };
        self.tx.send(buf)
    }

    /// Encode one request and send it with passed descriptors.
    pub fn send_with_fd(&mut self, req: &Q, fds: Vec<i32>) -> (r: Result<(), Error>)
        requires
            old(self).tx.sendable,
            req.wf(),
        ensures
            spec_send_fd_result(old(self).tx, final(self).tx, req.encoding(), fds@, r),
    {
        let buf = match req.encode() {
            Ok(v) => v,
            Err(_) => {
                proof {
                    assert(false);
                }
                return Err(Error::Codec);
            },
        };
        self.tx.send_with_fd(buf, fds)
    }

    /// Send the close-send signal for this stream.
    pub fn close_send(&mut self) -> (r: Result<(), Error>)
        requires
            old(self).tx.kind == Kind::Client,
        ensures
            spec_close_send_result(old(self).tx, final(self).tx, r),
    {
        self.tx.close_send()
    }
}

/// Client-side receive handle of a streaming call, bound to the
/// response codec.
pub struct CSReceiver<P> {
    pub rx: StreamReceiver,
    pub marker: PhantomData<P>,
}

impl<P: Codec> CSReceiver<P> {
    /// A fresh client-side receive handle for stream `stream_id`.
    pub fn new(stream_id: u32) -> (s: Self)
        ensures
            s.rx.stream_id == stream_id && s.rx.kind == Kind::Client && s.rx.receivable
                && !s.rx.remote_closed && s.rx.rx@ == Seq::<GenMessage>::empty(),
    {
        CSReceiver { rx: StreamReceiver::new(stream_id, Kind::Client, true), marker: PhantomData }
    }

    /// Receive and decode the next response item with its descriptors.
    pub fn recv_with_fd(&mut self) -> (r: Result<(P, Vec<i32>), Error>)
        requires
            old(self).rx.remote_closed || old(self).rx.rx@.len() > 0,
        ensures
            spec_recv_step(old(self).rx, final(self).rx),
            old(self).rx.remote_closed ==> (r matches Err(e) && e == Error::RemoteClosed),
            !old(self).rx.remote_closed ==> ({
                let m = old(self).rx.rx@[0];
                match spec_recv_error(old(self).rx, m) {
                    Some(e) => r matches Err(x) && x == e,
                    None => match P::decoded(m.payload@) {
                        Some(v) => r matches Ok(p) && p.0@ == v && p.0.wf() && p.1@ == m.fds@,
                        None => r matches Err(x) && x == Error::Codec,
                    },
                }
            }),
    {
        let (buf, fds) = match self.rx.recv_with_fd() {
            Ok(p) => p,
            Err(e) => {
                return Err(e);
            },
        };
        match P::decode(buf.as_slice()) {
            Ok(p) => Ok((p, fds)),
            Err(_) => Err(Error::Codec),
        }
    }

    /// Receive and decode the next response item.
    pub fn recv(&mut self) -> (r: Result<P, Error>)
        requires
            old(self).rx.remote_closed || old(self).rx.rx@.len() > 0,
        ensures
            spec_recv_step(old(self).rx, final(self).rx),
            old(self).rx.remote_closed ==> (r matches Err(e) && e == Error::RemoteClosed),
            !old(self).rx.remote_closed ==> ({
                let m = old(self).rx.rx@[0];
                match spec_recv_error(old(self).rx, m) {
                    Some(e) => r matches Err(x) && x == e,
                    None => match P::decoded(m.payload@) {
                        Some(v) => r matches Ok(p) && p@ == v && p.wf(),
                        None => r matches Err(x) && x == Error::Codec,
                    },
                }
            }),
    {
        match self.recv_with_fd() {
            Ok((item, _fds)) => Ok(item),
            Err(e) => Err(e),
        }
    }
}

/// Client side of one streaming call: request sender plus response
/// receiver.
pub struct ClientStream<Q, P> {
    pub tx: CSSender<Q>,
    pub rx: CSReceiver<P>,
}

impl<Q: Codec, P: Codec> ClientStream<Q, P> {
    /// A fresh client-side stream handle for stream `stream_id`.
    pub fn new(stream_id: u32) -> (s: Self)
        ensures
            s.tx.tx.stream_id == stream_id && s.tx.tx.kind == Kind::Client && s.tx.tx.sendable
                && !s.tx.tx.local_closed && s.tx.tx.tx@ == Seq::<GenMessage>::empty(),
            s.rx.rx.stream_id == stream_id && s.rx.rx.kind == Kind::Client && s.rx.rx.receivable
                && !s.rx.rx.remote_closed && s.rx.rx.rx@ == Seq::<GenMessage>::empty(),
    {
        ClientStream { tx: CSSender::new(stream_id), rx: CSReceiver::new(stream_id) }
    }

    /// Encode one request and send it.
    pub fn send(&mut self, req: &Q) -> (r: Result<(), Error>)
        requires
            old(self).tx.tx.sendable,
            req.wf(),
        ensures
            spec_send_result(old(self).tx.tx, final(self).tx.tx, req.encoding(), r),
            receiver_unchanged(old(self).rx.rx, final(self).rx.rx),
    {
        self.tx.send(req)
    }

    /// Encode one request and send it with passed descriptors.
    pub fn send_with_fd(&mut self, req: &Q, fds: Vec<i32>) -> (r: Result<(), Error>)
        requires
            old(self).tx.tx.sendable,
            req.wf(),
        ensures
            spec_send_fd_result(old(self).tx.tx, final(self).tx.tx, req.encoding(), fds@, r),
            receiver_unchanged(old(self).rx.rx, final(self).rx.rx),
    {
        self.tx.send_with_fd(req, fds)
    }

    /// Receive and decode the next response item with its descriptors.
    pub fn recv_with_fd(&mut self) -> (r: Result<(P, Vec<i32>), Error>)
        requires
            old(self).rx.rx.remote_closed || old(self).rx.rx.rx@.len() > 0,
        ensures
            spec_recv_step(old(self).rx.rx, final(self).rx.rx),
            sender_unchanged(old(self).tx.tx, final(self).tx.tx),
            old(self).rx.rx.remote_closed ==> (r matches Err(e) && e == Error::RemoteClosed),
            !old(self).rx.rx.remote_closed ==> ({
                let m = old(self).rx.rx.rx@[0];
                match spec_recv_error(old(self).rx.rx, m) {
                    Some(e) => r matches Err(x) && x == e,
                    None => match P::decoded(m.payload@) {
                        Some(v) => r matches Ok(p) && p.0@ == v && p.0.wf() && p.1@ == m.fds@,
                        None => r matches Err(x) && x == Error::Codec,
                    },
                }
            }),
    {
        self.rx.recv_with_fd()
    }

    /// Receive and decode the next response item.
    pub fn recv(&mut self) -> (r: Result<P, Error>)
        requires
            old(self).rx.rx.remote_closed || old(self).rx.rx.rx@.len() > 0,
        ensures
            spec_recv_step(old(self).rx.rx, final(self).rx.rx),
            sender_unchanged(old(self).tx.tx, final(self).tx.tx),
            old(self).rx.rx.remote_closed ==> (r matches Err(e) && e == Error::RemoteClosed),
            !old(self).rx.rx.remote_closed ==> ({
                let m = old(self).rx.rx.rx@[0];
                match spec_recv_error(old(self).rx.rx, m) {
                    Some(e) => r matches Err(x) && x == e,
                    None => match P::decoded(m.payload@) {
                        Some(v) => r matches Ok(p) && p@ == v && p.wf(),
                        None => r matches Err(x) && x == Error::Codec,
                    },
                }
            }),
    {
        self.rx.recv()
    }

    /// Send the close-send signal for this stream. Receives stay
    /// available: only the send half closes.
    pub fn close_send(&mut self) -> (r: Result<(), Error>)
        requires
            old(self).tx.tx.kind == Kind::Client,
        ensures
            spec_close_send_result(old(self).tx.tx, final(self).tx.tx, r),
            receiver_unchanged(old(self).rx.rx, final(self).rx.rx),
    {
        self.tx.close_send()
    }
}

/// Law: the local close-send signal is sticky. After any close-send
/// call, every later send — plain or descriptor-carrying, whatever its
/// payload — fails with `LocalClosed` and enqueues nothing, and the
/// sender stays closed; the receive half is a separate value, which no
/// send operation touches at all.
pub proof fn lemma_send_after_close_send_fails(
    s0: StreamSender,
    s1: StreamSender,
    s2: StreamSender,
    close_result: Result<(), Error>,
    buf: Seq<u8>,
    fds: Seq<i32>,
    send_result: Result<(), Error>,
)
    requires
        spec_close_send_result(s0, s1, close_result),
        spec_send_fd_result(s1, s2, buf, fds, send_result) || spec_send_result(
            s1,
            s2,
            buf,
            send_result,
        ),
    ensures
        send_result matches Err(e) && e == Error::LocalClosed,
        s2.tx@ == s1.tx@,
        s2.local_closed,
{
}

/// Law: the two halves of the remote half-close, over two consecutive
/// receive calls. A receiver observing a DATA frame that carries both
/// REMOTE_CLOSED and NO_DATA reports end-of-stream; observing
/// REMOTE_CLOSED alone, it returns the frame's payload. Either way the
/// remote half is then closed, and the following receive call is
/// rejected with `RemoteClosed` and consumes nothing.
pub proof fn lemma_remote_close_then_rejected(
    r0: StreamReceiver,
    r1: StreamReceiver,
    r2: StreamReceiver,
    first: Result<(Vec<u8>, Vec<i32>), Error>,
    second: Result<(Vec<u8>, Vec<i32>), Error>,
)
    requires
        !r0.remote_closed,
        r0.receivable,
        r0.rx@.len() > 0,
        r0.rx@[0].header.type_ == MESSAGE_TYPE_DATA,
        spec_has_flag(r0.rx@[0].header.flags, FLAG_REMOTE_CLOSED),
        spec_recv_fd_result(r0, r1, first),
        spec_recv_fd_result(r1, r2, second),
    ensures
        spec_has_flag(r0.rx@[0].header.flags, FLAG_NO_DATA) ==> (first matches Err(e) && e
            == Error::Eof),
        !spec_has_flag(r0.rx@[0].header.flags, FLAG_NO_DATA) ==> (first matches Ok(p) && p.0@
            == r0.rx@[0].payload@),
        r1.remote_closed,
        second matches Err(e) && e == Error::RemoteClosed,
        r2.rx@ == r1.rx@,
{
}

} // verus!
