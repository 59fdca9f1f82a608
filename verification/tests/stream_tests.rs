use ttrpc::{
    ClientStream, Code, EchoPayload, Error, FdReader, FdWriter, GenMessage, Kind, MessageHeader,
    ServerStream, Status, StreamReceiver, StreamSender, FLAG_NO_DATA, FLAG_REMOTE_CLOSED,
    MESSAGE_TYPE_DATA, MESSAGE_TYPE_RESPONSE,
};

#[test]
fn send_after_close_send_fails_locally_closed() {
    let mut sender = StreamSender::new(11, Kind::Client, true);
    sender.send_with_fd(vec![1, 2, 3], vec![]).unwrap();
    sender.close_send().unwrap();

    // Every further send attempt fails with LocalClosed and enqueues
    // nothing; the receive half of the stream is a separate value and
    // keeps working (see the scenario test below).
    let pending_before = sender.take_pending();
    assert_eq!(sender.send_with_fd(vec![4], vec![]), Err(Error::LocalClosed));
    assert_eq!(sender.send(vec![5]), Err(Error::LocalClosed));
    assert_eq!(sender.take_pending().len(), 0);

    // The close signal itself is the last pending frame.
    let close_frame = pending_before.last().unwrap();
    assert_eq!(close_frame.header.type_, MESSAGE_TYPE_DATA);
    assert_eq!(close_frame.header.flags, FLAG_REMOTE_CLOSED | FLAG_NO_DATA);
    assert_eq!(close_frame.header.length, 0);
    assert!(close_frame.payload.is_empty());
}

#[test]
fn close_send_is_idempotent() {
    let mut sender = StreamSender::new(1, Kind::Client, true);
    sender.close_send().unwrap();
    sender.close_send().unwrap();
    assert_eq!(sender.take_pending().len(), 1);
}

#[test]
fn sender_rejects_too_many_descriptors() {
    let mut sender = StreamSender::new(1, Kind::Client, true);
    let r = sender.send_with_fd(vec![1], vec![0; 256]);
    assert_eq!(r, Err(Error::RpcStatus(Status { code: Code::INVALID_ARGUMENT })));
    assert_eq!(sender.take_pending().len(), 0);

    let mut sender = StreamSender::new(1, Kind::Client, true);
    sender.send_with_fd(vec![1], vec![0; 255]).unwrap();
    let frame = sender.take_pending().pop().unwrap();
    assert_eq!(frame.header.length >> 24, 255);
    assert_eq!(frame.header.length & 0x00ff_ffff, 1);
}

#[test]
fn sender_rejects_oversize_payload() {
    let mut sender = StreamSender::new(1, Kind::Client, true);
    let r = sender.send(vec![0; ttrpc::MESSAGE_LENGTH_MAX + 1]);
    assert_eq!(r, Err(Error::RpcStatus(Status { code: Code::INVALID_ARGUMENT })));
}

fn data_frame(stream_id: u32, payload: Vec<u8>, flags: u8) -> GenMessage {
    let mut header = MessageHeader::new_data(stream_id, payload.len() as u32);
    header.set_flags(flags);
    GenMessage { header, payload, fds: vec![] }
}

#[test]
fn remote_closed_with_no_data_is_end_of_stream() {
    let mut rcv = StreamReceiver::new(2, Kind::Client, true);
    rcv.push_incoming(data_frame(2, vec![], FLAG_REMOTE_CLOSED | FLAG_NO_DATA));
    assert_eq!(rcv.recv_with_fd(), Err(Error::Eof));

    // The remote half is closed: every further receive is rejected.
    assert_eq!(rcv.recv_with_fd(), Err(Error::RemoteClosed));
}

#[test]
fn remote_closed_with_payload_yields_payload_then_closes() {
    let mut rcv = StreamReceiver::new(2, Kind::Client, true);
    rcv.push_incoming(data_frame(2, vec![42, 43], FLAG_REMOTE_CLOSED));
    let (payload, fds) = rcv.recv_with_fd().unwrap();
    assert_eq!(payload, vec![42, 43]);
    assert!(fds.is_empty());

    rcv.push_incoming(data_frame(2, vec![1], 0));
    assert_eq!(rcv.recv_with_fd(), Err(Error::RemoteClosed));
}

#[test]
fn response_frame_completes_the_call() {
    let mut rcv = StreamReceiver::new(2, Kind::Client, true);
    let header = MessageHeader::new_response(2, 3);
    rcv.push_incoming(GenMessage { header, payload: vec![7, 8, 9], fds: vec![] });
    let (payload, _) = rcv.recv_with_fd().unwrap();
    assert_eq!(payload, vec![7, 8, 9]);
    assert_eq!(rcv.recv(), Err(Error::RemoteClosed));
}

#[test]
fn data_on_non_receivable_stream_is_a_violation() {
    let mut rcv = StreamReceiver::new(2, Kind::Server, false);
    rcv.push_incoming(data_frame(2, vec![1], 0));
    assert_eq!(rcv.recv_with_fd(), Err(Error::NotReceivable));
    assert_eq!(rcv.recv_with_fd(), Err(Error::RemoteClosed));
}

#[test]
fn unexpected_frame_type_is_not_supported() {
    let mut rcv = StreamReceiver::new(2, Kind::Client, true);
    let header = MessageHeader { length: 0, stream_id: 2, type_: 0x7, flags: 0 };
    rcv.push_incoming(GenMessage { header, payload: vec![], fds: vec![] });
    assert_eq!(rcv.recv_with_fd(), Err(Error::NotSupported));
}

/// Carry every frame the sender has pending across the modelled
/// descriptor-capable transport into the receiver's queue.
fn deliver(tx: &mut StreamSender, rcv: &mut StreamReceiver, script: Vec<(usize, usize)>) {
    let frames = tx.take_pending();
    let mut writer = FdWriter::new();
    for frame in &frames {
        frame.write_to_fd(&mut writer);
    }
    let (data, fds) = writer.into_parts();
    let mut reader = FdReader::new(data, fds, script);
    for _ in 0..frames.len() {
        let msg = GenMessage::read_from_fd(&mut reader).unwrap();
        rcv.push_incoming(msg);
    }
}

#[test]
fn echo_stream() {
    // End-to-end: the client opens stream 5, sends "ping" with one
    // descriptor; the server echoes "pingpong", the sequence number
    // incremented, attaching its own descriptor; the client closes its
    // send half; the server then sees end-of-stream, and the client's
    // next receive reports Eof.
    let mut client = ClientStream::<EchoPayload, EchoPayload>::new(5);
    let mut server = ServerStream::<EchoPayload, EchoPayload>::new(5);

    let echo = EchoPayload { seq: 0, msg: b"ping".to_vec() };
    client.send_with_fd(&echo, vec![33]).unwrap();
    deliver(&mut client.tx.tx, &mut server.rx.rx, vec![(7, 1), (100, 100)]);

    let (item, client_fds) = server.recv_with_fd().unwrap();
    let e = item.unwrap();
    assert_eq!(e.msg, b"ping");
    assert_eq!(e.seq, 0);
    assert_eq!(client_fds, vec![33]);

    let reply = EchoPayload { seq: e.seq + 1, msg: b"pingpong".to_vec() };
    server.send_with_fd(&reply, vec![44]).unwrap();
    deliver(&mut server.tx.tx, &mut client.rx.rx, vec![]);

    let (resp, server_fds) = client.recv_with_fd().unwrap();
    assert_eq!(resp.msg, b"pingpong");
    assert_eq!(resp.seq, echo.seq + 1);
    assert_eq!(server_fds, vec![44]);

    client.close_send().unwrap();
    deliver(&mut client.tx.tx, &mut server.rx.rx, vec![]);

    // The server's next receive reports end-of-stream as "no more
    // items"; sends after the local close fail.
    assert_eq!(server.recv().unwrap(), None);
    assert_eq!(client.send(&echo), Err(Error::LocalClosed));

    // The peer's closing signal reaches the client as Eof.
    let mut bye = MessageHeader::new_data(5, 0);
    bye.set_flags(FLAG_REMOTE_CLOSED | FLAG_NO_DATA);
    client.rx.rx.push_incoming(GenMessage { header: bye, payload: vec![], fds: vec![] });
    assert_eq!(client.recv(), Err(Error::Eof));
}
