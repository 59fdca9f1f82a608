use ttrpc::{
    ByteReader, Codec, EchoPayload, Error, Message, MessageHeader, MESSAGE_HEADER_LENGTH,
    MESSAGE_LENGTH_MAX, MESSAGE_TYPE_REQUEST,
};

const MESSAGE_HEADER: [u8; MESSAGE_HEADER_LENGTH] = [
    0x10, 0x0, 0x0, 0x0, // length
    0x0, 0x0, 0x0, 0x03, // stream_id
    0x2,  // type_
    0xef, // flags
];

fn message_exercise() {
    // Test packet which exceeds maximum message size
    let mut buf = Vec::from(MESSAGE_HEADER);
    let header = MessageHeader::read_from(&mut ByteReader::new(buf.clone())).expect("read header");
    buf.append(&mut vec![0x0; header.length as usize]);

    let gen = Message::<EchoPayload>::read_from(&mut ByteReader::new(buf)).expect("read message");

    assert_eq!(gen.header, header);
    // The caller observes the codec's empty decoding, not an error.
    assert_eq!(gen.payload.size(), 4);
    assert_eq!(gen.payload.seq, 0);
    assert!(gen.payload.msg.is_empty());

    // A message written with the bound codec reads back intact.
    let req = EchoPayload { seq: 66, msg: b"an echo item".to_vec() };
    let mut dmsg = Message::new_request(u32::MAX, req.clone()).unwrap();
    dmsg.header.set_stream_id(0x123456);
    dmsg.header.set_flags(0xe0);
    dmsg.header.add_flags(0x0f);
    let mut dbuf = vec![];
    dmsg.write_to(&mut dbuf);
    assert_eq!(dbuf.len(), MESSAGE_HEADER_LENGTH + 4 + req.msg.len());

    let back = Message::<EchoPayload>::read_from(&mut ByteReader::new(dbuf)).unwrap();
    assert_eq!(back.header.length as usize, 4 + req.msg.len());
    assert_eq!(back.header.stream_id, 0x123456);
    assert_eq!(back.header.type_, MESSAGE_TYPE_REQUEST);
    assert_eq!(back.header.flags, 0xef);
    assert_eq!(back.payload, req);
}

#[test]
fn async_proto_async_message() {
    message_exercise();
}

#[test]
fn async_normal_msg_async_message() {
    message_exercise();
}

#[test]
fn gen_message_to_message() {
    let req = EchoPayload { seq: 1, msg: vec![0x1, 0x2, 0x3] };
    let msg = Message::new_request(3, req).unwrap();
    let msg_clone = msg.clone();
    let gen = msg.into_gen().unwrap();
    let dmsg = Message::<EchoPayload>::from_gen(gen).unwrap();
    assert_eq!(msg_clone, dmsg);
}

#[test]
fn echo_codec_round_trip() {
    let p = EchoPayload { seq: 0xfeed_f00d, msg: b"ping".to_vec() };
    assert_eq!(p.size(), 8);
    let buf = p.encode().unwrap();
    assert_eq!(buf, vec![0xfe, 0xed, 0xf0, 0x0d, b'p', b'i', b'n', b'g']);
    let q = EchoPayload::decode(&buf).unwrap();
    assert_eq!(p, q);
}

#[test]
fn echo_codec_empty_and_invalid() {
    let zero = EchoPayload::decode(&[]).unwrap();
    assert_eq!(zero, EchoPayload { seq: 0, msg: vec![] });

    assert_eq!(EchoPayload::decode(&[1]), Err(Error::Codec));
    assert_eq!(EchoPayload::decode(&[1, 2, 3]), Err(Error::Codec));

    let bare = EchoPayload::decode(&[0, 0, 0, 5]).unwrap();
    assert_eq!(bare, EchoPayload { seq: 5, msg: vec![] });
}

#[test]
fn raw_bytes_codec_round_trip() {
    let payload: Vec<u8> = vec![5, 4, 3, 2, 1];
    assert_eq!(payload.size(), 5);
    assert_eq!(payload.encode().unwrap(), payload);
    assert_eq!(<Vec<u8>>::decode(&payload).unwrap(), payload);

    let msg = Message::new_request(7, payload.clone()).unwrap();
    let mut wire = vec![];
    msg.write_to(&mut wire);
    let back = Message::<Vec<u8>>::read_from(&mut ByteReader::new(wire)).unwrap();
    assert_eq!(back.header.stream_id, 7);
    assert_eq!(back.payload, payload);
}

#[test]
fn new_request_rejects_oversize_payload() {
    let big = EchoPayload { seq: 1, msg: vec![0; MESSAGE_LENGTH_MAX] };
    assert_eq!(Message::new_request(1, big), Err(Error::Others));

    let fits = EchoPayload { seq: 1, msg: vec![0; MESSAGE_LENGTH_MAX - 4] };
    let m = Message::new_request(1, fits).unwrap();
    assert_eq!(m.header.length as usize, MESSAGE_LENGTH_MAX);
}

#[test]
fn message_short_read_is_a_socket_error() {
    let mut buf = MessageHeader::new_request(1, 50).to_bytes();
    buf.extend_from_slice(&[0; 10]);
    let r = Message::<EchoPayload>::read_from(&mut ByteReader::new(buf));
    assert_eq!(r, Err(Error::Socket));
}
