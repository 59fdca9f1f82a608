use ttrpc::{
    ByteRead, ByteReader, Code, Error, GenMessage, GenMessageError, MessageHeader,
    MESSAGE_HEADER_LENGTH, MESSAGE_LENGTH_MAX, MESSAGE_TYPE_DATA, MESSAGE_TYPE_REQUEST,
};

const MESSAGE_HEADER: [u8; MESSAGE_HEADER_LENGTH] = [
    0x10, 0x0, 0x0, 0x0, // length
    0x0, 0x0, 0x0, 0x03, // stream_id
    0x2,  // type_
    0xef, // flags
];

const TEST_PAYLOAD_LEN: usize = 67;

const PROTOBUF_MESSAGE_HEADER: [u8; MESSAGE_HEADER_LENGTH] = [
    0x00, 0x0, 0x0, TEST_PAYLOAD_LEN as u8, // length
    0x0, 0x12, 0x34, 0x56, // stream_id
    0x1,  // type_
    0xef, // flags
];

const PROTOBUF_REQUEST: [u8; TEST_PAYLOAD_LEN] = [
    10, 17, 103, 114, 112, 99, 46, 84, 101, 115, 116, 83, 101, 114, 118, 105, 99, 101, 115, 18, 4,
    84, 101, 115, 116, 26, 9, 1, 2, 3, 4, 5, 6, 7, 8, 9, 32, 128, 218, 196, 9, 42, 24, 10, 9, 116,
    101, 115, 116, 95, 107, 101, 121, 49, 18, 11, 116, 101, 115, 116, 95, 118, 97, 108, 117, 101,
    49,
];

fn gen_message_exercise() {
    // Test packet which exceeds maximum message size
    let mut buf = Vec::from(MESSAGE_HEADER);
    let header = MessageHeader::read_from(&mut ByteReader::new(buf.clone())).expect("read header");
    buf.append(&mut vec![0x0; header.length as usize]);

    match GenMessage::read_from(&mut ByteReader::new(buf)) {
        Err(GenMessageError::ReturnError(h, Error::RpcStatus(s))) => {
            if h != header || s.code() != Code::INVALID_ARGUMENT {
                panic!("got invalid error when the size exceeds limit");
            }
        }
        _ => {
            panic!("got invalid error when the size exceeds limit");
        }
    }

    let mut buf = Vec::from(PROTOBUF_MESSAGE_HEADER);
    buf.extend_from_slice(&PROTOBUF_REQUEST);
    buf.extend_from_slice(&[0x0, 0x0]);
    let mut reader = ByteReader::new(buf.clone());
    let gen = GenMessage::read_from(&mut reader).unwrap();
    assert_eq!(gen.header.length as usize, TEST_PAYLOAD_LEN);
    assert_eq!(gen.header.length, gen.payload.len() as u32);
    assert_eq!(gen.header.stream_id, 0x123456);
    assert_eq!(gen.header.type_, MESSAGE_TYPE_REQUEST);
    assert_eq!(gen.header.flags, 0xef);
    assert_eq!(&gen.payload, &PROTOBUF_REQUEST);
    assert_eq!(reader.remaining_len(), 2);
    assert_eq!(reader.read_exact(2).unwrap(), &[0x0, 0x0]);
    assert_eq!(
        &buf[MESSAGE_HEADER_LENGTH + TEST_PAYLOAD_LEN..],
        &[0x0, 0x0]
    );

    let mut dbuf = vec![];
    gen.write_to(&mut dbuf);
    assert_eq!(&*dbuf, &buf[..MESSAGE_HEADER_LENGTH + TEST_PAYLOAD_LEN]);
}

fn message_header_exercise() {
    let mut buf = vec![];
    let mh = MessageHeader::from_bytes(&MESSAGE_HEADER);
    mh.write_to(&mut buf);
    assert_eq!(buf, &MESSAGE_HEADER);

    let dmh = MessageHeader::read_from(&mut ByteReader::new(buf)).unwrap();
    assert_eq!(mh, dmh);
}

#[test]
fn async_proto_async_message_header() {
    message_header_exercise();
}

#[test]
fn async_normal_msg_async_message_header() {
    message_header_exercise();
}

#[test]
fn async_proto_async_gen_message() {
    gen_message_exercise();
}

#[test]
fn async_normal_msg_async_gen_message() {
    gen_message_exercise();
}

#[test]
fn oversize_frame_keeps_stream_aligned() {
    // An oversized frame, then a valid one directly behind it: the first
    // read reports INVALID_ARGUMENT, the second decodes the valid frame.
    let oversized_len = (MESSAGE_LENGTH_MAX + 1) as u32;
    let bad_header = MessageHeader::new_data(7, oversized_len);
    let mut buf = bad_header.to_bytes();
    buf.append(&mut vec![0x55; oversized_len as usize]);

    let good = GenMessage {
        header: MessageHeader::new_data(8, 4),
        payload: vec![1, 2, 3, 4],
        fds: vec![],
    };
    good.write_to(&mut buf);

    let mut reader = ByteReader::new(buf);
    match GenMessage::read_from(&mut reader) {
        Err(GenMessageError::ReturnError(h, Error::RpcStatus(s))) => {
            assert_eq!(h, bad_header);
            assert_eq!(s.code(), Code::INVALID_ARGUMENT);
        }
        other => panic!("expected a protocol error, got {:?}", other),
    }

    let second = GenMessage::read_from(&mut reader).unwrap();
    assert_eq!(second, good);
    assert_eq!(reader.remaining_len(), 0);
}

#[test]
fn gen_message_round_trip() {
    let msg = GenMessage {
        header: MessageHeader::new_data(0x42, 5),
        payload: vec![9, 8, 7, 6, 5],
        fds: vec![],
    };
    let mut wire = vec![];
    msg.write_to(&mut wire);
    assert_eq!(wire.len(), MESSAGE_HEADER_LENGTH + 5);

    let back = GenMessage::read_from(&mut ByteReader::new(wire)).unwrap();
    assert_eq!(back, msg);
}

#[test]
fn max_length_frame_round_trips() {
    // Exactly the maximum payload length is still within limits.
    let msg = GenMessage {
        header: MessageHeader::new_data(1, MESSAGE_LENGTH_MAX as u32),
        payload: vec![0x5a; MESSAGE_LENGTH_MAX],
        fds: vec![],
    };
    let mut wire = vec![];
    msg.write_to(&mut wire);
    let back = GenMessage::read_from(&mut ByteReader::new(wire)).unwrap();
    assert_eq!(back.header, msg.header);
    assert_eq!(back.payload.len(), MESSAGE_LENGTH_MAX);
    assert_eq!(back.payload, msg.payload);
}

#[test]
fn short_read_is_a_socket_error() {
    // Fewer bytes than a header.
    let r = GenMessage::read_from(&mut ByteReader::new(vec![1, 2, 3]));
    assert_eq!(r, Err(GenMessageError::InternalError(Error::Socket)));

    // A full header whose body never arrives.
    let mut buf = MessageHeader::new_data(1, 100).to_bytes();
    buf.extend_from_slice(&[0xaa; 40]);
    let r = GenMessage::read_from(&mut ByteReader::new(buf));
    assert_eq!(r, Err(GenMessageError::InternalError(Error::Socket)));

    let mh = MessageHeader::read_from(&mut ByteReader::new(vec![0; 9]));
    assert_eq!(mh, Err(Error::Socket));
}

#[test]
fn gen_message_check_rejects_oversize() {
    let mut msg = GenMessage {
        header: MessageHeader::new_data(1, 10),
        payload: vec![],
        fds: vec![],
    };
    assert!(msg.check().is_ok());
    msg.header.length = (MESSAGE_LENGTH_MAX as u32) + 1;
    assert_eq!(
        msg.check(),
        Err(Error::RpcStatus(ttrpc::Status { code: Code::INVALID_ARGUMENT }))
    );
}

#[test]
fn discard_message_body_drains_exactly() {
    let mut data = vec![0x11; 9000];
    data.extend_from_slice(&[1, 2, 3]);
    let mut reader = ByteReader::new(data);
    let header = MessageHeader::new_data(1, 9000);
    ttrpc::discard_message_body(&mut reader, &header).unwrap();
    assert_eq!(reader.remaining_len(), 3);
    assert_eq!(reader.read_exact(3).unwrap(), &[1, 2, 3]);
}
