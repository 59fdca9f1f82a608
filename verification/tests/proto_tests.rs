use ttrpc::{
    check_oversize, Code, Error, MessageHeader, Status, MESSAGE_HEADER_LENGTH,
    MESSAGE_LENGTH_MAX, MESSAGE_TYPE_REQUEST, MESSAGE_TYPE_RESPONSE,
};

const MESSAGE_HEADER: [u8; MESSAGE_HEADER_LENGTH] = [
    0x10, 0x0, 0x0, 0x0, // length
    0x0, 0x0, 0x0, 0x03, // stream_id
    0x2,  // type_
    0xef, // flags
];

const TEST_PAYLOAD_LEN: usize = 67;

const PROTOBUF_MESSAGE_HEADER: [u8; MESSAGE_HEADER_LENGTH] = [
    0x00, 0x0, 0x0, TEST_PAYLOAD_LEN as u8, // length
    0x0, 0x12, 0x34, 0x56, // stream_id
    0x1,  // type_
    0xef, // flags
];

#[test]
fn message_header() {
    let mh = MessageHeader::from_bytes(&MESSAGE_HEADER);
    assert_eq!(mh.length, 0x1000_0000);
    assert_eq!(mh.stream_id, 0x3);
    assert_eq!(mh.type_, MESSAGE_TYPE_RESPONSE);
    assert_eq!(mh.flags, 0xef);

    let buf2 = mh.to_bytes();
    assert_eq!(&MESSAGE_HEADER, &buf2[..]);

    let mh = MessageHeader::from_bytes(&PROTOBUF_MESSAGE_HEADER);
    assert_eq!(mh.length as usize, TEST_PAYLOAD_LEN);
}

#[test]
fn header_encode_decode_round_trip() {
    let headers = [
        MessageHeader { length: 0, stream_id: 0, type_: 0, flags: 0 },
        MessageHeader { length: 0xdead_beef, stream_id: 0x0102_0304, type_: 0x3, flags: 0x7 },
        MessageHeader { length: u32::MAX, stream_id: u32::MAX, type_: u8::MAX, flags: u8::MAX },
        MessageHeader::new_request(0x123456, 67),
    ];
    for h in headers {
        let bytes = h.to_bytes();
        assert_eq!(bytes.len(), MESSAGE_HEADER_LENGTH);
        assert_eq!(MessageHeader::from_bytes(&bytes), h);
    }
}

#[test]
fn header_constructors_and_flags() {
    let mut h = MessageHeader::new_response(9, 100);
    assert_eq!(h.type_, MESSAGE_TYPE_RESPONSE);
    assert_eq!(h.length, 100);
    assert_eq!(h.stream_id, 9);
    assert_eq!(h.flags, 0);

    let r = MessageHeader::new_request(1, 2);
    assert_eq!(r.type_, MESSAGE_TYPE_REQUEST);

    h.set_stream_id(0x123456);
    assert_eq!(h.stream_id, 0x123456);
    h.set_flags(0xe0);
    assert_eq!(h.flags, 0xe0);
    h.add_flags(0x0f);
    assert_eq!(h.flags, 0xef);
}

#[test]
fn oversize_check_boundaries() {
    assert!(check_oversize(0, true).is_ok());
    assert!(check_oversize(MESSAGE_LENGTH_MAX, true).is_ok());
    assert_eq!(
        check_oversize(MESSAGE_LENGTH_MAX + 1, true),
        Err(Error::RpcStatus(Status { code: Code::INVALID_ARGUMENT }))
    );
    assert_eq!(check_oversize(MESSAGE_LENGTH_MAX + 1, false), Err(Error::Others));
}
