use ttrpc::{
    Code, Error, FdReader, FdWriter, GenMessage, GenMessageError, MessageHeader,
    MESSAGE_LENGTH_MAX, MESSAGE_TYPE_DATA,
};

fn fd_frame(stream_id: u32, payload: Vec<u8>, fds: Vec<i32>) -> GenMessage {
    let packed = (payload.len() as u32) | ((fds.len() as u32) << 24);
    let header = MessageHeader {
        length: packed,
        stream_id,
        type_: MESSAGE_TYPE_DATA,
        flags: 0,
    };
    GenMessage { header, payload, fds }
}

fn read_back(msg: &GenMessage, script: Vec<(usize, usize)>) -> Result<GenMessage, GenMessageError> {
    let mut writer = FdWriter::new();
    msg.write_to_fd(&mut writer);
    let (data, fds) = writer.into_parts();
    let mut reader = FdReader::new(data, fds, script);
    GenMessage::read_from_fd(&mut reader)
}

#[test]
fn fd_frame_round_trip_single_delivery() {
    let msg = fd_frame(3, vec![10, 20, 30, 40, 50], vec![7, 8]);
    let back = read_back(&msg, vec![]).unwrap();
    // The reader masks the descriptor count out of the length field.
    assert_eq!(back.header.length, 5);
    assert_eq!(back.header.stream_id, msg.header.stream_id);
    assert_eq!(back.header.type_, msg.header.type_);
    assert_eq!(back.header.flags, msg.header.flags);
    assert_eq!(back.payload, msg.payload);
    assert_eq!(back.fds, msg.fds);
}

#[test]
fn fd_frame_round_trip_no_descriptors() {
    let msg = fd_frame(4, vec![1, 2, 3], vec![]);
    let back = read_back(&msg, vec![]).unwrap();
    assert_eq!(back, msg);
}

#[test]
fn partial_deliveries_reconstruct_the_same_frame() {
    let msg = fd_frame(9, vec![1, 2, 3, 4, 5, 6, 7, 8], vec![11, 22, 33]);
    let whole = read_back(&msg, vec![]).unwrap();

    // Bytes and descriptors trickle in across several receive calls,
    // in several different splits; every split reconstructs the same
    // (payload, descriptor-list) pair as the one-call delivery.
    let scripts: Vec<Vec<(usize, usize)>> = vec![
        vec![(1, 0), (2, 1), (100, 100)],
        vec![(3, 3), (100, 100)],
        vec![(1, 1), (1, 1), (1, 1), (1, 0), (100, 100)],
        vec![(0, 1), (8, 0), (0, 1), (0, 1)],
    ];
    for script in scripts {
        let back = read_back(&msg, script).unwrap();
        assert_eq!(back, whole);
    }
}

#[test]
fn zero_progress_delivery_is_peer_closed() {
    let msg = fd_frame(9, vec![1, 2, 3, 4], vec![11]);
    // The second receive call yields neither bytes nor descriptors
    // while more of the frame is still expected.
    let r = read_back(&msg, vec![(2, 0), (0, 0), (100, 100)]);
    assert_eq!(r, Err(GenMessageError::InternalError(Error::PeerClosed)));
}

#[test]
fn truncated_fd_stream_is_peer_closed() {
    // The frame announces two descriptors but the peer sent only one.
    let mut writer = FdWriter::new();
    fd_frame(5, vec![1, 2], vec![42, 43]).write_to_fd(&mut writer);
    let (data, mut fds) = writer.into_parts();
    fds.pop();
    let mut reader = FdReader::new(data, fds, vec![]);
    let r = GenMessage::read_from_fd(&mut reader);
    assert_eq!(r, Err(GenMessageError::InternalError(Error::PeerClosed)));
}

#[test]
fn fd_oversize_drains_payload_but_not_descriptors() {
    let badlen = (MESSAGE_LENGTH_MAX + 1) as u32;
    let packed = badlen | (1u32 << 24);
    let header = MessageHeader { length: packed, stream_id: 2, type_: MESSAGE_TYPE_DATA, flags: 0 };
    let mut data = header.to_bytes();
    data.append(&mut vec![0x33; badlen as usize]);
    let next = fd_frame(2, vec![6, 6, 6], vec![]);
    let mut writer = FdWriter::new();
    next.write_to_fd(&mut writer);
    let (mut tail, _) = writer.into_parts();
    data.append(&mut tail);

    let mut reader = FdReader::new(data, vec![99], vec![]);
    match GenMessage::read_from_fd(&mut reader) {
        Err(GenMessageError::ReturnError(h, Error::RpcStatus(s))) => {
            assert_eq!(h.length, badlen);
            assert_eq!(h.stream_id, 2);
            assert_eq!(s.code(), Code::INVALID_ARGUMENT);
        }
        other => panic!("expected a protocol error, got {:?}", other),
    }
    // The byte stream is aligned at the next frame; the drain never
    // consumes descriptors.
    assert_eq!(reader.remaining_fds_len(), 1);
    let second = GenMessage::read_from_fd(&mut reader).unwrap();
    assert_eq!(second.header, next.header);
    assert_eq!(second.payload, next.payload);
}

#[test]
fn frame_assembly_accumulates_partial_deliveries() {
    let mut assembly = ttrpc::FrameAssembly::new(5, 2);
    assert!(!assembly.is_done());
    assert_eq!(assembly.missing_payload(), 5);
    assert_eq!(assembly.missing_fds(), 2);

    assembly.absorb(vec![1, 2], vec![]).unwrap();
    assert_eq!(assembly.missing_payload(), 3);
    assembly.absorb(vec![3, 4, 5], vec![10]).unwrap();
    assert_eq!(assembly.missing_fds(), 1);
    assert!(!assembly.is_done());
    assembly.absorb(vec![], vec![11]).unwrap();
    assert!(assembly.is_done());

    let (payload, fds) = assembly.into_parts();
    assert_eq!(payload, vec![1, 2, 3, 4, 5]);
    assert_eq!(fds, vec![10, 11]);
}

#[test]
fn frame_assembly_reports_peer_closed() {
    let mut assembly = ttrpc::FrameAssembly::new(2, 0);
    assembly.absorb(vec![1], vec![]).unwrap();
    assert_eq!(assembly.absorb(vec![], vec![]), Err(Error::PeerClosed));
}

#[test]
fn length_field_parts() {
    let packed = 300u32 | (4u32 << 24);
    assert_eq!(ttrpc::fd_count_of(packed), 4);
    assert_eq!(ttrpc::payload_len_of(packed), 300);
    assert_eq!(ttrpc::fd_count_of(300), 0);
}

#[test]
fn fd_count_is_masked_out_of_length() {
    let msg = fd_frame(1, vec![0xab; 300], vec![1, 2, 3, 4]);
    let back = read_back(&msg, vec![]).unwrap();
    // The parsed header keeps only the true payload length.
    assert_eq!(back.header.length, 300);
    assert_eq!(back.payload.len(), 300);
    assert_eq!(back.fds, vec![1, 2, 3, 4]);
}
