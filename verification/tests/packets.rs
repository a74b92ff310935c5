use allocation_catcher::client::compose_packet;
use allocation_catcher::framing::{
    decode_frame, decode_length, encode_frame, encode_length, HEADER_LEN, MAX_PAYLOAD_LEN,
};
use allocation_catcher::packet::{split_packet, PacketError, PacketId, TryFromPrimitiveError};
use bytes::Bytes;

#[test]
fn length_is_written_most_significant_byte_first() {
    assert_eq!(encode_length(0), [0, 0, 0, 0]);
    assert_eq!(encode_length(1), [0, 0, 0, 1]);
    assert_eq!(encode_length(0x0102_0304), [1, 2, 3, 4]);
    assert_eq!(encode_length(0xDEAD_BEEF), [0xDE, 0xAD, 0xBE, 0xEF]);
    assert_eq!(encode_length(u32::MAX), [0xFF, 0xFF, 0xFF, 0xFF]);
    assert_eq!(encode_length(0x0102_0304), 0x0102_0304u32.to_be_bytes());
}

#[test]
fn length_is_read_most_significant_byte_first() {
    assert_eq!(decode_length(&[0, 0, 0, 0]), 0);
    assert_eq!(decode_length(&[0, 0, 1, 0]), 256);
    assert_eq!(decode_length(&[1, 2, 3, 4]), 0x0102_0304);
    assert_eq!(decode_length(&[0xFF, 0xFF, 0xFF, 0xFF]), u32::MAX);
    assert_eq!(decode_length(&[0xDE, 0xAD, 0xBE, 0xEF]), u32::from_be_bytes([0xDE, 0xAD, 0xBE, 0xEF]));
}

#[test]
fn frame_is_header_then_payload() {
    assert_eq!(HEADER_LEN, 4);
    assert_eq!(MAX_PAYLOAD_LEN, 0xFFFF_FFFF);
    assert_eq!(encode_frame(&[0x01, 0xAA, 0xBB]), vec![0, 0, 0, 3, 0x01, 0xAA, 0xBB]);
    assert_eq!(encode_frame(&[]), vec![0, 0, 0, 0]);
    let long = vec![7u8; 300];
    let frame = encode_frame(&long);
    assert_eq!(&frame[..4], &[0, 0, 1, 44]);
    assert_eq!(&frame[4..], &long[..]);
}

#[test]
fn frame_round_trip() {
    for len in [0usize, 1, 2, 255, 256, 1000, 70_000] {
        let payload: Vec<u8> = (0..len).map(|i| (i % 251) as u8).collect();
        let frame = encode_frame(&payload);
        assert_eq!(decode_frame(&frame), Some((payload.clone(), len + 4)));
        let mut wire = frame.clone();
        wire.extend_from_slice(&[9, 9, 9]);
        assert_eq!(decode_frame(&wire), Some((payload, len + 4)));
    }
}

#[test]
fn short_read_gives_no_frame() {
    assert_eq!(decode_frame(&[]), None);
    assert_eq!(decode_frame(&[0, 0, 0]), None);
    assert_eq!(decode_frame(&[0, 0, 0, 2, 1]), None);
    let frame = encode_frame(&[1, 2, 3, 4, 5]);
    for cut in 0..frame.len() {
        assert_eq!(decode_frame(&frame[..cut]), None);
    }
    assert_eq!(decode_frame(&[0xFF, 0xFF, 0xFF, 0xFF, 1, 2, 3]), None);
}

#[test]
fn empty_payload_is_a_frame() {
    assert_eq!(decode_frame(&[0, 0, 0, 0]), Some((vec![], 4)));
    assert_eq!(decode_frame(&[0, 0, 0, 0, 5]), Some((vec![], 4)));
}

#[test]
fn packet_ids_are_the_bytes_one_to_seven() {
    let all = [
        (1u8, PacketId::Ping),
        (2, PacketId::SetConfiguration),
        (3, PacketId::GetConfiguration),
        (4, PacketId::ClearStorage),
        (5, PacketId::Find),
        (6, PacketId::GetStatistics),
        (7, PacketId::ResetStatistics),
    ];
    for (number, id) in all {
        assert_eq!(PacketId::try_from_primitive(number), Ok(id));
        assert_eq!(id.number(), number);
    }
}

#[test]
fn unknown_packet_ids_are_refused() {
    assert_eq!(PacketId::try_from_primitive(0), Err(TryFromPrimitiveError { number: 0 }));
    assert_eq!(PacketId::try_from_primitive(8), Err(TryFromPrimitiveError { number: 8 }));
    assert_eq!(PacketId::try_from_primitive(255), Err(TryFromPrimitiveError { number: 255 }));
    for number in 8..=255u8 {
        assert!(PacketId::try_from_primitive(number).is_err());
    }
}

#[test]
fn packet_splits_into_id_and_payload() {
    let (id, payload) = split_packet(Bytes::from(vec![1u8, 0xDE, 0xAD])).expect("ping packet");
    assert_eq!(id, PacketId::Ping);
    assert_eq!(&payload[..], &[0xDE, 0xAD]);

    let (id, payload) = split_packet(Bytes::from(vec![7u8])).expect("bare packet");
    assert_eq!(id, PacketId::ResetStatistics);
    assert!(payload.is_empty());
}

#[test]
fn packet_without_a_known_id_is_refused() {
    assert_eq!(split_packet(Bytes::new()).unwrap_err(), PacketError::Empty);
    assert_eq!(
        split_packet(Bytes::from(vec![0u8, 1, 2])).unwrap_err(),
        PacketError::UnknownPacketId(0)
    );
    assert_eq!(
        split_packet(Bytes::from(vec![8u8])).unwrap_err(),
        PacketError::UnknownPacketId(8)
    );
}

#[test]
fn packet_is_composed_of_id_and_payload() {
    let packet = compose_packet(PacketId::Find, Bytes::from(vec![0xAAu8, 0xBB])).expect("short");
    assert_eq!(&packet[..], &[5, 0xAA, 0xBB]);
    let packet = compose_packet(PacketId::Ping, Bytes::new()).expect("short");
    assert_eq!(&packet[..], &[1]);
}

#[test]
fn composed_packet_splits_back() {
    let payload = vec![3u8, 1, 4, 1, 5, 9, 2, 6];
    let packet = compose_packet(PacketId::GetStatistics, Bytes::from(payload.clone())).unwrap();
    let (id, rest) = split_packet(packet).unwrap();
    assert_eq!(id, PacketId::GetStatistics);
    assert_eq!(&rest[..], &payload[..]);
}
