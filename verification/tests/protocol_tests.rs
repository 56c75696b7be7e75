use bytes::{Bytes, BytesMut};
use thunder_mirror::error::Error;
use thunder_mirror::protocol::{
    Frame, FrameHeader, FrameType, FRAME_HEADER_SIZE, MAX_FRAME_PAYLOAD_SIZE, PROTOCOL_VERSION,
};

fn protocol_message(r: Result<FrameHeader, Error>) -> String {
    match r {
        Err(Error::Protocol(m)) => m,
        other => panic!("expected a protocol error, got {:?}", other),
    }
}

#[test]
fn test_frame_header_encode_decode() {
    let header = FrameHeader::new(FrameType::RawFrame, 42, 1000000, 1920, 1080, 8294400);

    let mut buf = BytesMut::new();
    header.encode(&mut buf);

    assert_eq!(buf.len(), FrameHeader::SIZE);

    let mut bytes = buf.freeze();
    let decoded = FrameHeader::decode(&mut bytes).unwrap();

    assert_eq!(decoded.version, PROTOCOL_VERSION);
    assert_eq!(decoded.frame_type, FrameType::RawFrame);
    assert_eq!(decoded.sequence, 42);
    assert_eq!(decoded.width, 1920);
    assert_eq!(decoded.height, 1080);
}

#[test]
fn test_frame_type_conversion() {
    assert_eq!(FrameType::try_from(0).unwrap(), FrameType::RawFrame);
    assert_eq!(FrameType::try_from(1).unwrap(), FrameType::H264Frame);
    assert!(FrameType::try_from(255).is_err());
}

#[test]
fn every_tag_has_its_type() {
    assert_eq!(FrameType::try_from(2).unwrap(), FrameType::Control);
    assert_eq!(FrameType::try_from(3).unwrap(), FrameType::Stats);
    assert_eq!(FrameType::RawFrame.to_u8(), 0);
    assert_eq!(FrameType::H264Frame.to_u8(), 1);
    assert_eq!(FrameType::Control.to_u8(), 2);
    assert_eq!(FrameType::Stats.to_u8(), 3);
    for tag in 4..=255u8 {
        assert!(FrameType::try_from(tag).is_err());
    }
}

#[test]
fn unknown_tag_is_named_in_the_error() {
    match FrameType::try_from(4) {
        Err(Error::Protocol(m)) => assert_eq!(m, "Unknown frame type: 4"),
        other => panic!("expected a protocol error, got {:?}", other),
    }
    match FrameType::try_from(255) {
        Err(Error::Protocol(m)) => assert_eq!(m, "Unknown frame type: 255"),
        other => panic!("expected a protocol error, got {:?}", other),
    }
}

#[test]
fn header_is_26_bytes_big_endian() {
    let header = FrameHeader::new(
        FrameType::H264Frame,
        0x0102030405060708,
        0x1112131415161718,
        0x2122,
        0x3132,
        0x41424344,
    );
    let mut buf = BytesMut::new();
    header.encode(&mut buf);
    let expected: [u8; 26] = [
        1, 1, 0x01, 0x02, 0x03, 0x04, 0x05, 0x06, 0x07, 0x08, 0x11, 0x12, 0x13, 0x14, 0x15, 0x16,
        0x17, 0x18, 0x21, 0x22, 0x31, 0x32, 0x41, 0x42, 0x43, 0x44,
    ];
    assert_eq!(&buf[..], &expected[..]);
    assert_eq!(FRAME_HEADER_SIZE, 26);
    assert_eq!(FrameHeader::SIZE, 26);
}

#[test]
fn encode_appends_to_what_is_there() {
    let header = FrameHeader::new(FrameType::Control, 1, 2, 3, 4, 5);
    let mut buf = BytesMut::new();
    buf.extend_from_slice(&[9, 9, 9]);
    header.encode(&mut buf);
    assert_eq!(buf.len(), 29);
    assert_eq!(&buf[..3], &[9, 9, 9]);
    assert_eq!(buf[3], 1);
    assert_eq!(buf[4], 2);
    assert_eq!(buf[28], 5);
}

#[test]
fn header_round_trip_on_many_values() {
    let types = [FrameType::RawFrame, FrameType::H264Frame, FrameType::Control, FrameType::Stats];
    let mut seed: u64 = 0x9E3779B97F4A7C15;
    for i in 0..200 {
        seed = seed.wrapping_mul(6364136223846793005).wrapping_add(1442695040888963407);
        let sequence = seed;
        seed = seed.wrapping_mul(6364136223846793005).wrapping_add(1442695040888963407);
        let timestamp = seed;
        seed = seed.wrapping_mul(6364136223846793005).wrapping_add(1442695040888963407);
        let width = (seed >> 48) as u16;
        let height = (seed >> 32) as u16;
        let payload_size = seed as u32;
        let header =
            FrameHeader::new(types[i % 4], sequence, timestamp, width, height, payload_size);
        let mut buf = BytesMut::new();
        header.encode(&mut buf);
        let mut bytes = buf.freeze();
        let decoded = FrameHeader::decode(&mut bytes).unwrap();
        assert_eq!(decoded, header);
        assert_eq!(bytes.len(), 0);
    }
}

#[test]
fn header_round_trip_at_the_extremes() {
    for header in [
        FrameHeader::new(FrameType::RawFrame, 0, 0, 0, 0, 0),
        FrameHeader::new(FrameType::Stats, u64::MAX, u64::MAX, u16::MAX, u16::MAX, u32::MAX),
    ] {
        let mut buf = BytesMut::new();
        header.encode(&mut buf);
        let mut bytes = buf.freeze();
        assert_eq!(FrameHeader::decode(&mut bytes).unwrap(), header);
    }
}

#[test]
fn decode_leaves_the_payload() {
    let header = FrameHeader::new(FrameType::RawFrame, 7, 8, 1, 1, 4);
    let mut buf = BytesMut::new();
    header.encode(&mut buf);
    buf.extend_from_slice(&[10, 20, 30, 40]);
    let mut bytes = buf.freeze();
    let decoded = FrameHeader::decode(&mut bytes).unwrap();
    assert_eq!(decoded.payload_size, 4);
    assert_eq!(&bytes[..], &[10, 20, 30, 40]);
}

#[test]
fn decode_does_not_hold_the_payload_size_against_the_limit() {
    let header = FrameHeader::new(FrameType::RawFrame, 7, 8, 1, 1, u32::MAX);
    let mut buf = BytesMut::new();
    header.encode(&mut buf);
    let mut bytes = buf.freeze();
    assert_eq!(FrameHeader::decode(&mut bytes).unwrap().payload_size, u32::MAX);
}

#[test]
fn short_header_is_refused_and_left() {
    let mut bytes = Bytes::from(vec![1u8; 25]);
    assert_eq!(protocol_message(FrameHeader::decode(&mut bytes)), "Header too short");
    assert_eq!(bytes.len(), 25);
    let mut empty = Bytes::new();
    assert_eq!(protocol_message(FrameHeader::decode(&mut empty)), "Header too short");
}

#[test]
fn every_other_version_is_refused() {
    for version in 0..=255u8 {
        if version == PROTOCOL_VERSION {
            continue;
        }
        let mut header = FrameHeader::new(FrameType::RawFrame, 1, 2, 3, 4, 5);
        header.version = version;
        let mut buf = BytesMut::new();
        header.encode(&mut buf);
        let mut bytes = buf.freeze();
        assert_eq!(
            protocol_message(FrameHeader::decode(&mut bytes)),
            format!("Unsupported version: {}", version)
        );
        assert_eq!(bytes.len(), 25);
    }
}

#[test]
fn every_unknown_tag_is_refused() {
    for tag in 4..=255u8 {
        let mut raw = vec![0u8; 26];
        raw[0] = 1;
        raw[1] = tag;
        let mut bytes = Bytes::from(raw);
        assert_eq!(
            protocol_message(FrameHeader::decode(&mut bytes)),
            format!("Unknown frame type: {}", tag)
        );
        assert_eq!(bytes.len(), 24);
    }
}

#[test]
fn version_is_tested_before_the_tag() {
    let mut raw = vec![0u8; 26];
    raw[0] = 2;
    raw[1] = 9;
    let mut bytes = Bytes::from(raw);
    assert_eq!(protocol_message(FrameHeader::decode(&mut bytes)), "Unsupported version: 2");
}

#[test]
fn frame_encodes_header_then_payload() {
    let header = FrameHeader::new(FrameType::RawFrame, 1, 0, 1, 1, 4);
    let frame = Frame::new(header, Bytes::from(vec![1u8, 2, 3, 4]));
    let encoded = frame.encode();
    assert_eq!(encoded.len(), 30);
    let mut head = BytesMut::new();
    header.encode(&mut head);
    assert_eq!(&encoded[..26], &head[..]);
    assert_eq!(&encoded[26..], &[1, 2, 3, 4]);
}

#[test]
fn frame_with_empty_payload_is_its_header() {
    let header = FrameHeader::new(FrameType::Stats, 1, 0, 0, 0, 0);
    let frame = Frame::new(header, Bytes::new());
    assert_eq!(frame.encode().len(), 26);
}

#[test]
fn frame_clone_keeps_header_and_payload() {
    let header = FrameHeader::new(FrameType::Control, 5, 6, 7, 8, 3);
    let frame = Frame::new(header, Bytes::from(vec![7u8, 8, 9]));
    let copy = frame.clone();
    assert_eq!(copy.header, frame.header);
    assert_eq!(copy.payload, frame.payload);
}

#[test]
fn payload_limit_is_16_mib() {
    assert_eq!(MAX_FRAME_PAYLOAD_SIZE, 16 * 1024 * 1024);
}
