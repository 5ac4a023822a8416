use hslink::codec::{decode, encode, CodecError, DOWN_REPORT_ID, MAX_REPORT_SIZE, UP_REPORT_ID};

fn echo(frame: &[u8]) -> Vec<u8> {
    let mut raw = frame.to_vec();
    raw[0] = UP_REPORT_ID;
    raw
}

#[test]
fn encode_frames_payload() {
    assert_eq!(encode(&[0x10, 0x20]), Ok(vec![0x01, 0x10, 0x20, 0x00]));
}

#[test]
fn encode_empty_payload() {
    assert_eq!(encode(&[]), Ok(vec![DOWN_REPORT_ID, 0x00]));
}

#[test]
fn encode_largest_payload_fits() {
    let p = vec![0x41u8; MAX_REPORT_SIZE - 2];
    let frame = encode(&p).unwrap();
    assert_eq!(frame.len(), MAX_REPORT_SIZE);
    assert_eq!(frame[0], DOWN_REPORT_ID);
    assert_eq!(frame[MAX_REPORT_SIZE - 1], 0);
}

#[test]
fn encode_one_byte_too_many() {
    let p = vec![0x41u8; MAX_REPORT_SIZE - 1];
    assert_eq!(encode(&p), Err(CodecError::FrameTooLarge));
}

#[test]
fn encode_far_too_large() {
    let p = vec![0x41u8; 4 * MAX_REPORT_SIZE];
    assert_eq!(encode(&p), Err(CodecError::FrameTooLarge));
}

#[test]
fn round_trip_through_echo() {
    let p: Vec<u8> = vec![b'h', b'e', b'l', b'l', b'o', 0xff, 0x01];
    let frame = encode(&p).unwrap();
    assert_eq!(decode(&echo(&frame)), Ok(p));
}

#[test]
fn round_trip_empty_payload() {
    let frame = encode(&[]).unwrap();
    assert_eq!(decode(&echo(&frame)), Ok(vec![]));
}

#[test]
fn decode_rejects_foreign_report_id() {
    assert_eq!(decode(&[0x01, 0x4F, 0x4B, 0x00]), Err(CodecError::UnexpectedReportId));
    assert_eq!(decode(&[0x00]), Err(CodecError::UnexpectedReportId));
    assert_eq!(decode(&[0xff, 0x02]), Err(CodecError::UnexpectedReportId));
}

#[test]
fn decode_empty_input() {
    assert_eq!(decode(&[]), Ok(vec![]));
}

#[test]
fn decode_stops_at_first_null() {
    assert_eq!(decode(&[0x02, 0x4F, 0x4B, 0x00, 0x55, 0x00]), Ok(vec![0x4F, 0x4B]));
}

#[test]
fn decode_without_terminator_keeps_remainder() {
    assert_eq!(decode(&[0x02, 0x61, 0x62, 0x63]), Ok(vec![0x61, 0x62, 0x63]));
}

#[test]
fn decode_report_id_only() {
    assert_eq!(decode(&[0x02]), Ok(vec![]));
    assert_eq!(decode(&[0x02, 0x00, 0x41]), Ok(vec![]));
}
