use hslink::codec::MAX_REPORT_SIZE;
use hslink::error::HSLinkError;
use hslink::session::{hslink_list_device, hslink_open_device, open_session, hslink_write, hslink_write_wait_rsp, interpret_response, read_wait_ms, Session};

#[test]
fn response_ok_text() {
    let mut raw = vec![0x02, 0x4F, 0x4B, 0x00];
    raw.resize(64, 0xAA);
    assert_eq!(interpret_response(&raw), Ok("OK".to_string()));
}

#[test]
fn response_without_terminator() {
    assert_eq!(interpret_response(&[0x02, b'h', b'i']), Ok("hi".to_string()));
}

#[test]
fn response_utf8_text() {
    let raw = [0x02, 0xC3, 0xA9, 0x00];
    assert_eq!(interpret_response(&raw), Ok("\u{e9}".to_string()));
}

#[test]
fn response_empty_read_is_read_error() {
    assert_eq!(interpret_response(&[]), Err(HSLinkError::ReadErr));
}

#[test]
fn response_foreign_report_id() {
    assert_eq!(interpret_response(&[0x01, 0x4F, 0x4B, 0x00]), Err(HSLinkError::RspErr));
    assert_eq!(interpret_response(&[0x00, 0x00]), Err(HSLinkError::RspErr));
}

#[test]
fn response_not_text() {
    assert_eq!(interpret_response(&[0x02, 0xFF, 0xFE, 0x00]), Err(HSLinkError::EncodingErr));
}

#[test]
fn wait_is_bounded() {
    assert_eq!(read_wait_ms(0), 0);
    assert_eq!(read_wait_ms(1500), 1500);
    assert_eq!(read_wait_ms(i32::MAX as u32), i32::MAX);
    assert_eq!(read_wait_ms(u32::MAX), i32::MAX);
}

#[test]
fn closed_session_refuses_transport() {
    // Only where the host lets hidapi start; no probe is attached here.
    if let Ok(api) = hidapi::HidApi::new() {
        let mut s = Session::new(api);
        assert_eq!(s.bound_serial(), None);
        assert_eq!(hslink_write(&s, vec![0x10, 0x20]), Err(HSLinkError::DeviceNotOpened));
        assert_eq!(
            hslink_write_wait_rsp(&s, vec![0x10], 10),
            Err(HSLinkError::DeviceNotOpened)
        );
        assert_eq!(hslink_open_device(&mut s, "ZZZ".to_string()), Err(HSLinkError::DeviceNotFound));
        assert_eq!(s.bound_serial(), None);
        assert_eq!(open_session(&mut s, &"ZZZ".to_string()), Err(HSLinkError::DeviceNotFound));
        assert!(!hslink_list_device(&mut s).contains(&"ZZZ".to_string()));
        s.close();
        assert_eq!(s.bound_serial(), None);
        assert_eq!(
            hslink_write(&s, vec![0u8; MAX_REPORT_SIZE]),
            Err(HSLinkError::DeviceNotOpened)
        );
    }
}
