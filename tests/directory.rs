use hslink::directory::{matches_probe, matching_serials, select_device, DeviceDescriptor, PROBE_PRODUCT_ID, PROBE_VENDOR_ID};
use hslink::error::HSLinkError;

fn desc(vid: u16, pid: u16, manufacturer: Option<&str>, serial: Option<&str>) -> DeviceDescriptor {
    DeviceDescriptor {
        vendor_id: vid,
        product_id: pid,
        manufacturer: manufacturer.map(|m| m.to_string()),
        serial: serial.map(|s| s.to_string()),
    }
}

#[test]
fn identity_constants() {
    assert_eq!(PROBE_VENDOR_ID, 0x0D28);
    assert_eq!(PROBE_PRODUCT_ID, 0x0204);
}

#[test]
fn probe_identity_filter() {
    assert!(matches_probe(&desc(0x0D28, 0x0204, Some("CherryUSB"), Some("A"))));
    assert!(matches_probe(&desc(0x0D28, 0x0204, None, Some("A"))));
    assert!(!matches_probe(&desc(0x0D28, 0x0204, Some("Other"), Some("A"))));
    assert!(!matches_probe(&desc(0x0D28, 0x0205, Some("CherryUSB"), Some("A"))));
    assert!(!matches_probe(&desc(0x1234, 0x0204, Some("CherryUSB"), Some("A"))));
}

#[test]
fn lists_single_probe() {
    let ds = vec![desc(0x0D28, 0x0204, Some("CherryUSB"), Some("ABC123"))];
    assert_eq!(matching_serials(&ds), vec!["ABC123".to_string()]);
}

#[test]
fn list_filters_and_keeps_order() {
    let ds = vec![
        desc(0x0D28, 0x0204, Some("CherryUSB"), Some("B2")),
        desc(0x1234, 0x5678, Some("CherryUSB"), Some("X")),
        desc(0x0D28, 0x0204, Some("CherryUSB"), None),
        desc(0x0D28, 0x0204, Some("Acme"), Some("Y")),
        desc(0x0D28, 0x0204, None, Some("A1")),
    ];
    assert_eq!(matching_serials(&ds), vec!["B2".to_string(), "A1".to_string()]);
}

#[test]
fn list_empty_directory() {
    assert!(matching_serials(&vec![]).is_empty());
}

#[test]
fn select_existing_serial() {
    let ds = vec![
        desc(0x1234, 0x5678, None, Some("ABC123")),
        desc(0x0D28, 0x0204, Some("CherryUSB"), Some("ABC123")),
    ];
    assert_eq!(select_device(&ds, &"ABC123".to_string()), Ok(1));
}

#[test]
fn select_first_of_equal_serials() {
    let ds = vec![
        desc(0x0D28, 0x0204, Some("CherryUSB"), Some("S")),
        desc(0x0D28, 0x0204, Some("CherryUSB"), Some("S")),
    ];
    assert_eq!(select_device(&ds, &"S".to_string()), Ok(0));
}

#[test]
fn select_in_empty_directory() {
    assert_eq!(select_device(&vec![], &"ZZZ".to_string()), Err(HSLinkError::DeviceNotFound));
}

#[test]
fn select_missing_serial() {
    let ds = vec![desc(0x0D28, 0x0204, Some("CherryUSB"), Some("ABC123"))];
    assert_eq!(select_device(&ds, &"ZZZ".to_string()), Err(HSLinkError::DeviceNotFound));
}
