//! What the library relies on from the `hidapi` crate.
use vstd::prelude::*;

verus! {

/// The hidapi context, which caches the list of attached devices.
#[verifier::external_type_specification]
#[verifier::external_body]
pub struct ExHidApi(hidapi::HidApi);

/// An open connection to one HID device.
#[verifier::external_type_specification]
#[verifier::external_body]
pub struct ExHidDevice(hidapi::HidDevice);

/// One entry of the cached device list.
#[verifier::external_type_specification]
#[verifier::external_body]
pub struct ExDeviceInfo(hidapi::DeviceInfo);

/// The error type of every fallible hidapi call.
#[verifier::external_type_specification]
#[verifier::external_body]
pub struct ExHidError(hidapi::HidError);

/// Relies on `HidApi::refresh_devices`: re-enumerates the bus into the
/// context's cache. What it finds depends on the bus, so nothing is promised.
pub assume_specification[ hidapi::HidApi::refresh_devices ](api: &mut hidapi::HidApi) -> Result<
    (),
    hidapi::HidError,
>;

/// Relies on `HidApi::open_serial`: opens the device with the given
/// vendor id, product id and serial number, if the bus has it.
pub assume_specification[ hidapi::HidApi::open_serial ](
    api: &hidapi::HidApi,
    vid: u16,
    pid: u16,
    sn: &str,
) -> Result<hidapi::HidDevice, hidapi::HidError>;

/// Relies on `DeviceInfo::vendor_id`.
pub assume_specification[ hidapi::DeviceInfo::vendor_id ](info: &hidapi::DeviceInfo) -> u16;

/// Relies on `DeviceInfo::product_id`.
pub assume_specification[ hidapi::DeviceInfo::product_id ](info: &hidapi::DeviceInfo) -> u16;

/// Relies on `DeviceInfo::serial_number`: the serial number, where it could
/// be read as text.
pub assume_specification<'a>[ hidapi::DeviceInfo::serial_number ](
    info: &'a hidapi::DeviceInfo,
) -> Option<&'a str>;

/// Relies on `DeviceInfo::manufacturer_string`: the manufacturer, where it
/// could be read as text.
pub assume_specification<'a>[ hidapi::DeviceInfo::manufacturer_string ](
    info: &'a hidapi::DeviceInfo,
) -> Option<&'a str>;

/// Relies on `DeviceInfo::open_device`: opens the device that the entry
/// describes, by its path.
pub assume_specification[ hidapi::DeviceInfo::open_device ](
    info: &hidapi::DeviceInfo,
    api: &hidapi::HidApi,
) -> Result<hidapi::HidDevice, hidapi::HidError>;

/// Relies on `HidDevice::write`: sends one output report, whose first byte
/// is its report id.
pub assume_specification[ hidapi::HidDevice::write ](dev: &hidapi::HidDevice, data: &[u8]) -> Result<
    usize,
    hidapi::HidError,
>;

/// Relies on `HidDevice::read_timeout`: waits at most `timeout`
/// milliseconds for one input report, and returns how many bytes of `buf`
/// it filled (zero when the wait expired).
pub assume_specification[ hidapi::HidDevice::read_timeout ](
    dev: &hidapi::HidDevice,
    buf: &mut [u8],
    timeout: i32,
) -> (r: Result<usize, hidapi::HidError>)
    ensures
        final(buf)@.len() == old(buf)@.len(),
        r is Ok ==> r->Ok_0 <= old(buf)@.len(),
;

/// Relies on `HidApi::device_list`: a copy of the entries cached by the
/// last enumeration.
#[verifier::external_body]
pub(crate) fn cached_devices(api: &hidapi::HidApi) -> Vec<hidapi::DeviceInfo> {
    api.device_list().cloned().collect()
}

/// What `String::from_utf8` yields on the bytes `b`: the text they encode,
/// or `None` where they are not UTF-8.
pub uninterp spec fn utf8_text(b: Seq<u8>) -> Option<Seq<char>>;

/// Whether every byte of `b` is ASCII.
pub open spec fn all_ascii(b: Seq<u8>) -> bool {
    forall|i: int| 0 <= i < b.len() ==> b[i] < 128
}

/// Relies on `String::from_utf8`: decodes UTF-8, and ASCII bytes are the
/// characters of the same code.
#[verifier::external_body]
pub(crate) fn text_from_utf8(bytes: Vec<u8>) -> (r: Option<String>)
    ensures
        r is Some <==> utf8_text(bytes@) is Some,
        r is Some ==> utf8_text(bytes@) == Some(r->Some_0@),
        all_ascii(bytes@) ==> r is Some && r->Some_0@ == bytes@.map_values(|x: u8| x as char),
{
    String::from_utf8(bytes).ok()
}

} // verus!
