//! The device directory: which enumerated HID devices are probes, and which
//! serial numbers they expose.
use vstd::prelude::*;
use crate::error::HSLinkError;

verus! {

/// Vendor id of the probe.
pub const PROBE_VENDOR_ID: u16 = 0x0D28;

/// Product id of the probe.
pub const PROBE_PRODUCT_ID: u16 = 0x0204;

/// What the directory reads of one enumerated HID device.
#[derive(Debug)]
pub struct DeviceDescriptor {
    pub vendor_id: u16,
    pub product_id: u16,
    /// The manufacturer string, where the device reports one.
    pub manufacturer: Option<String>,
    /// The serial number, where the device reports one.
    pub serial: Option<String>,
}

/// The manufacturer string of the probe.
pub open spec fn probe_manufacturer() -> Seq<char> {
    seq!['C', 'h', 'e', 'r', 'r', 'y', 'U', 'S', 'B']
}

/// Whether `d` carries the probe's identity: vendor id, product id and,
/// where one is reported, the manufacturer string.
pub open spec fn is_probe(d: DeviceDescriptor) -> bool {
    &&& d.vendor_id == PROBE_VENDOR_ID
    &&& d.product_id == PROBE_PRODUCT_ID
    &&& match d.manufacturer {
        None => true,
        Some(m) => m@ == probe_manufacturer(),
    }
}

/// Whether `d` is a probe with serial number `serial`.
pub open spec fn targets(d: DeviceDescriptor, serial: Seq<char>) -> bool {
    is_probe(d) && d.serial is Some && d.serial->Some_0@ == serial
}

/// The serial numbers of the probes in `ds`, in order; probes without a
/// serial number are left out.
pub open spec fn listed_serials(ds: Seq<DeviceDescriptor>) -> Seq<Seq<char>>
    decreases ds.len(),
{
    if ds.len() == 0 {
        Seq::empty()
    } else {
        let rest = listed_serials(ds.drop_last());
        let d = ds.last();
        if is_probe(d) && d.serial is Some {
            rest.push(d.serial->Some_0@)
        } else {
            rest
        }
    }
}

/// Whether `m` is the probe's manufacturer string.
fn is_probe_manufacturer(m: &String) -> (r: bool)
    ensures
        r == (m@ == probe_manufacturer()),
{
    let expected = String::from_str("CherryUSB");
    proof {
        reveal_strlit("CherryUSB");
        assert(expected@ =~= probe_manufacturer());
    }
    *m == expected
}

/// Whether `d` carries the probe's identity.
pub fn matches_probe(d: &DeviceDescriptor) -> (r: bool)
    ensures
        r == is_probe(*d),
{
    if d.vendor_id != PROBE_VENDOR_ID || d.product_id != PROBE_PRODUCT_ID {
        return false;
    }
    match &d.manufacturer {
        None => true,
        Some(m) => is_probe_manufacturer(m),
    }
}

/// The serial numbers of the probes among `ds`, in enumeration order.
pub fn matching_serials(ds: &Vec<DeviceDescriptor>) -> (r: Vec<String>)
    ensures
        r@.map_values(|s: String| s@) == listed_serials(ds@),
{
    let mut out: Vec<String> = Vec::new();
    let mut i: usize = 0;
    while i < ds.len()
        invariant
            i <= ds.len(),
            out@.map_values(|s: String| s@) == listed_serials(ds@.subrange(0, i as int)),
        decreases ds.len() - i,
    {
        let d = &ds[i];
        proof {
            assert(ds@.subrange(0, i + 1).drop_last() == ds@.subrange(0, i as int));
            assert(ds@.subrange(0, i + 1).last() == ds@[i as int]);
        }
        if matches_probe(d) {
            match &d.serial {
                Some(s) => {
                    out.push(s.clone());
                    proof {
                        assert(out@.map_values(|s: String| s@) =~= listed_serials(
                            ds@.subrange(0, i as int),
                        ).push(s@));
                    }
                },
                None => {},
            }
        }
        i = i + 1;
    }
    proof {
        assert(ds@.subrange(0, ds@.len() as int) == ds@);
    }
    out
}

/// The index of the first probe in `ds` whose serial number is `serial`,
/// or `DeviceNotFound` where there is none.
pub fn select_device(ds: &Vec<DeviceDescriptor>, serial: &String) -> (r: Result<usize, HSLinkError>)
    ensures
        r is Ok ==> {
            &&& r->Ok_0 < ds@.len()
            &&& targets(ds@[r->Ok_0 as int], serial@)
            &&& forall|j: int| 0 <= j < r->Ok_0 ==> !targets(#[trigger] ds@[j], serial@)
        },
        r is Err ==> r == Err::<usize, HSLinkError>(HSLinkError::DeviceNotFound),
        r is Err <==> forall|j: int| 0 <= j < ds@.len() ==> !targets(#[trigger] ds@[j], serial@),
{
    let mut i: usize = 0;
    while i < ds.len()
        invariant
            i <= ds.len(),
            forall|j: int| 0 <= j < i ==> !targets(#[trigger] ds@[j], serial@),
        decreases ds.len() - i,
    {
        let d = &ds[i];
        if matches_probe(d) {
            match &d.serial {
                Some(s) => {
                    if *s == *serial {
                        return Ok(i);
                    }
                },
                None => {},
            }
        }
        i = i + 1;
    }
    Err(HSLinkError::DeviceNotFound)
}

/// Reads the fields that the directory needs from an enumerated device.
pub(crate) fn describe(info: &hidapi::DeviceInfo) -> DeviceDescriptor {
    let manufacturer = match info.manufacturer_string() {
        Some(m) => Some(m.to_owned()),
        None => None,
    };
    let serial = match info.serial_number() {
        Some(s) => Some(s.to_owned()),
        None => None,
    };
    DeviceDescriptor { vendor_id: info.vendor_id(), product_id: info.product_id(), manufacturer, serial }
}

/// Describes every enumerated device, in order.
pub(crate) fn describe_all(infos: &Vec<hidapi::DeviceInfo>) -> (r: Vec<DeviceDescriptor>)
    ensures
        r@.len() == infos@.len(),
{
    let mut out: Vec<DeviceDescriptor> = Vec::new();
    let mut i: usize = 0;
    while i < infos.len()
        invariant
            i <= infos.len(),
            out@.len() == i,
        decreases infos.len() - i,
    {
        out.push(describe(&infos[i]));
        i = i + 1;
    }
    out
}

} // verus!
