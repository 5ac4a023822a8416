//! The session manager and the transport built on it: at most one open
//! probe, and framed request/response exchanges with it.
use vstd::prelude::*;
use crate::codec::{decode, decoded, encode, fits, MAX_REPORT_SIZE, UP_REPORT_ID};
use crate::directory::{describe_all, matching_serials, select_device, PROBE_PRODUCT_ID, PROBE_VENDOR_ID};
use crate::error::HSLinkError;
use crate::hid::{cached_devices, text_from_utf8, utf8_text};

verus! {

/// The single open-device binding: the hidapi context, and the open device
/// together with the serial number it was opened under, or neither.
pub struct Session {
    api: hidapi::HidApi,
    handle: Option<hidapi::HidDevice>,
    bound_serial: Option<String>,
}

impl Session {
    /// A device is held exactly when a serial number is bound.
    pub closed spec fn wf(&self) -> bool {
        self.handle is Some <==> self.bound_serial is Some
    }

    /// The serial number of the open device, if any.
    pub closed spec fn bound(&self) -> Option<Seq<char>> {
        match self.bound_serial {
            Some(s) => Some(s@),
            None => None,
        }
    }

    /// A closed session over the hidapi context `api`.
    pub fn new(api: hidapi::HidApi) -> (s: Session)
        ensures
            s.wf(),
            s.bound() is None,
    {
        Session { api, handle: None, bound_serial: None }
    }

    /// The serial number of the open device, if any.
    pub fn bound_serial(&self) -> (r: Option<String>)
        ensures
            r is Some <==> self.bound() is Some,
            r is Some ==> self.bound() == Some(r->Some_0@),
    {
        match &self.bound_serial {
            Some(s) => Some(s.clone()),
            None => None,
        }
    }

    /// Releases the open device, if any. Closing a closed session does nothing.
    pub fn close(&mut self)
        ensures
            final(self).wf(),
            final(self).bound() is None,
    {
        self.handle = None;
        self.bound_serial = None;
    }
}

/// What a response report `raw` yields: a read error for an empty read, a
/// response error for a foreign report id, else the payload as text.
pub open spec fn response_of(raw: Seq<u8>) -> Result<Seq<char>, HSLinkError> {
    if raw.len() == 0 {
        Err(HSLinkError::ReadErr)
    } else if raw[0] != UP_REPORT_ID {
        Err(HSLinkError::RspErr)
    } else {
        match utf8_text(decoded(raw)->Some_0) {
            Some(t) => Ok(t),
            None => Err(HSLinkError::EncodingErr),
        }
    }
}

/// The view of a text result.
pub open spec fn text_result(r: Result<String, HSLinkError>) -> Result<Seq<char>, HSLinkError> {
    match r {
        Ok(s) => Ok(s@),
        Err(e) => Err(e),
    }
}

/// Interprets the bytes that one read of a response returned.
pub fn interpret_response(raw: &[u8]) -> (r: Result<String, HSLinkError>)
    ensures
        text_result(r) == response_of(raw@),
{
    if raw.len() == 0 {
        return Err(HSLinkError::ReadErr);
    }
    match decode(raw) {
        Err(_) => Err(HSLinkError::RspErr),
        Ok(payload) => match text_from_utf8(payload) {
            Some(t) => Ok(t),
            None => Err(HSLinkError::EncodingErr),
        },
    }
}

/// The wait handed to the device read for a timeout of `timeout_ms`
/// milliseconds: the same wait, capped at the largest the device accepts,
/// and never the negative value that would mean "wait forever".
pub fn read_wait_ms(timeout_ms: u32) -> (r: i32)
    ensures
        r >= 0,
        timeout_ms <= i32::MAX ==> r == timeout_ms,
        timeout_ms > i32::MAX ==> r == i32::MAX,
{
    if timeout_ms > i32::MAX as u32 {
        i32::MAX
    } else {
        timeout_ms as i32
    }
}

/// Lists the serial numbers of the attached probes, after re-enumerating
/// the bus. The session is left as it was.
pub fn hslink_list_device(session: &mut Session) -> (r: Vec<String>)
    requires
        old(session).wf(),
    ensures
        final(session).wf(),
        final(session).bound() == old(session).bound(),
        exists|ds: Seq<crate::directory::DeviceDescriptor>|
            r@.map_values(|s: String| s@) == crate::directory::listed_serials(ds),
{
    let _ = session.api.refresh_devices();
    let infos = cached_devices(&session.api);
    let ds = describe_all(&infos);
    let r = matching_serials(&ds);
    assert(r@.map_values(|s: String| s@) == crate::directory::listed_serials(ds@));
    r
}

/// How one `hslink_open_device` call with `target` relates the bound
/// serial number `before` it, its result `r`, and the bound serial number
/// `after` it.
pub open spec fn open_post(
    before: Option<Seq<char>>,
    target: Seq<char>,
    r: Result<Seq<char>, HSLinkError>,
    after: Option<Seq<char>>,
) -> bool {
    if before == Some(target) {
        r == Ok::<Seq<char>, HSLinkError>(target) && after == before
    } else {
        match r {
            Ok(s) => s == target && after == Some(target),
            Err(e) => {
                &&& e == HSLinkError::DeviceNotFound || e == HSLinkError::DeviceNotOpened
                &&& after == before
            },
        }
    }
}

/// Opening the same serial number twice in a row, the first time with
/// success, gives that serial number both times and keeps it bound.
pub proof fn lemma_open_twice(
    b0: Option<Seq<char>>,
    target: Seq<char>,
    r1: Result<Seq<char>, HSLinkError>,
    b1: Option<Seq<char>>,
    r2: Result<Seq<char>, HSLinkError>,
    b2: Option<Seq<char>>,
)
    requires
        open_post(b0, target, r1, b1),
        r1 is Ok,
        open_post(b1, target, r2, b2),
    ensures
        r1 == Ok::<Seq<char>, HSLinkError>(target),
        r2 == r1,
        b1 == Some(target),
        b2 == Some(target),
{
}

/// Whether `bounds[i + 1]` follows from `bounds[i]` by an open of
/// `targets[i]` with result `results[i]`, for every call in turn.
pub open spec fn serialized_opens(
    bounds: Seq<Option<Seq<char>>>,
    targets: Seq<Seq<char>>,
    results: Seq<Result<Seq<char>, HSLinkError>>,
) -> bool {
    &&& bounds.len() == targets.len() + 1
    &&& results.len() == targets.len()
    &&& forall|i: int|
        0 <= i < targets.len() ==> open_post(
            #[trigger] bounds[i],
            targets[i],
            results[i],
            bounds[i + 1],
        )
}

proof fn lemma_serialized_prefix(
    bounds: Seq<Option<Seq<char>>>,
    targets: Seq<Seq<char>>,
    results: Seq<Result<Seq<char>, HSLinkError>>,
    k: int,
)
    requires
        serialized_opens(bounds, targets, results),
        0 <= k <= targets.len(),
    ensures
        (forall|j: int| 0 <= j < k ==> (#[trigger] results[j]) is Err) ==> bounds[k] == bounds[0],
        forall|i: int|
            0 <= i < k && (#[trigger] results[i]) is Ok && (forall|j: int|
                i < j < k ==> (#[trigger] results[j]) is Err) ==> bounds[k] == Some(targets[i]),
    decreases k,
{
    if k > 0 {
        lemma_serialized_prefix(bounds, targets, results, k - 1);
        assert(open_post(bounds[k - 1], targets[k - 1], results[k - 1], bounds[k]));
    }
}

/// Opens serialized one after another leave bound exactly the serial
/// number of the last call that succeeded, or the initial binding where
/// none did: a handle is never bound under another call's serial number.
pub proof fn lemma_last_open_wins(
    bounds: Seq<Option<Seq<char>>>,
    targets: Seq<Seq<char>>,
    results: Seq<Result<Seq<char>, HSLinkError>>,
)
    requires
        serialized_opens(bounds, targets, results),
    ensures
        (forall|j: int| 0 <= j < results.len() ==> (#[trigger] results[j]) is Err) ==> bounds.last()
            == bounds[0],
        forall|i: int|
            0 <= i < results.len() && (#[trigger] results[i]) is Ok && (forall|j: int|
                i < j < results.len() ==> (#[trigger] results[j]) is Err) ==> bounds.last() == Some(
                targets[i],
            ),
{
    lemma_serialized_prefix(bounds, targets, results, targets.len() as int);
}

/// How a successful open came about.
#[derive(Debug, Clone, Copy, PartialEq, Eq, Structural)]
pub enum OpenOutcome {
    /// The probe was found on the bus and opened; it replaces any open device.
    Opened,
    /// The probe was already open and has been opened again.
    Reopened,
    /// The probe was already open, opening it again failed, and the
    /// existing handle was kept.
    Kept,
}

/// The serial-number result that an open outcome stands for.
pub open spec fn outcome_result(r: Result<OpenOutcome, HSLinkError>, target: Seq<char>) -> Result<
    Seq<char>,
    HSLinkError,
> {
    match r {
        Ok(_) => Ok(target),
        Err(e) => Err(e),
    }
}

/// Opens a session with the probe whose serial number is `serial_number`,
/// and says how.
///
/// Where that probe is already open, the device is opened again by serial
/// number; should that fail, the existing handle is kept, and either way
/// the call succeeds without re-enumerating the bus. Otherwise the bus is
/// re-enumerated, and the first probe with that serial number is opened and
/// replaces any open device: `DeviceNotFound` where there is none,
/// `DeviceNotOpened` where it could not be opened, and on either error the
/// session is left as it was.
pub fn open_session(session: &mut Session, serial_number: &String) -> (r: Result<OpenOutcome, HSLinkError>)
    requires
        old(session).wf(),
    ensures
        final(session).wf(),
        open_post(
            old(session).bound(),
            serial_number@,
            outcome_result(r, serial_number@),
            final(session).bound(),
        ),
        r is Ok ==> (r->Ok_0 == OpenOutcome::Opened <==> old(session).bound() != Some(
            serial_number@,
        )),
{
    let same = match &session.bound_serial {
        Some(b) => *b == *serial_number,
        None => false,
    };
    if same {
        return match session.api.open_serial(PROBE_VENDOR_ID, PROBE_PRODUCT_ID, serial_number.as_str()) {
            Ok(dev) => {
                session.handle = Some(dev);
                Ok(OpenOutcome::Reopened)
            },
            Err(_) => Ok(OpenOutcome::Kept),
        };
    }
    let _ = session.api.refresh_devices();
    let infos = cached_devices(&session.api);
    let ds = describe_all(&infos);
    match select_device(&ds, serial_number) {
        Err(e) => Err(e),
        Ok(i) => match infos[i].open_device(&session.api) {
            Ok(dev) => {
                session.handle = Some(dev);
                session.bound_serial = Some(serial_number.clone());
                Ok(OpenOutcome::Opened)
            },
            Err(_) => Err(HSLinkError::DeviceNotOpened),
        },
    }
}

/// Opens a session with the probe whose serial number is `serial_number`,
/// as `open_session` does, and returns that serial number on success.
pub fn hslink_open_device(session: &mut Session, serial_number: String) -> (r: Result<String, HSLinkError>)
    requires
        old(session).wf(),
    ensures
        final(session).wf(),
        open_post(old(session).bound(), serial_number@, text_result(r), final(session).bound()),
{
    match open_session(session, &serial_number) {
        Ok(_) => Ok(serial_number),
        Err(e) => Err(e),
    }
}

/// Frames `data` and sends it to the open device.
pub fn hslink_write(session: &Session, data: Vec<u8>) -> (r: Result<(), HSLinkError>)
    requires
        session.wf(),
    ensures
        session.bound() is None ==> r == Err::<(), HSLinkError>(HSLinkError::DeviceNotOpened),
        session.bound() is Some && !fits(data@) ==> r == Err::<(), HSLinkError>(
            HSLinkError::FrameTooLarge,
        ),
        session.bound() is Some && fits(data@) ==> r is Ok || r == Err::<(), HSLinkError>(
            HSLinkError::WriteErr,
        ),
{
    match &session.handle {
        None => Err(HSLinkError::DeviceNotOpened),
        Some(dev) => match encode(data.as_slice()) {
            Err(_) => Err(HSLinkError::FrameTooLarge),
            Ok(frame) => match dev.write(frame.as_slice()) {
                Ok(_) => Ok(()),
                Err(_) => Err(HSLinkError::WriteErr),
            },
        },
    }
}

/// Sends `data` as `hslink_write` does, then waits at most `timeout`
/// milliseconds for one response report and returns its payload as text.
/// An expired wait is a `ReadErr`. Nothing is retried.
pub fn hslink_write_wait_rsp(session: &Session, data: Vec<u8>, timeout: u32) -> (r: Result<
    String,
    HSLinkError,
>)
    requires
        session.wf(),
    ensures
        session.bound() is None ==> r == Err::<String, HSLinkError>(HSLinkError::DeviceNotOpened),
        session.bound() is Some && !fits(data@) ==> r == Err::<String, HSLinkError>(
            HSLinkError::FrameTooLarge,
        ),
        session.bound() is Some && fits(data@) ==> {
            ||| r == Err::<String, HSLinkError>(HSLinkError::WriteErr)
            ||| r == Err::<String, HSLinkError>(HSLinkError::ReadErr)
            ||| exists|raw: Seq<u8>|
                raw.len() <= MAX_REPORT_SIZE && #[trigger] response_of(raw) == text_result(r)
        },
{
    match hslink_write(session, data) {
        Err(e) => {
            return Err(e);
        },
        Ok(()) => {},
    }
    let dev = match &session.handle {
        Some(dev) => dev,
        None => {
            return Err(HSLinkError::DeviceNotOpened);
        },
    };
    let mut buf: Vec<u8> = Vec::new();
    let mut i: usize = 0;
    while i < MAX_REPORT_SIZE
        invariant
            i <= MAX_REPORT_SIZE,
            buf@.len() == i,
        decreases MAX_REPORT_SIZE - i,
    {
        buf.push(0u8);
        i = i + 1;
    }
    let read = dev.read_timeout(buf.as_mut_slice(), read_wait_ms(timeout));
    match read {
        Err(_) => Err(HSLinkError::ReadErr),
        Ok(n) => {
            buf.truncate(n);
            let r = interpret_response(buf.as_slice());
            assert(response_of(buf@) == text_result(r));
            r
        },
    }
}

} // verus!
