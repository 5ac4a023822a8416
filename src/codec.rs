//! Framing of outbound HID reports and parsing of inbound ones.
use vstd::prelude::*;

verus! {

/// Report id that prefixes every report sent to the probe.
pub const DOWN_REPORT_ID: u8 = 0x01;

/// Report id that prefixes every report the probe sends back.
pub const UP_REPORT_ID: u8 = 0x02;

/// Capacity of one HID report, report id and terminator included.
pub const MAX_REPORT_SIZE: usize = 1024;

/// Errors of the report codec.
#[derive(Debug, Clone, Copy, PartialEq, Eq, Structural)]
pub enum CodecError {
    /// The framed payload would not fit into one report.
    FrameTooLarge,
    /// The inbound report does not start with the up-report id.
    UnexpectedReportId,
}

/// The outbound frame for `payload`: report id, payload, null terminator.
pub open spec fn frame_of(payload: Seq<u8>) -> Seq<u8> {
    seq![DOWN_REPORT_ID] + payload + seq![0u8]
}

/// Whether `payload` fits into one report once framed.
pub open spec fn fits(payload: Seq<u8>) -> bool {
    payload.len() + 2 <= MAX_REPORT_SIZE
}

/// Whether `payload` holds no null byte.
pub open spec fn null_free(payload: Seq<u8>) -> bool {
    forall|i: int| 0 <= i < payload.len() ==> payload[i] != 0
}

/// The first index at or after `i` that holds a null byte, or the length of `raw`.
pub open spec fn scan_end(raw: Seq<u8>, i: int) -> int
    decreases raw.len() - i,
{
    if i < 0 || i >= raw.len() || raw[i] == 0 {
        if i < 0 { 0 } else if i >= raw.len() { raw.len() as int } else { i }
    } else {
        scan_end(raw, i + 1)
    }
}

/// What `decode` yields on `raw`: `None` for a foreign report id, else the
/// bytes between the report id and the first null byte (or the end).
pub open spec fn decoded(raw: Seq<u8>) -> Option<Seq<u8>> {
    if raw.len() == 0 {
        Some(Seq::empty())
    } else if raw[0] != UP_REPORT_ID {
        None
    } else {
        Some(raw.subrange(1, scan_end(raw, 1)))
    }
}

/// The report a device sends back when it echoes `frame` under the up-report id.
pub open spec fn echoed(frame: Seq<u8>) -> Seq<u8> {
    if frame.len() == 0 {
        frame
    } else {
        seq![UP_REPORT_ID] + frame.subrange(1, frame.len() as int)
    }
}

/// `scan_end` stops at the first null byte at or after `i`.
pub proof fn lemma_scan_end(raw: Seq<u8>, i: int, k: int)
    requires
        0 <= i <= k <= raw.len(),
        forall|j: int| i <= j < k ==> raw[j] != 0,
        k == raw.len() || raw[k] == 0,
    ensures
        scan_end(raw, i) == k,
    decreases k - i,
{
    if i < k {
        lemma_scan_end(raw, i + 1, k);
    }
}

/// Frames `payload` as an outbound report.
pub fn encode(payload: &[u8]) -> (r: Result<Vec<u8>, CodecError>)
    ensures
        fits(payload@) ==> r is Ok && r->Ok_0@ == frame_of(payload@),
        !fits(payload@) ==> r == Err::<Vec<u8>, CodecError>(CodecError::FrameTooLarge),
{
    if payload.len() > MAX_REPORT_SIZE - 2 {
        return Err(CodecError::FrameTooLarge);
    }
    let mut out: Vec<u8> = Vec::new();
    out.push(DOWN_REPORT_ID);
    let mut i: usize = 0;
    while i < payload.len()
        invariant
            i <= payload.len(),
            out@ == seq![DOWN_REPORT_ID] + payload@.subrange(0, i as int),
        decreases payload.len() - i,
    {
        out.push(payload[i]);
        proof {
            assert(payload@.subrange(0, i + 1) == payload@.subrange(0, i as int).push(payload@[i as int]));
        }
        i = i + 1;
    }
    out.push(0u8);
    proof {
        assert(payload@.subrange(0, payload@.len() as int) == payload@);
    }
    Ok(out)
}

/// Parses an inbound report into its payload.
pub fn decode(raw: &[u8]) -> (r: Result<Vec<u8>, CodecError>)
    ensures
        r is Err <==> decoded(raw@) is None,
        r is Err ==> r->Err_0 == CodecError::UnexpectedReportId,
        r is Ok ==> decoded(raw@) == Some(r->Ok_0@),
        raw@.len() > 0 && raw@[0] != UP_REPORT_ID ==> r == Err::<Vec<u8>, CodecError>(
            CodecError::UnexpectedReportId,
        ),
{
    let mut out: Vec<u8> = Vec::new();
    if raw.len() == 0 {
        proof {
            assert(out@ == Seq::<u8>::empty());
        }
        return Ok(out);
    }
    if raw[0] != UP_REPORT_ID {
        return Err(CodecError::UnexpectedReportId);
    }
    let mut i: usize = 1;
    while i < raw.len() && raw[i] != 0
        invariant
            1 <= i <= raw.len(),
            forall|j: int| 1 <= j < i ==> raw@[j] != 0,
            out@ == raw@.subrange(1, i as int),
        decreases raw.len() - i,
    {
        out.push(raw[i]);
        proof {
            assert(raw@.subrange(1, i + 1) == raw@.subrange(1, i as int).push(raw@[i as int]));
        }
        i = i + 1;
    }
    proof {
        lemma_scan_end(raw@, 1, i as int);
    }
    Ok(out)
}

/// Round trip: a null-free payload that fits in a report comes back
/// unchanged from `decode` once the device has echoed its frame under the
/// up-report id.
pub proof fn lemma_round_trip(payload: Seq<u8>)
    requires
        fits(payload),
        null_free(payload),
    ensures
        decoded(echoed(frame_of(payload))) == Some(payload),
{
    let frame = frame_of(payload);
    let raw = echoed(frame);
    let n = payload.len() as int;
    assert(raw =~= seq![UP_REPORT_ID] + payload + seq![0u8]);
    assert(raw[n + 1] == 0);
    assert forall|j: int| 1 <= j < n + 1 implies raw[j] != 0 by {
        assert(raw[j] == payload[j - 1]);
    }
    lemma_scan_end(raw, 1, n + 1);
    assert(raw.subrange(1, n + 1) =~= payload);
}

} // verus!
