//! The errors that the transport reports to its callers.
use vstd::prelude::*;

verus! {

/// Why a directory, session or transport operation failed.
#[derive(Debug, Clone, Copy, PartialEq, Eq, Structural)]
pub enum HSLinkError {
    /// No probe with the requested serial number is attached.
    DeviceNotFound,
    /// No session is open, or the device could not be opened.
    DeviceNotOpened,
    /// Sending the report failed.
    WriteErr,
    /// Reading the response failed or its wait expired.
    ReadErr,
    /// The response carried a foreign report id.
    RspErr,
    /// The operation is not supported on this platform.
    NotSupport,
    /// The response payload is not UTF-8 text.
    EncodingErr,
    /// The payload does not fit into one report.
    FrameTooLarge,
}

} // verus!
