//! Host-side transport for the HSLink USB HID probe: report framing,
//! device directory filtering, the session state machine, the hot-plug
//! decision logic, and the search for the bootloader volume's mount point.

pub mod codec;
pub mod directory;
pub mod error;
pub mod hid;
pub mod hotplug;
pub mod session;
pub mod volume;
