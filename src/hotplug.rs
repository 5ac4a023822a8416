//! Decisions of the hot-plug watcher: which bus events become change
//! notifications, after what settle delay, and whether a watcher may start.
use vstd::prelude::*;
use crate::directory::{PROBE_PRODUCT_ID, PROBE_VENDOR_ID};

verus! {

/// How long to wait after a probe connects before notifying, so that the
/// operating system has published the new device to HID enumeration.
pub const DEVICE_SETTLE_MS: u64 = 500;

/// A connect or disconnect event as the bus reports it.
#[derive(Debug, Clone, Copy, PartialEq, Eq, Structural)]
pub enum BusEvent {
    /// A device arrived, with its vendor and product id.
    Connected { vendor_id: u16, product_id: u16 },
    /// A device left; the bus does not say which one.
    Disconnected,
}

/// The change notification handed to the subscriber.
#[derive(Debug, Clone)]
pub struct UsbDeviceEvent {
    /// `"connected"` or `"disconnected"`.
    pub event_type: String,
    /// Vendor id, or 0 where unknown.
    pub vid: u16,
    /// Product id, or 0 where unknown.
    pub pid: u16,
}

/// A notification and the delay to wait before emitting it.
#[derive(Debug, Clone)]
pub struct Notification {
    pub settle_ms: u64,
    pub event: UsbDeviceEvent,
}

/// The tag of a connect notification.
pub open spec fn connected_tag() -> Seq<char> {
    seq!['c', 'o', 'n', 'n', 'e', 'c', 't', 'e', 'd']
}

/// The tag of a disconnect notification.
pub open spec fn disconnected_tag() -> Seq<char> {
    seq!['d', 'i', 's', 'c', 'o', 'n', 'n', 'e', 'c', 't', 'e', 'd']
}

/// What the watcher emits for `ev`, as (delay, tag, vid, pid).
pub open spec fn notification_for(ev: BusEvent) -> Option<(u64, Seq<char>, u16, u16)> {
    match ev {
        BusEvent::Connected { vendor_id, product_id } => if vendor_id == PROBE_VENDOR_ID
            && product_id == PROBE_PRODUCT_ID {
            Some((DEVICE_SETTLE_MS, connected_tag(), vendor_id, product_id))
        } else {
            None
        },
        BusEvent::Disconnected => Some((0u64, disconnected_tag(), 0u16, 0u16)),
    }
}

/// The view of a notification.
pub open spec fn notification_view(n: Notification) -> (u64, Seq<char>, u16, u16) {
    (n.settle_ms, n.event.event_type@, n.event.vid, n.event.pid)
}

/// Decides what to emit for one bus event: a probe's connection after the
/// settle delay, any disconnection at once as a request to re-scan, and
/// nothing for other devices' connections.
pub fn on_bus_event(ev: BusEvent) -> (r: Option<Notification>)
    ensures
        r is Some <==> notification_for(ev) is Some,
        r is Some ==> notification_for(ev) == Some(notification_view(r->Some_0)),
{
    match ev {
        BusEvent::Connected { vendor_id, product_id } => {
            if vendor_id == PROBE_VENDOR_ID && product_id == PROBE_PRODUCT_ID {
                let tag = String::from_str("connected");
                proof {
                    reveal_strlit("connected");
                    assert(tag@ =~= connected_tag());
                }
                Some(
                    Notification {
                        settle_ms: DEVICE_SETTLE_MS,
                        event: UsbDeviceEvent { event_type: tag, vid: vendor_id, pid: product_id },
                    },
                )
            } else {
                None
            }
        },
        BusEvent::Disconnected => {
            let tag = String::from_str("disconnected");
            proof {
                reveal_strlit("disconnected");
                assert(tag@ =~= disconnected_tag());
            }
            Some(Notification { settle_ms: 0, event: UsbDeviceEvent { event_type: tag, vid: 0, pid: 0 } })
        },
    }
}

/// Guards against running two watchers at once.
pub struct HotplugGate {
    running: bool,
}

impl HotplugGate {
    /// Whether a watcher is running.
    pub closed spec fn is_running(&self) -> bool {
        self.running
    }

    /// A gate with no watcher running.
    pub fn new() -> (g: HotplugGate)
        ensures
            !g.is_running(),
    {
        HotplugGate { running: false }
    }

    /// Marks a watcher as running. Returns true where none was, in which
    /// case the caller starts one; false otherwise, and the caller does nothing.
    pub fn try_start(&mut self) -> (r: bool)
        ensures
            r == !old(self).is_running(),
            final(self).is_running(),
    {
        let was = self.running;
        self.running = true;
        !was
    }

    /// Marks the watcher as stopped (its event stream ended, or it never
    /// started), so that a later start may try again.
    pub fn stopped(&mut self)
        ensures
            !final(self).is_running(),
    {
        self.running = false;
    }
}

} // verus!
