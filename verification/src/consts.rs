//! Values that the U2F HID protocol and IOKit fix.

use vstd::prelude::*;

verus! {

/// The number of bytes in a U2F HID report.
pub const HID_RPT_SIZE: usize = 64;

/// The channel on which a device listens before it has been given one of its own.
pub const CID_BROADCAST: [u8; 4] = [0xff, 0xff, 0xff, 0xff];

/// The HID usage page of FIDO devices.
pub const FIDO_USAGE_PAGE: u16 = 0xf1d0;

/// The usage, on the FIDO usage page, of a U2F HID device.
pub const FIDO_USAGE_U2FHID: u16 = 0x01;

/// How many seconds a read waits for a report.
pub const READ_TIMEOUT: u64 = 15;

/// IOKit's number for reports that the host sends to a device.
pub const REPORT_TYPE_OUTPUT: u32 = 1;

/// IOKit's reference to a HID device, as the number that its address is.
pub type IOHIDDeviceRef = u64;

/// IOKit's reference to a HID manager, as the number that its address is.
pub type IOHIDManagerRef = u64;

/// The direction of a HID report, as IOKit numbers it.
pub type IOHIDReportType = u32;

} // verus!
