//! A security key as the rest of the library sees it.

use std::sync::mpsc::Receiver;
use std::sync::Arc;

use vstd::prelude::*;

use crate::consts::{IOHIDDeviceRef, READ_TIMEOUT, REPORT_TYPE_OUTPUT};
use crate::error::{DeviceError, ReceiveError};
use crate::outside;
use crate::outside::{get_mut, recv_timeout};
use crate::report;
use crate::report::{finish_read, set_report, Report, SetReport};
use crate::text;
use crate::text::{append_digits, append_hex_byte};

verus! {

/// What all the handles on one device share.
pub struct InternalDevice {
    pub name: String,
    pub device_ref: IOHIDDeviceRef,
    /// The channel of the U2F HID protocol on which the device is spoken to.
    pub cid: [u8; 4],
    /// Where the run loop puts the reports that the device sends.
    pub report_recv: Receiver<Report>,
}

impl InternalDevice {
    /// The text by which a device is shown: its name, its reference as an
    /// address, and its channel in hexadecimal.
    pub open spec fn shown(self) -> Seq<char> {
        "InternalDevice("@ + self.name@ + ", ref:0x"@ + text::digits(self.device_ref as nat, 16)
            + ", cid: "@ + text::hex_byte(self.cid[0]) + text::hex_byte(self.cid[1])
            + text::hex_byte(self.cid[2]) + text::hex_byte(self.cid[3]) + ")"@
    }

    /// The text by which the device is shown.
    pub fn to_string(&self) -> (shown: String)
        ensures
            shown@ == self.shown(),
    {
        let mut shown = String::from_str("InternalDevice(");
        shown.append(self.name.as_str());
        shown.append(", ref:0x");
        append_digits(&mut shown, self.device_ref, 16);
        shown.append(", cid: ");
        append_hex_byte(&mut shown, self.cid[0]);
        append_hex_byte(&mut shown, self.cid[1]);
        append_hex_byte(&mut shown, self.cid[2]);
        append_hex_byte(&mut shown, self.cid[3]);
        shown.append(")");
        shown
    }
}

/// A handle on a device. Clones are handles on the same device.
pub struct Device {
    pub device: Arc<InternalDevice>,
}

impl Clone for Device {
    fn clone(&self) -> (copy: Self)
        ensures
            copy == *self,
    {
        Device { device: self.device.clone() }
    }
}

impl PartialEq for Device {
    fn eq(&self, other: &Device) -> (same: bool) {
        self.device.device_ref == other.device.device_ref
    }
}

impl vstd::std_specs::cmp::PartialEqSpecImpl for Device {
    open spec fn obeys_eq_spec() -> bool {
        true
    }

    open spec fn eq_spec(&self, other: &Device) -> bool {
        self.same_as(*other)
    }
}

impl Device {
    /// The text by which a handle is shown.
    pub open spec fn shown(self) -> Seq<char> {
        "Device("@ + self.device.shown() + ")"@
    }

    /// Two handles are equal when they lead to the same device of the system,
    /// whatever else they hold.
    pub open spec fn same_as(self, other: Device) -> bool {
        self.device.device_ref == other.device.device_ref
    }

    /// The handle with its device moved to the channel `cid`.
    pub open spec fn on_channel(self, cid: [u8; 4]) -> Device {
        Device { device: Arc::new(InternalDevice { cid, ..*self.device }) }
    }

    /// The text by which the handle is shown.
    pub fn to_string(&self) -> (shown: String)
        ensures
            shown@ == self.shown(),
    {
        let mut shown = String::from_str("Device(");
        let device = self.device.to_string();
        shown.append(device.as_str());
        shown.append(")");
        shown
    }

    /// Waits for the next report of the device and copies as much of it as
    /// `bytes` takes; says how many bytes that was.
    ///
    /// The read waits once, on the device's own queue, for at most
    /// [`READ_TIMEOUT`] seconds. What comes, and whether it comes in time, is up
    /// to the device; whatever came, the read ends as it says.
    pub fn read(&mut self, bytes: &mut [u8]) -> (outcome: Result<usize, DeviceError>)
        ensures
            *final(self) == *old(self),
            exists|received: Result<Report, ReceiveError>| #[trigger]
                outside::wait_can_give(old(self).device.report_recv, READ_TIMEOUT, received)
                    && report::read_ends(received, old(bytes)@, final(bytes)@, outcome),
    {
        let received = recv_timeout(&self.device.report_recv, READ_TIMEOUT);
        finish_read(received, bytes)
    }

    /// The request that sends `bytes` to the device, the report number first.
    pub fn write<'a>(&self, bytes: &'a [u8]) -> (request: SetReport<'a>)
        requires
            bytes@.len() > 0,
        ensures
            request.device_ref == self.device.device_ref,
            request.report_type == REPORT_TYPE_OUTPUT,
            request.report_id == bytes@[0],
            request.data@ == report::payload(bytes@),
    {
        set_report(self.device.device_ref, REPORT_TYPE_OUTPUT, bytes)
    }

    /// Does nothing: HID writes are not buffered.
    pub fn flush(&mut self) -> (outcome: Result<(), DeviceError>)
        ensures
            outcome == Ok::<(), DeviceError>(()),
            *final(self) == *old(self),
    {
        Ok(())
    }

    /// The channel on which the device is spoken to.
    pub fn get_cid(&self) -> (cid: [u8; 4])
        ensures
            cid == self.device.cid,
    {
        self.device.cid
    }

    /// Moves the device to the channel `cid`, and says whether it could: it
    /// cannot while there are other handles on the device.
    ///
    /// Whether there are is not a property of the handle's value, so the
    /// contract says that this handle was asked to lend its device, and what
    /// holds whether it could or not, but not which it is.
    pub fn set_cid(&mut self, cid: &[u8; 4]) -> (updated: bool)
        ensures
            outside::can_lend(old(self).device, updated),
            *final(self) == (if updated {
                old(self).on_channel(*cid)
            } else {
                *old(self)
            }),
    {
        assign_cid(get_mut(&mut self.device), cid)
    }
}

/// Sets the channel of the device that was lent out for changing, if one was,
/// and says whether one was.
pub fn assign_cid(slot: Option<&mut InternalDevice>, cid: &[u8; 4]) -> (updated: bool)
    ensures
        updated == (slot is Some),
        slot matches Some(device) ==> *final(device) == (InternalDevice { cid: *cid, ..*device }),
{
    match slot {
        Some(device) => {
            device.cid = *cid;
            true
        },
        None => false,
    }
}

} // verus!
