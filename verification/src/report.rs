//! The reports that travel between the host and a device.

use vstd::prelude::*;
use vstd::slice::slice_subrange;

use crate::consts::{IOHIDDeviceRef, IOHIDReportType, HID_RPT_SIZE};
use crate::error;
use crate::error::{check_result, DeviceError, ReceiveError};

verus! {

/// One report from a device, in a buffer of the full report size.
pub struct Report {
    pub data: [u8; HID_RPT_SIZE],
}

/// The report made of `bytes`: the bytes, then zeros up to the full size.
/// Bytes that do not fit are dropped altogether, which leaves only zeros.
pub open spec fn padded(bytes: Seq<u8>) -> Seq<u8> {
    Seq::new(
        HID_RPT_SIZE as nat,
        |i: int|
            if bytes.len() <= HID_RPT_SIZE && i < bytes.len() {
                bytes[i]
            } else {
                0
            },
    )
}

/// How many bytes a report of the announced length `report_len` contributes.
pub open spec fn taken_len(report_len: int) -> int {
    if 0 <= report_len <= HID_RPT_SIZE {
        report_len
    } else {
        0
    }
}

/// How many bytes to take from the system's buffer when it announces a report
/// of `report_len` bytes: all of them, or none when they would not fit.
pub fn input_len(report_len: isize) -> (len: usize)
    ensures
        len == taken_len(report_len as int),
{
    if 0 <= report_len && report_len as usize <= HID_RPT_SIZE {
        report_len as usize
    } else {
        0
    }
}

impl Report {
    /// The report that the run loop passes on when a device has sent `bytes`.
    pub fn from_input(bytes: &[u8]) -> (report: Report)
        ensures
            report.data@ == padded(bytes@),
    {
        let mut data: [u8; HID_RPT_SIZE] = [0;HID_RPT_SIZE];
        if bytes.len() <= HID_RPT_SIZE {
            let mut i: usize = 0;
            while i < bytes.len()
                invariant
                    i <= bytes@.len() <= HID_RPT_SIZE,
                    forall|j: int| 0 <= j < i ==> data@[j] == bytes@[j],
                    forall|j: int| i <= j < HID_RPT_SIZE ==> data@[j] == 0,
                decreases bytes@.len() - i,
            {
                data[i] = bytes[i];
                i = i + 1;
            }
        }
        assert(data@ =~= padded(bytes@));
        Report { data }
    }
}

/// `bytes` with its beginning overwritten by as much of `data` as has room.
pub open spec fn overwritten(bytes: Seq<u8>, data: Seq<u8>) -> Seq<u8> {
    Seq::new(
        bytes.len(),
        |i: int|
            if i < data.len() {
                data[i]
            } else {
                bytes[i]
            },
    )
}

/// How many bytes of a report a buffer of `room` bytes takes.
pub open spec fn read_len(room: nat) -> nat {
    if room < HID_RPT_SIZE {
        room
    } else {
        HID_RPT_SIZE as nat
    }
}

/// A read that received `received`, into a buffer that held `before`, ends
/// with `outcome` and leaves `after` in the buffer.
pub open spec fn read_ends(
    received: Result<Report, ReceiveError>,
    before: Seq<u8>,
    after: Seq<u8>,
    outcome: Result<usize, DeviceError>,
) -> bool {
    match received {
        Ok(report) => {
            &&& outcome matches Ok(len) && len == read_len(before.len())
            &&& after == overwritten(before, report.data@)
        },
        Err(ReceiveError::Timeout) => {
            &&& outcome == Err::<usize, DeviceError>(DeviceError::TimedOut)
            &&& after == before
        },
        Err(ReceiveError::Disconnected) => {
            &&& outcome == Err::<usize, DeviceError>(DeviceError::UnexpectedEof)
            &&& after == before
        },
    }
}

/// Ends a read with what came of waiting for a report: copies as much of the
/// report as `bytes` takes and says how much that was, or fails and leaves
/// `bytes` alone.
pub fn finish_read(received: Result<Report, ReceiveError>, bytes: &mut [u8]) -> (outcome: Result<
    usize,
    DeviceError,
>)
    ensures
        read_ends(received, old(bytes)@, final(bytes)@, outcome),
{
    match received {
        Ok(report) => {
            let mut i: usize = 0;
            while i < bytes.len() && i < HID_RPT_SIZE
                invariant
                    i <= bytes@.len(),
                    i <= HID_RPT_SIZE,
                    bytes@.len() == old(bytes)@.len(),
                    forall|j: int| 0 <= j < i ==> bytes@[j] == report.data@[j],
                    forall|j: int| i <= j < bytes@.len() ==> bytes@[j] == old(bytes)@[j],
                decreases HID_RPT_SIZE - i,
            {
                bytes[i] = report.data[i];
                i = i + 1;
            }
            assert(bytes@ =~= overwritten(old(bytes)@, report.data@));
            Ok(i)
        },
        Err(ReceiveError::Timeout) => Err(DeviceError::TimedOut),
        Err(ReceiveError::Disconnected) => Err(DeviceError::UnexpectedEof),
    }
}

/// What the system is asked to send to a device.
pub struct SetReport<'a> {
    pub device_ref: IOHIDDeviceRef,
    pub report_type: IOHIDReportType,
    pub report_id: i64,
    pub data: &'a [u8],
}

/// The bytes that go out for `bytes`: the report number, which stands first, is
/// left off when it is zero, for then the reports are not numbered.
pub open spec fn payload(bytes: Seq<u8>) -> Seq<u8> {
    if bytes[0] == 0 {
        bytes.skip(1)
    } else {
        bytes
    }
}

/// The request that sends `bytes` to the device, the report number first.
pub fn set_report<'a>(
    device_ref: IOHIDDeviceRef,
    report_type: IOHIDReportType,
    bytes: &'a [u8],
) -> (request: SetReport<'a>)
    requires
        bytes@.len() > 0,
    ensures
        request.device_ref == device_ref,
        request.report_type == report_type,
        request.report_id == bytes@[0],
        request.data@ == payload(bytes@),
{
    let report_id: i64 = bytes[0] as i64;
    let data = if report_id == 0x0 {
        // Not using numbered reports, so don't send the report number
        slice_subrange(bytes, 1, bytes.len())
    } else {
        bytes
    };
    SetReport { device_ref, report_type, report_id, data }
}

impl<'a> SetReport<'a> {
    /// What sending comes to when the system returned `result`: the number of
    /// bytes handed over, or the system's code.
    pub fn outcome(&self, result: i32) -> (outcome: Result<usize, DeviceError>)
        ensures
            outcome == error::system_outcome(result, self.data@.len() as usize),
            outcome matches Ok(len) ==> len == self.data@.len(),
    {
        check_result(result, self.data.len())
    }
}

} // verus!
