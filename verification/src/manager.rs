//! Opening the manager over the system's HID devices, and what it knows once
//! it is open.
//!
//! Opening takes turns with the system: each step takes what the system came
//! back with and says what to do next.

use std::sync::mpsc::Sender;
use std::sync::Arc;

use vstd::pervasive::unreached;
use vstd::prelude::*;

use crate::consts::{IOHIDDeviceRef, IOHIDManagerRef, CID_BROADCAST};
use crate::device::{Device, InternalDevice};
use crate::error;
use crate::error::{check_result, DeviceError};
use crate::outside;
use crate::outside::report_channel;
use crate::report::Report;

verus! {

/// An open manager and the U2F devices that it found.
pub struct PlatformManager {
    pub hid_manager: IOHIDManagerRef,
    known_devices: Vec<Device>,
}

impl PlatformManager {
    /// The system's manager.
    pub closed spec fn handle(self) -> IOHIDManagerRef {
        self.hid_manager
    }

    /// The devices that were found when the manager was opened, in the order
    /// in which they were found.
    pub closed spec fn devices(self) -> Seq<Device> {
        self.known_devices@
    }

    /// What closing the manager comes to when the system returned `result`.
    pub fn close(&self, result: i32) -> (outcome: Result<(), DeviceError>)
        ensures
            outcome == error::system_outcome(result, ()),
    {
        check_result(result, ())
    }

    /// Handles on the devices that were found when the manager was opened.
    pub fn find_keys(&self) -> (keys: Result<Vec<Device>, DeviceError>)
        ensures
            keys matches Ok(keys) && keys@ == self.devices(),
    {
        let keys = self.known_devices.clone();
        assert(keys@ =~= self.known_devices@);
        Ok(keys)
    }
}

/// What the run loop is handed of a device that it is to listen to.
pub struct AddedDevice {
    pub raw_handle: u64,
    /// Where to put the reports that the device sends.
    pub report_tx: Sender<Report>,
}

/// How far opening has come: what the next step waits for.
pub enum OpenState {
    /// The system's manager is to be created and opened.
    Opening,
    /// The thread that runs the run loop is to be started.
    Starting { hid_manager: IOHIDManagerRef },
    /// The U2F devices are to be found.
    Finding { hid_manager: IOHIDManagerRef },
    /// The first device that is not in `devices` is to be named.
    Naming {
        hid_manager: IOHIDManagerRef,
        device_refs: Vec<IOHIDDeviceRef>,
        devices: Vec<Device>,
    },
    /// The run loop is to take in `device`.
    Readying {
        hid_manager: IOHIDManagerRef,
        device_refs: Vec<IOHIDDeviceRef>,
        devices: Vec<Device>,
        device: Device,
    },
    /// Nothing more is to come.
    Ended,
}

/// What the system came back with.
pub enum OpenEvent {
    /// The manager was created, and opening it returned `result`.
    ManagerOpened { hid_manager: IOHIDManagerRef, result: i32 },
    /// The run loop's thread has started.
    RunLoopStarted,
    /// These are the U2F devices.
    DevicesFound(Vec<IOHIDDeviceRef>),
    /// The device that was to be named has this name.
    DeviceNamed(String),
    /// The run loop listens to the device.
    DeviceReady,
}

/// What to do next.
pub enum OpenAction {
    /// Start the thread that runs the manager's run loop.
    StartRunLoop(IOHIDManagerRef),
    /// Find the U2F devices that the manager knows.
    FindDevices(IOHIDManagerRef),
    /// Read the name of this device.
    NameDevice(IOHIDDeviceRef),
    /// Hand this device to the run loop, and wait until it listens.
    AddDevice(AddedDevice),
    /// Done: the manager is open.
    Finish(PlatformManager),
    /// Done: the manager could not be opened.
    Fail(DeviceError),
}

/// The devices are those that the first references lead to, in order, and each
/// still listens on the broadcast channel.
pub open spec fn are_fresh(devices: Seq<Device>, device_refs: Seq<IOHIDDeviceRef>) -> bool {
    &&& devices.len() <= device_refs.len()
    &&& forall|i: int|
        0 <= i < devices.len() ==> is_fresh(#[trigger] devices[i], device_refs[i])
}

/// The device is the one that the reference leads to, and still listens on the
/// broadcast channel.
pub open spec fn is_fresh(device: Device, device_ref: IOHIDDeviceRef) -> bool {
    &&& device.device.device_ref == device_ref
    &&& device.device.cid == CID_BROADCAST
}

/// The device shares its receiver with none of `others`.
pub open spec fn has_own_receiver(device: Device, others: Seq<Device>) -> bool {
    forall|i: int|
        0 <= i < others.len() ==> (#[trigger] others[i]).device.report_recv
            != device.device.report_recv
}

impl OpenState {
    /// Whether the state is one that opening can be in.
    pub open spec fn wf(self) -> bool {
        match self {
            OpenState::Naming { device_refs, devices, .. } => {
                &&& are_fresh(devices@, device_refs@)
                &&& devices@.len() < device_refs@.len()
            },
            OpenState::Readying { device_refs, devices, device, .. } => {
                &&& are_fresh(devices@, device_refs@)
                &&& devices@.len() < device_refs@.len()
                &&& is_fresh(device, device_refs@[devices@.len() as int])
            },
            _ => true,
        }
    }

    /// Whether `event` is what the state waits for.
    pub open spec fn awaits(self, event: OpenEvent) -> bool {
        match self {
            OpenState::Opening => event is ManagerOpened,
            OpenState::Starting { .. } => event is RunLoopStarted,
            OpenState::Finding { .. } => event is DevicesFound,
            OpenState::Naming { .. } => event is DeviceNamed,
            OpenState::Readying { .. } => event is DeviceReady,
            OpenState::Ended => false,
        }
    }
}

/// With the first of `device_refs` made into `devices`, the next device is to
/// be named; or, where none is left, the manager is open.
pub open spec fn goes_on(
    hid_manager: IOHIDManagerRef,
    device_refs: Seq<IOHIDDeviceRef>,
    devices: Seq<Device>,
    next: OpenState,
    action: OpenAction,
) -> bool {
    if devices.len() < device_refs.len() {
        &&& next matches OpenState::Naming { hid_manager: m, device_refs: r, devices: d }
        &&& m == hid_manager
        &&& r@ == device_refs
        &&& d@ == devices
        &&& action == OpenAction::NameDevice(device_refs[devices.len() as int])
    } else {
        &&& next is Ended
        &&& action matches OpenAction::Finish(manager)
        &&& manager.handle() == hid_manager
        &&& manager.devices() == devices
    }
}

/// Opening goes from `state`, on `event`, to `next`, with `action` to be done.
pub open spec fn open_step(
    state: OpenState,
    event: OpenEvent,
    next: OpenState,
    action: OpenAction,
) -> bool {
    match (state, event) {
        (OpenState::Opening, OpenEvent::ManagerOpened { hid_manager, result }) => {
            if error::succeeded(result) {
                &&& next == OpenState::Starting { hid_manager }
                &&& action == OpenAction::StartRunLoop(hid_manager)
            } else {
                &&& next is Ended
                &&& action == OpenAction::Fail(DeviceError::Os(result))
            }
        },
        (OpenState::Starting { hid_manager }, OpenEvent::RunLoopStarted) => {
            &&& next == OpenState::Finding { hid_manager }
            &&& action == OpenAction::FindDevices(hid_manager)
        },
        (OpenState::Finding { hid_manager }, OpenEvent::DevicesFound(device_refs)) => {
            goes_on(hid_manager, device_refs@, Seq::empty(), next, action)
        },
        (
            OpenState::Naming { hid_manager, device_refs, devices },
            OpenEvent::DeviceNamed(name),
        ) => {
            &&& next matches OpenState::Readying {
                hid_manager: m,
                device_refs: r,
                devices: d,
                device,
            }
            &&& m == hid_manager
            &&& r == device_refs
            &&& d == devices
            &&& is_fresh(device, device_refs@[devices@.len() as int])
            &&& device.device.name == name
            &&& has_own_receiver(device, devices@)
            &&& action matches OpenAction::AddDevice(added)
            &&& added.raw_handle == device_refs@[devices@.len() as int]
            &&& outside::feeds_only(added.report_tx, device.device.report_recv)
        },
        (
            OpenState::Readying { hid_manager, device_refs, devices, device },
            OpenEvent::DeviceReady,
        ) => { goes_on(hid_manager, device_refs@, devices@.push(device), next, action) },
        _ => false,
    }
}

/// Names the next device, or ends with the open manager where none is left.
fn go_on(
    hid_manager: IOHIDManagerRef,
    device_refs: Vec<IOHIDDeviceRef>,
    devices: Vec<Device>,
) -> (step: (OpenState, OpenAction))
    requires
        are_fresh(devices@, device_refs@),
    ensures
        step.0.wf(),
        goes_on(hid_manager, device_refs@, devices@, step.0, step.1),
{
    if devices.len() < device_refs.len() {
        let device_ref: IOHIDDeviceRef = device_refs[devices.len()];
        (
            OpenState::Naming { hid_manager, device_refs, devices },
            OpenAction::NameDevice(device_ref),
        )
    } else {
        (
            OpenState::Ended,
            OpenAction::Finish(PlatformManager { hid_manager, known_devices: devices }),
        )
    }
}

/// Takes opening one step further: what the system came back with, and then
/// what to do next.
///
/// Opening starts in [`OpenState::Opening`], with the system's manager to be
/// created and opened. A manager that cannot be opened ends it. Otherwise the
/// run loop is started, the U2F devices are found, and each of them in turn is
/// named, given a channel for its reports and handed to the run loop.
pub fn open_platform_manager(state: OpenState, event: OpenEvent) -> (step: (OpenState, OpenAction))
    requires
        state.wf(),
        state.awaits(event),
    ensures
        step.0.wf(),
        open_step(state, event, step.0, step.1),
{
    match (state, event) {
        (OpenState::Opening, OpenEvent::ManagerOpened { hid_manager, result }) => {
            match check_result(result, ()) {
                Ok(_) => (
                    OpenState::Starting { hid_manager },
                    OpenAction::StartRunLoop(hid_manager),
                ),
                Err(error) => (OpenState::Ended, OpenAction::Fail(error)),
            }
        },
        (OpenState::Starting { hid_manager }, OpenEvent::RunLoopStarted) => {
            (OpenState::Finding { hid_manager }, OpenAction::FindDevices(hid_manager))
        },
        (OpenState::Finding { hid_manager }, OpenEvent::DevicesFound(device_refs)) => {
            go_on(hid_manager, device_refs, Vec::new())
        },
        (
            OpenState::Naming { hid_manager, device_refs, devices },
            OpenEvent::DeviceNamed(name),
        ) => {
            let device_ref: IOHIDDeviceRef = device_refs[devices.len()];
            let (report_tx, report_recv) = report_channel(&devices);
            let device = Device {
                device: Arc::new(
                    InternalDevice { name, device_ref, cid: CID_BROADCAST, report_recv },
                ),
            };
            (
                OpenState::Readying { hid_manager, device_refs, devices, device },
                OpenAction::AddDevice(AddedDevice { raw_handle: device_ref, report_tx }),
            )
        },
        (
            OpenState::Readying { hid_manager, device_refs, devices, device },
            OpenEvent::DeviceReady,
        ) => {
            let mut devices = devices;
            devices.push(device);
            go_on(hid_manager, device_refs, devices)
        },
        (_, _) => unreached(),
    }
}

} // verus!
