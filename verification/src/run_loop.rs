//! The thread that listens to the devices: it takes in devices that were added,
//! one at a time, and lets the system's run loop deliver their reports, until
//! that run loop is stopped.

use vstd::prelude::*;

use crate::consts::IOHIDDeviceRef;
use crate::outside::run_loop_run_stopped;

verus! {

/// What the thread came back with from what it did last.
#[derive(Clone, Copy, Debug, PartialEq, Eq, Structural)]
pub enum LoopEvent {
    /// The thread has started.
    Started,
    /// This device was added, if any was.
    Polled(Option<IOHIDDeviceRef>),
    /// The device is listened to, and whoever waits for that has been told.
    Attached,
    /// The system's run loop returned this code.
    Ran(i32),
}

/// What the thread does next.
#[derive(Clone, Copy, Debug, PartialEq, Eq, Structural)]
pub enum LoopAction {
    /// Look, without waiting, whether a device was added.
    Poll,
    /// Have the run loop listen to this device.
    Attach(IOHIDDeviceRef),
    /// Let the system's run loop run for a while.
    Run,
    /// End.
    Stop,
}

/// Whether the system's run loop returned `code` because it was stopped.
pub open spec fn was_stopped(code: i32) -> bool {
    code == 2
}

/// What follows `event`.
pub open spec fn after(event: LoopEvent) -> LoopAction {
    match event {
        LoopEvent::Started => LoopAction::Poll,
        LoopEvent::Polled(Some(device_ref)) => LoopAction::Attach(device_ref),
        LoopEvent::Polled(None) => LoopAction::Run,
        LoopEvent::Attached => LoopAction::Run,
        LoopEvent::Ran(code) => if was_stopped(code) {
            LoopAction::Stop
        } else {
            LoopAction::Poll
        },
    }
}

/// Says what the thread does next, after what it came back with.
pub fn next_action(event: LoopEvent) -> (action: LoopAction)
    ensures
        action == after(event),
{
    match event {
        LoopEvent::Started => LoopAction::Poll,
        LoopEvent::Polled(Some(device_ref)) => LoopAction::Attach(device_ref),
        LoopEvent::Polled(None) => LoopAction::Run,
        LoopEvent::Attached => LoopAction::Run,
        LoopEvent::Ran(code) => if code == run_loop_run_stopped() {
            LoopAction::Stop
        } else {
            LoopAction::Poll
        },
    }
}

} // verus!
