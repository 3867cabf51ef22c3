//! How an operation on a device fails.

use vstd::prelude::*;

use crate::outside::kern_success;

verus! {

/// Why an operation on a device or on the manager failed.
#[derive(Clone, Copy, Debug, PartialEq, Eq, Structural)]
pub enum DeviceError {
    /// No report came in time.
    TimedOut,
    /// No report will ever come: whatever sent them is gone.
    UnexpectedEof,
    /// The system refused, with this code.
    Os(i32),
}

/// Why no report was received.
#[derive(Clone, Copy, Debug, PartialEq, Eq, Structural)]
pub enum ReceiveError {
    /// The wait ended first.
    Timeout,
    /// Every sender is gone.
    Disconnected,
}

/// Whether `result` is the code of a system call that succeeded.
pub open spec fn succeeded(result: i32) -> bool {
    result == 0
}

/// What a system call that returned `result` comes to.
pub open spec fn system_outcome<T>(result: i32, value: T) -> Result<T, DeviceError> {
    if succeeded(result) {
        Ok(value)
    } else {
        Err(DeviceError::Os(result))
    }
}

/// Turns the code of a system call into success with `value`, or into the
/// error that carries the code.
pub fn check_result<T>(result: i32, value: T) -> (outcome: Result<T, DeviceError>)
    ensures
        outcome == system_outcome(result, value),
{
    if result != kern_success() {
        Err(DeviceError::Os(result))
    } else {
        Ok(value)
    }
}

} // verus!
