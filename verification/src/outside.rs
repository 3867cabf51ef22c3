//! What the library takes from the standard library and from the crates that
//! bind the system's own: each item here is believed, not proved.

use std::sync::mpsc::{Receiver, RecvTimeoutError, Sender};
use std::sync::Arc;
use std::time::Duration;

use vstd::prelude::*;

use crate::device::{Device, InternalDevice};
use crate::error::ReceiveError;
use crate::report::Report;

verus! {

/// The receiving end of a channel, carried and never looked into.
#[verifier::external_type_specification]
#[verifier::external_body]
#[verifier::reject_recursive_types(T)]
pub struct ExReceiver<T>(std::sync::mpsc::Receiver<T>);

/// The sending end of a channel, carried and never looked into.
#[verifier::external_type_specification]
#[verifier::external_body]
#[verifier::reject_recursive_types(T)]
pub struct ExSender<T>(std::sync::mpsc::Sender<T>);

/// `report_tx` and `report_recv` are the two ends of one channel.
pub uninterp spec fn feeds(report_tx: Sender<Report>, report_recv: Receiver<Report>) -> bool;

/// What is sent into `report_tx` goes to `report_recv`, and to no other receiver.
pub open spec fn feeds_only(report_tx: Sender<Report>, report_recv: Receiver<Report>) -> bool {
    &&& feeds(report_tx, report_recv)
    &&& forall|other: Receiver<Report>| #[trigger]
        feeds(report_tx, other) ==> other == report_recv
}

/// `std::sync::mpsc::channel` makes a channel and hands out its two ends: the
/// first feeds the second, and, a channel having one receiving end, no other.
/// The channel is a new one: no device that there is already, such as those in
/// `others`, has its receiving end.
///
/// That reports come out in the order in which they went in is not said: what
/// is under way in a channel is not a property of the value of either end.
#[verifier::external_body]
pub(crate) fn report_channel(others: &Vec<Device>) -> (ends: (Sender<Report>, Receiver<Report>))
    ensures
        feeds(ends.0, ends.1),
        forall|other: Receiver<Report>| #[trigger] feeds(ends.0, other) ==> other == ends.1,
        forall|i: int|
            0 <= i < others@.len() ==> (#[trigger] others@[i]).device.report_recv != ends.1,
{
    std::sync::mpsc::channel()
}

/// A wait of at most `seconds` on `report_recv` can come back with `received`.
///
/// One wait can come back with different things at different times: this says
/// what was waited on, and for how long, not what came.
pub uninterp spec fn wait_can_give(
    report_recv: Receiver<Report>,
    seconds: u64,
    received: Result<Report, ReceiveError>,
) -> bool;

/// `Receiver::recv_timeout` waits on the receiver for at most the given number
/// of seconds, and comes back with what such a wait can give.
///
/// Which of these it is, is not claimed: it depends on what the run loop's
/// thread sends, and when.
#[verifier::external_body]
pub(crate) fn recv_timeout(report_recv: &Receiver<Report>, seconds: u64) -> (received: Result<
    Report,
    ReceiveError,
>)
    ensures
        wait_can_give(*report_recv, seconds, received),
{
    match report_recv.recv_timeout(Duration::from_secs(seconds)) {
        Ok(report) => Ok(report),
        Err(RecvTimeoutError::Timeout) => Err(ReceiveError::Timeout),
        Err(RecvTimeoutError::Disconnected) => Err(ReceiveError::Disconnected),
    }
}

/// Asking `this` to lend out its device for changing can come out as `lent`.
///
/// The same pointer can lend at one time and not at another, as other pointers
/// to the device come and go: this says what was asked, not how it came out.
pub uninterp spec fn can_lend(this: Arc<InternalDevice>, lent: bool) -> bool;

/// `Arc::get_mut` lends out the value behind the pointer for changing, or
/// nothing when the pointer is shared.
///
/// When it lends the value, the pointer leads to whatever the borrower leaves
/// there; when it does not, the pointer leads to the same value as before.
/// Whether the pointer is shared is not claimed either way: it is not a
/// property of the pointer's value.
#[verifier::external_body]
pub(crate) fn get_mut(this: &mut Arc<InternalDevice>) -> (inner: Option<&mut InternalDevice>)
    ensures
        can_lend(*old(this), inner is Some),
        match inner {
            Some(value) => *value == **old(this) && **final(this) == *final(value),
            None => *final(this) == *old(this),
        },
{
    Arc::get_mut(this)
}

/// `mach::kern_return::KERN_SUCCESS`, the code of a kernel call that succeeded, is zero.
#[verifier::external_body]
pub(crate) fn kern_success() -> (code: i32)
    ensures
        code == 0,
{
    mach::kern_return::KERN_SUCCESS
}

/// `core_foundation_sys::runloop::kCFRunLoopRunStopped`, the code with which a
/// run loop says that it was stopped, is two.
#[verifier::external_body]
pub(crate) fn run_loop_run_stopped() -> (code: i32)
    ensures
        code == 2,
{
    core_foundation_sys::runloop::kCFRunLoopRunStopped
}

} // verus!
