//! What holds of the library as a whole.

use vstd::prelude::*;

use crate::consts::{
    IOHIDDeviceRef, IOHIDManagerRef, CID_BROADCAST, HID_RPT_SIZE, READ_TIMEOUT,
};
use crate::device::Device;
use crate::error::{DeviceError, ReceiveError};
use crate::manager;
use crate::manager::{OpenAction, OpenEvent, OpenState, PlatformManager};
use crate::outside;
use crate::property;
use crate::property::{Answer, Properties, PropertyKey, Readings, MISSING};
use crate::report;
use crate::report::Report;
use crate::run_loop;
use crate::run_loop::{LoopAction, LoopEvent};

verus! {

/// What a device sends is what a read gives back: the bytes, then zeros up to
/// the full report size, as far as the buffer has room; and the rest of the
/// buffer is left alone.
pub proof fn read_gives_back_what_was_sent(
    sent: Seq<u8>,
    report: Report,
    before: Seq<u8>,
    after: Seq<u8>,
    outcome: Result<usize, DeviceError>,
)
    requires
        sent.len() <= HID_RPT_SIZE,
        report.data@ == report::padded(sent),
        report::read_ends(Ok(report), before, after, outcome),
    ensures
        outcome matches Ok(len) && len == report::read_len(before.len()),
        after.len() == before.len(),
        forall|i: int| 0 <= i < before.len() && i < sent.len() ==> after[i] == sent[i],
        forall|i: int|
            sent.len() <= i < before.len() && i < HID_RPT_SIZE ==> #[trigger] after[i] == 0,
        forall|i: int| HID_RPT_SIZE <= i < before.len() ==> #[trigger] after[i] == before[i],
        before.len() >= HID_RPT_SIZE ==> after.take(sent.len() as int) == sent,
{
    if before.len() >= HID_RPT_SIZE {
        assert(after.take(sent.len() as int) =~= sent);
    }
}

/// A report that is too long is passed on as zeros.
pub proof fn too_long_reports_are_zeros(sent: Seq<u8>)
    requires
        sent.len() > HID_RPT_SIZE,
    ensures
        report::padded(sent) == Seq::new(HID_RPT_SIZE as nat, |i: int| 0u8),
{
    assert(report::padded(sent) =~= Seq::new(HID_RPT_SIZE as nat, |i: int| 0u8));
}

/// The report is the same whether it is made of all the bytes that the system
/// announced or only of those that are to be taken from its buffer.
pub proof fn bytes_not_taken_do_not_matter(announced: Seq<u8>)
    ensures
        report::padded(announced.take(report::taken_len(announced.len() as int)))
            == report::padded(announced),
{
    let taken = announced.take(report::taken_len(announced.len() as int));
    assert(report::padded(taken) =~= report::padded(announced));
}

/// A read fails only when no report was received, and then leaves the buffer
/// alone: it times out when the wait did, and finds the end when every sender is gone.
pub proof fn failed_reads_change_nothing(
    received: Result<Report, ReceiveError>,
    before: Seq<u8>,
    after: Seq<u8>,
    outcome: Result<usize, DeviceError>,
)
    requires
        report::read_ends(received, before, after, outcome),
    ensures
        outcome is Err <==> received is Err,
        outcome is Err ==> after == before,
        outcome == Err::<usize, DeviceError>(DeviceError::TimedOut) <==> received == Err::<
            Report,
            ReceiveError,
        >(ReceiveError::Timeout),
        outcome == Err::<usize, DeviceError>(DeviceError::UnexpectedEof) <==> received == Err::<
            Report,
            ReceiveError,
        >(ReceiveError::Disconnected),
        outcome is Err ==> outcome == Err::<usize, DeviceError>(DeviceError::TimedOut) || outcome
            == Err::<usize, DeviceError>(DeviceError::UnexpectedEof),
{
}

/// A read of a device that went from `before` in the buffer to `after`, with
/// `outcome`, as [`Device::read`] promises it.
pub open spec fn is_read(
    device: Device,
    before: Seq<u8>,
    after: Seq<u8>,
    outcome: Result<usize, DeviceError>,
) -> bool {
    exists|received: Result<Report, ReceiveError>| #[trigger]
        outside::wait_can_give(device.device.report_recv, READ_TIMEOUT, received)
            && report::read_ends(received, before, after, outcome)
}

/// Successive reads of a device.
pub struct Reads {
    pub before: Seq<Seq<u8>>,
    pub after: Seq<Seq<u8>>,
    pub outcome: Seq<Result<usize, DeviceError>>,
}

impl Reads {
    /// Whether these are reads of `device`.
    pub open spec fn are_of(self, device: Device) -> bool {
        &&& self.after.len() == self.before.len()
        &&& self.outcome.len() == self.before.len()
        &&& forall|i: int|
            #![trigger self.outcome[i]]
            0 <= i < self.before.len() ==> is_read(
                device,
                self.before[i],
                self.after[i],
                self.outcome[i],
            )
    }

    /// Whether the reads end with what `waits`, one for each read, came back with.
    pub open spec fn end_with(self, waits: Seq<Result<Report, ReceiveError>>) -> bool {
        &&& waits.len() == self.before.len()
        &&& self.after.len() == self.before.len()
        &&& self.outcome.len() == self.before.len()
        &&& forall|i: int|
            #![trigger waits[i]]
            0 <= i < waits.len() ==> report::read_ends(
                waits[i],
                self.before[i],
                self.after[i],
                self.outcome[i],
            )
    }
}

/// Each of successive reads is explained by a wait of its own, on the device's
/// own queue and for fifteen seconds at most.
pub proof fn each_read_has_its_own_wait(device: Device, reads: Reads) -> (waits: Seq<
    Result<Report, ReceiveError>,
>)
    requires
        reads.are_of(device),
    ensures
        reads.end_with(waits),
        forall|i: int|
            0 <= i < waits.len() ==> outside::wait_can_give(
                device.device.report_recv,
                15,
                #[trigger] waits[i],
            ),
{
    let waits = Seq::new(
        reads.before.len(),
        |i: int|
            choose|received: Result<Report, ReceiveError>| #[trigger]
                outside::wait_can_give(device.device.report_recv, READ_TIMEOUT, received)
                    && report::read_ends(
                    received,
                    reads.before[i],
                    reads.after[i],
                    reads.outcome[i],
                ),
    );
    assert forall|i: int| 0 <= i < waits.len() implies outside::wait_can_give(
        device.device.report_recv,
        READ_TIMEOUT,
        #[trigger] waits[i],
    ) && report::read_ends(waits[i], reads.before[i], reads.after[i], reads.outcome[i]) by {
        assert(is_read(device, reads.before[i], reads.after[i], reads.outcome[i]));
    }
    waits
}

/// When the waits come back with `sent`, one report each and in order, so do
/// the reads: each gives the beginning of its own report, as much as its buffer
/// takes, and leaves the rest of the buffer alone. What did not fit into one
/// buffer is not carried into the next.
pub proof fn reads_keep_the_order_of_the_reports(
    sent: Seq<Report>,
    waits: Seq<Result<Report, ReceiveError>>,
    reads: Reads,
)
    requires
        reads.end_with(waits),
        waits.len() == sent.len(),
        forall|i: int|
            0 <= i < sent.len() ==> #[trigger] waits[i] == Ok::<Report, ReceiveError>(sent[i]),
    ensures
        forall|i: int|
            #![trigger reads.outcome[i]]
            0 <= i < sent.len() ==> {
                let len = report::read_len(reads.before[i].len()) as int;
                &&& reads.outcome[i] matches Ok(count) && count == len
                &&& reads.after[i].take(len) == sent[i].data@.take(len)
                &&& reads.after[i].skip(len) == reads.before[i].skip(len)
            },
{
    assert forall|i: int|
        #![trigger reads.outcome[i]]
        0 <= i < sent.len() implies {
        let len = report::read_len(reads.before[i].len()) as int;
        &&& reads.outcome[i] matches Ok(count) && count == len
        &&& reads.after[i].take(len) == sent[i].data@.take(len)
        &&& reads.after[i].skip(len) == reads.before[i].skip(len)
    } by {
        let len = report::read_len(reads.before[i].len()) as int;
        assert(waits[i] == Ok::<Report, ReceiveError>(sent[i]));
        assert(reads.after[i].take(len) =~= sent[i].data@.take(len));
        assert(reads.after[i].skip(len) =~= reads.before[i].skip(len));
    }
}

/// A write loses nothing but a report number of zero: the number and the bytes
/// that go out determine the bytes that were written.
pub proof fn writes_lose_only_the_zero_number(bytes: Seq<u8>)
    requires
        bytes.len() > 0,
    ensures
        bytes[0] != 0 ==> report::payload(bytes) == bytes,
        bytes[0] == 0 ==> seq![0u8] + report::payload(bytes) == bytes,
{
    if bytes[0] == 0 {
        assert(seq![0u8] + report::payload(bytes) =~= bytes);
    }
}

/// A device that was moved to a channel is on that channel, and nothing else
/// about it has changed: not its name, not its reference, not where its reports
/// come from. It is still equal to what it was.
pub proof fn channel_moves_change_only_the_channel(device: Device, cid: [u8; 4], other: [u8; 4])
    ensures
        device.on_channel(cid).device.cid == cid,
        device.on_channel(cid).device.name == device.device.name,
        device.on_channel(cid).device.device_ref == device.device.device_ref,
        device.on_channel(cid).device.report_recv == device.device.report_recv,
        device.on_channel(cid).same_as(device),
        device.on_channel(cid).on_channel(other) == device.on_channel(other),
        device.on_channel(device.device.cid) == device,
{
}

/// Equality of handles is an equivalence, and goes by the whole reference and
/// by nothing else.
pub proof fn equality_is_an_equivalence(a: Device, b: Device, c: Device)
    ensures
        a.same_as(a),
        a.same_as(b) ==> b.same_as(a),
        a.same_as(b) && b.same_as(c) ==> a.same_as(c),
        a.same_as(b) <==> a.device.device_ref == b.device.device_ref,
{
}

/// The outcome of asking whether a device is a U2F device, reading each
/// property that is asked for, until the answer is ready.
pub open spec fn u2f_asked(readings: Readings, properties: Properties) -> bool
    decreases readings.unread(),
{
    match property::u2f_answer(readings) {
        Answer::Ready(is_u2f) => is_u2f,
        Answer::Read(key) => u2f_asked(
            readings.with(key, property::int_property(properties(key))),
            properties,
        ),
    }
}

/// The outcome of asking for a device's name, reading each property that is
/// asked for, until the answer is ready.
pub open spec fn name_asked(readings: Readings, properties: Properties) -> Seq<char>
    decreases readings.unread(),
{
    match property::name_answer(readings) {
        Answer::Ready(name) => name,
        Answer::Read(key) => name_asked(
            readings.with(key, property::int_property(properties(key))),
            properties,
        ),
    }
}

/// The references found by looking at `refs` one after another, when
/// `properties_of` gives each device's properties.
pub open spec fn located_among(
    refs: Seq<IOHIDDeviceRef>,
    properties_of: spec_fn(IOHIDDeviceRef) -> Properties,
) -> Seq<IOHIDDeviceRef>
    decreases refs.len(),
{
    if refs.len() == 0 {
        Seq::empty()
    } else {
        property::located(
            located_among(refs.drop_last(), properties_of),
            refs.last(),
            u2f_asked(Readings::none(), properties_of(refs.last())),
        )
    }
}

/// A property is asked for only where it has not been read, and a primary one
/// only where the device's own was read as
/// [`MISSING`].
pub proof fn asks_only_what_is_needed(readings: Readings, key: PropertyKey)
    requires
        property::u2f_answer(readings) == Answer::<bool>::Read(key) || property::name_answer(readings) == Answer::<
            Seq<char>,
        >::Read(key),
    ensures
        readings.at(key) is None,
        key == PropertyKey::PrimaryUsage ==> readings.device_usage == Some(MISSING),
        key == PropertyKey::PrimaryUsagePage ==> readings.device_usage_page == Some(MISSING),
        property::u2f_answer(readings) == Answer::<bool>::Read(key) ==> key != PropertyKey::VendorId && key
            != PropertyKey::ProductId,
{
}

/// An answer drawn from readings that agree with a device is the device's.
pub proof fn answers_are_the_devices(readings: Readings, properties: Properties)
    requires
        readings.agrees(properties),
    ensures
        property::usage_answer(readings) matches Answer::Ready(value) ==> value == property::usage(properties),
        property::usage_page_answer(readings) matches Answer::Ready(value) ==> value == property::usage_page(properties),
        property::u2f_answer(readings) matches Answer::Ready(value) ==> value == property::is_u2f_by(properties),
        property::name_answer(readings) matches Answer::Ready(value) ==> value == property::name_by(properties),
{
    assert(readings.at(PropertyKey::VendorId) == readings.vendor_id);
    assert(readings.at(PropertyKey::ProductId) == readings.product_id);
    assert(readings.at(PropertyKey::DeviceUsage) == readings.device_usage);
    assert(readings.at(PropertyKey::DeviceUsagePage) == readings.device_usage_page);
    assert(readings.at(PropertyKey::PrimaryUsage) == readings.primary_usage);
    assert(readings.at(PropertyKey::PrimaryUsagePage) == readings.primary_usage_page);
}

/// Reading a property that was asked for keeps the readings in agreement with
/// the device, and leaves one property fewer to read.
pub proof fn reading_what_is_asked_makes_progress(
    readings: Readings,
    key: PropertyKey,
    properties: Properties,
)
    requires
        readings.at(key) is None,
        readings.agrees(properties),
    ensures
        readings.with(key, property::int_property(properties(key))).agrees(properties),
        readings.with(key, property::int_property(properties(key))).unread() + 1
            == readings.unread(),
{
    let next = readings.with(key, property::int_property(properties(key)));
    assert forall|other: PropertyKey| (#[trigger] next.at(other)) is Some implies next.at(other)
        == Some(property::int_property(properties(other))) by {
        if other != key {
            assert(next.at(other) == readings.at(other));
        }
    }
}

/// Asking whether a device is a U2F device, and reading what is asked for, ends
/// with what the device's properties say.
proof fn asking_u2f_from(readings: Readings, properties: Properties)
    requires
        readings.agrees(properties),
    ensures
        u2f_asked(readings, properties) == property::is_u2f_by(properties),
    decreases readings.unread(),
{
    answers_are_the_devices(readings, properties);
    match property::u2f_answer(readings) {
        Answer::Ready(_) => {},
        Answer::Read(key) => {
            asks_only_what_is_needed(readings, key);
            reading_what_is_asked_makes_progress(readings, key, properties);
            asking_u2f_from(
                readings.with(key, property::int_property(properties(key))),
                properties,
            );
        },
    }
}

/// Asking for a device's name, and reading what is asked for, ends with the
/// name that the device's properties give.
proof fn asking_name_from(readings: Readings, properties: Properties)
    requires
        readings.agrees(properties),
    ensures
        name_asked(readings, properties) == property::name_by(properties),
    decreases readings.unread(),
{
    answers_are_the_devices(readings, properties);
    match property::name_answer(readings) {
        Answer::Ready(_) => {},
        Answer::Read(key) => {
            asks_only_what_is_needed(readings, key);
            reading_what_is_asked_makes_progress(readings, key, properties);
            asking_name_from(
                readings.with(key, property::int_property(properties(key))),
                properties,
            );
        },
    }
}

/// Starting from no readings, and reading each property that is asked for, the
/// questions end, with what the device's properties say: whether it is a U2F
/// device, and its name.
pub proof fn asking_ends_with_the_devices_answer(properties: Properties)
    ensures
        u2f_asked(Readings::none(), properties) == property::is_u2f_by(properties),
        name_asked(Readings::none(), properties) == property::name_by(properties),
{
    assert(forall|key: PropertyKey| (#[trigger] Readings::none().at(key)) is None);
    asking_u2f_from(Readings::none(), properties);
    asking_name_from(Readings::none(), properties);
}

/// Looking at devices one after another finds the U2F devices among them: all
/// of them, no other, in the order in which they were looked at.
pub proof fn looking_finds_the_u2f_devices(
    refs: Seq<IOHIDDeviceRef>,
    properties_of: spec_fn(IOHIDDeviceRef) -> Properties,
)
    ensures
        located_among(refs, properties_of) == refs.filter(
            |device_ref: IOHIDDeviceRef| property::is_u2f_by(properties_of(device_ref)),
        ),
    decreases refs.len(),
{
    let keep = |device_ref: IOHIDDeviceRef| property::is_u2f_by(properties_of(device_ref));
    reveal(Seq::filter);
    if refs.len() > 0 {
        looking_finds_the_u2f_devices(refs.drop_last(), properties_of);
        asking_ends_with_the_devices_answer(properties_of(refs.last()));
    }
}

/// The course of opening: the state before each event, and what was to be done
/// after it.
pub struct OpenRun {
    pub states: Seq<OpenState>,
    pub events: Seq<OpenEvent>,
    pub actions: Seq<OpenAction>,
}

impl OpenRun {
    /// Whether opening can take this course.
    pub open spec fn possible(self) -> bool {
        &&& self.states.len() == self.events.len() + 1
        &&& self.actions.len() == self.events.len()
        &&& self.states[0] is Opening
        &&& forall|i: int|
            0 <= i < self.events.len() ==> manager::open_step(
                self.states[i],
                self.events[i],
                self.states[i + 1],
                #[trigger] self.actions[i],
            )
    }

    /// The devices made so far are those of the first references, in order,
    /// each with the name that was read for it and on the broadcast channel;
    /// each was handed to the run loop with the channel end that feeds it and no
    /// other; and no two have one receiver between them.
    pub open spec fn has_made(self, devices: Seq<Device>, device_refs: Seq<IOHIDDeviceRef>) -> bool {
        &&& devices.len() <= device_refs.len()
        &&& self.events.len() >= 3 + 2 * devices.len()
        &&& forall|k: int|
            0 <= k < devices.len() ==> self.has_made_one(#[trigger] devices[k], device_refs[k], k)
        &&& forall|i: int, j: int|
            0 <= i < j < devices.len() ==> (#[trigger] devices[i]).device.report_recv != (
            #[trigger] devices[j]).device.report_recv
    }

    /// The same of the device that was made as number `k`.
    pub open spec fn has_made_one(self, device: Device, device_ref: IOHIDDeviceRef, k: int) -> bool {
        &&& device.device.device_ref == device_ref
        &&& device.device.cid@ == seq![0xffu8, 0xffu8, 0xffu8, 0xffu8]
        &&& manager::is_fresh(device, device_ref)
        &&& self.events[3 + 2 * k] == OpenEvent::DeviceNamed(device.device.name)
        &&& self.events[4 + 2 * k] is DeviceReady
        &&& self.has_handed_over(device, device_ref, k)
    }

    /// The device that was made as number `k` was handed to the run loop with
    /// the channel end that feeds it and no other.
    pub open spec fn has_handed_over(
        self,
        device: Device,
        device_ref: IOHIDDeviceRef,
        k: int,
    ) -> bool {
        &&& self.actions[3 + 2 * k] matches OpenAction::AddDevice(added)
        &&& added.raw_handle == device_ref
        &&& outside::feeds_only(added.report_tx, device.device.report_recv)
    }

    /// Opening began well: the system's manager was opened as `hid_manager`,
    /// the run loop was started on it, and the devices were found through it.
    pub open spec fn has_found(
        self,
        hid_manager: IOHIDManagerRef,
        device_refs: Seq<IOHIDDeviceRef>,
    ) -> bool {
        &&& self.events.len() >= 3
        &&& self.events[0] matches OpenEvent::ManagerOpened { hid_manager: opened, result }
        &&& opened == hid_manager
        &&& result == 0
        &&& self.actions[0] == OpenAction::StartRunLoop(hid_manager)
        &&& self.events[1] is RunLoopStarted
        &&& self.actions[1] == OpenAction::FindDevices(hid_manager)
        &&& self.events[2] matches OpenEvent::DevicesFound(found)
        &&& found@ == device_refs
    }

    /// What the state after `n` events says of those events.
    spec fn explained(self, n: int) -> bool {
        match self.states[n] {
            OpenState::Opening => n == 0,
            OpenState::Starting { hid_manager } => {
                &&& n == 1
                &&& self.events[0] matches OpenEvent::ManagerOpened { hid_manager: m, result }
                &&& m == hid_manager
                &&& result == 0
                &&& self.actions[0] == OpenAction::StartRunLoop(hid_manager)
            },
            OpenState::Finding { hid_manager } => {
                &&& n == 2
                &&& self.events[0] matches OpenEvent::ManagerOpened { hid_manager: m, result }
                &&& m == hid_manager
                &&& result == 0
                &&& self.actions[0] == OpenAction::StartRunLoop(hid_manager)
                &&& self.events[1] is RunLoopStarted
                &&& self.actions[1] == OpenAction::FindDevices(hid_manager)
            },
            OpenState::Naming { hid_manager, device_refs, devices } => {
                &&& n == 3 + 2 * devices@.len()
                &&& self.has_found(hid_manager, device_refs@)
                &&& self.has_made(devices@, device_refs@)
            },
            OpenState::Readying { hid_manager, device_refs, devices, device } => {
                &&& n == 4 + 2 * devices@.len()
                &&& devices@.len() < device_refs@.len()
                &&& self.has_found(hid_manager, device_refs@)
                &&& self.has_made(devices@, device_refs@)
                &&& manager::is_fresh(device, device_refs@[devices@.len() as int])
                &&& manager::has_own_receiver(device, devices@)
                &&& self.events[(3 + 2 * devices@.len()) as int] == OpenEvent::DeviceNamed(
                    device.device.name,
                )
                &&& self.has_handed_over(
                    device,
                    device_refs@[devices@.len() as int],
                    devices@.len() as int,
                )
            },
            OpenState::Ended => n > 0 && match self.actions[n - 1] {
                OpenAction::Fail(error) => self.has_failed(error) && n == 1,
                OpenAction::Finish(manager) => self.has_finished(manager, n),
                _ => false,
            },
        }
    }

    /// The system's manager could not be opened, for the reason that `error` gives.
    pub open spec fn has_failed(self, error: DeviceError) -> bool {
        &&& self.events.len() >= 1
        &&& self.events[0] matches OpenEvent::ManagerOpened { hid_manager, result }
        &&& result != 0
        &&& error == DeviceError::Os(result)
    }

    /// After `n` events the manager was open, over all the devices that were found.
    pub open spec fn has_finished(self, manager: PlatformManager, n: int) -> bool {
        &&& self.events.len() >= 3
        &&& self.events[2] matches OpenEvent::DevicesFound(found)
        &&& self.has_found(manager.handle(), found@)
        &&& manager.devices().len() == found@.len()
        &&& self.has_made(manager.devices(), found@)
        &&& n == 3 + 2 * found@.len()
    }
}

/// Each state of a possible course is explained by the events before it.
proof fn states_are_explained(run: OpenRun, n: int)
    requires
        run.possible(),
        0 <= n <= run.events.len(),
    ensures
        run.explained(n),
        run.states[n].wf(),
    decreases n,
{
    if n > 0 {
        states_are_explained(run, n - 1);
        let _ = run.actions[n - 1];
    }
}

/// Opening ends only after its last event: with the manager open over exactly
/// the devices that were found, in order, each with the name that was read for
/// it, on the broadcast channel, and handed to the run loop with the channel
/// end that feeds it and no other; or, right after its first event, with the error for which
/// the system's manager could not be opened. Once the devices have been found,
/// it ends after two more events for each of them, and not before.
pub proof fn opening_ends_as_the_events_say(run: OpenRun)
    requires
        run.possible(),
        run.events.len() > 0,
    ensures
        forall|i: int|
            0 <= i < run.events.len() - 1 ==> !((#[trigger] run.actions[i]) is Finish)
                && !(run.actions[i] is Fail),
        match run.actions.last() {
            OpenAction::Finish(manager) => run.has_finished(manager, run.events.len() as int),
            OpenAction::Fail(error) => run.has_failed(error) && run.events.len() == 1,
            _ => true,
        },
        (run.events[0] matches OpenEvent::ManagerOpened { result, .. } && result != 0)
            ==> run.events.len() == 1 && run.actions[0] is Fail,
        run.events.len() >= 3 ==> (run.events[2] matches OpenEvent::DevicesFound(found) && {
            &&& run.events.len() <= 3 + 2 * found@.len()
            &&& run.actions.last() is Finish <==> run.events.len() == 3 + 2 * found@.len()
        }),
{
    let n = run.events.len() as int;
    states_are_explained(run, n);
    assert forall|i: int| 0 <= i < n - 1 implies !((#[trigger] run.actions[i]) is Finish) && !(
    run.actions[i] is Fail) by {
        let _ = run.actions[i + 1];
    }
    let _ = run.actions[0];
    let _ = run.actions[n - 1];
    if n > 1 {
        let _ = run.actions[1];
    }
}

/// In every course of opening, the device whose name is asked for as number `k`
/// is the one that was found as number `k`; and the device that is handed to the
/// run loop once the name has come is that same one.
pub proof fn names_are_asked_of_the_devices_found(run: OpenRun, k: int)
    requires
        run.possible(),
        0 <= k,
        2 + 2 * k < run.events.len(),
    ensures
        run.events[2] matches OpenEvent::DevicesFound(found) && {
            &&& k <= found@.len()
            &&& k < found@.len() ==> run.actions[2 + 2 * k] == OpenAction::NameDevice(found@[k])
            &&& 3 + 2 * k < run.events.len() ==> {
                &&& k < found@.len()
                &&& run.events[3 + 2 * k] is DeviceNamed
                &&& run.actions[3 + 2 * k] matches OpenAction::AddDevice(added)
                &&& added.raw_handle == found@[k]
            }
        },
{
    states_are_explained(run, 2 + 2 * k);
    states_are_explained(run, 3 + 2 * k);
    let _ = run.actions[2 + 2 * k];
    if 3 + 2 * k < run.events.len() {
        states_are_explained(run, 4 + 2 * k);
        let _ = run.actions[3 + 2 * k];
    }
}

/// Each key of an opened manager has the name that came back when that very
/// device was asked for its name, and was itself handed to the run loop.
pub proof fn keys_bear_the_names_that_they_gave(run: OpenRun, manager: PlatformManager, k: int)
    requires
        run.possible(),
        run.events.len() > 0,
        run.actions.last() == OpenAction::Finish(manager),
        0 <= k < manager.devices().len(),
    ensures
        3 + 2 * k < run.events.len(),
        run.actions[2 + 2 * k] == OpenAction::NameDevice(manager.devices()[k].device.device_ref),
        run.events[3 + 2 * k] == OpenEvent::DeviceNamed(manager.devices()[k].device.name),
        run.actions[3 + 2 * k] matches OpenAction::AddDevice(added) && added.raw_handle
            == manager.devices()[k].device.device_ref,
{
    opening_ends_as_the_events_say(run);
    let _ = manager.devices()[k];
    names_are_asked_of_the_devices_found(run, k);
}

/// Opening never gets stuck: it starts with whatever came of opening the
/// system's manager, and what is to be done next can always come back with
/// anything that it can come to, whichever devices and whichever names these are.
pub proof fn opening_goes_on_from_everywhere(
    run: OpenRun,
    hid_manager: IOHIDManagerRef,
    result: i32,
    found: Vec<IOHIDDeviceRef>,
    name: String,
)
    requires
        run.possible(),
    ensures
        run.states.last().wf(),
        run.events.len() == 0 ==> run.states.last().awaits(
            OpenEvent::ManagerOpened { hid_manager, result },
        ),
        run.events.len() > 0 ==> match run.actions.last() {
            OpenAction::StartRunLoop(_) => run.states.last().awaits(OpenEvent::RunLoopStarted),
            OpenAction::FindDevices(_) => run.states.last().awaits(OpenEvent::DevicesFound(found)),
            OpenAction::NameDevice(_) => run.states.last().awaits(OpenEvent::DeviceNamed(name)),
            OpenAction::AddDevice(_) => run.states.last().awaits(OpenEvent::DeviceReady),
            OpenAction::Finish(_) | OpenAction::Fail(_) => run.states.last() is Ended,
        },
{
    let n = run.events.len() as int;
    states_are_explained(run, n);
    if n > 0 {
        let _ = run.actions[n - 1];
    }
}

/// Every device that an opened manager hands out is one that was found, on the
/// broadcast channel; and none that was found is missing.
pub proof fn keys_are_the_devices_found(run: OpenRun, manager: PlatformManager)
    requires
        run.possible(),
        run.events.len() > 0,
        run.actions.last() == OpenAction::Finish(manager),
    ensures
        run.events[2] matches OpenEvent::DevicesFound(found) && manager.devices().map_values(
            |key: Device| key.device.device_ref,
        ) == found@,
        forall|i: int|
            0 <= i < manager.devices().len() ==> (#[trigger] manager.devices()[i]).device.cid
                == CID_BROADCAST && manager.devices()[i].device.cid@ == seq![
                0xffu8,
                0xffu8,
                0xffu8,
                0xffu8,
            ],
{
    opening_ends_as_the_events_say(run);
    if let OpenEvent::DevicesFound(found) = run.events[2] {
        let refs = manager.devices().map_values(|key: Device| key.device.device_ref);
        assert forall|i: int| 0 <= i < found@.len() implies refs[i] == found@[i] by {
            let _ = manager.devices()[i];
        }
        assert(refs =~= found@);
    }
}

/// When no device was found twice, no two keys of an opened manager are equal.
/// And each device has a channel of its own: the channel end with which one
/// device was handed to the run loop feeds that device and no other.
pub proof fn keys_are_apart(run: OpenRun, manager: PlatformManager, i: int, j: int)
    requires
        run.possible(),
        run.events.len() > 0,
        run.actions.last() == OpenAction::Finish(manager),
        0 <= i < manager.devices().len(),
        0 <= j < manager.devices().len(),
        i != j,
    ensures
        (run.events[2] matches OpenEvent::DevicesFound(found) && found@.no_duplicates())
            ==> !manager.devices()[i].same_as(manager.devices()[j]),
        run.actions[3 + 2 * i] matches OpenAction::AddDevice(added) && {
            &&& outside::feeds(added.report_tx, manager.devices()[i].device.report_recv)
            &&& !outside::feeds(added.report_tx, manager.devices()[j].device.report_recv)
        },
{
    opening_ends_as_the_events_say(run);
    let _ = manager.devices()[i];
    let _ = manager.devices()[j];
}

/// When the devices that were found are those that looking at `refs` finds, and
/// each was given the name that asking it gives, an opened manager holds exactly
/// the U2F devices among `refs`, in order, each under its own name.
pub proof fn opened_managers_hold_the_u2f_devices(
    run: OpenRun,
    manager: PlatformManager,
    refs: Seq<IOHIDDeviceRef>,
    properties_of: spec_fn(IOHIDDeviceRef) -> Properties,
)
    requires
        run.possible(),
        run.events.len() > 0,
        run.actions.last() == OpenAction::Finish(manager),
        run.events[2] matches OpenEvent::DevicesFound(found) ==> found@ == located_among(
            refs,
            properties_of,
        ),
        forall|k: int|
            0 <= k < manager.devices().len() ==> (#[trigger] run.events[3
                + 2 * k] matches OpenEvent::DeviceNamed(name) ==> name@ == name_asked(
                Readings::none(),
                properties_of(located_among(refs, properties_of)[k]),
            )),
    ensures
        manager.devices().map_values(|key: Device| key.device.device_ref) == refs.filter(
            |device_ref: IOHIDDeviceRef| property::is_u2f_by(properties_of(device_ref)),
        ),
        forall|k: int|
            0 <= k < manager.devices().len() ==> (#[trigger] manager.devices()[k]).device.name@
                == property::name_by(properties_of(manager.devices()[k].device.device_ref)),
{
    opening_ends_as_the_events_say(run);
    keys_are_the_devices_found(run, manager);
    looking_finds_the_u2f_devices(refs, properties_of);
    assert forall|k: int| 0 <= k < manager.devices().len() implies (
    #[trigger] manager.devices()[k]).device.name@ == property::name_by(
        properties_of(manager.devices()[k].device.device_ref),
    ) by {
        let _ = run.events[3 + 2 * k];
        asking_ends_with_the_devices_answer(properties_of(manager.devices()[k].device.device_ref));
    }
}

/// Whether `event` is what the thread can come back with from `action`.
pub open spec fn comes_of(event: LoopEvent, action: LoopAction) -> bool {
    match action {
        LoopAction::Poll => event is Polled,
        LoopAction::Attach(_) => event is Attached,
        LoopAction::Run => event is Ran,
        LoopAction::Stop => false,
    }
}

/// Whether the thread can come back with these events, one after another.
pub open spec fn is_course(events: Seq<LoopEvent>) -> bool {
    &&& events.len() > 0
    &&& events[0] is Started
    &&& forall|i: int|
        0 <= i < events.len() - 1 ==> comes_of(
            events[i + 1],
            run_loop::after(#[trigger] events[i]),
        )
}

/// The thread ends exactly when the system's run loop was stopped, and nothing
/// follows.
pub proof fn the_thread_ends_when_stopped(events: Seq<LoopEvent>, i: int)
    requires
        is_course(events),
        0 <= i < events.len(),
    ensures
        run_loop::after(events[i]) is Stop <==> events[i] == LoopEvent::Ran(2),
        run_loop::after(events[i]) is Stop ==> i == events.len() - 1,
{
}

/// A device that was added is listened to before the system's run loop runs
/// again; and each time that the run loop returns without having been stopped,
/// the thread looks for one more device.
pub proof fn added_devices_are_attached_before_running(events: Seq<LoopEvent>, i: int)
    requires
        is_course(events),
        0 <= i < events.len(),
    ensures
        events[i] matches LoopEvent::Polled(Some(device_ref)) ==> {
            &&& run_loop::after(events[i]) == LoopAction::Attach(device_ref)
            &&& i + 1 < events.len() ==> events[i + 1] is Attached
            &&& i + 2 < events.len() ==> events[i + 2] is Ran
        },
        events[i] == LoopEvent::Polled(None) && i + 1 < events.len() ==> events[i + 1] is Ran,
        (events[i] matches LoopEvent::Ran(code) && code != 2) && i + 1
            < events.len() ==> events[i + 1] is Polled,
{
    let _ = events[i];
    if i + 1 < events.len() {
        let _ = events[i + 1];
    }
}

/// The thread first looks for a device. Whenever it has come back from
/// something, what it does next is one thing for each thing that it came back
/// with: it attaches the very device that it was given, runs when there is none
/// or when it has attached one, and looks again when the run loop returned any
/// code but that of being stopped.
pub proof fn the_thread_does_what_its_event_asks(device_ref: IOHIDDeviceRef, code: i32)
    ensures
        run_loop::after(LoopEvent::Started) == LoopAction::Poll,
        run_loop::after(LoopEvent::Polled(Some(device_ref))) == LoopAction::Attach(device_ref),
        run_loop::after(LoopEvent::Polled(None)) == LoopAction::Run,
        run_loop::after(LoopEvent::Attached) == LoopAction::Run,
        code == 2 ==> run_loop::after(LoopEvent::Ran(code)) == LoopAction::Stop,
        code != 2 ==> run_loop::after(LoopEvent::Ran(code)) == LoopAction::Poll,
{
}

} // verus!
