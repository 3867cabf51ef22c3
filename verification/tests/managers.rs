use u2fhid::{
    is_u2f_device, locate_hid_devices_cb, next_action, open_platform_manager, AddedDevice, Answer,
    DeviceError, LoopAction, LoopEvent, OpenAction, OpenEvent, OpenState, PlatformManager,
    Property, PropertyKey, Readings, Report, CID_BROADCAST,
};

/// Opens a manager over the given devices, and says what was handed to the run loop.
fn open(device_refs: Vec<u64>) -> (PlatformManager, Vec<AddedDevice>) {
    let mut added_devices = Vec::new();
    let mut state = OpenState::Opening;
    let mut event = OpenEvent::ManagerOpened { hid_manager: 0xabc, result: 0 };
    loop {
        let (next, action) = open_platform_manager(state, event);
        state = next;
        event = match action {
            OpenAction::StartRunLoop(hid_manager) => {
                assert_eq!(hid_manager, 0xabc);
                OpenEvent::RunLoopStarted
            }
            OpenAction::FindDevices(hid_manager) => {
                assert_eq!(hid_manager, 0xabc);
                OpenEvent::DevicesFound(device_refs.clone())
            }
            OpenAction::NameDevice(device_ref) => {
                OpenEvent::DeviceNamed(format!("key {}", device_ref))
            }
            OpenAction::AddDevice(added) => {
                added_devices.push(added);
                OpenEvent::DeviceReady
            }
            OpenAction::Finish(manager) => return (manager, added_devices),
            OpenAction::Fail(error) => panic!("{:?}", error),
        };
    }
}

#[test]
fn a_manager_that_cannot_be_opened() {
    let event = OpenEvent::ManagerOpened { hid_manager: 1, result: -536870203 };
    let (state, action) = open_platform_manager(OpenState::Opening, event);
    assert!(matches!(state, OpenState::Ended));
    assert!(matches!(action, OpenAction::Fail(DeviceError::Os(-536870203))));
}

#[test]
fn a_manager_without_devices() {
    let (manager, added_devices) = open(vec![]);
    assert_eq!(manager.hid_manager, 0xabc);
    assert!(manager.find_keys().unwrap().is_empty());
    assert!(added_devices.is_empty());
}

#[test]
fn a_manager_knows_the_devices_that_were_found() {
    let (manager, added_devices) = open(vec![30, 10, 20]);
    let keys = manager.find_keys().unwrap();
    assert_eq!(keys.len(), 3);
    for (key, device_ref) in keys.iter().zip([30u64, 10, 20]) {
        assert_eq!(key.device.device_ref, device_ref);
        assert_eq!(key.device.name, format!("key {}", device_ref));
        assert_eq!(key.get_cid(), CID_BROADCAST);
    }
    let handles: Vec<u64> = added_devices.iter().map(|added| added.raw_handle).collect();
    assert_eq!(handles, vec![30, 10, 20]);
    assert!(manager.find_keys().unwrap() == keys);
}

#[test]
fn reports_reach_the_device_that_sent_them() {
    let (manager, added_devices) = open(vec![7, 8]);
    added_devices[1].report_tx.send(Report::from_input(&[88])).unwrap();
    added_devices[0].report_tx.send(Report::from_input(&[77])).unwrap();
    let mut keys = manager.find_keys().unwrap();
    let mut bytes = [0u8; 1];
    assert_eq!(keys[0].read(&mut bytes), Ok(1));
    assert_eq!(bytes, [77]);
    assert_eq!(keys[1].read(&mut bytes), Ok(1));
    assert_eq!(bytes, [88]);
}

#[test]
fn a_report_reaches_no_other_device() {
    let (manager, mut added_devices) = open(vec![7, 8]);
    let other = added_devices.pop();
    added_devices[0].report_tx.send(Report::from_input(&[77])).unwrap();
    drop(other);
    let mut keys = manager.find_keys().unwrap();
    let mut bytes = [0u8; 1];
    assert_eq!(keys[1].read(&mut bytes), Err(DeviceError::UnexpectedEof));
    assert_eq!(keys[0].read(&mut bytes), Ok(1));
    assert_eq!(bytes, [77]);
}

#[test]
fn keys_of_different_devices_are_apart() {
    let (manager, _added_devices) = open(vec![7, 8, 9]);
    let keys = manager.find_keys().unwrap();
    assert!(keys[0] != keys[1]);
    assert!(keys[1] != keys[2]);
    assert!(keys[0] != keys[2]);
}

#[test]
fn a_manager_holds_the_u2f_devices_that_were_looked_at() {
    let mut found = Vec::new();
    for device_ref in 1..=6u64 {
        let mut readings = Readings::new();
        let usage = if device_ref % 2 == 0 { 1 } else { 6 };
        readings.record(PropertyKey::DeviceUsage, Property::Number(usage));
        readings.record(PropertyKey::DeviceUsagePage, Property::Number(0xf1d0));
        let is_u2f = matches!(is_u2f_device(&readings), Answer::Ready(true));
        locate_hid_devices_cb(&mut found, device_ref, is_u2f);
    }
    let (manager, _added_devices) = open(found);
    let keys = manager.find_keys().unwrap();
    let refs: Vec<u64> = keys.iter().map(|key| key.device.device_ref).collect();
    assert_eq!(refs, vec![2, 4, 6]);
}

#[test]
fn keys_share_their_device_with_the_manager() {
    let (manager, _added_devices) = open(vec![7]);
    let mut keys = manager.find_keys().unwrap();
    assert!(!keys[0].set_cid(&[1, 2, 3, 4]));
    drop(manager);
    assert!(keys[0].set_cid(&[1, 2, 3, 4]));
}

#[test]
fn closing() {
    let (manager, _added_devices) = open(vec![]);
    assert_eq!(manager.close(0), Ok(()));
    assert_eq!(manager.close(5), Err(DeviceError::Os(5)));
}

#[test]
fn the_run_loop_polls_and_runs_until_stopped() {
    assert_eq!(next_action(LoopEvent::Started), LoopAction::Poll);
    assert_eq!(next_action(LoopEvent::Polled(None)), LoopAction::Run);
    for code in [
        core_foundation_sys::runloop::kCFRunLoopRunFinished,
        core_foundation_sys::runloop::kCFRunLoopRunTimedOut,
        core_foundation_sys::runloop::kCFRunLoopRunHandledSource,
        0,
        -2,
    ] {
        assert_eq!(next_action(LoopEvent::Ran(code)), LoopAction::Poll);
    }
    let stopped = core_foundation_sys::runloop::kCFRunLoopRunStopped;
    assert_eq!(next_action(LoopEvent::Ran(stopped)), LoopAction::Stop);
}

#[test]
fn the_run_loop_attaches_a_device_before_it_runs() {
    assert_eq!(next_action(LoopEvent::Polled(Some(42))), LoopAction::Attach(42));
    assert_eq!(next_action(LoopEvent::Attached), LoopAction::Run);
}
