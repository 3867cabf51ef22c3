use std::sync::mpsc::{channel, Sender};
use std::sync::Arc;

use u2fhid::{
    assign_cid, Device, DeviceError, InternalDevice, Report, CID_BROADCAST, READ_TIMEOUT,
};

fn device(name: &str, device_ref: u64) -> (Device, Sender<Report>) {
    let (report_tx, report_recv) = channel();
    let device = InternalDevice {
        name: name.to_string(),
        device_ref,
        cid: CID_BROADCAST,
        report_recv,
    };
    (Device { device: Arc::new(device) }, report_tx)
}

#[test]
fn shown_with_reference_and_channel() {
    let (mut key, _report_tx) = device("Vendor=1 Product=2 Page=3 Usage=4", 0x7fa0_1234_5678);
    assert_eq!(
        key.to_string(),
        "Device(InternalDevice(Vendor=1 Product=2 Page=3 Usage=4, ref:0x7fa012345678, \
         cid: ffffffff))"
    );
    assert!(key.set_cid(&[0, 0x0a, 0xb0, 0xff]));
    assert_eq!(
        key.device.to_string(),
        "InternalDevice(Vendor=1 Product=2 Page=3 Usage=4, ref:0x7fa012345678, cid: 000ab0ff)"
    );
}

#[test]
fn shown_like_an_address() {
    for device_ref in [0u64, 1, 15, 16, 255, 256, 0xdead_beef, u64::MAX] {
        let (key, _report_tx) = device("", device_ref);
        let expected = format!("InternalDevice(, ref:{:#x}, cid: ffffffff)", device_ref);
        assert_eq!(key.device.to_string(), expected);
    }
}

#[test]
fn equality_goes_by_the_reference_alone() {
    let (a, _a_tx) = device("a", 1);
    let (b, _b_tx) = device("b", 1);
    let (c, _c_tx) = device("a", 2);
    assert!(a == a);
    assert!(a == b);
    assert!(b == a);
    assert!(a != c);
}

#[test]
fn clones_are_handles_on_the_same_device() {
    let (a, _a_tx) = device("a", 1);
    let b = a.clone();
    assert!(a == b);
    assert!(Arc::ptr_eq(&a.device, &b.device));
}

#[test]
fn the_channel_can_be_set_and_read_back() {
    let (mut key, _report_tx) = device("key", 9);
    assert_eq!(key.get_cid(), [0xff, 0xff, 0xff, 0xff]);
    assert!(key.set_cid(&[1, 2, 3, 4]));
    assert_eq!(key.get_cid(), [1, 2, 3, 4]);
    assert_eq!(key.device.name, "key");
    assert_eq!(key.device.device_ref, 9);
    assert!(key.set_cid(&[5, 6, 7, 8]));
    assert_eq!(key.get_cid(), [5, 6, 7, 8]);
}

#[test]
fn the_channel_of_a_shared_device_cannot_be_set() {
    let (mut key, _report_tx) = device("key", 9);
    let other = key.clone();
    assert!(!key.set_cid(&[1, 2, 3, 4]));
    assert_eq!(key.get_cid(), CID_BROADCAST);
    drop(other);
    assert!(key.set_cid(&[1, 2, 3, 4]));
    assert_eq!(key.get_cid(), [1, 2, 3, 4]);
}

#[test]
fn a_channel_is_assigned_only_to_a_device_that_was_lent() {
    let (_report_tx, report_recv) = channel();
    let mut device = InternalDevice {
        name: String::new(),
        device_ref: 3,
        cid: CID_BROADCAST,
        report_recv,
    };
    assert!(!assign_cid(None, &[1, 1, 1, 1]));
    assert!(assign_cid(Some(&mut device), &[1, 1, 1, 1]));
    assert_eq!(device.cid, [1, 1, 1, 1]);
    assert_eq!(device.device_ref, 3);
}

#[test]
fn reads_give_reports_in_the_order_in_which_they_were_sent() {
    let (mut key, report_tx) = device("key", 9);
    report_tx.send(Report::from_input(&[1])).unwrap();
    report_tx.send(Report::from_input(&[2])).unwrap();
    let mut bytes = [0xffu8; 64];
    assert_eq!(key.read(&mut bytes), Ok(64));
    assert_eq!(bytes[0], 1);
    assert_eq!(&bytes[1..], &[0u8; 63]);
    let mut bytes = [0xffu8; 1];
    assert_eq!(key.read(&mut bytes), Ok(1));
    assert_eq!(bytes, [2]);
}

#[test]
fn reads_end_when_the_sender_is_gone() {
    let (mut key, report_tx) = device("key", 9);
    report_tx.send(Report::from_input(&[1])).unwrap();
    drop(report_tx);
    let mut bytes = [0u8; 4];
    assert_eq!(key.read(&mut bytes), Ok(4));
    assert_eq!(bytes, [1, 0, 0, 0]);
    assert_eq!(key.read(&mut bytes), Err(DeviceError::UnexpectedEof));
    assert_eq!(bytes, [1, 0, 0, 0]);
}

#[test]
fn reads_time_out() {
    let (mut key, _report_tx) = device("key", 9);
    let mut bytes = [3u8; 4];
    let start = std::time::Instant::now();
    assert_eq!(key.read(&mut bytes), Err(DeviceError::TimedOut));
    assert!(start.elapsed().as_secs() >= READ_TIMEOUT - 1);
    assert_eq!(bytes, [3, 3, 3, 3]);
}

#[test]
fn writes_go_to_the_device_as_output() {
    let (key, _report_tx) = device("key", 9);
    let request = key.write(&[0, 4, 5]);
    assert_eq!(request.device_ref, 9);
    assert_eq!(request.report_type, 1);
    assert_eq!(request.report_id, 0);
    assert_eq!(request.data, &[4, 5]);
}

#[test]
fn flushing_does_nothing() {
    let (mut key, _report_tx) = device("key", 9);
    assert_eq!(key.flush(), Ok(()));
    assert_eq!(key.get_cid(), CID_BROADCAST);
}

#[test]
fn what_does_not_fit_is_not_carried_into_the_next_read() {
    let (mut key, report_tx) = device("key", 9);
    for first in [10u8, 20, 30] {
        report_tx.send(Report::from_input(&[first, first + 1, first + 2])).unwrap();
    }
    drop(report_tx);
    let mut one = [0u8; 1];
    assert_eq!(key.read(&mut one), Ok(1));
    assert_eq!(one, [10]);
    let mut none: [u8; 0] = [];
    assert_eq!(key.read(&mut none), Ok(0));
    let mut two = [0u8; 2];
    assert_eq!(key.read(&mut two), Ok(2));
    assert_eq!(two, [30, 31]);
    assert_eq!(key.read(&mut two), Err(DeviceError::UnexpectedEof));
}
