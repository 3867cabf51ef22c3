use u2fhid::{
    check_result, finish_read, input_len, set_report, DeviceError, ReceiveError, Report,
    HID_RPT_SIZE, REPORT_TYPE_OUTPUT,
};

#[test]
fn input_is_padded_with_zeros() {
    let report = Report::from_input(&[1, 2, 3]);
    assert_eq!(report.data.len(), HID_RPT_SIZE);
    assert_eq!(&report.data[..3], &[1, 2, 3]);
    assert!(report.data[3..].iter().all(|b| *b == 0));
}

#[test]
fn empty_input_is_all_zeros() {
    assert_eq!(Report::from_input(&[]).data, [0u8; 64]);
}

#[test]
fn full_input_is_kept_whole() {
    let sent: Vec<u8> = (1..=64).collect();
    assert_eq!(&Report::from_input(&sent).data[..], &sent[..]);
}

#[test]
fn too_long_input_is_all_zeros() {
    assert_eq!(Report::from_input(&[7u8; 65]).data, [0u8; 64]);
}

#[test]
fn announced_lengths() {
    assert_eq!(input_len(0), 0);
    assert_eq!(input_len(1), 1);
    assert_eq!(input_len(64), 64);
    assert_eq!(input_len(65), 0);
    assert_eq!(input_len(isize::MAX), 0);
    assert_eq!(input_len(-1), 0);
    assert_eq!(input_len(isize::MIN), 0);
}

#[test]
fn bytes_that_are_not_taken_do_not_matter() {
    let mut len: usize = 0;
    while len < 70 {
        let announced: Vec<u8> = vec![9; len];
        let taken = &announced[..input_len(len as isize)];
        assert_eq!(Report::from_input(taken).data, Report::from_input(&announced).data);
        len += 1;
    }
}

#[test]
fn read_into_a_large_buffer_gives_back_what_was_sent() {
    let sent: Vec<u8> = (100..150).collect();
    let mut bytes = [0xaau8; 70];
    assert_eq!(finish_read(Ok(Report::from_input(&sent)), &mut bytes), Ok(64));
    assert_eq!(&bytes[..50], &sent[..]);
    assert_eq!(&bytes[50..64], &[0u8; 14]);
    assert_eq!(&bytes[64..], &[0xaau8; 6]);
}

#[test]
fn read_into_a_small_buffer_gives_the_beginning() {
    let mut bytes = [0u8; 2];
    assert_eq!(finish_read(Ok(Report::from_input(&[5, 6, 7])), &mut bytes), Ok(2));
    assert_eq!(bytes, [5, 6]);
}

#[test]
fn read_into_an_empty_buffer_gives_nothing() {
    let mut bytes: [u8; 0] = [];
    assert_eq!(finish_read(Ok(Report::from_input(&[5])), &mut bytes), Ok(0));
}

#[test]
fn failed_reads_leave_the_buffer_alone() {
    let mut bytes = [1u8, 2, 3];
    assert_eq!(
        finish_read(Err(ReceiveError::Timeout), &mut bytes),
        Err(DeviceError::TimedOut)
    );
    assert_eq!(
        finish_read(Err(ReceiveError::Disconnected), &mut bytes),
        Err(DeviceError::UnexpectedEof)
    );
    assert_eq!(bytes, [1, 2, 3]);
}

#[test]
fn unnumbered_reports_go_out_without_the_number() {
    let request = set_report(0x77, REPORT_TYPE_OUTPUT, &[0, 1, 2]);
    assert_eq!(request.device_ref, 0x77);
    assert_eq!(request.report_type, 1);
    assert_eq!(request.report_id, 0);
    assert_eq!(request.data, &[1, 2]);
    assert_eq!(request.outcome(0), Ok(2));
}

#[test]
fn numbered_reports_go_out_whole() {
    let request = set_report(1, 2, &[3, 1, 2]);
    assert_eq!(request.report_type, 2);
    assert_eq!(request.report_id, 3);
    assert_eq!(request.data, &[3, 1, 2]);
    assert_eq!(request.outcome(0), Ok(3));
}

#[test]
fn a_lone_zero_sends_nothing() {
    let request = set_report(1, 1, &[0]);
    assert!(request.data.is_empty());
    assert_eq!(request.outcome(0), Ok(0));
}

#[test]
fn writes_lose_only_the_zero_number() {
    let unnumbered = [0u8, 9, 8];
    let mut whole = vec![0u8];
    whole.extend_from_slice(set_report(1, 1, &unnumbered).data);
    assert_eq!(whole, unnumbered);
    let numbered = [255u8, 9, 8];
    assert_eq!(set_report(1, 1, &numbered).data, &numbered);
}

#[test]
fn refused_reports_carry_the_code() {
    let request = set_report(1, 1, &[0, 1]);
    assert_eq!(request.outcome(-536870206), Err(DeviceError::Os(-536870206)));
    assert_eq!(request.outcome(5), Err(DeviceError::Os(5)));
}

#[test]
fn only_the_kernels_success_code_is_success() {
    assert_eq!(check_result(mach::kern_return::KERN_SUCCESS, 'x'), Ok('x'));
    assert_eq!(
        check_result(mach::kern_return::KERN_FAILURE, 'x'),
        Err(DeviceError::Os(mach::kern_return::KERN_FAILURE))
    );
    assert_eq!(check_result(-1, 'x'), Err(DeviceError::Os(-1)));
}
