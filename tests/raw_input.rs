use raw_mouse_input::{
    classify, decode, interpret, mouse_registration, pump_event, read_i32, read_u16, read_u32,
    read_u64, receive_motion, registration_outcome, DeviceData, EventLoop, LoopAction, LoopState,
    MotionEvent, PumpEvent, RegistrationError, WindowMessage, HID_USAGE_GENERIC_MOUSE,
    HID_USAGE_PAGE_GENERIC, HEADER_LEN, MOUSE_MOVE_ABSOLUTE, RECORD_LEN, RIM_TYPEHID,
    RIM_TYPEKEYBOARD, RIM_TYPEMOUSE, STATUS_ERROR, WM_DESTROY, WM_INPUT,
};

fn put(buf: &mut Vec<u8>, at: usize, bytes: &[u8]) {
    buf[at..at + bytes.len()].copy_from_slice(bytes);
}

/// A record as the OS lays it out, with the given tag and pointer fields.
fn record(device_type: u32, flags: u16, x: i32, y: i32) -> Vec<u8> {
    let mut b = vec![0u8; RECORD_LEN];
    put(&mut b, 0, &device_type.to_le_bytes());
    put(&mut b, 4, &(RECORD_LEN as u32).to_le_bytes());
    put(&mut b, 8, &0x1122_3344_5566_7788u64.to_le_bytes());
    put(&mut b, 16, &1u64.to_le_bytes());
    put(&mut b, 24, &flags.to_le_bytes());
    put(&mut b, 28, &0x0400u16.to_le_bytes());
    put(&mut b, 30, &0xFF88u16.to_le_bytes());
    put(&mut b, 32, &7u32.to_le_bytes());
    put(&mut b, 36, &x.to_le_bytes());
    put(&mut b, 40, &y.to_le_bytes());
    put(&mut b, 44, &0xDEAD_BEEFu32.to_le_bytes());
    b
}

#[test]
fn relative_motion_is_reported_unmodified() {
    let b = record(RIM_TYPEMOUSE, 0, 5, -3);
    let e = receive_motion(RECORD_LEN as u32, &b);
    assert_eq!(
        e,
        Some(MotionEvent { delta_x: 5, delta_y: -3, is_absolute: false, raw_flags: 0 })
    );
}

#[test]
fn absolute_motion_is_flagged() {
    let b = record(RIM_TYPEMOUSE, MOUSE_MOVE_ABSOLUTE, 100, 200);
    let e = receive_motion(RECORD_LEN as u32, &b);
    assert_eq!(
        e,
        Some(MotionEvent { delta_x: 100, delta_y: 200, is_absolute: true, raw_flags: 1 })
    );
}

#[test]
fn absolute_bit_among_other_flags() {
    let b = record(RIM_TYPEMOUSE, 0x0003, -1, i32::MIN);
    let e = receive_motion(RECORD_LEN as u32, &b).unwrap();
    assert!(e.is_absolute);
    assert_eq!((e.delta_x, e.delta_y, e.raw_flags), (-1, i32::MIN, 3));
}

#[test]
fn non_relative_flags_other_than_absolute_stay_relative() {
    let b = record(RIM_TYPEMOUSE, 0x0002, i32::MAX, 0);
    let e = receive_motion(RECORD_LEN as u32, &b).unwrap();
    assert!(!e.is_absolute);
    assert_eq!((e.delta_x, e.delta_y, e.raw_flags), (i32::MAX, 0, 2));
}

#[test]
fn other_device_classes_yield_no_event_and_the_loop_goes_on() {
    for tag in [RIM_TYPEKEYBOARD, RIM_TYPEHID, 77] {
        let b = record(tag, 0, 5, -3);
        let p = decode(RECORD_LEN as u32, &b).unwrap();
        assert_eq!(p.header.device_type, tag);
        assert_eq!(p.data, DeviceData::Other);
        assert_eq!(interpret(&p), None);
        assert_eq!(receive_motion(RECORD_LEN as u32, &b), None);
    }
    assert_eq!(classify(WM_INPUT), WindowMessage::Input);
    let mut l = EventLoop::new();
    assert_eq!(l.advance(pump_event(1)), LoopAction::Dispatch);
    assert!(l.is_running());
    assert_eq!(l.advance(PumpEvent::Message), LoopAction::Dispatch);
    assert_eq!(l.state, LoopState::Running);
}

#[test]
fn teardown_stops_the_loop_and_cleans_up_once() {
    assert_eq!(classify(WM_DESTROY), WindowMessage::Teardown);
    let mut l = EventLoop::new();
    assert_eq!(l.state, LoopState::Running);
    assert_eq!(l.advance(pump_event(1)), LoopAction::Dispatch);
    assert_eq!(l.advance(pump_event(0)), LoopAction::Cleanup);
    assert!(!l.is_running());
    assert_eq!(l.state, LoopState::Stopped);
    assert_eq!(l.advance(PumpEvent::Quit), LoopAction::Idle);
    assert_eq!(l.advance(PumpEvent::Message), LoopAction::Idle);
    assert_eq!(l.state, LoopState::Stopped);
}

#[test]
fn failed_wait_also_ends_the_loop() {
    assert_eq!(pump_event(-1), PumpEvent::Quit);
    assert_eq!(pump_event(i32::MIN), PumpEvent::Quit);
    assert_eq!(pump_event(i32::MAX), PumpEvent::Message);
}

#[test]
fn other_messages_are_left_to_the_os() {
    assert_eq!(classify(0x0200), WindowMessage::Other);
    assert_eq!(classify(0), WindowMessage::Other);
    assert_eq!(classify(u32::MAX), WindowMessage::Other);
}

#[test]
fn zero_or_error_status_gives_no_payload() {
    let b = record(RIM_TYPEMOUSE, 0, 5, -3);
    assert_eq!(decode(0, &b), None);
    assert_eq!(decode(STATUS_ERROR, &b), None);
    assert_eq!(decode(u32::MAX, &b), None);
    assert_eq!(receive_motion(0, &b), None);
    assert_eq!(receive_motion(u32::MAX, &b), None);
    assert!(decode(1, &b).is_some());
}

#[test]
fn decoding_identical_bytes_twice_gives_equal_payloads() {
    let a = record(RIM_TYPEMOUSE, 1, 12, -34);
    let mut b = record(RIM_TYPEMOUSE, 1, 12, -34);
    b.extend_from_slice(&[9, 9, 9]);
    let pa = decode(RECORD_LEN as u32, &a);
    let pb = decode(RECORD_LEN as u32, &b);
    assert!(pa.is_some());
    assert_eq!(pa, pb);
    assert_eq!(decode(RECORD_LEN as u32, &a), pa);
}

#[test]
fn header_and_pointer_fields_are_read_little_endian() {
    let b = record(RIM_TYPEMOUSE, 0x0001, 0x0102_0304, -2);
    let p = decode(RECORD_LEN as u32, &b).unwrap();
    assert_eq!(p.header.device_type, RIM_TYPEMOUSE);
    assert_eq!(p.header.size, RECORD_LEN as u32);
    assert_eq!(p.header.device, 0x1122_3344_5566_7788);
    assert_eq!(p.header.wparam, 1);
    match p.data {
        DeviceData::Pointer(m) => {
            assert_eq!(m.flags, 1);
            assert_eq!(m.button_flags, 0x0400);
            assert_eq!(m.button_data, 0xFF88);
            assert_eq!(m.raw_buttons, 7);
            assert_eq!(m.last_x, 0x0102_0304);
            assert_eq!(m.last_y, -2);
            assert_eq!(m.extra_information, 0xDEAD_BEEF);
        }
        DeviceData::Other => panic!("expected a pointer record"),
    }
}

#[test]
fn a_mouse_tag_without_pointer_data_yields_nothing() {
    let b = record(RIM_TYPEMOUSE, 0, 1, 1);
    let mut p = decode(RECORD_LEN as u32, &b).unwrap();
    p.data = DeviceData::Other;
    assert_eq!(interpret(&p), None);
}

#[test]
fn byte_readers() {
    let b = vec![0x78, 0x56, 0x34, 0x12, 0xFF, 0xFF, 0xFF, 0xFF, 0x01];
    assert_eq!(read_u16(&b, 0), 0x5678);
    assert_eq!(read_u16(&b, 7), 0x01FF);
    assert_eq!(read_u32(&b, 0), 0x1234_5678);
    assert_eq!(read_u32(&b, 5), 0x01FF_FFFF);
    assert_eq!(read_i32(&b, 4), -1);
    assert_eq!(read_i32(&b, 0), 0x1234_5678);
    assert_eq!(read_u64(&b, 0), 0xFFFF_FFFF_1234_5678);
    assert_eq!(read_u64(&b, 1), 0x01FF_FFFF_FF12_3456);
    assert_eq!(HEADER_LEN, 24);
    assert_eq!(RECORD_LEN, 48);
}

#[test]
fn mouse_registration_entry() {
    let r = mouse_registration(42);
    assert_eq!(r.usage_page, HID_USAGE_PAGE_GENERIC);
    assert_eq!(r.usage, HID_USAGE_GENERIC_MOUSE);
    assert_eq!((r.usage_page, r.usage), (1, 2));
    assert!(r.wants_background_delivery);
    assert!(r.wants_device_change_notifications);
    assert_eq!(r.target_window, 42);
    assert_eq!(r.os_flags(), 0x2100);
    let mut only_sink = r;
    only_sink.wants_device_change_notifications = false;
    assert_eq!(only_sink.os_flags(), 0x0100);
    only_sink.wants_background_delivery = false;
    assert_eq!(only_sink.os_flags(), 0);
}

#[test]
fn registration_outcome_reads_the_os_answer() {
    assert_eq!(registration_outcome(1), Ok(()));
    assert_eq!(registration_outcome(0), Err(RegistrationError::Rejected(0)));
    assert_eq!(registration_outcome(-1), Err(RegistrationError::Rejected(-1)));
    assert_eq!(registration_outcome(2), Err(RegistrationError::Rejected(2)));
}
