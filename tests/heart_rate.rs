use cole_mine::heart_rate::HeartRateState;
use cole_mine::ProtocolError;

#[test]
fn parse_multi_packet() {
    let packets: Vec<[u8; 16]> = vec![
        *b"\x15\x00\x18\x05\x00\x00\x00\x00\x00\x00\x00\x00\x00\x00\x002",
        *b"\x15\x01\x80\xad\xb6f\x00\x00\x00\x00\x00\x00\x00\x00\x00_",
        *b"\x15\x02\x00\x00\x00\x00\x00\x00\x00\x00\x00\x00\x00\x00\x00\x17",
        *b"\x15\x03\x00\x00\x00\x00\x00\x00\x00\x00\x00\x00\x00\x00\x00\x18",
        *b"\x15\x04\x00\x00\x00\x00\x00\x00\x00\x00\x00\x00\x00\x00\x00\x19",
        *b"\x15\x05\x00\x00\x00\x00\x00\x00\x00\x00\x00\x00\x00\x00\x00\x1a",
        *b"\x15\x06\x00\x00\x00\x00\x00\x00\x00\x00\x00\x00\x00\x00\x00\x1b",
        *b"\x15\x07\x00\x00\x00\x00\x00\x00\x00\x00\x00\x00\x00\x00\x00\x1c",
        *b"\x15\x08\x00\x00\x00\x00\x00\x00\x00\x00\x00\x00\x00\x00\x00\x1d",
        *b"\x15\t\x00\x00\x00\x00\x00\x00\x00\x00\x00\x00\x00\x00\x00\x1e",
        *b"\x15\n\x00\x00\x00\x00\x00\x00\x00\x00\x00\x00\x00\x00\x00\x1f",
        *b"\x15\x0b\x00\x00\x00\x00\x00\x00\x00\x00\x00\x00\x00\x00\x00 ",
        *b"\x15\x0c\x00\x00\x00\x00\x00\x00\x00\x00\x00\x00\x00\x00\x00!",
        *b"\x15\r\x00\x00\x00\x00\x00\x00\x00\x00\x00\x00\x00\x00\x00\"",
        *b"\x15\x0e\x00\x00\x00\x00\x00\x00\x00\x00\x00\x00\x00\x00\x00#",
        *b"\x15\x0f\x00\x00Y\x00\x00\x00\x00\x00\x00\x00\x00\x00\x00}",
        *b"\x15\x10\x00k\x00\x00\x00\x00\x00\x00\x00\x00\x00\x00\x00\x90",
        *b"\x15\x11`\x00\x00\x00\x00\x00\x00\x00\x00\x00\x00\x00k\xf1",
        *b"\x15\x12\x00\x00\x00\x00\x00\x00\x00\x00\x00\x00\x00\x00\x00'",
        *b"\x15\x13\x00\x00\x00\x00\x00\x00\x00\x00\x00\x00P\x00\x00x",
        *b"\x15\x14\x00\x00\x00\x00\x00\x00\x00\x00\x00F\x00\x00\x00o",
        *b"\x15\x15\x00\x00\x00\x00\x00\x00\x00\x00\x00\x00\x00\x00\x00*",
        *b"\x15\x16\x00\x00\x00\x00\x00\x00\x00\x00\x00\x00\x00\x00\x00+",
        *b"\x15\x17\x00\x00\x00\x00\x00\x00\x00\x00\x00\x00\x00\x00\x00,",
    ];
    let mut state = HeartRateState::from_packet(packets[0].as_slice()).unwrap();
    for packet in &packets[1..] {
        state.step(&packet[..packet.len() - 1]).unwrap();
    }
    let HeartRateState::Complete { range, rates, date } = state else {
        panic!("invalid state: {state:?}");
    };
    assert_eq!(range, 5);
    // 2024-08-10T00:00:00Z
    assert_eq!(date, 1723248000);
    let mut expected = vec![0u8; 295];
    for (i, r) in [(180, 89), (192, 107), (204, 96), (216, 107), (240, 80), (252, 70)] {
        expected[i] = r;
    }
    assert_eq!(rates, expected);
}

#[test]
fn heart_rate_no_data_day() {
    let mut packet = [0u8; 16];
    packet[0] = 0x15;
    packet[1] = 0xff;
    let state = HeartRateState::from_packet(&packet).unwrap();
    let HeartRateState::Complete { range, rates, date } = state else {
        panic!("expected complete: {state:?}");
    };
    assert_eq!((range, rates, date), (0, Vec::new(), 0));
}

#[test]
fn heart_rate_size_ff_is_no_data() {
    let mut packet = [0u8; 16];
    packet[0] = 0x15;
    packet[2] = 0xff;
    let state = HeartRateState::from_packet(&packet).unwrap();
    assert!(matches!(state, HeartRateState::Complete { range: 0, date: 0, .. }));
}

#[test]
fn heart_rate_sequence_errors() {
    let mut start = [0u8; 16];
    start[0] = 0x15;
    start[2] = 4;
    start[3] = 5;
    let mut state = HeartRateState::from_packet(&start).unwrap();
    let mut frame = [0u8; 15];
    frame[0] = 0x15;
    frame[1] = 0;
    assert_eq!(state.step(&frame), Err(ProtocolError::UnexpectedSequence));
    frame[1] = 1;
    state.step(&frame).unwrap();
    assert_eq!(state.step(&frame), Err(ProtocolError::UnexpectedSequence));
    frame[1] = 2;
    state.step(&frame).unwrap();
    frame[1] = 2;
    assert_eq!(state.step(&frame), Err(ProtocolError::UnexpectedSequence));
    frame[1] = 3;
    state.step(&frame).unwrap();
    let HeartRateState::Complete { rates, .. } = &state else {
        panic!("expected complete: {state:?}");
    };
    assert_eq!(rates.len(), 9 + 13 + 13);
    assert_eq!(state.step(&frame), Err(ProtocolError::StepAfterComplete));
}

#[test]
fn heart_rate_short_frames_rejected() {
    assert_eq!(HeartRateState::from_packet(&[0x15]).err(), Some(ProtocolError::FrameTooShort));
    assert_eq!(HeartRateState::from_packet(&[0x15, 0, 4]).err(), Some(ProtocolError::FrameTooShort));
    assert_eq!(HeartRateState::from_packet(&[0x16, 0xff]).err(), Some(ProtocolError::WrongOpcode));
}
