use cole_mine::stress::StressState;
use cole_mine::ProtocolError;

fn frame(prefix: &[u8]) -> Vec<u8> {
    let mut v = prefix.to_vec();
    v.resize(16, 0);
    let sum: u32 = v[..15].iter().map(|b| *b as u32).sum();
    v[15] = (sum % 256) as u8;
    v
}

#[test]
fn stress_series_reassembled() {
    let mut state = StressState::new(&frame(&[0x37, 0, 3, 30])).unwrap();
    assert!(matches!(state, StressState::Length { length: 2, minutes_appart: 30 }));
    let first = frame(&[0x37, 1, 0xaa, 10, 11, 12, 13, 14, 15, 16, 17, 18, 19, 20, 21]);
    state.step(&first).unwrap();
    let second = frame(&[0x37, 2, 30, 31, 32, 33, 34, 35, 36, 37, 38, 39, 40, 41, 42]);
    state.step(&second).unwrap();
    let StressState::Complete { measurements, minutes_appart } = &state else {
        panic!("expected complete: {state:?}");
    };
    let mut expected: Vec<u8> = (10..=21).collect();
    expected.extend(30..=42);
    assert_eq!(measurements, &expected);
    assert_eq!(*minutes_appart, 30);
    assert_eq!(state.step(&second), Err(ProtocolError::StepAfterComplete));
}

#[test]
fn stress_no_data() {
    let state = StressState::new(&frame(&[0x37, 0xff])).unwrap();
    assert!(matches!(state, StressState::Complete { minutes_appart: 0, ref measurements } if measurements.is_empty()));
}

#[test]
fn stress_zero_follow_ons_completes_at_once() {
    let state = StressState::new(&frame(&[0x37, 0, 1, 30])).unwrap();
    assert!(matches!(state, StressState::Complete { minutes_appart: 30, ref measurements } if measurements.is_empty()));
}

#[test]
fn stress_rejections() {
    assert_eq!(StressState::new(&frame(&[0x36, 0, 3, 30])).err(), Some(ProtocolError::WrongOpcode));
    assert_eq!(StressState::new(&frame(&[0x37, 4, 3, 30])).err(), Some(ProtocolError::UnexpectedSequence));
    assert_eq!(StressState::new(&[0x37, 0, 3]).err(), Some(ProtocolError::FrameTooShort));
    let mut state = StressState::new(&frame(&[0x37, 0, 3, 30])).unwrap();
    assert_eq!(state.step(&frame(&[0x38, 1])), Err(ProtocolError::WrongOpcode));
    assert_eq!(state.step(&[0x37, 1, 2]), Err(ProtocolError::FrameTooShort));
    assert!(matches!(state, StressState::Length { length: 2, minutes_appart: 30 }));
}
