use cole_mine::big_data::{
    BigDataPacket, BigDataState, OxygenData, OxygenMeasurement, SleepData, SleepSession,
};
use cole_mine::SleepStage::{Awake, Deep, Light, Rem};
use cole_mine::{LocalDateTime, ProtocolError, SleepStage};

const TODAY: i32 = 2460642; // 2024-11-27

fn at(julian_day: i64, minute_of_day: u16) -> LocalDateTime {
    LocalDateTime { julian_day, minute_of_day }
}

fn sleep_frames() -> Vec<Vec<u8>> {
    vec![
        vec![188, 39, 71, 0, 202, 141, 2, 2, 26, 177, 0, 11, 2, 2, 67, 3, 35, 2, 15, 4],
        vec![34, 2, 95, 3, 16, 2, 1, 5, 13, 2, 49, 3, 18, 2, 3, 0, 40, 9, 0, 224],
        vec![1, 2, 61, 3, 31, 2, 15, 4, 33, 3, 31, 2, 31, 4, 34, 3, 33, 2, 17, 4],
        vec![15, 2, 10, 0, 1, 2, 29, 5, 6, 2, 55, 5, 12, 2, 50, 2, 7],
    ]
}

#[test]
fn big_data_sleep() {
    let mut packets = sleep_frames().into_iter();
    let initial = packets.next().unwrap();
    let mut state = BigDataState::new(&initial).unwrap();
    for packet in packets {
        state.step(packet.as_slice()).unwrap();
    }
    let packet = match state {
        BigDataState::Complete(packet) => packet,
        BigDataState::Partial { target_length, packet } => {
            panic!("Expected complete, found {target_length} {}/{}", packet.len(), packet.capacity());
        }
    };
    assert_eq!(packet.len(), 71);
    let BigDataPacket::Sleep(data) = &packet else {
        panic!("expected a sleep packet");
    };
    let sleep_data = SleepData::decode(data, TODAY).unwrap();
    let expected = SleepData {
        sessions: vec![
            SleepSession {
                start: at(2460639, 177),
                end: at(2460640, 523),
                stages: vec![
                    Light(67),
                    Deep(35),
                    Light(15),
                    Rem(34),
                    Light(95),
                    Deep(16),
                    Light(1),
                    Awake(13),
                    Light(49),
                    Deep(18),
                    Light(3),
                ],
            },
            SleepSession {
                start: at(2460641, 9),
                end: at(2460642, 480),
                stages: vec![
                    Light(61),
                    Deep(31),
                    Light(15),
                    Rem(33),
                    Deep(31),
                    Light(31),
                    Rem(34),
                    Deep(33),
                    Light(17),
                    Rem(15),
                    Light(10),
                    Light(29),
                    Awake(6),
                    Light(55),
                    Awake(12),
                    Light(50),
                    Light(7),
                ],
            },
        ],
    };
    assert_eq!(sleep_data, expected);
}

#[test]
fn big_data_sleep2() {
    let packet = vec![
        5u8, 6, 26, 177, 0, 11, 2, 2, 67, 3, 35, 2, 15, 4, 34, 2, 95, 3, 16, 2, 1, 5, 13, 2, 49, 3,
        18, 2, 3, 4, 40, 9, 0, 224, 1, 2, 61, 3, 31, 2, 15, 4, 33, 3, 31, 2, 31, 4, 34, 3, 33, 2,
        17, 4, 15, 2, 10, 0, 1, 2, 29, 5, 6, 2, 55, 5, 12, 2, 50, 2, 7, 3, 32, 0, 0, 251, 1, 2, 73,
        3, 18, 2, 18, 4, 31, 3, 33, 2, 31, 4, 33, 2, 16, 3, 18, 2, 15, 4, 17, 2, 34, 3, 33, 2, 137,
        2, 36, 159, 5, 4, 2, 2, 71, 3, 16, 2, 35, 4, 18, 3, 34, 2, 30, 4, 33, 2, 101, 3, 32, 2, 17,
        4, 15, 2, 32, 3, 18, 2, 29, 5, 13, 2, 23, 1, 12, 66, 0, 214, 0, 2, 72, 3, 30, 2, 17, 4, 29,
    ];
    let sleep_data = SleepData::decode(&packet, TODAY).unwrap();
    let spans: Vec<(LocalDateTime, LocalDateTime, usize)> =
        sleep_data.sessions.iter().map(|s| (s.start, s.end, s.stages.len())).collect();
    assert_eq!(
        spans,
        vec![
            (at(TODAY as i64 - 7, 177), at(TODAY as i64 - 6, 523), 11),
            (at(TODAY as i64 - 5, 9), at(TODAY as i64 - 4, 480), 17),
            (at(TODAY as i64 - 4, 0), at(TODAY as i64 - 3, 507), 14),
            (at(TODAY as i64 - 3, 1439), at(TODAY as i64 - 2, 516), 16),
            (at(TODAY as i64 - 2, 66), at(TODAY as i64 - 1, 214), 4),
        ]
    );
    assert_eq!(sleep_data.sessions[4].stages, vec![
        SleepStage::Light(72),
        SleepStage::Deep(30),
        SleepStage::Light(17),
        SleepStage::Rem(29),
    ]);
}

#[test]
fn sleep_decoder_errors() {
    assert_eq!(SleepData::decode(&vec![], TODAY).err(), Some(ProtocolError::BufferTooShort));
    assert_eq!(SleepData::decode(&vec![1, 0, 6, 0, 0], TODAY).err(), Some(ProtocolError::BufferTooShort));
    assert_eq!(
        SleepData::decode(&vec![1, 0, 3, 0, 0, 0, 0], TODAY).err(),
        Some(ProtocolError::InvalidDayLength)
    );
    assert_eq!(
        SleepData::decode(&vec![1, 0, 6, 0, 0, 0, 0, 9, 5], TODAY).err(),
        Some(ProtocolError::InvalidSleepStage)
    );
    assert_eq!(
        SleepData::decode(&vec![1, 0, 8, 0, 0, 0, 0, 2, 5], TODAY).err(),
        Some(ProtocolError::BufferTooShort)
    );
    let no_days = SleepData::decode(&vec![0], TODAY).unwrap();
    assert!(no_days.sessions.is_empty());
}

#[test]
fn sleep_start_after_end_is_evening_before() {
    // 23:00 to 07:00, one empty stage that is skipped
    let data = vec![1, 0, 6, 0x64, 0x05, 0xa4, 0x01, 0, 9];
    let sleep = SleepData::decode(&data, TODAY).unwrap();
    assert_eq!(sleep.sessions[0].start, at(TODAY as i64 - 1, 1380));
    assert_eq!(sleep.sessions[0].end, at(TODAY as i64, 420));
    assert!(sleep.sessions[0].stages.is_empty());
}

#[test]
fn oxygen_decodes_hourly_samples() {
    let mut data = vec![2u8];
    data.push(1);
    for h in 0..24u8 {
        data.push(90 + h % 5);
        data.push(95 + h % 5);
    }
    data.push(0);
    data.extend_from_slice(&[0, 0, 97, 99]);
    let oxy = OxygenData::decode(&data, TODAY).unwrap();
    assert_eq!(oxy.samples.len(), 26);
    assert_eq!(oxy.samples[0], OxygenMeasurement { min: 90, max: 95, when: at(TODAY as i64 - 1, 0) });
    assert_eq!(oxy.samples[23], OxygenMeasurement { min: 93, max: 98, when: at(TODAY as i64 - 1, 1380) });
    assert_eq!(oxy.samples[24], OxygenMeasurement { min: 0, max: 0, when: at(TODAY as i64, 0) });
    assert_eq!(oxy.samples[25], OxygenMeasurement { min: 97, max: 99, when: at(TODAY as i64, 60) });
}

#[test]
fn oxygen_decoder_errors() {
    assert_eq!(OxygenData::decode(&vec![], TODAY).err(), Some(ProtocolError::BufferTooShort));
    assert_eq!(OxygenData::decode(&vec![1, 0], TODAY).err(), Some(ProtocolError::BufferTooShort));
    assert_eq!(OxygenData::decode(&vec![1, 0, 97], TODAY).err(), Some(ProtocolError::BufferTooShort));
    assert!(OxygenData::decode(&vec![0], TODAY).unwrap().samples.is_empty());
}

#[test]
fn big_data_length_checks() {
    let state = BigDataState::new(&[0xbc, 0x2a, 0, 0, 0, 0]).unwrap();
    assert!(matches!(state, BigDataState::Complete(BigDataPacket::Oxygen(ref d)) if d.is_empty()));
    assert_eq!(BigDataState::new(&[0xbc, 0x2a, 1, 0, 0, 0, 1, 2]).err(), Some(ProtocolError::LengthExceeded));
    assert_eq!(BigDataState::new(&[0xbc, 0x99, 1, 0, 0, 0]).err(), Some(ProtocolError::UnknownBigDataKind));
    assert_eq!(BigDataState::new(&[0xbd, 0x27, 1, 0, 0, 0]).err(), Some(ProtocolError::WrongOpcode));
    assert_eq!(BigDataState::new(&[0xbc, 0x27, 1]).err(), Some(ProtocolError::FrameTooShort));
    let mut state = BigDataState::new(&[0xbc, 0x27, 3, 0, 0, 0, 1]).unwrap();
    assert_eq!(state.step(&[2, 3, 4]), Err(ProtocolError::LengthExceeded));
    state.step(&[2]).unwrap();
    state.step(&[3]).unwrap();
    let BigDataState::Complete(packet) = &state else {
        panic!("expected complete: {state:?}");
    };
    assert_eq!(packet.get_data_ref(), &vec![1, 2, 3]);
    assert!(!packet.is_empty());
    assert!(packet.capacity() >= 3);
    assert_eq!(state.step(&[4]), Err(ProtocolError::StepAfterComplete));
}

#[test]
fn big_data_packet_accessors() {
    let mut packet = BigDataPacket::Sleep(Vec::new());
    assert!(packet.is_empty());
    packet.extend_from_slice(&[1, 2]);
    packet.get_data_mut().push(3);
    assert_eq!(packet.len(), 3);
    assert!(matches!(packet, BigDataPacket::Sleep(ref d) if d == &vec![1, 2, 3]));
}

#[test]
fn decoders_refuse_the_other_kind() {
    let sleep = BigDataPacket::Sleep(vec![0]);
    let oxygen = BigDataPacket::Oxygen(vec![0]);
    assert_eq!(OxygenData::from_packet(&sleep).err(), Some(ProtocolError::UnknownBigDataKind));
    assert_eq!(SleepData::from_packet(&oxygen).err(), Some(ProtocolError::UnknownBigDataKind));
    assert!(SleepData::from_packet(&sleep).unwrap().sessions.is_empty());
    assert!(OxygenData::from_packet(&oxygen).unwrap().samples.is_empty());
}
