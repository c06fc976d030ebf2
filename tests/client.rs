use cole_mine::client::{
    channel_for, checksum, find_characteristic, find_device_info_characteristics,
    find_notify_characteristics, find_tx_characteristics, CharacteristicRef, LookupError,
    ServiceInfo,
};
use cole_mine::constants;
use cole_mine::Command::{
    BatteryInfo, BlinkTwice, ContinueRealTimeHeartRate, GetHeartRateSettings, ReadHeartRate,
    ReadSportDetail, Reboot, SetHeartRateSettings, SetTime, StartRealTimeHeartRate, StartSpo2,
    StopRealTimeHeartRate, StopSpo2,
};
use cole_mine::{Channel, CivilDateTime, Command, DeviceDetails};

fn epoch() -> CivilDateTime {
    CivilDateTime { year: 1970, month: 1, day: 1, hour: 0, minute: 0, second: 0 }
}

fn frame(prefix: &[u8]) -> [u8; 16] {
    let mut ret = [0u8; 16];
    ret[..prefix.len()].copy_from_slice(prefix);
    let sum: u32 = ret[..15].iter().map(|b| *b as u32).sum();
    ret[15] = (sum % 256) as u8;
    ret
}

#[test]
fn commands_serialize() {
    let commands: Vec<[u8; 16]> = [
        ReadSportDetail { day_offset: 0 },
        ReadHeartRate { timestamp: 0 },
        GetHeartRateSettings,
        SetHeartRateSettings { enabled: false, interval: 0 },
        StartRealTimeHeartRate,
        ContinueRealTimeHeartRate,
        StopRealTimeHeartRate,
        StartSpo2,
        StopSpo2,
        Reboot,
        SetTime { when: epoch(), language: 0 },
        BlinkTwice,
        BatteryInfo,
    ]
    .iter()
    .map(|cmd| cmd.encode())
    .collect();
    let expected: Vec<[u8; 16]> = vec![
        [67, 0, 15, 0, 95, 1, 0, 0, 0, 0, 0, 0, 0, 0, 0, 178],
        [21, 0, 0, 0, 0, 0, 0, 0, 0, 0, 0, 0, 0, 0, 0, 21],
        [22, 1, 0, 0, 0, 0, 0, 0, 0, 0, 0, 0, 0, 0, 0, 23],
        [22, 2, 2, 0, 0, 0, 0, 0, 0, 0, 0, 0, 0, 0, 0, 26],
        [105, 1, 0, 0, 0, 0, 0, 0, 0, 0, 0, 0, 0, 0, 0, 106],
        [30, 3, 0, 0, 0, 0, 0, 0, 0, 0, 0, 0, 0, 0, 0, 33],
        [106, 1, 0, 0, 0, 0, 0, 0, 0, 0, 0, 0, 0, 0, 0, 107],
        [105, 3, 37, 0, 0, 0, 0, 0, 0, 0, 0, 0, 0, 0, 0, 145],
        [106, 3, 0, 0, 0, 0, 0, 0, 0, 0, 0, 0, 0, 0, 0, 109],
        [8, 1, 0, 0, 0, 0, 0, 0, 0, 0, 0, 0, 0, 0, 0, 9],
        [1, 70, 1, 1, 0, 0, 0, 0, 0, 0, 0, 0, 0, 0, 0, 73],
        [16, 0, 0, 0, 0, 0, 0, 0, 0, 0, 0, 0, 0, 0, 0, 16],
        [3, 0, 0, 0, 0, 0, 0, 0, 0, 0, 0, 0, 0, 0, 0, 3],
    ];
    assert_eq!(commands, expected);
}

#[test]
fn set_time_encodes_two_digit_year() {
    let when = CivilDateTime { year: 2024, month: 11, day: 27, hour: 23, minute: 5, second: 59 };
    let bytes = Command::SetTime { when, language: 1 }.encode();
    assert_eq!(bytes, frame(&[0x01, 24, 11, 27, 23, 5, 59, 1]));
}

#[test]
fn set_time_year_below_zero_counts_up_from_century() {
    let when = CivilDateTime { year: -1, ..epoch() };
    let bytes = Command::SetTime { when, language: 0 }.encode();
    assert_eq!(bytes[1], 99);
}

#[test]
fn read_heart_rate_writes_timestamp_little_endian() {
    let bytes = Command::ReadHeartRate { timestamp: 0x66b6ad80 }.encode();
    assert_eq!(bytes, frame(&[0x15, 0x80, 0xad, 0xb6, 0x66]));
}

#[test]
fn set_heart_rate_settings_enabled() {
    let bytes = Command::SetHeartRateSettings { enabled: true, interval: 30 }.encode();
    assert_eq!(bytes, frame(&[0x16, 0x02, 0x01, 30]));
}

#[test]
fn big_data_syncs_encode() {
    assert_eq!(Command::SyncSleep.encode(), frame(&[0xbc, 0x27, 0x01, 0x00, 0xff, 0x00, 0xff]));
    assert_eq!(Command::SyncOxygen.encode(), frame(&[0xbc, 0x2a, 0x01, 0x00, 0xff, 0x00, 0xff]));
    assert_eq!(Command::ReadStress { day_offset: 2 }.encode(), frame(&[0x37, 2]));
}

#[test]
fn raw_command_is_padded() {
    let bytes = Command::Raw(vec![0x21, 0x01]).encode();
    assert_eq!(bytes, frame(&[0x21, 0x01]));
}

#[test]
fn raw_command_is_truncated_to_fifteen_bytes() {
    let long: Vec<u8> = (1..=20).collect();
    let bytes = Command::Raw(long).encode();
    let expected: Vec<u8> = (1..=15).collect();
    assert_eq!(&bytes[..15], expected.as_slice());
    assert_eq!(bytes[15], (120u32 % 256) as u8);
}

#[test]
fn checksum_wraps_at_256() {
    assert_eq!(checksum(&[0xff, 0x02]), 1);
    assert_eq!(checksum(&[]), 0);
    assert_eq!(checksum(&[0x03, 0x02, 0x01]), 6);
}

#[test]
fn every_frame_carries_its_checksum() {
    for cmd in [
        Command::BlinkTwice,
        Command::StartSpo2,
        Command::SetTime { when: epoch(), language: 7 },
        Command::Raw(vec![0xff; 15]),
    ] {
        let bytes = cmd.encode();
        assert_eq!(bytes.len(), 16);
        assert_eq!(bytes[15], checksum(&bytes[..15]));
    }
}

#[test]
fn frames_route_by_opcode() {
    assert_eq!(channel_for(&Command::SyncSleep.encode()), Channel::V2);
    assert_eq!(channel_for(&Command::Raw(vec![0x73, 1]).encode()), Channel::V2);
    assert_eq!(channel_for(&Command::BatteryInfo.encode()), Channel::Uart);
    assert_eq!(channel_for(&Command::BlinkTwice.encode()), Channel::Uart);
}

fn services() -> Vec<ServiceInfo> {
    vec![
        ServiceInfo { uuid: 1, characteristics: vec![constants::UART_RX_CHAR_UUID] },
        ServiceInfo {
            uuid: constants::UART_SERVICE_UUID,
            characteristics: vec![constants::UART_TX_CHAR_UUID, constants::UART_RX_CHAR_UUID],
        },
        ServiceInfo {
            uuid: constants::CHARACTERISTIC_SERVICE_V2,
            characteristics: vec![constants::CHARACTERISTIC_NOTIFY_V2, constants::CHARACTERISTIC_COMMAND],
        },
        ServiceInfo {
            uuid: constants::DEVICE_INFO_UUID,
            characteristics: vec![constants::DEVICE_FW_UUID, constants::DEVICE_HW_UUID],
        },
    ]
}

#[test]
fn tx_characteristics_found() {
    let found = find_tx_characteristics(&services()).unwrap();
    assert_eq!(
        found,
        (
            CharacteristicRef { service: 1, characteristic: 1 },
            CharacteristicRef { service: 2, characteristic: 1 }
        )
    );
}

#[test]
fn tx_characteristics_missing() {
    let mut s = services();
    s.remove(2);
    assert_eq!(find_tx_characteristics(&s), Err(LookupError::MissingV2));
    let mut s = services();
    s.remove(1);
    assert_eq!(find_tx_characteristics(&s), Err(LookupError::MissingUart));
    assert_eq!(find_tx_characteristics(&Vec::new()), Err(LookupError::NoneFound));
}

#[test]
fn notify_and_info_characteristics_found() {
    let s = services();
    assert_eq!(
        find_notify_characteristics(&s),
        (
            Some(CharacteristicRef { service: 1, characteristic: 0 }),
            Some(CharacteristicRef { service: 2, characteristic: 0 })
        )
    );
    assert_eq!(
        find_device_info_characteristics(&s),
        (
            Some(CharacteristicRef { service: 3, characteristic: 1 }),
            Some(CharacteristicRef { service: 3, characteristic: 0 })
        )
    );
    assert_eq!(find_characteristic(&s, 99, 1), None);
}

#[test]
fn device_details_default_is_empty() {
    let d = DeviceDetails::default();
    assert!(d.hw.is_none());
    assert!(d.fw.is_none());
}

#[test]
fn opcodes_follow_the_command_table() {
    let table: Vec<(Command, u8)> = vec![
        (ReadSportDetail { day_offset: 3 }, 0x43),
        (ReadHeartRate { timestamp: 7 }, 0x15),
        (Command::ReadStress { day_offset: 1 }, 0x37),
        (GetHeartRateSettings, 0x16),
        (SetHeartRateSettings { enabled: true, interval: 5 }, 0x16),
        (StartRealTimeHeartRate, 0x69),
        (ContinueRealTimeHeartRate, 0x1e),
        (StopRealTimeHeartRate, 0x6a),
        (StartSpo2, 0x69),
        (StopSpo2, 0x6a),
        (Reboot, 0x08),
        (SetTime { when: epoch(), language: 1 }, 0x01),
        (BlinkTwice, 0x10),
        (BatteryInfo, 0x03),
        (Command::SyncOxygen, 0xbc),
        (Command::SyncSleep, 0xbc),
    ];
    for (cmd, opcode) in &table {
        assert_eq!(cmd.encode()[0], *opcode, "{cmd:?}");
    }
}
