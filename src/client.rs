use vstd::prelude::*;
use crate::constants;
use crate::datetime::CivilDateTime;

verus! {

/// A request to the ring.
#[derive(Debug)]
pub enum Command {
    ReadSportDetail { day_offset: u8 },
    ReadHeartRate { timestamp: u32 },
    ReadStress { day_offset: u8 },
    GetHeartRateSettings,
    SetHeartRateSettings { enabled: bool, interval: u8 },
    StartRealTimeHeartRate,
    ContinueRealTimeHeartRate,
    StopRealTimeHeartRate,
    StartSpo2,
    StopSpo2,
    Reboot,
    SetTime { when: CivilDateTime, language: u8 },
    BlinkTwice,
    BatteryInfo,
    SyncOxygen,
    SyncSleep,
    Raw(Vec<u8>),
}

/// The characteristic a command frame is written to.
#[derive(Clone, Copy, Debug, PartialEq, Eq, Structural)]
pub enum Channel {
    Uart,
    V2,
}

/// `n` zero bytes.
pub open spec fn zeros(n: int) -> Seq<u8> {
    Seq::new(n as nat, |i: int| 0u8)
}

/// `s` cut or zero-padded to exactly 15 bytes.
pub open spec fn pad15(s: Seq<u8>) -> Seq<u8> {
    if s.len() >= 15 {
        s.take(15)
    } else {
        s + zeros(15 - s.len())
    }
}

/// The four bytes of `v`, least significant first.
pub open spec fn le_u32_bytes(v: u32) -> Seq<u8> {
    seq![
        (v % 256) as u8,
        ((v / 256) % 256) as u8,
        ((v / 65536) % 256) as u8,
        (v / 16777216) as u8,
    ]
}

/// The last two decimal digits of a year, counted upward from the
/// century (so the year -1 gives 99).
pub open spec fn two_digit_year(year: i32) -> u8 {
    (year as int % 100) as u8
}

/// The fifteen bytes before the checksum of a command's frame.
pub open spec fn frame_body(c: Command) -> Seq<u8> {
    pad15(
        match c {
            Command::ReadSportDetail { day_offset } => seq![0x43u8, day_offset, 0x0f, 0x00, 0x5f, 0x01],
            Command::ReadHeartRate { timestamp } => seq![0x15u8] + le_u32_bytes(timestamp),
            Command::ReadStress { day_offset } => seq![0x37u8, day_offset],
            Command::GetHeartRateSettings => seq![0x16u8, 0x01],
            Command::SetHeartRateSettings { enabled, interval } => seq![
                0x16u8,
                0x02,
                if enabled { 1u8 } else { 2u8 },
                interval,
            ],
            Command::StartRealTimeHeartRate => seq![0x69u8, 0x01],
            Command::ContinueRealTimeHeartRate => seq![0x1eu8, 0x03],
            Command::StopRealTimeHeartRate => seq![0x6au8, 0x01],
            Command::StartSpo2 => seq![0x69u8, 0x03, 0x25],
            Command::StopSpo2 => seq![0x6au8, 0x03],
            Command::Reboot => seq![0x08u8, 0x01],
            Command::SetTime { when, language } => seq![
                0x01u8,
                two_digit_year(when.year),
                when.month,
                when.day,
                when.hour,
                when.minute,
                when.second,
                language,
            ],
            Command::BlinkTwice => seq![0x10u8],
            Command::BatteryInfo => seq![0x03u8],
            Command::SyncSleep => seq![0xbcu8, 0x27, 0x01, 0x00, 0xff, 0x00, 0xff],
            Command::SyncOxygen => seq![0xbcu8, 0x2a, 0x01, 0x00, 0xff, 0x00, 0xff],
            Command::Raw(bytes) => bytes@,
        },
    )
}

/// The sum of the bytes of `s`, as an integer.
pub open spec fn byte_sum(s: Seq<u8>) -> int
    decreases s.len(),
{
    if s.len() == 0 {
        0
    } else {
        byte_sum(s.drop_last()) + s.last()
    }
}

/// The low eight bits of the sum of the bytes of `s`.
pub open spec fn checksum_of(s: Seq<u8>) -> u8 {
    (byte_sum(s) % 256) as u8
}

/// The sixteen-byte frame that carries `c`: its body and, last, the checksum.
pub open spec fn encoded(c: Command) -> Seq<u8> {
    frame_body(c).push(checksum_of(frame_body(c)))
}

/// The characteristic that a frame starting with `opcode` is written to.
pub open spec fn channel_of(opcode: u8) -> Channel {
    if opcode == constants::CMD_BIG_DATA_V2 || opcode == constants::CMD_NOTIFICATION {
        Channel::V2
    } else {
        Channel::Uart
    }
}

/// The low eight bits of the sum of all bytes of `packet`.
pub fn checksum(packet: &[u8]) -> (r: u8)
    ensures
        r == checksum_of(packet@),
{
    let mut acc: u32 = 0;
    let mut i: usize = 0;
    while i < packet.len()
        invariant
            i <= packet@.len(),
            acc < 256,
            acc == byte_sum(packet@.take(i as int)) % 256,
        decreases packet@.len() - i,
    {
        proof {
            let t = packet@.take(i as int + 1);
            assert(t.drop_last() =~= packet@.take(i as int));
            assert(byte_sum(t) == byte_sum(packet@.take(i as int)) + packet@[i as int]);
            vstd::arithmetic::div_mod::lemma_add_mod_noop(
                byte_sum(packet@.take(i as int)),
                packet@[i as int] as int,
                256,
            );
            vstd::arithmetic::div_mod::lemma_mod_twice(byte_sum(packet@.take(i as int)), 256);
            vstd::arithmetic::div_mod::lemma_small_mod(packet@[i as int] as nat, 256);
        }
        acc = (acc + packet[i] as u32) % 256;
        i = i + 1;
    }
    assert(packet@.take(i as int) =~= packet@);
    acc as u8
}

fn year_last_two_digits(year: i32) -> (r: u8)
    ensures
        r == two_digit_year(year),
{
    if year >= 0 {
        (year % 100) as u8
    } else {
        let m: i64 = (0 - year as i64) % 100;
        proof {
            let y = year as int;
            assert((y % 100 + (-y) % 100) % 100 == 0) by {
                vstd::arithmetic::div_mod::lemma_add_mod_noop(y, -y, 100);
            }
        }
        if m == 0 {
            0
        } else {
            (100 - m) as u8
        }
    }
}

impl Command {
    /// The sixteen-byte frame for this command: its fixed layout in a
    /// zeroed buffer, with the checksum of the first fifteen bytes last.
    pub fn encode(&self) -> (r: [u8; 16])
        ensures
            r@ == encoded(*self),
            r@.len() == 16,
    {
        let mut ret: [u8; 16] = [0u8; 16];
        match self {
            Command::ReadSportDetail { day_offset } => {
                ret[0] = 0x43;
                ret[1] = *day_offset;
                ret[2] = 0x0f;
                ret[3] = 0x00;
                ret[4] = 0x5f;
                ret[5] = 0x01;
            },
            Command::ReadHeartRate { timestamp } => {
                ret[0] = 0x15;
                ret[1] = (*timestamp % 256) as u8;
                ret[2] = ((*timestamp / 256) % 256) as u8;
                ret[3] = ((*timestamp / 65536) % 256) as u8;
                ret[4] = (*timestamp / 16777216) as u8;
            },
            Command::ReadStress { day_offset } => {
                ret[0] = 0x37;
                ret[1] = *day_offset;
            },
            Command::GetHeartRateSettings => {
                ret[0] = 0x16;
                ret[1] = 0x01;
            },
            Command::SetHeartRateSettings { enabled, interval } => {
                ret[0] = 0x16;
                ret[1] = 0x02;
                ret[2] = if *enabled {
                    1
                } else {
                    2
                };
                ret[3] = *interval;
            },
            Command::StartRealTimeHeartRate => {
                ret[0] = 0x69;
                ret[1] = 0x01;
            },
            Command::ContinueRealTimeHeartRate => {
                ret[0] = 0x1e;
                ret[1] = 0x03;
            },
            Command::StopRealTimeHeartRate => {
                ret[0] = 0x6a;
                ret[1] = 0x01;
            },
            Command::StartSpo2 => {
                ret[0] = 0x69;
                ret[1] = 0x03;
                ret[2] = 0x25;
            },
            Command::StopSpo2 => {
                ret[0] = 0x6a;
                ret[1] = 0x03;
            },
            Command::Reboot => {
                ret[0] = 0x08;
                ret[1] = 0x01;
            },
            Command::SetTime { when, language } => {
                ret[0] = constants::CMD_SET_DATE_TIME;
                ret[1] = year_last_two_digits(when.year);
                ret[2] = when.month;
                ret[3] = when.day;
                ret[4] = when.hour;
                ret[5] = when.minute;
                ret[6] = when.second;
                ret[7] = *language;
            },
            Command::BlinkTwice => {
                ret[0] = 0x10;
            },
            Command::BatteryInfo => {
                ret[0] = 0x03;
            },
            Command::SyncSleep => {
                ret[0] = constants::CMD_BIG_DATA_V2;
                ret[1] = constants::BIG_DATA_TYPE_SLEEP;
                ret[2] = 1;
                ret[3] = 0;
                ret[4] = 0xff;
                ret[5] = 0;
                ret[6] = 0xff;
            },
            Command::SyncOxygen => {
                ret[0] = constants::CMD_BIG_DATA_V2;
                ret[1] = constants::BIG_DATA_TYPE_SPO2;
                ret[2] = 1;
                ret[3] = 0;
                ret[4] = 0xff;
                ret[5] = 0;
                ret[6] = 0xff;
            },
            Command::Raw(bytes) => {
                let n: usize = if bytes.len() < 15 {
                    bytes.len()
                } else {
                    15
                };
                let mut i: usize = 0;
                while i < n
                    invariant
                        n <= 15,
                        n <= bytes@.len(),
                        i <= n,
                        ret@.len() == 16,
                        forall|j: int| 0 <= j < i ==> ret@[j] == bytes@[j],
                        forall|j: int| i <= j < 16 ==> ret@[j] == 0,
                    decreases n - i,
                {
                    ret[i] = bytes[i];
                    i = i + 1;
                }
            },
        }
        assert(ret@.take(15) =~= frame_body(*self));
        let sum = checksum(&ret);
        proof {
            assert(ret@.drop_last() =~= ret@.take(15));
            assert(byte_sum(ret@) == byte_sum(ret@.take(15)));
        }
        ret[15] = sum;
        assert(ret@ =~= encoded(*self));
        ret
    }
}

/// The characteristic that `frame` is written to: big-data and notification
/// frames go to the V2 command characteristic, all others to UART RX.
pub fn channel_for(frame: &[u8; 16]) -> (r: Channel)
    ensures
        r == channel_of(frame@[0]),
{
    if frame[0] == constants::CMD_BIG_DATA_V2 || frame[0] == constants::CMD_NOTIFICATION {
        Channel::V2
    } else {
        Channel::Uart
    }
}


/// The opcode that the command table gives each command; `Raw` has none.
pub open spec fn listed_opcode(c: Command) -> Option<u8> {
    match c {
        Command::ReadSportDetail { .. } => Some(0x43u8),
        Command::ReadHeartRate { .. } => Some(0x15u8),
        Command::ReadStress { .. } => Some(0x37u8),
        Command::GetHeartRateSettings => Some(0x16u8),
        Command::SetHeartRateSettings { .. } => Some(0x16u8),
        Command::StartRealTimeHeartRate => Some(0x69u8),
        Command::ContinueRealTimeHeartRate => Some(0x1eu8),
        Command::StopRealTimeHeartRate => Some(0x6au8),
        Command::StartSpo2 => Some(0x69u8),
        Command::StopSpo2 => Some(0x6au8),
        Command::Reboot => Some(0x08u8),
        Command::SetTime { .. } => Some(0x01u8),
        Command::BlinkTwice => Some(0x10u8),
        Command::BatteryInfo => Some(0x03u8),
        Command::SyncOxygen => Some(0xbcu8),
        Command::SyncSleep => Some(0xbcu8),
        Command::Raw(_) => None,
    }
}

/// Every encoded frame is sixteen bytes long, and its last byte is the low
/// eight bits of the sum of the fifteen bytes before it.
pub proof fn lemma_frame_shape(c: Command)
    ensures
        encoded(c).len() == 16,
        encoded(c)[15] == byte_sum(encoded(c).take(15)) % 256,
{
    assert(frame_body(c).len() == 15);
    assert(encoded(c).take(15) =~= frame_body(c));
}

/// Byte 0 of the frame of every command but `Raw` is the opcode that the
/// command table lists for it.
pub proof fn lemma_opcode_of_frame(c: Command)
    requires
        !(c is Raw),
    ensures
        encoded(c)[0] == listed_opcode(c).unwrap(),
{
}

/// Two commands other than `Raw` whose frames start with the same byte are
/// of the same kind, or are one of the pairs that the command table lists
/// under one opcode: the heart-rate settings reads and writes, the two
/// real-time starts, the two real-time stops, and the two big-data syncs.
pub proof fn lemma_opcode_shared_only_as_listed(c1: Command, c2: Command)
    requires
        !(c1 is Raw),
        !(c2 is Raw),
        encoded(c1)[0] == encoded(c2)[0],
    ensures
        command_kind(c1) == command_kind(c2) || shared_opcode_pair(command_kind(c1), command_kind(c2)),
{
    lemma_opcode_of_frame(c1);
    lemma_opcode_of_frame(c2);
}

/// The position of a command's variant in the declaration of `Command`.
pub open spec fn command_kind(c: Command) -> int {
    match c {
        Command::ReadSportDetail { .. } => 0,
        Command::ReadHeartRate { .. } => 1,
        Command::ReadStress { .. } => 2,
        Command::GetHeartRateSettings => 3,
        Command::SetHeartRateSettings { .. } => 4,
        Command::StartRealTimeHeartRate => 5,
        Command::ContinueRealTimeHeartRate => 6,
        Command::StopRealTimeHeartRate => 7,
        Command::StartSpo2 => 8,
        Command::StopSpo2 => 9,
        Command::Reboot => 10,
        Command::SetTime { .. } => 11,
        Command::BlinkTwice => 12,
        Command::BatteryInfo => 13,
        Command::SyncOxygen => 14,
        Command::SyncSleep => 15,
        Command::Raw(_) => 16,
    }
}

/// The pairs of variants that share an opcode in the command table.
pub open spec fn shared_opcode_pair(a: int, b: int) -> bool {
    let pairs = set![(3int, 4int), (5int, 8int), (7int, 9int), (14int, 15int)];
    pairs.contains((a, b)) || pairs.contains((b, a))
}


/// Hardware and firmware revision strings of a ring.
#[derive(Debug)]
pub struct DeviceDetails {
    pub hw: Option<String>,
    pub fw: Option<String>,
}

impl Default for DeviceDetails {
    fn default() -> (r: DeviceDetails)
        ensures
            r.hw.is_none(),
            r.fw.is_none(),
    {
        DeviceDetails { hw: None, fw: None }
    }
}

/// A GATT service as discovery reports it: its UUID and those of its
/// characteristics, in the order they were listed.
#[derive(Debug)]
pub struct ServiceInfo {
    pub uuid: u128,
    pub characteristics: Vec<u128>,
}

/// A characteristic, by the positions of its service and of itself.
#[derive(Clone, Copy, Debug, PartialEq, Eq, Structural)]
pub struct CharacteristicRef {
    pub service: usize,
    pub characteristic: usize,
}

/// Why the write characteristics were not found.
#[derive(Clone, Copy, Debug, PartialEq, Eq, Structural)]
pub enum LookupError {
    /// The UART characteristic is there, the V2 one is not.
    MissingV2,
    /// The V2 characteristic is there, the UART one is not.
    MissingUart,
    /// Neither is there.
    NoneFound,
}

/// Characteristic `j` of service `i` has UUID `ch` in a service with UUID `svc`.
pub open spec fn matches_at(services: Seq<ServiceInfo>, svc: u128, ch: u128, i: int, j: int) -> bool {
    0 <= i < services.len() && services[i].uuid == svc && 0 <= j < services[i].characteristics@.len()
        && services[i].characteristics@[j] == ch
}

/// Some service with UUID `svc` has a characteristic with UUID `ch`.
pub open spec fn has_match(services: Seq<ServiceInfo>, svc: u128, ch: u128) -> bool {
    exists|i: int, j: int| matches_at(services, svc, ch, i, j)
}

/// `r` is the first match of `ch` in a service `svc`, or `None` when there is none.
pub open spec fn is_first_match(services: Seq<ServiceInfo>, svc: u128, ch: u128, r: Option<CharacteristicRef>) -> bool {
    match r {
        Some(c) => matches_at(services, svc, ch, c.service as int, c.characteristic as int) && forall|
            i2: int,
            j2: int,
        |
            (i2 < c.service || (i2 == c.service && j2 < c.characteristic)) ==> !matches_at(
                services,
                svc,
                ch,
                i2,
                j2,
            ),
        None => forall|i: int, j: int| !matches_at(services, svc, ch, i, j),
    }
}

/// Finds the first characteristic with UUID `char_uuid` in a service with
/// UUID `service_uuid`.
pub fn find_characteristic(services: &Vec<ServiceInfo>, service_uuid: u128, char_uuid: u128) -> (r: Option<
    CharacteristicRef,
>)
    ensures
        is_first_match(services@, service_uuid, char_uuid, r),
{
    let mut i: usize = 0;
    while i < services.len()
        invariant
            i <= services@.len(),
            forall|i2: int, j2: int| i2 < i ==> !matches_at(services@, service_uuid, char_uuid, i2, j2),
        decreases services@.len() - i,
    {
        let svc = &services[i];
        if svc.uuid == service_uuid {
            let mut j: usize = 0;
            while j < svc.characteristics.len()
                invariant
                    i < services@.len(),
                    svc == services@[i as int],
                    svc.uuid == service_uuid,
                    j <= svc.characteristics@.len(),
                    forall|i2: int, j2: int| i2 < i ==> !matches_at(services@, service_uuid, char_uuid, i2, j2),
                    forall|j2: int| j2 < j ==> !matches_at(services@, service_uuid, char_uuid, i as int, j2),
                decreases svc.characteristics@.len() - j,
            {
                if svc.characteristics[j] == char_uuid {
                    return Some(CharacteristicRef { service: i, characteristic: j });
                }
                j = j + 1;
            }
        }
        i = i + 1;
    }
    None
}

/// Finds the two characteristics that commands are written to: UART RX in
/// the UART service and the command characteristic in the V2 service.
pub fn find_tx_characteristics(services: &Vec<ServiceInfo>) -> (r: Result<
    (CharacteristicRef, CharacteristicRef),
    LookupError,
>)
    ensures
        ({
            let u = has_match(services@, constants::UART_SERVICE_UUID, constants::UART_RX_CHAR_UUID);
            let v = has_match(services@, constants::CHARACTERISTIC_SERVICE_V2, constants::CHARACTERISTIC_COMMAND);
            &&& r is Ok <==> u && v
            &&& r == Err::<(CharacteristicRef, CharacteristicRef), LookupError>(LookupError::MissingV2) <==> u && !v
            &&& r == Err::<(CharacteristicRef, CharacteristicRef), LookupError>(LookupError::MissingUart) <==> !u && v
            &&& r == Err::<(CharacteristicRef, CharacteristicRef), LookupError>(LookupError::NoneFound) <==> !u && !v
        }),
        r matches Ok((u, v)) ==> is_first_match(
            services@,
            constants::UART_SERVICE_UUID,
            constants::UART_RX_CHAR_UUID,
            Some(u),
        ) && is_first_match(
            services@,
            constants::CHARACTERISTIC_SERVICE_V2,
            constants::CHARACTERISTIC_COMMAND,
            Some(v),
        ),
{
    let one = find_characteristic(services, constants::UART_SERVICE_UUID, constants::UART_RX_CHAR_UUID);
    let two = find_characteristic(services, constants::CHARACTERISTIC_SERVICE_V2, constants::CHARACTERISTIC_COMMAND);
    match (one, two) {
        (Some(one), Some(two)) => Ok((one, two)),
        (Some(_), None) => Err(LookupError::MissingV2),
        (None, Some(_)) => Err(LookupError::MissingUart),
        (None, None) => Err(LookupError::NoneFound),
    }
}


/// Finds the two characteristics that notifications arrive on: UART TX in
/// the UART service and the notify characteristic in the V2 service.
pub fn find_notify_characteristics(services: &Vec<ServiceInfo>) -> (r: (
    Option<CharacteristicRef>,
    Option<CharacteristicRef>,
))
    ensures
        is_first_match(services@, constants::UART_SERVICE_UUID, constants::UART_TX_CHAR_UUID, r.0),
        is_first_match(services@, constants::CHARACTERISTIC_SERVICE_V2, constants::CHARACTERISTIC_NOTIFY_V2, r.1),
{
    (
        find_characteristic(services, constants::UART_SERVICE_UUID, constants::UART_TX_CHAR_UUID),
        find_characteristic(services, constants::CHARACTERISTIC_SERVICE_V2, constants::CHARACTERISTIC_NOTIFY_V2),
    )
}

/// Finds the hardware and the firmware revision characteristics of the
/// device information service.
pub fn find_device_info_characteristics(services: &Vec<ServiceInfo>) -> (r: (
    Option<CharacteristicRef>,
    Option<CharacteristicRef>,
))
    ensures
        is_first_match(services@, constants::DEVICE_INFO_UUID, constants::DEVICE_HW_UUID, r.0),
        is_first_match(services@, constants::DEVICE_INFO_UUID, constants::DEVICE_FW_UUID, r.1),
{
    (
        find_characteristic(services, constants::DEVICE_INFO_UUID, constants::DEVICE_HW_UUID),
        find_characteristic(services, constants::DEVICE_INFO_UUID, constants::DEVICE_FW_UUID),
    )
}

} // verus!
