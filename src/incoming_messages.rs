pub mod big_data;
pub mod heart_rate;
pub mod notification;
pub mod sport_detail;
pub mod stress;

use vstd::prelude::*;
use crate::constants;
use crate::datetime::local_today;
use crate::util::slice_range;
use self::big_data::{
    oxygen_samples, sleep_sessions, BigDataModel, BigDataPacket, BigDataPacketModel, BigDataState,
    big_data_start, big_data_step, OxygenData, OxygenMeasurement, SleepData, SleepSessionModel,
};
use self::heart_rate::{heart_rate_start, heart_rate_step, HeartRate, HeartRateModel, HeartRateState};
use self::sport_detail::{sport_detail_start, sport_detail_step, SportDetail, SportDetailModel, SportDetailState};
use crate::error::ProtocolError;
use self::stress::{stress_start, stress_step, StressModel, StressState};

verus! {

/// A live measurement.
#[derive(Clone, Copy, Debug, PartialEq, Eq, Structural)]
pub enum RealTimeEvent {
    HeartRate(u8),
    Oxygen(u8),
    Error(u8),
}

/// A decoded event from the ring.
#[derive(Debug, PartialEq)]
pub enum CommandReply {
    BatteryInfo { level: u8, charging: bool },
    HeartRateSettings { enabled: bool, interval: u8 },
    SportDetail(Vec<SportDetail>),
    HeartRate(HeartRate),
    RealTimeData(RealTimeEvent),
    BlinkTwice,
    SetTime,
    Reboot,
    StopRealTime,
    SetHrSettings,
    Stress { time_interval_sec: u8, measurements: Vec<u8> },
    Sleep(SleepData),
    Oxygen(OxygenData),
    Unknown(Vec<u8>),
}

/// The mathematical form of a `CommandReply`.
pub enum CommandReplyModel {
    BatteryInfo { level: u8, charging: bool },
    HeartRateSettings { enabled: bool, interval: u8 },
    SportDetail(Seq<SportDetail>),
    HeartRate { range: u8, rates: Seq<u8>, date: u32 },
    RealTimeData(RealTimeEvent),
    BlinkTwice,
    SetTime,
    Reboot,
    StopRealTime,
    SetHrSettings,
    Stress { time_interval_sec: u8, measurements: Seq<u8> },
    Sleep(Seq<SleepSessionModel>),
    Oxygen(Seq<OxygenMeasurement>),
    Unknown(Seq<u8>),
}

impl View for CommandReply {
    type V = CommandReplyModel;

    open spec fn view(&self) -> CommandReplyModel {
        match self {
            CommandReply::BatteryInfo { level, charging } => CommandReplyModel::BatteryInfo {
                level: *level,
                charging: *charging,
            },
            CommandReply::HeartRateSettings { enabled, interval } => CommandReplyModel::HeartRateSettings {
                enabled: *enabled,
                interval: *interval,
            },
            CommandReply::SportDetail(v) => CommandReplyModel::SportDetail(v@),
            CommandReply::HeartRate(h) => CommandReplyModel::HeartRate {
                range: h.range,
                rates: h.rates@,
                date: h.date,
            },
            CommandReply::RealTimeData(e) => CommandReplyModel::RealTimeData(*e),
            CommandReply::BlinkTwice => CommandReplyModel::BlinkTwice,
            CommandReply::SetTime => CommandReplyModel::SetTime,
            CommandReply::Reboot => CommandReplyModel::Reboot,
            CommandReply::StopRealTime => CommandReplyModel::StopRealTime,
            CommandReply::SetHrSettings => CommandReplyModel::SetHrSettings,
            CommandReply::Stress { time_interval_sec, measurements } => CommandReplyModel::Stress {
                time_interval_sec: *time_interval_sec,
                measurements: measurements@,
            },
            CommandReply::Sleep(d) => CommandReplyModel::Sleep(d@),
            CommandReply::Oxygen(d) => CommandReplyModel::Oxygen(d.samples@),
            CommandReply::Unknown(b) => CommandReplyModel::Unknown(b@),
        }
    }
}

/// The mathematical form of an optional reply.
pub open spec fn reply_view(r: Option<CommandReply>) -> Option<CommandReplyModel> {
    match r {
        Some(c) => Some(c@),
        None => None,
    }
}

/// An inbound frame, tagged with the channel it arrived on.
#[derive(Clone, Debug, PartialEq)]
pub enum RawPacket {
    Uart(Vec<u8>),
    V2(Vec<u8>),
}

/// The mathematical form of a `RawPacket`.
pub enum RawPacketModel {
    Uart(Seq<u8>),
    V2(Seq<u8>),
}

impl View for RawPacket {
    type V = RawPacketModel;

    open spec fn view(&self) -> RawPacketModel {
        match self {
            RawPacket::Uart(b) => RawPacketModel::Uart(b@),
            RawPacket::V2(b) => RawPacketModel::V2(b@),
        }
    }
}

impl RawPacket {
    /// The bytes of the frame, whatever its channel.
    pub fn bytes(&self) -> (r: &Vec<u8>)
        ensures
            r@ == match self@ {
                RawPacketModel::Uart(b) => b,
                RawPacketModel::V2(b) => b,
            },
    {
        match self {
            RawPacket::Uart(b) => b,
            RawPacket::V2(b) => b,
        }
    }
}

/// The partial state of each transaction family: at most one each.
#[derive(Debug)]
pub struct MultiPacketStates {
    sport_detail: Option<SportDetailState>,
    heart_rate_state: Option<HeartRateState>,
    stress_state: Option<StressState>,
    partial_big_data: Option<BigDataState>,
}

/// The mathematical form of the partial states of a parser.
pub struct ParserModel {
    pub sport_detail: Option<SportDetailModel>,
    pub heart_rate: Option<HeartRateModel>,
    pub stress: Option<StressModel>,
    pub big_data: Option<BigDataModel>,
}

/// Turns inbound frames into replies. It owns the partial state of each
/// transaction family of one connection.
#[derive(Debug)]
pub struct PacketParser {
    multi_packet_states: MultiPacketStates,
}

impl View for PacketParser {
    type V = ParserModel;

    closed spec fn view(&self) -> ParserModel {
        ParserModel {
            sport_detail: match self.multi_packet_states.sport_detail {
                Some(s) => Some(s@),
                None => None,
            },
            heart_rate: match self.multi_packet_states.heart_rate_state {
                Some(s) => Some(s@),
                None => None,
            },
            stress: match self.multi_packet_states.stress_state {
                Some(s) => Some(s@),
                None => None,
            },
            big_data: match self.multi_packet_states.partial_big_data {
                Some(s) => Some(s@),
                None => None,
            },
        }
    }
}

/// The parser with no transaction in progress.
pub open spec fn idle_parser() -> ParserModel {
    ParserModel { sport_detail: None, heart_rate: None, stress: None, big_data: None }
}

/// Whether `p` opens a heart-rate transaction whatever is in progress.
pub open spec fn heart_rate_restarts(p: Seq<u8>) -> bool {
    p.len() >= 2 && p[1] == 0xff
}

/// Whether `p` opens a sport-detail transaction whatever is in progress.
pub open spec fn sport_detail_restarts(p: Seq<u8>) -> bool {
    p.len() >= 2 && (p[1] == 0xf0 || p[1] == 0xff)
}

/// Whether `p` opens a stress transaction whatever is in progress.
pub open spec fn stress_restarts(p: Seq<u8>) -> bool {
    p.len() >= 2 && (p[1] == 0 || p[1] == 0xff)
}

/// The heart-rate state and the reply after the frame `p` (opcode 0x15).
/// Follow-on frames are stepped without their trailing checksum byte.
pub open spec fn heart_rate_transition(s: Option<HeartRateModel>, p: Seq<u8>) -> (
    Option<HeartRateModel>,
    Option<CommandReplyModel>,
) {
    let r = if s is None || heart_rate_restarts(p) {
        heart_rate_start(p)
    } else {
        heart_rate_step(s.unwrap(), p.take(p.len() - 1))
    };
    match r {
        Err(_) => (None, None),
        Ok(HeartRateModel::Complete { range, rates, date }) => (
            None,
            Some(CommandReplyModel::HeartRate { range, rates, date }),
        ),
        Ok(v) => (Some(v), None),
    }
}

/// The sport-detail state and the reply after the frame `p` (opcode 0x43).
pub open spec fn sport_detail_transition(s: Option<SportDetailModel>, p: Seq<u8>) -> (
    Option<SportDetailModel>,
    Option<CommandReplyModel>,
) {
    let r = if s is None || sport_detail_restarts(p) {
        sport_detail_start(p)
    } else {
        sport_detail_step(s.unwrap(), p)
    };
    match r {
        Err(_) => (None, None),
        Ok(SportDetailModel::Complete { packets }) => (None, Some(CommandReplyModel::SportDetail(packets))),
        Ok(v) => (Some(v), None),
    }
}

/// The stress state and the reply after the frame `p` (opcode 0x37).
pub open spec fn stress_transition(s: Option<StressModel>, p: Seq<u8>) -> (
    Option<StressModel>,
    Option<CommandReplyModel>,
) {
    let r = if s is None || stress_restarts(p) {
        stress_start(p)
    } else {
        stress_step(s.unwrap(), p)
    };
    match r {
        Err(_) => (None, None),
        Ok(StressModel::Complete { measurements, minutes_appart }) => (
            None,
            Some(CommandReplyModel::Stress { time_interval_sec: minutes_appart, measurements }),
        ),
        Ok(v) => (Some(v), None),
    }
}

/// The reply for a whole big-data buffer, if its decoder accepts it.
pub open spec fn big_data_reply(pk: BigDataPacketModel, today: int) -> Option<CommandReplyModel> {
    match pk {
        BigDataPacketModel::Sleep(d) => match sleep_sessions(d, today) {
            Ok(v) => Some(CommandReplyModel::Sleep(v)),
            Err(_) => None,
        },
        BigDataPacketModel::Oxygen(d) => match oxygen_samples(d, today) {
            Ok(v) => Some(CommandReplyModel::Oxygen(v)),
            Err(_) => None,
        },
    }
}

/// The big-data state and the reply after the V2 frame `p`, which either
/// starts a transaction (opcode 0xbc) or continues the one in progress.
pub open spec fn big_data_transition(s: Option<BigDataModel>, p: Seq<u8>, today: int) -> (
    Option<BigDataModel>,
    Option<CommandReplyModel>,
) {
    let r = if p[0] == 0xbc || s is None {
        big_data_start(p)
    } else {
        big_data_step(s.unwrap(), p)
    };
    match r {
        Err(_) => (None, None),
        Ok(BigDataModel::Complete(pk)) => (None, big_data_reply(pk, today)),
        Ok(v) => (Some(v), None),
    }
}

/// The reply to a real-time frame `[0x69, mode, status, value, ..]`.
pub open spec fn real_time_reply(p: Seq<u8>) -> CommandReplyModel {
    if p[2] != 0 {
        CommandReplyModel::RealTimeData(RealTimeEvent::Error(p[2]))
    } else if p[1] == 1 {
        CommandReplyModel::RealTimeData(RealTimeEvent::HeartRate(p[3]))
    } else if p[1] == 3 {
        CommandReplyModel::RealTimeData(RealTimeEvent::Oxygen(p[3]))
    } else {
        CommandReplyModel::Unknown(p)
    }
}

/// The parser state and the reply after the UART frame `p`.
pub open spec fn uart_step(s: ParserModel, p: Seq<u8>) -> (ParserModel, Option<CommandReplyModel>) {
    if p.len() == 0 {
        (s, None)
    } else if p[0] == 0x01 {
        (s, Some(CommandReplyModel::SetTime))
    } else if p[0] == 0x03 {
        if p.len() < 3 {
            (s, None)
        } else {
            (s, Some(CommandReplyModel::BatteryInfo { level: p[1], charging: p[2] > 0 }))
        }
    } else if p[0] == 0x08 {
        (s, Some(CommandReplyModel::Reboot))
    } else if p[0] == 0x10 {
        (s, Some(CommandReplyModel::BlinkTwice))
    } else if p[0] == 0x15 {
        let (h, r) = heart_rate_transition(s.heart_rate, p);
        (ParserModel { heart_rate: h, ..s }, r)
    } else if p[0] == 0x16 {
        if p.len() < 4 {
            (s, None)
        } else if p[2] == 1 || p[2] == 2 {
            (s, Some(CommandReplyModel::HeartRateSettings { enabled: p[2] == 1, interval: p[3] }))
        } else {
            (s, Some(CommandReplyModel::Unknown(p)))
        }
    } else if p[0] == 0x37 {
        let (t, r) = stress_transition(s.stress, p);
        (ParserModel { stress: t, ..s }, r)
    } else if p[0] == 0x43 {
        let (d, r) = sport_detail_transition(s.sport_detail, p);
        (ParserModel { sport_detail: d, ..s }, r)
    } else if p[0] == 0x69 {
        if p.len() < 4 {
            (s, None)
        } else {
            (s, Some(real_time_reply(p)))
        }
    } else if p[0] == 0x6a {
        (s, Some(CommandReplyModel::StopRealTime))
    } else {
        (s, Some(CommandReplyModel::Unknown(p)))
    }
}

/// The parser state and the reply after the V2 frame `p`.
pub open spec fn v2_step(s: ParserModel, p: Seq<u8>, today: int) -> (ParserModel, Option<CommandReplyModel>) {
    if p.len() == 0 {
        (s, None)
    } else if p[0] != 0xbc && s.big_data is None {
        (s, Some(CommandReplyModel::Unknown(p)))
    } else {
        let (b, r) = big_data_transition(s.big_data, p, today);
        (ParserModel { big_data: b, ..s }, r)
    }
}

/// The parser state and the reply after the frame `f`, with `today` the
/// Julian day number of the local date.
pub open spec fn parser_step(s: ParserModel, f: RawPacketModel, today: int) -> (
    ParserModel,
    Option<CommandReplyModel>,
) {
    match f {
        RawPacketModel::Uart(p) => uart_step(s, p),
        RawPacketModel::V2(p) => v2_step(s, p, today),
    }
}

impl Default for PacketParser {
    fn default() -> (r: PacketParser)
        ensures
            r@ == idle_parser(),
    {
        PacketParser::new()
    }
}

impl PacketParser {
    pub fn new() -> (r: PacketParser)
        ensures
            r@ == idle_parser(),
    {
        PacketParser {
            multi_packet_states: MultiPacketStates {
                sport_detail: None,
                heart_rate_state: None,
                stress_state: None,
                partial_big_data: None,
            },
        }
    }

    /// Handles one inbound frame; `today` is the Julian day number of the
    /// local date, which sleep and oxygen records count back from. Frames
    /// that do not complete a reply, and frames that are rejected, give `None`.
    pub fn handle_packet(&mut self, packet: &RawPacket, today: i32) -> (r: Option<CommandReply>)
        ensures
            (final(self)@, reply_view(r)) == parser_step(old(self)@, packet@, today as int),
    {
        match packet {
            RawPacket::Uart(inner) => self.handle_uart(inner.as_slice()),
            RawPacket::V2(inner) => self.handle_v2(inner.as_slice(), today),
        }
    }

    /// Handles one inbound frame against the local date that the clock shows now.
    pub fn handle_packet_now(&mut self, packet: &RawPacket) -> (r: Option<CommandReply>)
        ensures
            exists|today: i32| #[trigger]
                parser_step(old(self)@, packet@, today as int) == (final(self)@, reply_view(r)),
    {
        let today = local_today();
        let r = self.handle_packet(packet, today);
        assert(parser_step(old(self)@, packet@, today as int) == (self@, reply_view(r)));
        r
    }

    fn handle_uart(&mut self, packet: &[u8]) -> (r: Option<CommandReply>)
        ensures
            (final(self)@, reply_view(r)) == uart_step(old(self)@, packet@),
    {
        if packet.len() == 0 {
            return None;
        }
        let op = packet[0];
        if op == constants::CMD_SET_DATE_TIME {
            Some(CommandReply::SetTime)
        } else if op == constants::CMD_BATTERY {
            if packet.len() < 3 {
                None
            } else {
                Some(CommandReply::BatteryInfo { level: packet[1], charging: packet[2] > 0 })
            }
        } else if op == constants::CMD_POWER_OFF {
            Some(CommandReply::Reboot)
        } else if op == constants::CMD_BLINK {
            Some(CommandReply::BlinkTwice)
        } else if op == constants::CMD_SYNC_HEART_RATE {
            self.handle_heart_rate(packet)
        } else if op == constants::CMD_AUTO_HR_PREF {
            if packet.len() < 4 {
                None
            } else if packet[2] == 1 || packet[2] == 2 {
                Some(CommandReply::HeartRateSettings { enabled: packet[2] == 1, interval: packet[3] })
            } else {
                Some(CommandReply::Unknown(slice_range(packet, 0, packet.len())))
            }
        } else if op == constants::CMD_SYNC_STRESS {
            self.handle_stress(packet)
        } else if op == constants::CMD_SYNC_ACTIVITY {
            self.handle_sport_detail(packet)
        } else if op == constants::CMD_MANUAL_HEART_RATE {
            if packet.len() < 4 {
                None
            } else {
                Some(Self::handle_real_time(packet))
            }
        } else if op == constants::CMD_STOP_REAL_TIME {
            Some(CommandReply::StopRealTime)
        } else {
            let r = Some(CommandReply::Unknown(slice_range(packet, 0, packet.len())));
            assert(packet@.subrange(0, packet@.len() as int) =~= packet@);
            r
        }
    }

    fn handle_real_time(packet: &[u8]) -> (r: CommandReply)
        requires
            packet@.len() >= 4,
        ensures
            r@ == real_time_reply(packet@),
    {
        if packet[2] != 0 {
            CommandReply::RealTimeData(RealTimeEvent::Error(packet[2]))
        } else if packet[1] == 1 {
            CommandReply::RealTimeData(RealTimeEvent::HeartRate(packet[3]))
        } else if packet[1] == 3 {
            CommandReply::RealTimeData(RealTimeEvent::Oxygen(packet[3]))
        } else {
            let r = CommandReply::Unknown(slice_range(packet, 0, packet.len()));
            assert(packet@.subrange(0, packet@.len() as int) =~= packet@);
            r
        }
    }

    fn handle_heart_rate(&mut self, packet: &[u8]) -> (r: Option<CommandReply>)
        requires
            packet@.len() >= 1,
        ensures
            final(self)@ == (ParserModel {
                heart_rate: heart_rate_transition(old(self)@.heart_rate, packet@).0,
                ..old(self)@
            }),
            reply_view(r) == heart_rate_transition(old(self)@.heart_rate, packet@).1,
    {
        let restart = packet.len() >= 2 && packet[1] == 0xff;
        let result = if restart || self.multi_packet_states.heart_rate_state.is_none() {
            self.multi_packet_states.heart_rate_state = None;
            HeartRateState::from_packet(packet)
        } else {
            let mut st = self.multi_packet_states.heart_rate_state.take().unwrap();
            let body = slice_range(packet, 0, packet.len() - 1);
            assert(body@ =~= packet@.take(packet@.len() - 1));
            match st.step(body.as_slice()) {
                Ok(()) => Ok(st),
                Err(e) => Err(e),
            }
        };
        match result {
            Err(_) => None,
            Ok(HeartRateState::Complete { range, rates, date }) => Some(
                CommandReply::HeartRate(HeartRate { range, rates, date }),
            ),
            Ok(other) => {
                self.multi_packet_states.heart_rate_state = Some(other);
                None
            },
        }
    }

    fn handle_sport_detail(&mut self, packet: &[u8]) -> (r: Option<CommandReply>)
        ensures
            final(self)@ == (ParserModel {
                sport_detail: sport_detail_transition(old(self)@.sport_detail, packet@).0,
                ..old(self)@
            }),
            reply_view(r) == sport_detail_transition(old(self)@.sport_detail, packet@).1,
    {
        let restart = packet.len() >= 2 && (packet[1] == 0xf0 || packet[1] == 0xff);
        let result = if restart || self.multi_packet_states.sport_detail.is_none() {
            self.multi_packet_states.sport_detail = None;
            SportDetailState::new(packet)
        } else {
            let mut st = self.multi_packet_states.sport_detail.take().unwrap();
            match st.step(packet) {
                Ok(()) => Ok(st),
                Err(e) => Err(e),
            }
        };
        match result {
            Err(_) => None,
            Ok(SportDetailState::Complete { packets }) => Some(CommandReply::SportDetail(packets)),
            Ok(other) => {
                self.multi_packet_states.sport_detail = Some(other);
                None
            },
        }
    }

    fn handle_stress(&mut self, packet: &[u8]) -> (r: Option<CommandReply>)
        ensures
            final(self)@ == (ParserModel {
                stress: stress_transition(old(self)@.stress, packet@).0,
                ..old(self)@
            }),
            reply_view(r) == stress_transition(old(self)@.stress, packet@).1,
    {
        let restart = packet.len() >= 2 && (packet[1] == 0 || packet[1] == 0xff);
        let result = if restart || self.multi_packet_states.stress_state.is_none() {
            self.multi_packet_states.stress_state = None;
            StressState::new(packet)
        } else {
            let mut st = self.multi_packet_states.stress_state.take().unwrap();
            match st.step(packet) {
                Ok(()) => Ok(st),
                Err(e) => Err(e),
            }
        };
        match result {
            Err(_) => None,
            Ok(StressState::Complete { measurements, minutes_appart }) => Some(
                CommandReply::Stress { time_interval_sec: minutes_appart, measurements },
            ),
            Ok(other) => {
                self.multi_packet_states.stress_state = Some(other);
                None
            },
        }
    }

    fn handle_v2(&mut self, packet: &[u8], today: i32) -> (r: Option<CommandReply>)
        ensures
            (final(self)@, reply_view(r)) == v2_step(old(self)@, packet@, today as int),
    {
        if packet.len() == 0 {
            return None;
        }
        if packet[0] != constants::CMD_BIG_DATA_V2 && self.multi_packet_states.partial_big_data.is_none() {
            let r = Some(CommandReply::Unknown(slice_range(packet, 0, packet.len())));
            assert(packet@.subrange(0, packet@.len() as int) =~= packet@);
            return r;
        }
        let result = if packet[0] == constants::CMD_BIG_DATA_V2 {
            self.multi_packet_states.partial_big_data = None;
            BigDataState::new(packet)
        } else {
            let mut st = self.multi_packet_states.partial_big_data.take().unwrap();
            match st.step(packet) {
                Ok(()) => Ok(st),
                Err(e) => Err(e),
            }
        };
        match result {
            Err(_) => None,
            Ok(BigDataState::Complete(pk)) => Self::check_for_complete_big_data(&pk, today),
            Ok(other) => {
                self.multi_packet_states.partial_big_data = Some(other);
                None
            },
        }
    }

    fn check_for_complete_big_data(packet: &BigDataPacket, today: i32) -> (r: Option<CommandReply>)
        ensures
            reply_view(r) == big_data_reply(packet@, today as int),
    {
        match packet {
            BigDataPacket::Sleep(data) => match SleepData::decode(data, today) {
                Ok(d) => Some(CommandReply::Sleep(d)),
                Err(_) => None,
            },
            BigDataPacket::Oxygen(data) => match OxygenData::decode(data, today) {
                Ok(d) => Some(CommandReply::Oxygen(d)),
                Err(_) => None,
            },
        }
    }
}


/// The transaction family whose partial state a frame reads and writes.
pub enum Family {
    SportDetail,
    HeartRate,
    Stress,
    BigData,
    /// Frames that complete a reply alone.
    Stateless,
}

/// The family of the frame `f`.
pub open spec fn family_of(f: RawPacketModel) -> Family {
    match f {
        RawPacketModel::Uart(p) => if p.len() == 0 {
            Family::Stateless
        } else if p[0] == 0x15 {
            Family::HeartRate
        } else if p[0] == 0x37 {
            Family::Stress
        } else if p[0] == 0x43 {
            Family::SportDetail
        } else {
            Family::Stateless
        },
        RawPacketModel::V2(p) => if p.len() == 0 {
            Family::Stateless
        } else {
            Family::BigData
        },
    }
}

/// `s` and `t` hold the same partial state for `fam`.
pub open spec fn same_slot(s: ParserModel, t: ParserModel, fam: Family) -> bool {
    match fam {
        Family::SportDetail => s.sport_detail == t.sport_detail,
        Family::HeartRate => s.heart_rate == t.heart_rate,
        Family::Stress => s.stress == t.stress,
        Family::BigData => s.big_data == t.big_data,
        Family::Stateless => true,
    }
}

/// `s` and `t` hold the same partial state for every family but `fam`.
pub open spec fn same_except(s: ParserModel, t: ParserModel, fam: Family) -> bool {
    &&& (fam !is SportDetail ==> s.sport_detail == t.sport_detail)
    &&& (fam !is HeartRate ==> s.heart_rate == t.heart_rate)
    &&& (fam !is Stress ==> s.stress == t.stress)
    &&& (fam !is BigData ==> s.big_data == t.big_data)
}

/// A frame changes the partial state of its own family only, and what it
/// gives back and leaves behind depends only on that state and the frame.
pub proof fn lemma_family_isolation(s1: ParserModel, s2: ParserModel, f: RawPacketModel, today: int)
    requires
        same_slot(s1, s2, family_of(f)),
    ensures
        same_except(parser_step(s1, f, today).0, s1, family_of(f)),
        parser_step(s1, f, today).1 == parser_step(s2, f, today).1,
        same_slot(parser_step(s1, f, today).0, parser_step(s2, f, today).0, family_of(f)),
{
}

/// Frames of different transaction families may arrive in either order:
/// the parser ends in the same state and gives the same reply for each frame.
/// Since swaps of neighbours reach every interleaving, the replies of one
/// transaction do not depend on how frames of other families are interleaved
/// with it.
pub proof fn lemma_interleaving_commutes(s: ParserModel, f: RawPacketModel, g: RawPacketModel, today: int)
    requires
        family_of(f) != family_of(g) || family_of(f) is Stateless,
    ensures
        ({
            let (a1, rf1) = parser_step(s, f, today);
            let (a2, rg2) = parser_step(a1, g, today);
            let (b1, rg1) = parser_step(s, g, today);
            let (b2, rf2) = parser_step(b1, f, today);
            a2 == b2 && rf1 == rf2 && rg1 == rg2
        }),
{
    let (a1, rf1) = parser_step(s, f, today);
    let (b1, rg1) = parser_step(s, g, today);
    lemma_family_isolation(s, b1, f, today);
    lemma_family_isolation(s, a1, g, today);
    lemma_family_isolation(a1, s, g, today);
    lemma_family_isolation(b1, s, f, today);
}

/// The big-data payload of a transaction up to and including frame `k`:
/// the start frame's bytes after its six-byte header, then whole continuation frames.
pub open spec fn transaction_bytes(frames: Seq<Seq<u8>>, k: nat) -> Seq<u8>
    decreases k,
{
    if k == 0 {
        frames[0].subrange(6, frames[0].len() as int)
    } else {
        transaction_bytes(frames, (k - 1) as nat) + frames[k as int]
    }
}

/// The packet of kind `kind` (sleep for 0x27, else oxygen) holding `d`.
pub open spec fn packet_of_kind(kind: u8, d: Seq<u8>) -> BigDataPacketModel {
    if kind == 0x27 {
        BigDataPacketModel::Sleep(d)
    } else {
        BigDataPacketModel::Oxygen(d)
    }
}

/// The parser state and the replies after the V2 frames `frames`, fed in order.
pub open spec fn v2_run(s: ParserModel, frames: Seq<Seq<u8>>, today: int) -> (
    ParserModel,
    Seq<Option<CommandReplyModel>>,
)
    decreases frames.len(),
{
    if frames.len() == 0 {
        (s, seq![])
    } else {
        let (t, rs) = v2_run(s, frames.drop_last(), today);
        let (u, r) = v2_step(t, frames.last(), today);
        (u, rs.push(r))
    }
}

/// A big-data transaction: a start frame of a known kind, then continuation
/// frames (none starting with 0xbc), whose payload reaches the declared
/// length with the last frame and not before.
pub open spec fn is_big_data_transaction(frames: Seq<Seq<u8>>) -> bool {
    &&& frames.len() >= 1
    &&& frames[0].len() >= 6
    &&& frames[0][0] == 0xbc
    &&& (frames[0][1] == 0x27 || frames[0][1] == 0x2a)
    &&& forall|i: int| 1 <= i < frames.len() ==> #[trigger] frames[i].len() > 0 && frames[i][0] != 0xbc
    &&& forall|k: nat|
        k < frames.len() - 1 ==> #[trigger] transaction_bytes(frames, k).len() < big_data::declared_length(
            frames[0],
        )
    &&& transaction_bytes(frames, (frames.len() - 1) as nat).len() == big_data::declared_length(frames[0])
}

/// A big-data transaction gives a sleep or oxygen reply at most once: every
/// frame but the last gives none, the last gives the decoded buffer of exactly
/// the declared length (none if the decoder rejects it), and the transaction
/// leaves no big-data state behind. Other families' states are untouched.
pub proof fn lemma_big_data_emits_once(s: ParserModel, frames: Seq<Seq<u8>>, today: int)
    requires
        is_big_data_transaction(frames),
    ensures
        ({
            let (t, rs) = v2_run(s, frames, today);
            let n = frames.len() - 1;
            &&& rs.len() == frames.len()
            &&& forall|k: int| 0 <= k < n ==> (#[trigger] rs[k]) is None
            &&& rs[n] == big_data_reply(packet_of_kind(frames[0][1], transaction_bytes(frames, n as nat)), today)
            &&& transaction_bytes(frames, n as nat).len() == big_data::declared_length(frames[0])
            &&& t == ParserModel { big_data: None, ..s }
        }),
{
    let n = (frames.len() - 1) as nat;
    lemma_big_data_prefix(s, frames, n, today);
    assert(frames.take(n + 1int) =~= frames);
}

spec fn is_last_frame(frames: Seq<Seq<u8>>, k: nat) -> bool {
    k == frames.len() - 1
}

proof fn lemma_big_data_prefix(s: ParserModel, frames: Seq<Seq<u8>>, k: nat, today: int)
    requires
        is_big_data_transaction(frames),
        k < frames.len(),
    ensures
        ({
            let (t, rs) = v2_run(s, frames.take(k + 1int), today);
            let target = big_data::declared_length(frames[0]);
            let pk = packet_of_kind(frames[0][1], transaction_bytes(frames, k));
            &&& rs.len() == k + 1
            &&& forall|j: int| 0 <= j < k ==> (#[trigger] rs[j]) is None
            &&& k < frames.len() - 1 ==> t == ParserModel {
                big_data: Some(BigDataModel::Partial { target_length: target, packet: pk }),
                ..s
            } && rs[k as int] is None
            &&& k == frames.len() - 1 ==> t == ParserModel { big_data: None, ..s } && rs[k as int]
                == big_data_reply(pk, today)
        }),
    decreases k,
{
    let f = frames[0];
    let target = big_data::declared_length(f);
    if k == 0 {
        let one = frames.take(1);
        assert(one.drop_last() =~= seq![]);
        assert(v2_run(s, one.drop_last(), today) == (s, Seq::<Option<CommandReplyModel>>::empty()));
        assert(one.last() == f);
        let empty = packet_of_kind(f[1], seq![]);
        let d = transaction_bytes(frames, 0);
        assert(empty.data() + d =~= d);
        assert(empty.with_data(d) == packet_of_kind(f[1], d));
        assert(v2_run(s, one, today) == (v2_step(s, f, today).0, seq![v2_step(s, f, today).1]));
        if is_last_frame(frames, 0) {
            assert(d.len() == target);
            assert(big_data_start(f) == Ok::<BigDataModel, ProtocolError>(BigDataModel::Complete(packet_of_kind(f[1], d))));
        } else {
            assert(d.len() < target);
            assert(big_data_start(f) == Ok::<BigDataModel, ProtocolError>(BigDataModel::Partial { target_length: target, packet: packet_of_kind(f[1], d) }));
        }
    } else {
        lemma_big_data_prefix(s, frames, (k - 1) as nat, today);
        let pre = frames.take(k + 1int);
        assert(pre.drop_last() =~= frames.take(k as int));
        assert(pre.last() == frames[k as int]);
        assert(frames[k as int].len() > 0 && frames[k as int][0] != 0xbc);
        assert(transaction_bytes(frames, (k - 1) as nat).len() < target);
        let (t0, rs0) = v2_run(s, frames.take(k as int), today);
        let (t1, rs1) = v2_run(s, pre, today);
        assert(rs1 == rs0.push(v2_step(t0, frames[k as int], today).1));
        assert forall|j: int| 0 <= j < k implies (#[trigger] rs1[j]) is None by {
            assert(rs1[j] == rs0[j]);
        }
    }
}


/// The reply is a sleep or an oxygen record.
pub open spec fn is_big_data_reply(r: Option<CommandReplyModel>) -> bool {
    r matches Some(CommandReplyModel::Sleep(_)) || r matches Some(CommandReplyModel::Oxygen(_))
}

/// Whatever came before, a frame gives a sleep or oxygen reply only when it
/// brings the accumulated payload to exactly the length that its transaction's
/// start frame declared, and the transaction then ends. UART frames never give one.
pub proof fn lemma_big_data_emits_only_when_whole(s: ParserModel, f: RawPacketModel, today: int)
    requires
        is_big_data_reply(parser_step(s, f, today).1),
    ensures
        f is V2,
        parser_step(s, f, today).0 == (ParserModel { big_data: None, ..s }),
        ({
            let p = f->V2_0;
            let (target, before) = if p[0] == 0xbc || s.big_data is None {
                (big_data::declared_length(p), seq![])
            } else {
                (s.big_data.unwrap()->Partial_target_length, s.big_data.unwrap()->Partial_packet.data())
            };
            let payload = if p[0] == 0xbc || s.big_data is None {
                p.subrange(6, p.len() as int)
            } else {
                p
            };
            (before + payload).len() == target
        }),
{
    match f {
        RawPacketModel::Uart(p) => {
            assert(!is_big_data_reply(uart_step(s, p).1));
        },
        RawPacketModel::V2(p) => {
            if p[0] == 0xbc || s.big_data is None {
                let pk = if p[1] == 0x27 {
                    BigDataPacketModel::Sleep(seq![])
                } else {
                    BigDataPacketModel::Oxygen(seq![])
                };
                assert(pk.data() =~= seq![]);
                assert(pk.data() + p.subrange(6, p.len() as int) =~= seq![] + p.subrange(6, p.len() as int));
            }
        },
    }
}

} // verus!
