use vstd::prelude::*;
use crate::constants;
use crate::datetime::{local_at, local_time_after, local_today, LocalDateTime};
use crate::error::ProtocolError;
use crate::util::le_u16;

verus! {

/// The bytes of a big-data transaction gathered so far, by kind.
#[derive(Debug)]
pub enum BigDataPacket {
    Sleep(Vec<u8>),
    Oxygen(Vec<u8>),
}

/// The progress of one big-data transaction.
#[derive(Debug)]
pub enum BigDataState {
    /// Payload is still missing: `target_length` bytes are declared.
    Partial { target_length: usize, packet: BigDataPacket },
    /// The declared payload arrived whole.
    Complete(BigDataPacket),
}

/// The mathematical form of a `BigDataPacket`.
pub enum BigDataPacketModel {
    Sleep(Seq<u8>),
    Oxygen(Seq<u8>),
}

/// The mathematical form of a `BigDataState`.
pub enum BigDataModel {
    Partial { target_length: nat, packet: BigDataPacketModel },
    Complete(BigDataPacketModel),
}

impl View for BigDataPacket {
    type V = BigDataPacketModel;

    open spec fn view(&self) -> BigDataPacketModel {
        match self {
            BigDataPacket::Sleep(d) => BigDataPacketModel::Sleep(d@),
            BigDataPacket::Oxygen(d) => BigDataPacketModel::Oxygen(d@),
        }
    }
}

impl View for BigDataState {
    type V = BigDataModel;

    open spec fn view(&self) -> BigDataModel {
        match self {
            BigDataState::Partial { target_length, packet } => BigDataModel::Partial {
                target_length: *target_length as nat,
                packet: packet@,
            },
            BigDataState::Complete(packet) => BigDataModel::Complete(packet@),
        }
    }
}

impl BigDataPacketModel {
    /// The bytes held, whatever the kind.
    pub open spec fn data(self) -> Seq<u8> {
        match self {
            BigDataPacketModel::Sleep(d) => d,
            BigDataPacketModel::Oxygen(d) => d,
        }
    }

    /// The same kind of packet, holding `d`.
    pub open spec fn with_data(self, d: Seq<u8>) -> BigDataPacketModel {
        match self {
            BigDataPacketModel::Sleep(_) => BigDataPacketModel::Sleep(d),
            BigDataPacketModel::Oxygen(_) => BigDataPacketModel::Oxygen(d),
        }
    }
}

/// The state after the payload bytes `b` arrive.
pub open spec fn big_data_step(s: BigDataModel, b: Seq<u8>) -> Result<BigDataModel, ProtocolError> {
    match s {
        BigDataModel::Complete(_) => Err(ProtocolError::StepAfterComplete),
        BigDataModel::Partial { target_length, packet } => {
            let d = packet.data() + b;
            if d.len() > target_length {
                Err(ProtocolError::LengthExceeded)
            } else if d.len() == target_length {
                Ok(BigDataModel::Complete(packet.with_data(d)))
            } else {
                Ok(BigDataModel::Partial { target_length, packet: packet.with_data(d) })
            }
        },
    }
}

/// The length that a start frame declares.
pub open spec fn declared_length(b: Seq<u8>) -> nat {
    le_u16(b[2], b[3]) as nat
}

/// The state that a start frame `[0xbc, kind, len, len, crc, crc, payload..]` opens.
pub open spec fn big_data_start(b: Seq<u8>) -> Result<BigDataModel, ProtocolError> {
    if b.len() < 6 {
        Err(ProtocolError::FrameTooShort)
    } else if b[0] != 0xbc {
        Err(ProtocolError::WrongOpcode)
    } else if b[1] != 0x27 && b[1] != 0x2a {
        Err(ProtocolError::UnknownBigDataKind)
    } else {
        let packet = if b[1] == 0x27 {
            BigDataPacketModel::Sleep(seq![])
        } else {
            BigDataPacketModel::Oxygen(seq![])
        };
        big_data_step(
            BigDataModel::Partial { target_length: declared_length(b), packet },
            b.subrange(6, b.len() as int),
        )
    }
}

impl BigDataState {
    /// Opens a transaction from its start frame.
    pub fn new(bytes: &[u8]) -> (r: Result<Self, ProtocolError>)
        ensures
            match big_data_start(bytes@) {
                Ok(v) => r.is_ok() && r.unwrap()@ == v,
                Err(e) => r.is_err() && r->Err_0 == e,
            },
    {
        if bytes.len() < 6 {
            return Err(ProtocolError::FrameTooShort);
        }
        if bytes[0] != constants::CMD_BIG_DATA_V2 {
            return Err(ProtocolError::WrongOpcode);
        }
        let target_length = (bytes[2] as u16 + (bytes[3] as u16) * 256) as usize;
        let tag = bytes[1];
        let packet = if tag == constants::BIG_DATA_TYPE_SLEEP {
            BigDataPacket::Sleep(Vec::new())
        } else if tag == constants::BIG_DATA_TYPE_SPO2 {
            BigDataPacket::Oxygen(Vec::new())
        } else {
            return Err(ProtocolError::UnknownBigDataKind);
        };
        let mut ret = BigDataState::Partial { target_length, packet };
        let payload = crate::util::slice_range(bytes, 6, bytes.len());
        match ret.step(payload.as_slice()) {
            Ok(()) => Ok(ret),
            Err(e) => Err(e),
        }
    }

    /// Appends the payload bytes of a continuation frame.
    /// On an error the state is left as it was.
    pub fn step(&mut self, bytes: &[u8]) -> (r: Result<(), ProtocolError>)
        ensures
            match big_data_step(old(self)@, bytes@) {
                Ok(v) => r.is_ok() && final(self)@ == v,
                Err(e) => r == Err::<(), ProtocolError>(e) && final(self)@ == old(self)@,
            },
    {
        match self {
            BigDataState::Complete(_) => Err(ProtocolError::StepAfterComplete),
            BigDataState::Partial { target_length, packet } => {
                if bytes.len() > *target_length || packet.len() > *target_length - bytes.len() {
                    return Err(ProtocolError::LengthExceeded);
                }
                packet.extend_from_slice(bytes);
                if packet.len() == *target_length {
                    let mut whole = BigDataPacket::Sleep(Vec::new());
                    std::mem::swap(&mut whole, packet);
                    *self = BigDataState::Complete(whole);
                }
                Ok(())
            },
        }
    }
}

/// Relies on `Vec::capacity`, which is never below the length.
#[verifier::external_body]
fn vec_capacity(v: &Vec<u8>) -> (r: usize)
    ensures
        r >= v@.len(),
{
    v.capacity()
}

impl BigDataPacket {
    pub fn extend_from_slice(&mut self, slice: &[u8])
        ensures
            final(self)@ == old(self)@.with_data(old(self)@.data() + slice@),
    {
        match self {
            BigDataPacket::Sleep(d) => {
                d.extend_from_slice(slice);
                assert(final(self)@.data() =~= old(self)@.data() + slice@);
            },
            BigDataPacket::Oxygen(d) => {
                d.extend_from_slice(slice);
                assert(final(self)@.data() =~= old(self)@.data() + slice@);
            },
        }
    }

    pub fn len(&self) -> (r: usize)
        ensures
            r == self@.data().len(),
    {
        self.get_data_ref().len()
    }

    pub fn is_empty(&self) -> (r: bool)
        ensures
            r == (self@.data().len() == 0),
    {
        self.get_data_ref().len() == 0
    }

    pub fn capacity(&self) -> (r: usize)
        ensures
            r >= self@.data().len(),
    {
        vec_capacity(self.get_data_ref())
    }

    pub fn get_data_ref(&self) -> (r: &Vec<u8>)
        ensures
            r@ == self@.data(),
    {
        match self {
            BigDataPacket::Oxygen(data) => data,
            BigDataPacket::Sleep(data) => data,
        }
    }

    pub fn get_data_mut(&mut self) -> (r: &mut Vec<u8>)
        ensures
            r@ == old(self)@.data(),
            final(self)@ == old(self)@.with_data(final(r)@),
    {
        match self {
            BigDataPacket::Oxygen(data) => data,
            BigDataPacket::Sleep(data) => data,
        }
    }
}


/// One stage of a sleep session, with its length in minutes.
#[derive(Clone, Copy, Debug, PartialEq, Eq, Structural)]
pub enum SleepStage {
    Light(u8),
    Deep(u8),
    Rem(u8),
    Awake(u8),
}

/// One night of sleep.
#[derive(Debug, PartialEq)]
pub struct SleepSession {
    pub start: LocalDateTime,
    pub end: LocalDateTime,
    pub stages: Vec<SleepStage>,
}

/// The sleep sessions of a sleep transaction.
#[derive(Debug, PartialEq)]
pub struct SleepData {
    pub sessions: Vec<SleepSession>,
}

/// The mathematical form of a `SleepSession`.
pub struct SleepSessionModel {
    pub start: LocalDateTime,
    pub end: LocalDateTime,
    pub stages: Seq<SleepStage>,
}

impl View for SleepSession {
    type V = SleepSessionModel;

    open spec fn view(&self) -> SleepSessionModel {
        SleepSessionModel { start: self.start, end: self.end, stages: self.stages@ }
    }
}

impl View for SleepData {
    type V = Seq<SleepSessionModel>;

    open spec fn view(&self) -> Seq<SleepSessionModel> {
        Seq::new(self.sessions@.len(), |i: int| self.sessions@[i]@)
    }
}

/// The stage that the code `code` names, lasting `minutes`.
pub open spec fn stage_of(code: u8, minutes: u8) -> SleepStage {
    if code == 0x02 {
        SleepStage::Light(minutes)
    } else if code == 0x03 {
        SleepStage::Deep(minutes)
    } else if code == 0x04 {
        SleepStage::Rem(minutes)
    } else {
        SleepStage::Awake(minutes)
    }
}

/// The first `k` stage pairs starting at `pos`, without the empty ones (code 0).
pub open spec fn parse_stages(d: Seq<u8>, pos: int, k: nat) -> Result<Seq<SleepStage>, ProtocolError>
    decreases k,
{
    if k == 0 {
        Ok(seq![])
    } else {
        match parse_stages(d, pos, (k - 1) as nat) {
            Err(e) => Err(e),
            Ok(prev) => {
                let at = pos + 2 * (k - 1);
                if at + 2 > d.len() {
                    Err(ProtocolError::BufferTooShort)
                } else if d[at] == 0 {
                    Ok(prev)
                } else if d[at] < 2 || d[at] > 5 {
                    Err(ProtocolError::InvalidSleepStage)
                } else {
                    Ok(prev.push(stage_of(d[at], d[at + 1])))
                }
            },
        }
    }
}

/// The session of the day block at `pos`, and where the next block begins.
///
/// The block is `[days_ago, day_bytes, start, end, (stage, minutes) x k]`, with
/// `start` and `end` little-endian minutes of the day and `k = (day_bytes - 4) / 2`.
/// The night began the evening before the day: `start` minutes after the previous
/// midnight; it ended `end` minutes after the day's midnight.
pub open spec fn parse_day(d: Seq<u8>, pos: int, today: int) -> Result<(SleepSessionModel, int), ProtocolError> {
    if pos + 6 > d.len() {
        Err(ProtocolError::BufferTooShort)
    } else if d[pos + 1] < 4 {
        Err(ProtocolError::InvalidDayLength)
    } else {
        let day = today - d[pos];
        let k = ((d[pos + 1] - 4) / 2) as nat;
        match parse_stages(d, pos + 6, k) {
            Err(e) => Err(e),
            Ok(stages) => Ok(
                (
                    SleepSessionModel {
                        start: local_at(day - 1, le_u16(d[pos + 2], d[pos + 3]) as int),
                        end: local_at(day, le_u16(d[pos + 4], d[pos + 5]) as int),
                        stages,
                    },
                    pos + 6 + 2 * k,
                ),
            ),
        }
    }
}

/// The first `n` day blocks, which begin at byte 1, and where the next one begins.
pub open spec fn parse_days(d: Seq<u8>, n: nat, today: int) -> Result<(Seq<SleepSessionModel>, int), ProtocolError>
    decreases n,
{
    if n == 0 {
        Ok((seq![], 1))
    } else {
        match parse_days(d, (n - 1) as nat, today) {
            Err(e) => Err(e),
            Ok((prev, pos)) => match parse_day(d, pos, today) {
                Err(e) => Err(e),
                Ok((s, next)) => Ok((prev.push(s), next)),
            },
        }
    }
}

/// The sessions that a sleep buffer `[days, day block x days]` holds, with
/// `today` the Julian day number of the local date.
pub open spec fn sleep_sessions(d: Seq<u8>, today: int) -> Result<Seq<SleepSessionModel>, ProtocolError> {
    if d.len() == 0 {
        Err(ProtocolError::BufferTooShort)
    } else {
        match parse_days(d, d[0] as nat, today) {
            Err(e) => Err(e),
            Ok((sessions, _)) => Ok(sessions),
        }
    }
}

/// Stage pairs that parse lie inside the buffer.
proof fn lemma_parse_stages_in_bounds(d: Seq<u8>, pos: int, k: nat)
    requires
        pos <= d.len(),
        parse_stages(d, pos, k) is Ok,
    ensures
        pos + 2 * k <= d.len(),
    decreases k,
{
    if k > 0 {
        lemma_parse_stages_in_bounds(d, pos, (k - 1) as nat);
    }
}

/// Once the stage pairs fail to parse, longer runs of them fail the same way.
proof fn lemma_parse_stages_err_stays(d: Seq<u8>, pos: int, m: nat, n: nat)
    requires
        m <= n,
        parse_stages(d, pos, m) is Err,
    ensures
        parse_stages(d, pos, n) == parse_stages(d, pos, m),
    decreases n - m,
{
    if m < n {
        lemma_parse_stages_err_stays(d, pos, m, (n - 1) as nat);
    }
}

/// Once the day blocks fail to parse, longer runs of them fail the same way.
proof fn lemma_parse_days_err_stays(d: Seq<u8>, m: nat, n: nat, today: int)
    requires
        m <= n,
        parse_days(d, m, today) is Err,
    ensures
        parse_days(d, n, today) == parse_days(d, m, today),
    decreases n - m,
{
    if m < n {
        lemma_parse_days_err_stays(d, m, (n - 1) as nat, today);
    }
}

/// `r` is the decoded form of `expected`.
pub open spec fn sleep_decoded_as(
    r: Result<SleepData, ProtocolError>,
    expected: Result<Seq<SleepSessionModel>, ProtocolError>,
) -> bool {
    match expected {
        Ok(v) => r.is_ok() && r.unwrap()@ == v,
        Err(e) => r.is_err() && r->Err_0 == e,
    }
}

fn parse_stages_exec(d: &Vec<u8>, pos: usize, k: usize) -> (r: Result<Vec<SleepStage>, ProtocolError>)
    requires
        pos <= d@.len(),
        k <= 126,
    ensures
        match parse_stages(d@, pos as int, k as nat) {
            Ok(v) => r.is_ok() && r.unwrap()@ == v,
            Err(e) => r.is_err() && r->Err_0 == e,
        },
{
    let mut stages: Vec<SleepStage> = Vec::new();
    let mut j: usize = 0;
    while j < k
        invariant
            pos <= d@.len(),
            k <= 126,
            j <= k,
            parse_stages(d@, pos as int, j as nat) == Ok::<Seq<SleepStage>, ProtocolError>(stages@),
        decreases k - j,
    {
        if d.len() - pos < 2 * j + 2 {
            proof {
                lemma_parse_stages_err_stays(d@, pos as int, (j + 1) as nat, k as nat);
            }
            return Err(ProtocolError::BufferTooShort);
        }
        let at = pos + 2 * j;
        let code = d[at];
        let minutes = d[at + 1];
        if code != 0 {
            let stage = if code == constants::SLEEP_TYPE_LIGHT {
                SleepStage::Light(minutes)
            } else if code == constants::SLEEP_TYPE_DEEP {
                SleepStage::Deep(minutes)
            } else if code == constants::SLEEP_TYPE_REM {
                SleepStage::Rem(minutes)
            } else if code == constants::SLEEP_TYPE_AWAKE {
                SleepStage::Awake(minutes)
            } else {
                proof {
                    lemma_parse_stages_err_stays(d@, pos as int, (j + 1) as nat, k as nat);
                }
                return Err(ProtocolError::InvalidSleepStage);
            };
            stages.push(stage);
        }
        j = j + 1;
    }
    Ok(stages)
}

impl SleepData {
    /// Decodes a sleep buffer, taking `today` (a Julian day number) as the
    /// local date the nights are counted back from.
    pub fn decode(data: &Vec<u8>, today: i32) -> (r: Result<SleepData, ProtocolError>)
        ensures
            sleep_decoded_as(r, sleep_sessions(data@, today as int)),
    {
        if data.len() == 0 {
            return Err(ProtocolError::BufferTooShort);
        }
        let days = data[0];
        let mut sessions: Vec<SleepSession> = Vec::new();
        let mut pos: usize = 1;
        let mut i: u8 = 0;
        assert(Seq::new(sessions@.len(), |x: int| sessions@[x]@) =~= seq![]);
        while i < days
            invariant
                data@.len() > 0,
                days == data@[0],
                i <= days,
                1 <= pos <= data@.len(),
                parse_days(data@, i as nat, today as int) == Ok::<(Seq<SleepSessionModel>, int), ProtocolError>(
                    (Seq::new(sessions@.len(), |x: int| sessions@[x]@), pos as int),
                ),
            decreases days - i,
        {
            if data.len() - pos < 6 {
                proof {
                    lemma_parse_days_err_stays(data@, (i + 1) as nat, days as nat, today as int);
                }
                return Err(ProtocolError::BufferTooShort);
            }
            let days_ago = data[pos];
            let day_bytes = data[pos + 1];
            if day_bytes < 4 {
                proof {
                    lemma_parse_days_err_stays(data@, (i + 1) as nat, days as nat, today as int);
                }
                return Err(ProtocolError::InvalidDayLength);
            }
            let start = data[pos + 2] as u16 + (data[pos + 3] as u16) * 256;
            let end = data[pos + 4] as u16 + (data[pos + 5] as u16) * 256;
            let day = today as i64 - days_ago as i64;
            let k = ((day_bytes - 4) / 2) as usize;
            let stages = match parse_stages_exec(data, pos + 6, k) {
                Ok(s) => s,
                Err(e) => {
                    proof {
                        lemma_parse_days_err_stays(data@, (i + 1) as nat, days as nat, today as int);
                    }
                    return Err(e);
                },
            };
            let ghost before = Seq::new(sessions@.len(), |x: int| sessions@[x]@);
            let session = SleepSession {
                start: local_time_after(day - 1, start),
                end: local_time_after(day, end),
                stages,
            };
            sessions.push(session);
            proof {
                assert(Seq::new(sessions@.len(), |x: int| sessions@[x]@) =~= before.push(session@));
            }
            proof {
                lemma_parse_stages_in_bounds(data@, pos as int + 6, k as nat);
                assert(session@ == parse_day(data@, pos as int, today as int).unwrap().0);
            }
            pos = pos + 6 + 2 * k;
            i = i + 1;
        }
        let r = SleepData { sessions };
        Ok(r)
    }

    /// Decodes a sleep buffer against the local date that the clock shows now.
    pub fn from_packet(packet: &BigDataPacket) -> (r: Result<SleepData, ProtocolError>)
        ensures
            packet is Oxygen ==> r == Err::<SleepData, ProtocolError>(ProtocolError::UnknownBigDataKind),
            packet is Sleep ==> exists|today: i32| #[trigger]
                sleep_decoded_as(r, sleep_sessions(packet@.data(), today as int)),
    {
        match packet {
            BigDataPacket::Sleep(data) => {
                let today = local_today();
                let r = SleepData::decode(data, today);
                assert(sleep_decoded_as(r, sleep_sessions(packet@.data(), today as int)));
                r
            },
            BigDataPacket::Oxygen(_) => Err(ProtocolError::UnknownBigDataKind),
        }
    }
}


/// The lowest and highest blood-oxygen reading of one hour.
#[derive(Clone, Copy, Debug, PartialEq, Eq, Structural)]
pub struct OxygenMeasurement {
    pub min: u8,
    pub max: u8,
    /// The local start of the hour.
    pub when: LocalDateTime,
}

/// The hourly readings of an oxygen transaction.
#[derive(Debug, PartialEq)]
pub struct OxygenData {
    pub samples: Vec<OxygenMeasurement>,
}

/// Where the block of day `i` begins: `[days_ago, (min, max) x 24]`.
pub open spec fn oxygen_block(i: int) -> int {
    1 + 49 * i
}

/// Where the reading of hour `j` of day `i` ends.
pub open spec fn oxygen_sample_end(i: int, j: int) -> int {
    oxygen_block(i) + 3 + 2 * j
}

/// The reading of hour `j` of day `i`.
pub open spec fn oxygen_sample(d: Seq<u8>, i: int, j: int, today: int) -> OxygenMeasurement {
    let at = oxygen_block(i) + 1 + 2 * j;
    OxygenMeasurement {
        min: d[at],
        max: d[at + 1],
        when: local_at(today - d[oxygen_block(i)], 60 * j),
    }
}

/// `p` followed by what `r` holds, or the error of `r`.
pub open spec fn prefixed<T>(p: Seq<T>, r: Result<Seq<T>, ProtocolError>) -> Result<Seq<T>, ProtocolError> {
    match r {
        Ok(x) => Ok(p + x),
        Err(e) => Err(e),
    }
}

/// The readings from hour `j` of day `i` on. The buffer may end after any
/// reading: the hours after it are absent.
pub open spec fn oxygen_from(d: Seq<u8>, i: nat, j: nat, days: nat, today: int) -> Result<
    Seq<OxygenMeasurement>,
    ProtocolError,
>
    decreases days - i, 24 - j,
{
    if i >= days || j >= 24 {
        Ok(seq![])
    } else if oxygen_sample_end(i as int, j as int) > d.len() {
        Err(ProtocolError::BufferTooShort)
    } else if oxygen_sample_end(i as int, j as int) == d.len() {
        Ok(seq![oxygen_sample(d, i as int, j as int, today)])
    } else if j == 23 {
        prefixed(seq![oxygen_sample(d, i as int, j as int, today)], oxygen_from(d, i + 1, 0, days, today))
    } else {
        prefixed(seq![oxygen_sample(d, i as int, j as int, today)], oxygen_from(d, i, j + 1, days, today))
    }
}

/// The readings that an oxygen buffer `[days, (days_ago, (min, max) x 24) x days]`
/// holds, with `today` the Julian day number of the local date.
pub open spec fn oxygen_samples(d: Seq<u8>, today: int) -> Result<Seq<OxygenMeasurement>, ProtocolError> {
    if d.len() == 0 {
        Err(ProtocolError::BufferTooShort)
    } else {
        oxygen_from(d, 0, 0, d[0] as nat, today)
    }
}

/// `r` is the decoded form of `expected`.
pub open spec fn oxygen_decoded_as(
    r: Result<OxygenData, ProtocolError>,
    expected: Result<Seq<OxygenMeasurement>, ProtocolError>,
) -> bool {
    match expected {
        Ok(v) => r.is_ok() && r.unwrap().samples@ == v,
        Err(e) => r.is_err() && r->Err_0 == e,
    }
}

impl OxygenData {
    /// Decodes an oxygen buffer, taking `today` (a Julian day number) as the
    /// local date the days are counted back from.
    pub fn decode(data: &Vec<u8>, today: i32) -> (r: Result<OxygenData, ProtocolError>)
        ensures
            oxygen_decoded_as(r, oxygen_samples(data@, today as int)),
    {
        if data.len() == 0 {
            return Err(ProtocolError::BufferTooShort);
        }
        let days = data[0] as usize;
        let mut samples: Vec<OxygenMeasurement> = Vec::new();
        let mut i: usize = 0;
        let mut j: usize = 0;
        assert(samples@ + seq![] =~= seq![]);
        while i < days
            invariant
                data@.len() > 0,
                days == data@[0],
                i <= days,
                j < 24,
                oxygen_samples(data@, today as int) == prefixed(
                    samples@,
                    oxygen_from(data@, i as nat, j as nat, days as nat, today as int),
                ),
            decreases days - i, 24 - j,
        {
            let block = 1 + 49 * i;
            let end = block + 3 + 2 * j;
            if data.len() < end {
                return Err(ProtocolError::BufferTooShort);
            }
            let days_ago = data[block];
            let m = OxygenMeasurement {
                min: data[block + 1 + 2 * j],
                max: data[block + 2 + 2 * j],
                when: local_time_after(today as i64 - days_ago as i64, (60 * j) as u16),
            };
            assert(m == oxygen_sample(data@, i as int, j as int, today as int));
            let ghost before = samples@;
            samples.push(m);
            if data.len() == end {
                assert(before + seq![m] =~= samples@);
                return Ok(OxygenData { samples });
            }
            proof {
                let rest = if j == 23 {
                    oxygen_from(data@, (i + 1) as nat, 0, days as nat, today as int)
                } else {
                    oxygen_from(data@, i as nat, (j + 1) as nat, days as nat, today as int)
                };
                match rest {
                    Ok(x) => {
                        assert(before + (seq![m] + x) =~= samples@ + x);
                    },
                    Err(_) => {},
                }
            }
            if j == 23 {
                j = 0;
                i = i + 1;
            } else {
                j = j + 1;
            }
        }
        assert(samples@ + seq![] =~= samples@);
        Ok(OxygenData { samples })
    }

    /// Decodes an oxygen buffer against the local date that the clock shows now.
    pub fn from_packet(packet: &BigDataPacket) -> (r: Result<OxygenData, ProtocolError>)
        ensures
            packet is Sleep ==> r == Err::<OxygenData, ProtocolError>(ProtocolError::UnknownBigDataKind),
            packet is Oxygen ==> exists|today: i32| #[trigger]
                oxygen_decoded_as(r, oxygen_samples(packet@.data(), today as int)),
    {
        match packet {
            BigDataPacket::Oxygen(data) => {
                let today = local_today();
                let r = OxygenData::decode(data, today);
                assert(oxygen_decoded_as(r, oxygen_samples(packet@.data(), today as int)));
                r
            },
            BigDataPacket::Sleep(_) => Err(ProtocolError::UnknownBigDataKind),
        }
    }
}

} // verus!
