use vstd::prelude::*;
use crate::error::ProtocolError;
use crate::util::{le_u16, slice_range};

verus! {

/// Activity totals of one fifteen-minute slot of a day.
#[derive(Clone, Copy, Debug, PartialEq, Eq, Structural)]
pub struct SportDetail {
    pub year: u16,
    pub month: u8,
    pub day: u8,
    pub time_index: u8,
    pub calories: u16,
    pub steps: u16,
    pub distance: u16,
}

/// The value of a byte holding two binary-coded decimal digits.
pub open spec fn bcd(b: u8) -> u8 {
    ((b / 16) * 10 + b % 16) as u8
}

/// The record held by the twelve bytes `s[0..12]`.
pub open spec fn record_of(s: Seq<u8>) -> SportDetail {
    SportDetail {
        year: (bcd(s[0]) + 2000) as u16,
        month: bcd(s[1]),
        day: bcd(s[2]),
        time_index: s[3],
        calories: le_u16(s[6], s[7]),
        steps: le_u16(s[8], s[9]),
        distance: le_u16(s[10], s[11]),
    }
}

/// The most calories a record can hold before scaling by ten.
pub const MAX_UNSCALED_CALORIES: u16 = 6553;

fn bcd_to_decimal(b: u8) -> (r: u8)
    ensures
        r == bcd(b),
{
    (b / 16) * 10 + b % 16
}

impl SportDetail {
    /// Reads a record from the first twelve bytes of `value`.
    pub fn try_from_bytes(value: &[u8]) -> (r: Result<SportDetail, ProtocolError>)
        ensures
            value@.len() < 12 ==> r == Err::<SportDetail, ProtocolError>(ProtocolError::FrameTooShort),
            value@.len() >= 12 ==> r == Ok::<SportDetail, ProtocolError>(record_of(value@)),
    {
        if value.len() < 12 {
            return Err(ProtocolError::FrameTooShort);
        }
        Ok(SportDetail {
            year: bcd_to_decimal(value[0]) as u16 + 2000,
            month: bcd_to_decimal(value[1]),
            day: bcd_to_decimal(value[2]),
            time_index: value[3],
            calories: value[6] as u16 + (value[7] as u16) * 256,
            steps: value[8] as u16 + (value[9] as u16) * 256,
            distance: value[10] as u16 + (value[11] as u16) * 256,
        })
    }

    /// Scales the calorie count by ten, as the new-calorie protocol asks.
    pub fn apply_new_calories(&mut self)
        requires
            old(self).calories <= MAX_UNSCALED_CALORIES,
        ensures
            *final(self) == (SportDetail { calories: (old(self).calories * 10) as u16, ..*old(self) }),
    {
        self.calories = self.calories * 10;
    }
}

/// The progress of one sport-detail transaction.
#[derive(Debug, PartialEq)]
pub enum SportDetailState {
    /// The new-calorie prelude arrived; no record yet.
    Initial { new_cal_proto: bool },
    /// Records of a batch of `total` arrived, more are to come.
    Receiving { new_cal_proto: bool, total: u8, packets: Vec<SportDetail> },
    /// The batch is whole.
    Complete { packets: Vec<SportDetail> },
}

/// The mathematical form of a `SportDetailState`.
pub enum SportDetailModel {
    Initial { new_cal_proto: bool },
    Receiving { new_cal_proto: bool, total: u8, packets: Seq<SportDetail> },
    Complete { packets: Seq<SportDetail> },
}

impl View for SportDetailState {
    type V = SportDetailModel;

    open spec fn view(&self) -> SportDetailModel {
        match self {
            SportDetailState::Initial { new_cal_proto } => SportDetailModel::Initial {
                new_cal_proto: *new_cal_proto,
            },
            SportDetailState::Receiving { new_cal_proto, total, packets } => SportDetailModel::Receiving {
                new_cal_proto: *new_cal_proto,
                total: *total,
                packets: packets@,
            },
            SportDetailState::Complete { packets } => SportDetailModel::Complete { packets: packets@ },
        }
    }
}

/// Whether the transaction uses the new-calorie protocol.
pub open spec fn uses_new_calories(s: SportDetailModel) -> bool {
    match s {
        SportDetailModel::Initial { new_cal_proto } => new_cal_proto,
        SportDetailModel::Receiving { new_cal_proto, .. } => new_cal_proto,
        SportDetailModel::Complete { .. } => false,
    }
}

/// The state that the first frame of a transaction opens.
pub open spec fn sport_detail_start(p: Seq<u8>) -> Result<SportDetailModel, ProtocolError> {
    if p.len() < 2 {
        Err(ProtocolError::FrameTooShort)
    } else if p[0] != 0x43 {
        Err(ProtocolError::WrongOpcode)
    } else if p[1] == 0xff {
        Ok(SportDetailModel::Complete { packets: seq![] })
    } else if p[1] == 0xf0 {
        Ok(SportDetailModel::Initial { new_cal_proto: true })
    } else if p.len() < 14 {
        Err(ProtocolError::FrameTooShort)
    } else {
        Ok(
            SportDetailModel::Receiving {
                new_cal_proto: false,
                total: p[6],
                packets: seq![record_of(p.subrange(1, p.len() - 1))],
            },
        )
    }
}

/// The record that a follow-on frame `p` adds, after scaling.
pub open spec fn scaled_record(p: Seq<u8>, new_cal_proto: bool) -> SportDetail {
    let raw = record_of(p.subrange(1, 13));
    if new_cal_proto {
        SportDetail { calories: (raw.calories * 10) as u16, ..raw }
    } else {
        raw
    }
}

/// The state after the follow-on frame `p`.
pub open spec fn sport_detail_step(s: SportDetailModel, p: Seq<u8>) -> Result<
    SportDetailModel,
    ProtocolError,
> {
    if s is Complete {
        Err(ProtocolError::StepAfterComplete)
    } else if p.len() < 13 {
        Err(ProtocolError::FrameTooShort)
    } else if p[0] != 0x43 {
        Err(ProtocolError::WrongOpcode)
    } else if s is Receiving && p[6] != s->Receiving_total {
        Err(ProtocolError::TotalChanged)
    } else if uses_new_calories(s) && le_u16(p[7], p[8]) > MAX_UNSCALED_CALORIES {
        Err(ProtocolError::CaloriesOutOfRange)
    } else {
        let ncp = uses_new_calories(s);
        let before = match s {
            SportDetailModel::Receiving { packets, .. } => packets,
            _ => seq![],
        };
        let packets = before.push(scaled_record(p, ncp));
        if p[5] as int == p[6] as int - 1 {
            Ok(SportDetailModel::Complete { packets })
        } else {
            Ok(SportDetailModel::Receiving { new_cal_proto: ncp, total: p[6], packets })
        }
    }
}

impl SportDetailState {
    /// Opens a transaction from its first frame.
    pub fn new(packet: &[u8]) -> (r: Result<Self, ProtocolError>)
        ensures
            match sport_detail_start(packet@) {
                Ok(v) => r.is_ok() && r.unwrap()@ == v,
                Err(e) => r.is_err() && r->Err_0 == e,
            },
    {
        if packet.len() < 2 {
            return Err(ProtocolError::FrameTooShort);
        }
        if packet[0] != 0x43 {
            return Err(ProtocolError::WrongOpcode);
        }
        if packet[1] == 0xff {
            return Ok(SportDetailState::Complete { packets: Vec::new() });
        }
        if packet[1] == 0xf0 {
            return Ok(SportDetailState::Initial { new_cal_proto: true });
        }
        if packet.len() < 14 {
            return Err(ProtocolError::FrameTooShort);
        }
        let body = slice_range(packet, 1, packet.len() - 1);
        let rec = match SportDetail::try_from_bytes(body.as_slice()) {
            Ok(rec) => rec,
            Err(e) => return Err(e),
        };
        let mut packets = Vec::new();
        packets.push(rec);
        proof {
            assert(packets@ =~= seq![record_of(packet@.subrange(1, packet@.len() - 1))]);
        }
        Ok(SportDetailState::Receiving { new_cal_proto: false, total: packet[6], packets })
    }

    /// Feeds a follow-on frame. On an error the state is left as it was.
    pub fn step(&mut self, packet: &[u8]) -> (r: Result<(), ProtocolError>)
        ensures
            match sport_detail_step(old(self)@, packet@) {
                Ok(v) => r.is_ok() && final(self)@ == v,
                Err(e) => r == Err::<(), ProtocolError>(e) && final(self)@ == old(self)@,
            },
    {
        let ncp = match self {
            SportDetailState::Complete { .. } => return Err(ProtocolError::StepAfterComplete),
            SportDetailState::Initial { new_cal_proto } => *new_cal_proto,
            SportDetailState::Receiving { new_cal_proto, .. } => *new_cal_proto,
        };
        if packet.len() < 13 {
            return Err(ProtocolError::FrameTooShort);
        }
        if packet[0] != 0x43 {
            return Err(ProtocolError::WrongOpcode);
        }
        if let SportDetailState::Receiving { total, .. } = self {
            if packet[6] != *total {
                return Err(ProtocolError::TotalChanged);
            }
        }
        let body = slice_range(packet, 1, 13);
        let mut rec = match SportDetail::try_from_bytes(body.as_slice()) {
            Ok(rec) => rec,
            Err(e) => return Err(e),
        };
        if ncp {
            if rec.calories > MAX_UNSCALED_CALORIES {
                return Err(ProtocolError::CaloriesOutOfRange);
            }
            rec.apply_new_calories();
        }
        let done = packet[5] as u16 + 1 == packet[6] as u16;
        let mut packets: Vec<SportDetail> = Vec::new();
        if let SportDetailState::Receiving { packets: held, .. } = self {
            std::mem::swap(&mut packets, held);
        }
        proof {
            let before = match old(self)@ {
                SportDetailModel::Receiving { packets, .. } => packets,
                _ => seq![],
            };
            assert(packets@ =~= before);
        }
        packets.push(rec);
        *self = if done {
            SportDetailState::Complete { packets }
        } else {
            SportDetailState::Receiving { new_cal_proto: ncp, total: packet[6], packets }
        };
        Ok(())
    }
}


/// The state after the follow-on frames `frames`, fed in order from `s`.
pub open spec fn sport_detail_run(s: SportDetailModel, frames: Seq<Seq<u8>>) -> Result<
    SportDetailModel,
    ProtocolError,
>
    decreases frames.len(),
{
    if frames.len() == 0 {
        Ok(s)
    } else {
        match sport_detail_run(s, frames.drop_last()) {
            Ok(t) => sport_detail_step(t, frames.last()),
            Err(e) => Err(e),
        }
    }
}

/// The records that a state holds.
pub open spec fn held_records(s: SportDetailModel) -> Seq<SportDetail> {
    match s {
        SportDetailModel::Initial { .. } => seq![],
        SportDetailModel::Receiving { packets, .. } => packets,
        SportDetailModel::Complete { packets } => packets,
    }
}

/// After the new-calorie prelude, each record that the follow-on frames
/// carry is held with ten times the little-endian calorie count of its
/// frame (bytes 7 and 8, that is bytes 6 and 7 of the record).
pub proof fn lemma_new_calories_scaled(prelude: Seq<u8>, frames: Seq<Seq<u8>>)
    requires
        sport_detail_start(prelude) == Ok::<SportDetailModel, ProtocolError>(
            SportDetailModel::Initial { new_cal_proto: true },
        ),
        sport_detail_run(SportDetailModel::Initial { new_cal_proto: true }, frames) is Ok,
    ensures
        held_records(sport_detail_run(SportDetailModel::Initial { new_cal_proto: true }, frames).unwrap()).len()
            == frames.len(),
        forall|i: int|
            0 <= i < frames.len() ==> #[trigger] held_records(
                sport_detail_run(SportDetailModel::Initial { new_cal_proto: true }, frames).unwrap(),
            )[i].calories == 10 * le_u16(frames[i][7], frames[i][8]),
{
    lemma_run_keeps_new_calories(frames);
}

proof fn lemma_run_keeps_new_calories(frames: Seq<Seq<u8>>)
    requires
        sport_detail_run(SportDetailModel::Initial { new_cal_proto: true }, frames) is Ok,
    ensures
        ({
            let t = sport_detail_run(SportDetailModel::Initial { new_cal_proto: true }, frames).unwrap();
            &&& frames.len() == 0 ==> t == SportDetailModel::Initial { new_cal_proto: true }
            &&& frames.len() > 0 ==> (t is Complete || (t is Receiving && t->Receiving_new_cal_proto))
            &&& held_records(t).len() == frames.len()
            &&& forall|i: int|
                0 <= i < frames.len() ==> #[trigger] held_records(t)[i].calories == 10 * le_u16(
                    frames[i][7],
                    frames[i][8],
                )
        }),
    decreases frames.len(),
{
    if frames.len() > 0 {
        let init = SportDetailModel::Initial { new_cal_proto: true };
        let prev = frames.drop_last();
        assert(sport_detail_run(init, prev) is Ok);
        lemma_run_keeps_new_calories(prev);
        let t = sport_detail_run(init, prev).unwrap();
        let p = frames.last();
        let u = sport_detail_run(init, frames).unwrap();
        assert(uses_new_calories(t));
        let raw = record_of(p.subrange(1, 13));
        assert(raw.calories == le_u16(p[7], p[8]));
        assert(held_records(u) =~= held_records(t).push(scaled_record(p, true)));
        assert forall|i: int| 0 <= i < frames.len() implies #[trigger] held_records(u)[i].calories == 10
            * le_u16(frames[i][7], frames[i][8]) by {
            if i < frames.len() - 1 {
                assert(frames[i] == prev[i]);
            }
        }
    }
}

} // verus!
