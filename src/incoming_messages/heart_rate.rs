use vstd::prelude::*;
use crate::error::ProtocolError;
use crate::util::slice_range;

verus! {

/// A day's heart-rate series.
#[derive(Debug, PartialEq)]
pub struct HeartRate {
    /// Minutes between two samples.
    pub range: u8,
    pub rates: Vec<u8>,
    /// Unix seconds (UTC) of the first sample.
    pub date: u32,
}

/// The progress of one heart-rate transaction.
#[derive(Debug)]
pub enum HeartRateState {
    /// The size frame arrived: `size` is the sequence number of the last frame.
    Length { size: u8, range: u8 },
    /// The date frame and maybe more arrived; `last_seq` numbers the latest frame.
    Receiving { date: u32, size: u8, range: u8, rates: Vec<u8>, last_seq: u8 },
    /// The series is whole.
    Complete { range: u8, rates: Vec<u8>, date: u32 },
}

/// The mathematical form of a `HeartRateState`.
pub enum HeartRateModel {
    Length { size: u8, range: u8 },
    Receiving { date: u32, size: u8, range: u8, rates: Seq<u8>, last_seq: u8 },
    Complete { range: u8, rates: Seq<u8>, date: u32 },
}

impl View for HeartRateState {
    type V = HeartRateModel;

    open spec fn view(&self) -> HeartRateModel {
        match self {
            HeartRateState::Length { size, range } => HeartRateModel::Length { size: *size, range: *range },
            HeartRateState::Receiving { date, size, range, rates, last_seq } => HeartRateModel::Receiving {
                date: *date,
                size: *size,
                range: *range,
                rates: rates@,
                last_seq: *last_seq,
            },
            HeartRateState::Complete { range, rates, date } => HeartRateModel::Complete {
                range: *range,
                rates: rates@,
                date: *date,
            },
        }
    }
}

/// The unsigned value of four bytes read little-endian.
pub open spec fn le_u32(b0: u8, b1: u8, b2: u8, b3: u8) -> u32 {
    (b0 as int + 256 * (b1 as int) + 65536 * (b2 as int) + 16777216 * (b3 as int)) as u32
}

/// The "no data for this day" series.
pub open spec fn empty_heart_rate() -> HeartRateModel {
    HeartRateModel::Complete { range: 0, rates: seq![], date: 0 }
}

/// The state that the size frame of a transaction opens.
pub open spec fn heart_rate_start(p: Seq<u8>) -> Result<HeartRateModel, ProtocolError> {
    if p.len() < 2 {
        Err(ProtocolError::FrameTooShort)
    } else if p[0] != 0x15 {
        Err(ProtocolError::WrongOpcode)
    } else if p[1] == 0xff {
        Ok(empty_heart_rate())
    } else if p.len() < 15 {
        Err(ProtocolError::FrameTooShort)
    } else if p[1] != 0 {
        Err(ProtocolError::UnexpectedSequence)
    } else if p[2] == 0xff {
        Ok(empty_heart_rate())
    } else {
        Ok(HeartRateModel::Length { size: if p[2] == 0 { 0 } else { (p[2] - 1) as u8 }, range: p[3] })
    }
}

/// The state after a follow-on frame `p`, its checksum byte already cut off.
pub open spec fn heart_rate_step(s: HeartRateModel, p: Seq<u8>) -> Result<HeartRateModel, ProtocolError> {
    if s is Complete {
        Err(ProtocolError::StepAfterComplete)
    } else if p.len() < 15 {
        Err(ProtocolError::FrameTooShort)
    } else if p[0] != 0x15 {
        Err(ProtocolError::WrongOpcode)
    } else {
        match s {
            HeartRateModel::Length { size, range } => {
                if p[1] != 1 {
                    Err(ProtocolError::UnexpectedSequence)
                } else {
                    let date = le_u32(p[2], p[3], p[4], p[5]);
                    let rates = p.subrange(6, 15);
                    if size <= 1 {
                        Ok(HeartRateModel::Complete { range, rates, date })
                    } else {
                        Ok(HeartRateModel::Receiving { date, size, range, rates, last_seq: 1 })
                    }
                }
            },
            HeartRateModel::Receiving { date, size, range, rates, last_seq } => {
                if p[1] <= 1 || p[1] <= last_seq {
                    Err(ProtocolError::UnexpectedSequence)
                } else {
                    let rates = rates + p.subrange(2, 15);
                    if p[1] == size {
                        Ok(HeartRateModel::Complete { range, rates, date })
                    } else {
                        Ok(HeartRateModel::Receiving { date, size, range, rates, last_seq: p[1] })
                    }
                }
            },
            HeartRateModel::Complete { .. } => Err(ProtocolError::StepAfterComplete),
        }
    }
}

impl HeartRateState {
    /// Opens a transaction from its size frame.
    pub fn from_packet(value: &[u8]) -> (r: Result<Self, ProtocolError>)
        ensures
            match heart_rate_start(value@) {
                Ok(v) => r.is_ok() && r.unwrap()@ == v,
                Err(e) => r.is_err() && r->Err_0 == e,
            },
    {
        if value.len() < 2 {
            return Err(ProtocolError::FrameTooShort);
        }
        if value[0] != 0x15 {
            return Err(ProtocolError::WrongOpcode);
        }
        if value[1] == 0xff {
            return Ok(HeartRateState::Complete { range: 0, rates: Vec::new(), date: 0 });
        }
        if value.len() < 15 {
            return Err(ProtocolError::FrameTooShort);
        }
        if value[1] != 0 {
            return Err(ProtocolError::UnexpectedSequence);
        }
        if value[2] == 0xff {
            return Ok(HeartRateState::Complete { range: 0, rates: Vec::new(), date: 0 });
        }
        let size = if value[2] == 0 {
            0
        } else {
            value[2] - 1
        };
        Ok(HeartRateState::Length { size, range: value[3] })
    }

    /// Feeds a follow-on frame whose checksum byte was cut off.
    /// On an error the state is left as it was.
    pub fn step(&mut self, packet: &[u8]) -> (r: Result<(), ProtocolError>)
        ensures
            match heart_rate_step(old(self)@, packet@) {
                Ok(v) => r.is_ok() && final(self)@ == v,
                Err(e) => r == Err::<(), ProtocolError>(e) && final(self)@ == old(self)@,
            },
    {
        if let HeartRateState::Complete { .. } = self {
            return Err(ProtocolError::StepAfterComplete);
        }
        if packet.len() < 15 {
            return Err(ProtocolError::FrameTooShort);
        }
        if packet[0] != 0x15 {
            return Err(ProtocolError::WrongOpcode);
        }
        let seq = packet[1];
        match self {
            HeartRateState::Length { size, range } => {
                if seq != 1 {
                    return Err(ProtocolError::UnexpectedSequence);
                }
                let (size, range) = (*size, *range);
                let date = packet[2] as u32 + (packet[3] as u32) * 256 + (packet[4] as u32) * 65536
                    + (packet[5] as u32) * 16777216;
                let rates = slice_range(packet, 6, 15);
                *self = if size <= 1 {
                    HeartRateState::Complete { range, rates, date }
                } else {
                    HeartRateState::Receiving { date, size, range, rates, last_seq: 1 }
                };
            },
            HeartRateState::Receiving { date, size, range, rates, last_seq } => {
                if seq <= 1 || seq <= *last_seq {
                    return Err(ProtocolError::UnexpectedSequence);
                }
                let (date, size, range) = (*date, *size, *range);
                let mut all: Vec<u8> = Vec::new();
                std::mem::swap(&mut all, rates);
                let mut more = slice_range(packet, 2, 15);
                all.append(&mut more);
                *self = if seq == size {
                    HeartRateState::Complete { range, rates: all, date }
                } else {
                    HeartRateState::Receiving { date, size, range, rates: all, last_seq: seq }
                };
            },
            HeartRateState::Complete { .. } => {},
        }
        Ok(())
    }
}

} // verus!
