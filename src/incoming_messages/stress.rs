use vstd::prelude::*;
use crate::error::ProtocolError;
use crate::util::slice_range;

verus! {

/// The progress of one stress transaction.
#[derive(Debug)]
pub enum StressState {
    /// The length frame arrived: `length` is the sequence number of the last frame.
    Length { length: u8, minutes_appart: u8 },
    /// Some measurements arrived; the frame numbered `target_length` ends the series.
    Receiving { target_length: u8, measurements: Vec<u8>, minutes_appart: u8 },
    /// The series is whole.
    Complete { measurements: Vec<u8>, minutes_appart: u8 },
}

/// The mathematical form of a `StressState`.
pub enum StressModel {
    Length { length: u8, minutes_appart: u8 },
    Receiving { target_length: u8, measurements: Seq<u8>, minutes_appart: u8 },
    Complete { measurements: Seq<u8>, minutes_appart: u8 },
}

impl View for StressState {
    type V = StressModel;

    open spec fn view(&self) -> StressModel {
        match self {
            StressState::Length { length, minutes_appart } => StressModel::Length {
                length: *length,
                minutes_appart: *minutes_appart,
            },
            StressState::Receiving { target_length, measurements, minutes_appart } => StressModel::Receiving {
                target_length: *target_length,
                measurements: measurements@,
                minutes_appart: *minutes_appart,
            },
            StressState::Complete { measurements, minutes_appart } => StressModel::Complete {
                measurements: measurements@,
                minutes_appart: *minutes_appart,
            },
        }
    }
}

/// The state that the length frame of a transaction opens.
pub open spec fn stress_start(p: Seq<u8>) -> Result<StressModel, ProtocolError> {
    if p.len() < 2 {
        Err(ProtocolError::FrameTooShort)
    } else if p[0] != 0x37 {
        Err(ProtocolError::WrongOpcode)
    } else if p[1] == 0xff {
        Ok(StressModel::Complete { measurements: seq![], minutes_appart: 0 })
    } else if p[1] != 0 {
        Err(ProtocolError::UnexpectedSequence)
    } else if p.len() < 4 {
        Err(ProtocolError::FrameTooShort)
    } else if p[2] <= 1 {
        Ok(StressModel::Complete { measurements: seq![], minutes_appart: p[3] })
    } else {
        Ok(StressModel::Length { length: (p[2] - 1) as u8, minutes_appart: p[3] })
    }
}

/// Where the measurements of the frame numbered `seq` begin.
pub open spec fn stress_offset(seq: u8) -> int {
    if seq == 1 {
        3
    } else {
        2
    }
}

/// The measurements that a continuation frame carries: those between its
/// header and its trailing checksum byte.
pub open spec fn stress_payload(p: Seq<u8>) -> Seq<u8> {
    p.subrange(stress_offset(p[1]), p.len() - 1)
}

/// The state after the continuation frame `p`.
pub open spec fn stress_step(s: StressModel, p: Seq<u8>) -> Result<StressModel, ProtocolError> {
    if s is Complete {
        Err(ProtocolError::StepAfterComplete)
    } else if p.len() < 4 {
        Err(ProtocolError::FrameTooShort)
    } else if p[0] != 0x37 {
        Err(ProtocolError::WrongOpcode)
    } else {
        match s {
            StressModel::Length { length, minutes_appart } => {
                if p[1] == 0 {
                    Ok(StressModel::Complete { measurements: seq![], minutes_appart })
                } else if p[1] == length {
                    Ok(StressModel::Complete { measurements: stress_payload(p), minutes_appart })
                } else {
                    Ok(
                        StressModel::Receiving {
                            target_length: length,
                            measurements: stress_payload(p),
                            minutes_appart,
                        },
                    )
                }
            },
            StressModel::Receiving { target_length, measurements, minutes_appart } => {
                let all = measurements + stress_payload(p);
                if p[1] == target_length {
                    Ok(StressModel::Complete { measurements: all, minutes_appart })
                } else {
                    Ok(StressModel::Receiving { target_length, measurements: all, minutes_appart })
                }
            },
            StressModel::Complete { .. } => Err(ProtocolError::StepAfterComplete),
        }
    }
}

impl StressState {
    /// Opens a transaction from its length frame.
    pub fn new(packet: &[u8]) -> (r: Result<Self, ProtocolError>)
        ensures
            match stress_start(packet@) {
                Ok(v) => r.is_ok() && r.unwrap()@ == v,
                Err(e) => r.is_err() && r->Err_0 == e,
            },
    {
        if packet.len() < 2 {
            return Err(ProtocolError::FrameTooShort);
        }
        if packet[0] != 0x37 {
            return Err(ProtocolError::WrongOpcode);
        }
        if packet[1] == 0xff {
            return Ok(StressState::Complete { measurements: Vec::new(), minutes_appart: 0 });
        }
        if packet[1] != 0 {
            return Err(ProtocolError::UnexpectedSequence);
        }
        if packet.len() < 4 {
            return Err(ProtocolError::FrameTooShort);
        }
        if packet[2] <= 1 {
            return Ok(StressState::Complete { measurements: Vec::new(), minutes_appart: packet[3] });
        }
        Ok(StressState::Length { length: packet[2] - 1, minutes_appart: packet[3] })
    }

    /// Feeds a continuation frame. On an error the state is left as it was.
    pub fn step(&mut self, packet: &[u8]) -> (r: Result<(), ProtocolError>)
        ensures
            match stress_step(old(self)@, packet@) {
                Ok(v) => r.is_ok() && final(self)@ == v,
                Err(e) => r == Err::<(), ProtocolError>(e) && final(self)@ == old(self)@,
            },
    {
        if let StressState::Complete { .. } = self {
            return Err(ProtocolError::StepAfterComplete);
        }
        if packet.len() < 4 {
            return Err(ProtocolError::FrameTooShort);
        }
        if packet[0] != 0x37 {
            return Err(ProtocolError::WrongOpcode);
        }
        let seq = packet[1];
        let offset: usize = if seq == 1 {
            3
        } else {
            2
        };
        let payload = slice_range(packet, offset, packet.len() - 1);
        match self {
            StressState::Length { length, minutes_appart } => {
                let mins = *minutes_appart;
                let target = *length;
                if seq == 0 {
                    *self = StressState::Complete { measurements: Vec::new(), minutes_appart: mins };
                } else if seq == target {
                    *self = StressState::Complete { measurements: payload, minutes_appart: mins };
                } else {
                    *self = StressState::Receiving {
                        target_length: target,
                        measurements: payload,
                        minutes_appart: mins,
                    };
                }
            },
            StressState::Receiving { target_length, measurements, minutes_appart } => {
                let mins = *minutes_appart;
                let target = *target_length;
                let mut all: Vec<u8> = Vec::new();
                std::mem::swap(&mut all, measurements);
                let mut payload = payload;
                all.append(&mut payload);
                if seq == target {
                    *self = StressState::Complete { measurements: all, minutes_appart: mins };
                } else {
                    *self = StressState::Receiving {
                        target_length: target,
                        measurements: all,
                        minutes_appart: mins,
                    };
                }
            },
            StressState::Complete { .. } => {},
        }
        Ok(())
    }
}

} // verus!
