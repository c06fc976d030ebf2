use vstd::prelude::*;
use crate::constants;
use crate::error::ProtocolError;

verus! {

/// An unprompted message on the notification bus.
#[derive(Clone, Copy, Debug, PartialEq, Eq, Structural)]
pub enum Notification {
    NewData(DataName),
    Activity(LiveActivity),
    Battery(u8),
}

/// The kind of record that the ring has new data for.
#[derive(Clone, Copy, Debug, PartialEq, Eq, Structural)]
pub enum DataName {
    HeartRate,
    Oxygen,
    Steps,
}

/// Running totals of the current day.
#[derive(Clone, Copy, Debug, PartialEq, Eq, Structural)]
pub struct LiveActivity {
    pub steps: u32,
    /// Calories in tenths.
    pub calories_tenths: u32,
    pub distance: u32,
}

/// The unsigned value of three bytes read big-endian.
pub open spec fn be_u24(b0: u8, b1: u8, b2: u8) -> u32 {
    (65536 * (b0 as int) + 256 * (b1 as int) + b2 as int) as u32
}

/// The live activity of a frame of at least eleven bytes: three big-endian
/// 24-bit counters at bytes 2, 5 and 8.
pub open spec fn live_activity_of(p: Seq<u8>) -> LiveActivity {
    LiveActivity {
        steps: be_u24(p[2], p[3], p[4]),
        calories_tenths: be_u24(p[5], p[6], p[7]),
        distance: be_u24(p[8], p[9], p[10]),
    }
}

/// The notification that the frame `p` holds.
pub open spec fn notification_of(p: Seq<u8>) -> Result<Notification, ProtocolError> {
    if p.len() < 2 {
        Err(ProtocolError::FrameTooShort)
    } else if p[0] != 0x73 {
        Err(ProtocolError::WrongOpcode)
    } else if p[1] == 0x01 {
        Ok(Notification::NewData(DataName::HeartRate))
    } else if p[1] == 0x03 {
        Ok(Notification::NewData(DataName::Oxygen))
    } else if p[1] == 0x04 {
        Ok(Notification::NewData(DataName::Steps))
    } else if p[1] == 0x0c {
        if p.len() < 3 {
            Err(ProtocolError::FrameTooShort)
        } else {
            Ok(Notification::Battery(p[2]))
        }
    } else if p[1] == 0x12 {
        if p.len() < 11 {
            Err(ProtocolError::FrameTooShort)
        } else {
            Ok(Notification::Activity(live_activity_of(p)))
        }
    } else {
        Err(ProtocolError::UnknownNotification)
    }
}

fn be_u24_from(b0: u8, b1: u8, b2: u8) -> (r: u32)
    ensures
        r == be_u24(b0, b1, b2),
{
    (b0 as u32) * 65536 + (b1 as u32) * 256 + b2 as u32
}

impl LiveActivity {
    /// Reads the counters of a live-activity frame.
    pub fn parse(value: &[u8]) -> (r: Result<LiveActivity, ProtocolError>)
        ensures
            value@.len() < 11 ==> r == Err::<LiveActivity, ProtocolError>(ProtocolError::FrameTooShort),
            value@.len() >= 11 ==> r == Ok::<LiveActivity, ProtocolError>(live_activity_of(value@)),
    {
        if value.len() < 11 {
            return Err(ProtocolError::FrameTooShort);
        }
        Ok(LiveActivity {
            steps: be_u24_from(value[2], value[3], value[4]),
            calories_tenths: be_u24_from(value[5], value[6], value[7]),
            distance: be_u24_from(value[8], value[9], value[10]),
        })
    }
}

impl Notification {
    /// Reads a notification frame `[0x73, subtype, ..]`.
    pub fn parse(value: &[u8]) -> (r: Result<Notification, ProtocolError>)
        ensures
            r == notification_of(value@),
    {
        if value.len() < 2 {
            return Err(ProtocolError::FrameTooShort);
        }
        if value[0] != constants::CMD_NOTIFICATION {
            return Err(ProtocolError::WrongOpcode);
        }
        let kind = value[1];
        if kind == constants::NOTIFICATION_NEW_HR_DATA {
            Ok(Notification::NewData(DataName::HeartRate))
        } else if kind == constants::NOTIFICATION_NEW_SPO2_DATA {
            Ok(Notification::NewData(DataName::Oxygen))
        } else if kind == constants::NOTIFICATION_NEW_STEPS_DATA {
            Ok(Notification::NewData(DataName::Steps))
        } else if kind == constants::NOTIFICATION_BATTERY_LEVEL {
            if value.len() < 3 {
                Err(ProtocolError::FrameTooShort)
            } else {
                Ok(Notification::Battery(value[2]))
            }
        } else if kind == constants::NOTIFICATION_LIVE_ACTIVITY {
            match LiveActivity::parse(value) {
                Ok(a) => Ok(Notification::Activity(a)),
                Err(e) => Err(e),
            }
        } else {
            Err(ProtocolError::UnknownNotification)
        }
    }
}

} // verus!
