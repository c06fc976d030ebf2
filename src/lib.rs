//! Wire protocol engine for a family of BLE smart rings: the codec that turns
//! commands into sixteen-byte frames, and the state machines that turn the
//! ring's notification frames into typed replies.

pub mod client;
pub mod constants;
pub mod datetime;
pub mod error;
pub mod incoming_messages;
pub mod raw_command;
pub mod util;

pub use crate::client::{Channel, Command, DeviceDetails};
pub use crate::datetime::{CivilDateTime, LocalDateTime};
pub use crate::error::ProtocolError;
pub use crate::incoming_messages::big_data::SleepStage;
pub use crate::incoming_messages::{big_data, heart_rate, notification, sport_detail, stress};
pub use crate::incoming_messages::{CommandReply, PacketParser, RawPacket, RealTimeEvent};
pub use crate::util::{try_u16_from_iter, try_u16_from_le_slice, ByteReader};
