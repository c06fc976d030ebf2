use vstd::prelude::*;

verus! {

/// Why a frame or a reassembled buffer was not accepted.
#[derive(Clone, Copy, Debug, PartialEq, Eq, Structural)]
pub enum ProtocolError {
    /// The frame is shorter than its opcode requires.
    FrameTooShort,
    /// Byte 0 of the frame is not the opcode of the transaction.
    WrongOpcode,
    /// A frame arrived out of the order the transaction allows.
    UnexpectedSequence,
    /// A frame arrived after the transaction had completed.
    StepAfterComplete,
    /// The batch size changed in the middle of a sport-detail batch.
    TotalChanged,
    /// A scaled calorie count does not fit in sixteen bits.
    CaloriesOutOfRange,
    /// A big-data start frame names a kind this library does not know.
    UnknownBigDataKind,
    /// More big-data payload arrived than the start frame declared.
    LengthExceeded,
    /// A reassembled buffer ends before its contents do.
    BufferTooShort,
    /// A sleep record holds a stage code this library does not know.
    InvalidSleepStage,
    /// A sleep day block declares fewer than four bytes.
    InvalidDayLength,
    /// A notification frame names a subtype this library does not know.
    UnknownNotification,
}

} // verus!
