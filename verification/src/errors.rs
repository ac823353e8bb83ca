//! Error taxonomy of the codec.  Decode errors are surfaced per frame
//! and never poison the stream; encode errors come only from malformed
//! caller input.

use vstd::prelude::*;

verus! {

/// Which enumeration a rejected wire value was meant for.
#[derive(Debug, Clone, Copy, PartialEq, Eq, Structural)]
pub enum EnumContext {
    GameType,
    GameProgress,
    Winner,
    ProjectileSupplier,
    ProjectileReloadingRobot,
    ProjectileOutletStatus,
    SuppliedProjectileNumber,
    RefereeWarningLevel,
    GraphicDeleteOperation,
    GraphicAddOperation,
    GraphicColor,
    InteractiveContentId,
}

#[derive(Debug, Clone, Copy, PartialEq, Eq, Structural)]
pub enum DecodeError {
    /// The leading u16 of the payload names no known message.
    UnknownCommand(u16),
    /// A field held a value outside its enumeration's domain.
    UnknownEnumValue(EnumContext, u16),
    /// The payload is shorter than its variant demands.
    ShortPayload,
    /// The payload is longer than its variant demands, by this many bytes.
    TrailingBytes(u16),
    /// A whole-byte boolean held a value other than 0 or 1.
    InvalidBitfield,
}

#[derive(Debug, Clone, Copy, PartialEq, Eq, Structural)]
pub enum EncodeError {
    /// The declared data length does not match the message's wire size.
    WrongDataLength,
    /// A field of the message does not fit its wire width.
    InvalidField,
}

impl DecodeError {
    /// A short description, in place of a `Display` implementation.
    pub fn describe(&self) -> (r: &'static str)
    {
        match self {
            DecodeError::UnknownCommand(_) => "unknown command id",
            DecodeError::UnknownEnumValue(_, _) => "unknown enum value",
            DecodeError::ShortPayload => "payload too short",
            DecodeError::TrailingBytes(_) => "payload too long",
            DecodeError::InvalidBitfield => "invalid bitfield",
        }
    }
}

impl EncodeError {
    /// A short description, in place of a `Display` implementation.
    pub fn describe(&self) -> (r: &'static str)
    {
        match self {
            EncodeError::WrongDataLength => "declared data length does not match the message",
            EncodeError::InvalidField => "message field out of wire range",
        }
    }
}

} // verus!
