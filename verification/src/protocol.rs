//! Wire-protocol vocabulary: command numbers, response codes, and the
//! constants every frame handler shares.

use vstd::prelude::*;

verus! {

/// Protocol version byte returned by `GetVersion`.
pub const PROTOCOL_VERSION: u8 = 4;

/// Device count byte returned by `GetConfigCount`.
pub const NUMBER_OF_DEVICES: u8 = 2;

/// Size in bytes of one encoded SID write: cycles (2), register, value.
pub const SID_WRITE_SIZE: usize = 4;

/// SID clock standard selected by `TrySetClock`.
#[derive(Copy, Clone, PartialEq, Eq, Structural, Debug)]
pub enum SidClock {
    Pal,
    Ntsc,
}

/// Sampling quality selected by `TrySetSampling`.
#[derive(Copy, Clone, PartialEq, Eq, Structural, Debug)]
pub enum SamplingMethod {
    Best,
    Fast,
}

/// First byte of every response.
#[derive(Copy, Clone, PartialEq, Eq, Structural, Debug)]
pub enum CommandResponse {
    Okay,
    Busy,
    Error,
    Read,
    Version,
    Count,
    Info,
}

impl CommandResponse {
    /// The byte that encodes this response on the wire.
    pub open spec fn spec_code(self) -> u8 {
        match self {
            CommandResponse::Okay => 0,
            CommandResponse::Busy => 1,
            CommandResponse::Error => 2,
            CommandResponse::Read => 3,
            CommandResponse::Version => 4,
            CommandResponse::Count => 5,
            CommandResponse::Info => 6,
        }
    }

    /// Encode this response as its wire byte.
    pub fn code(self) -> (r: u8)
        ensures
            r == self.spec_code(),
    {
        match self {
            CommandResponse::Okay => 0,
            CommandResponse::Busy => 1,
            CommandResponse::Error => 2,
            CommandResponse::Read => 3,
            CommandResponse::Version => 4,
            CommandResponse::Count => 5,
            CommandResponse::Info => 6,
        }
    }
}

/// Command selected by the first byte of a frame.
#[derive(Copy, Clone, PartialEq, Eq, Structural, Debug)]
pub enum Command {
    Flush,
    TrySetSidCount,
    Mute,
    TryReset,
    TryDelay,
    TryWrite,
    TryRead,
    GetVersion,
    TrySetSampling,
    TrySetClock,
    GetConfigCount,
    GetConfigInfo,
    SetSidPosition,
    SetSidLevel,
    TrySetSidModel,
    SetDelay,
    SetFadeIn,
    SetFadeOut,
    SetPsidHeader,
    Unknown,
}

/// The command a frame's first byte selects.
pub open spec fn spec_command_from_u8(value: u8) -> Command {
    if value == 0 {
        Command::Flush
    } else if value == 1 {
        Command::TrySetSidCount
    } else if value == 2 {
        Command::Mute
    } else if value == 3 {
        Command::TryReset
    } else if value == 4 {
        Command::TryDelay
    } else if value == 5 {
        Command::TryWrite
    } else if value == 6 {
        Command::TryRead
    } else if value == 7 {
        Command::GetVersion
    } else if value == 8 {
        Command::TrySetSampling
    } else if value == 9 {
        Command::TrySetClock
    } else if value == 10 {
        Command::GetConfigCount
    } else if value == 11 {
        Command::GetConfigInfo
    } else if value == 12 {
        Command::SetSidPosition
    } else if value == 13 {
        Command::SetSidLevel
    } else if value == 14 {
        Command::TrySetSidModel
    } else if value == 15 {
        Command::SetDelay
    } else if value == 16 {
        Command::SetFadeIn
    } else if value == 17 {
        Command::SetFadeOut
    } else if value == 18 {
        Command::SetPsidHeader
    } else {
        Command::Unknown
    }
}

impl Command {
    /// Decode a frame's command byte.
    pub fn from_u8(value: u8) -> (r: Command)
        ensures
            r == spec_command_from_u8(value),
    {
        match value {
            0 => Command::Flush,
            1 => Command::TrySetSidCount,
            2 => Command::Mute,
            3 => Command::TryReset,
            4 => Command::TryDelay,
            5 => Command::TryWrite,
            6 => Command::TryRead,
            7 => Command::GetVersion,
            8 => Command::TrySetSampling,
            9 => Command::TrySetClock,
            10 => Command::GetConfigCount,
            11 => Command::GetConfigInfo,
            12 => Command::SetSidPosition,
            13 => Command::SetSidLevel,
            14 => Command::TrySetSidModel,
            15 => Command::SetDelay,
            16 => Command::SetFadeIn,
            17 => Command::SetFadeOut,
            18 => Command::SetPsidHeader,
            _ => Command::Unknown,
        }
    }
}

} // verus!
