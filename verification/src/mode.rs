//! Modes: a mode is a number, and may have a submode.
use crate::spacepackets::{u16_from_be, u32_from_be, ByteConversionError, SizeMissmatch};
use vstd::prelude::*;

verus! {

/// Identifies the target of a mode command.
pub type TargetId = u32;

/// A mode and a submode.
#[derive(Debug, Copy, Clone, PartialEq, Eq, Structural)]
pub struct ModeAndSubmode {
    mode: u32,
    submode: u16,
}

impl ModeAndSubmode {
    pub closed spec fn mode_spec(self) -> u32 {
        self.mode
    }

    pub closed spec fn submode_spec(self) -> u16 {
        self.submode
    }

    /// A mode with submode 0.
    pub fn new_mode_only(mode: u32) -> (r: Self)
        ensures
            r.mode_spec() == mode,
            r.submode_spec() == 0,
    {
        Self { mode, submode: 0 }
    }

    pub fn new(mode: u32, submode: u16) -> (r: Self)
        ensures
            r.mode_spec() == mode,
            r.submode_spec() == submode,
    {
        Self { mode, submode }
    }

    /// The number of bytes that a mode and a submode take: four and two.
    pub fn raw_len() -> (r: usize)
        ensures
            r == 6,
    {
        4 + 2
    }

    pub fn mode(&self) -> (r: u32)
        ensures
            r == self.mode_spec(),
    {
        self.mode
    }

    pub fn submode(&self) -> (r: u16)
        ensures
            r == self.submode_spec(),
    {
        self.submode
    }

    /// Reads a mode and a submode from the first six bytes of `buf`, both big-endian.
    pub fn from_be_bytes(buf: &[u8]) -> (r: Result<Self, ByteConversionError>)
        ensures
            match r {
                Ok(m) => {
                    &&& buf@.len() >= 6
                    &&& m.mode_spec() == crate::spacepackets::u32_of_be(buf@.subrange(0, 4))
                    &&& m.submode_spec() == crate::spacepackets::u16_of_be(buf@.subrange(4, 6))
                },
                Err(e) => buf@.len() < 6 && e == ByteConversionError::FromSliceTooSmall(
                    SizeMissmatch { expected: 6, found: buf@.len() as usize },
                ),
            },
    {
        if buf.len() < 6 {
            return Err(
                ByteConversionError::FromSliceTooSmall(SizeMissmatch { expected: 6, found: buf.len() }),
            );
        }
        Ok(Self { mode: u32_from_be(buf, 0), submode: u16_from_be(buf, 4) })
    }
}

/// A command to take a mode.
#[derive(Debug, Copy, Clone, PartialEq, Eq, Structural)]
pub struct ModeCommand {
    address: TargetId,
    mode_submode: ModeAndSubmode,
}

impl ModeCommand {
    pub closed spec fn address_spec(self) -> TargetId {
        self.address
    }

    pub closed spec fn mode_submode_spec(self) -> ModeAndSubmode {
        self.mode_submode
    }

    pub fn new(address: TargetId, mode_submode: ModeAndSubmode) -> (r: Self)
        ensures
            r.address_spec() == address,
            r.mode_submode_spec() == mode_submode,
    {
        Self { address, mode_submode }
    }

    pub fn address(&self) -> (r: TargetId)
        ensures
            r == self.address_spec(),
    {
        self.address
    }

    pub fn mode_submode(&self) -> (r: ModeAndSubmode)
        ensures
            r == self.mode_submode_spec(),
    {
        self.mode_submode
    }
}

/// What can be asked about modes.
#[derive(Debug, Copy, Clone, PartialEq, Eq, Structural)]
pub enum ModeRequest {
    SetMode(ModeCommand),
    ReadMode(TargetId),
    AnnounceMode(TargetId),
    AnnounceModeRecursive(TargetId),
}

} // verus!
