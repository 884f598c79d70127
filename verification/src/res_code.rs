//! Result codes: a group and a number inside the group, packed into 16 bits.
use crate::ecss::{write_front, EcssEnumeration};
use crate::spacepackets::{u16_to_be, ByteConversionError};
use vstd::prelude::*;

verus! {

/// A telecommand named a PUS service that does not exist.
pub const INVALID_PUS_SERVICE: u16 = 0x0000;

/// A telecommand named a subservice that its service does not have.
pub const INVALID_PUS_SUBSERVICE: u16 = 0x0001;

/// The application data of a telecommand is shorter than its subservice needs.
pub const NOT_ENOUGH_APP_DATA: u16 = 0x0002;

/// A telecommand named a target that is not known.
pub const UNKNOWN_TARGET_ID: u16 = 0x0003;

/// A telecommand named a PUS service that nobody handles.
pub const PUS_SERVICE_NOT_IMPLEMENTED: u16 = 0x0004;

/// A housekeeping request without a target id.
pub const HK_TARGET_ID_MISSING: u16 = 0x0100;

/// A housekeeping request without a unique id.
pub const HK_UNIQUE_ID_MISSING: u16 = 0x0101;

/// A housekeeping request for a target that is not known.
pub const HK_UNKNOWN_TARGET_ID: u16 = 0x0102;

/// A housekeeping request that should change a collection interval and names none.
pub const HK_COLLECTION_INTERVAL_MISSING: u16 = 0x0103;

/// A result code.
#[derive(Debug, Copy, Clone, PartialEq, Eq, Hash, Structural)]
pub struct ResultU16 {
    pub group_id: u8,
    pub unique_id: u8,
}

impl ResultU16 {
    /// The code as one word, the group in the upper half.
    pub open spec fn raw_spec(self) -> u16 {
        (self.group_id as int * 256 + self.unique_id as int) as u16
    }

    pub fn new(group_id: u8, unique_id: u8) -> (r: Self)
        ensures
            r == (ResultU16 { group_id, unique_id }),
    {
        ResultU16 { group_id, unique_id }
    }

    pub fn from_raw(raw: u16) -> (r: Self)
        ensures
            r.raw_spec() == raw,
            r == (ResultU16 { group_id: (raw / 256) as u8, unique_id: (raw % 256) as u8 }),
    {
        ResultU16 { group_id: (raw / 256) as u8, unique_id: (raw % 256) as u8 }
    }

    pub fn raw(&self) -> (r: u16)
        ensures
            r == self.raw_spec(),
    {
        self.group_id as u16 * 256 + self.unique_id as u16
    }
}

impl EcssEnumeration for ResultU16 {
    open spec fn raw_bytes(&self) -> Seq<u8> {
        crate::spacepackets::be_bytes_u16(self.raw_spec())
    }

    fn byte_width(&self) -> (r: usize) {
        2
    }

    fn write_to_be_bytes(&self, buf: &mut [u8]) -> (r: Result<(), ByteConversionError>) {
        let bytes = u16_to_be(self.raw());
        write_front(buf, &bytes)
    }
}

} // verus!
