//! Enumerated fields of the ECSS packet utilisation standard: values of a
//! fixed width that are written to packets as big-endian bytes.
use crate::spacepackets::{
    copy_into, u16_to_be, u32_to_be, ByteConversionError, SizeMissmatch,
};
use vstd::prelude::*;

verus! {

/// A value that goes into a packet as a fixed number of big-endian bytes.
pub trait EcssEnumeration {
    /// The bytes that stand for the value.
    open spec fn raw_bytes(&self) -> Seq<u8> {
        arbitrary()
    }

    /// The width of the value in bytes.
    fn byte_width(&self) -> (r: usize)
        ensures
            r == self.raw_bytes().len(),
    ;

    /// Writes the value to the front of `buf`. A buffer that is too short is
    /// left as it is.
    fn write_to_be_bytes(&self, buf: &mut [u8]) -> (r: Result<(), ByteConversionError>)
        ensures
            final(buf)@.len() == old(buf)@.len(),
            match r {
                Ok(()) => {
                    &&& self.raw_bytes().len() <= old(buf)@.len()
                    &&& final(buf)@ == self.raw_bytes() + old(buf)@.subrange(
                        self.raw_bytes().len() as int,
                        old(buf)@.len() as int,
                    )
                },
                Err(e) => {
                    &&& self.raw_bytes().len() > old(buf)@.len()
                    &&& final(buf)@ == old(buf)@
                    &&& e == ByteConversionError::ToSliceTooSmall(
                        SizeMissmatch {
                            found: old(buf)@.len() as usize,
                            expected: self.raw_bytes().len() as usize,
                        },
                    )
                },
            },
    ;
}

/// Writes `bytes` to the front of `buf`, or says by how much `buf` is too short.
pub fn write_front(buf: &mut [u8], bytes: &[u8]) -> (r: Result<(), ByteConversionError>)
    ensures
        final(buf)@.len() == old(buf)@.len(),
        match r {
            Ok(()) => {
                &&& bytes@.len() <= old(buf)@.len()
                &&& final(buf)@ == bytes@ + old(buf)@.subrange(
                    bytes@.len() as int,
                    old(buf)@.len() as int,
                )
            },
            Err(e) => {
                &&& bytes@.len() > old(buf)@.len()
                &&& final(buf)@ == old(buf)@
                &&& e == ByteConversionError::ToSliceTooSmall(
                    SizeMissmatch { found: old(buf)@.len() as usize, expected: bytes@.len() as usize },
                )
            },
        },
{
    if buf.len() < bytes.len() {
        return Err(
            ByteConversionError::ToSliceTooSmall(
                SizeMissmatch { found: buf.len(), expected: bytes.len() },
            ),
        );
    }
    copy_into(buf, 0, bytes);
    assert(buf@ =~= bytes@ + old(buf)@.subrange(bytes@.len() as int, old(buf)@.len() as int));
    Ok(())
}

/// An enumeration of one byte.
#[derive(Clone, Copy, Debug, PartialEq, Eq, Hash, Structural)]
pub struct EcssEnumU8 {
    pub val: u8,
}

/// An enumeration of two bytes.
#[derive(Clone, Copy, Debug, PartialEq, Eq, Hash, Structural)]
pub struct EcssEnumU16 {
    pub val: u16,
}

/// An enumeration of four bytes.
#[derive(Clone, Copy, Debug, PartialEq, Eq, Hash, Structural)]
pub struct EcssEnumU32 {
    pub val: u32,
}

/// An enumeration of eight bytes.
#[derive(Clone, Copy, Debug, PartialEq, Eq, Hash, Structural)]
pub struct EcssEnumU64 {
    pub val: u64,
}

impl EcssEnumU8 {
    pub fn new(val: u8) -> (r: Self)
        ensures
            r.val == val,
    {
        EcssEnumU8 { val }
    }
}

impl EcssEnumU16 {
    pub fn new(val: u16) -> (r: Self)
        ensures
            r.val == val,
    {
        EcssEnumU16 { val }
    }
}

impl EcssEnumU32 {
    pub fn new(val: u32) -> (r: Self)
        ensures
            r.val == val,
    {
        EcssEnumU32 { val }
    }
}

impl EcssEnumU64 {
    pub fn new(val: u64) -> (r: Self)
        ensures
            r.val == val,
    {
        EcssEnumU64 { val }
    }
}

impl EcssEnumeration for EcssEnumU8 {
    open spec fn raw_bytes(&self) -> Seq<u8> {
        seq![self.val]
    }

    fn byte_width(&self) -> (r: usize) {
        1
    }

    fn write_to_be_bytes(&self, buf: &mut [u8]) -> (r: Result<(), ByteConversionError>) {
        let bytes = [self.val];
        assert(bytes@ =~= self.raw_bytes());
        write_front(buf, &bytes)
    }
}

impl EcssEnumeration for EcssEnumU16 {
    open spec fn raw_bytes(&self) -> Seq<u8> {
        crate::spacepackets::be_bytes_u16(self.val)
    }

    fn byte_width(&self) -> (r: usize) {
        2
    }

    fn write_to_be_bytes(&self, buf: &mut [u8]) -> (r: Result<(), ByteConversionError>) {
        let bytes = u16_to_be(self.val);
        write_front(buf, &bytes)
    }
}

impl EcssEnumeration for EcssEnumU32 {
    open spec fn raw_bytes(&self) -> Seq<u8> {
        crate::spacepackets::be_bytes_u32(self.val)
    }

    fn byte_width(&self) -> (r: usize) {
        4
    }

    fn write_to_be_bytes(&self, buf: &mut [u8]) -> (r: Result<(), ByteConversionError>) {
        let bytes = u32_to_be(self.val);
        write_front(buf, &bytes)
    }
}

impl EcssEnumeration for EcssEnumU64 {
    open spec fn raw_bytes(&self) -> Seq<u8> {
        crate::spacepackets::be_bytes_u64(self.val)
    }

    fn byte_width(&self) -> (r: usize) {
        8
    }

    fn write_to_be_bytes(&self, buf: &mut [u8]) -> (r: Result<(), ByteConversionError>) {
        let hi = u32_to_be((self.val / 0x1_0000_0000) as u32);
        let lo = u32_to_be((self.val % 0x1_0000_0000) as u32);
        let bytes = [hi[0], hi[1], hi[2], hi[3], lo[0], lo[1], lo[2], lo[3]];
        assert(bytes@ =~= self.raw_bytes());
        write_front(buf, &bytes)
    }
}

} // verus!
