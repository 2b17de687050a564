use vstd::prelude::*;

use crate::bytes::{lemma_uint_value_prefix, read_u32, read_u64, spec_u32, spec_u64};
use crate::common::{Address, Error, Offset};
use crate::header::Encoding;
use crate::table::Entry;

verus! {

/// What a segment is for.
#[derive(Clone, Copy, Debug, PartialEq, Eq, Structural)]
pub enum ProgramType {
    Null,
    Load,
    Dynamic,
    Interpreter,
    Note,
    Shlib,
    ProgramHeaderTable,
    /// A code in `0x60000000 ..= 0x6fffffff`, given as its offset from `0x60000000`.
    OsSpecific(u32),
    /// A code in `0x70000000 ..= 0x7fffffff`, given as its offset from `0x70000000`.
    ProcessorSpecific(u32),
    Unknown(u32),
}

impl ProgramType {
    /// The segment type that code `v` names.
    pub open spec fn spec_from(v: u32) -> ProgramType {
        if v == 0 {
            ProgramType::Null
        } else if v == 1 {
            ProgramType::Load
        } else if v == 2 {
            ProgramType::Dynamic
        } else if v == 3 {
            ProgramType::Interpreter
        } else if v == 4 {
            ProgramType::Note
        } else if v == 5 {
            ProgramType::Shlib
        } else if v == 6 {
            ProgramType::ProgramHeaderTable
        } else if 0x60000000 <= v <= 0x6fffffff {
            ProgramType::OsSpecific((v - 0x60000000) as u32)
        } else if 0x70000000 <= v <= 0x7fffffff {
            ProgramType::ProcessorSpecific((v - 0x70000000) as u32)
        } else {
            ProgramType::Unknown(v)
        }
    }

    /// The code that stands for this segment type.
    pub open spec fn spec_code(self) -> u32 {
        match self {
            ProgramType::Null => 0,
            ProgramType::Load => 1,
            ProgramType::Dynamic => 2,
            ProgramType::Interpreter => 3,
            ProgramType::Note => 4,
            ProgramType::Shlib => 5,
            ProgramType::ProgramHeaderTable => 6,
            ProgramType::OsSpecific(t) => (0x60000000 + t % 0x10000000) as u32,
            ProgramType::ProcessorSpecific(t) => (0x70000000 + t % 0x10000000) as u32,
            ProgramType::Unknown(t) => t,
        }
    }

    /// Decodes the segment-type code `v`.
    pub fn from_u32(v: u32) -> (r: ProgramType)
        ensures
            r == ProgramType::spec_from(v),
    {
        match v {
            0x00000000 => ProgramType::Null,
            0x00000001 => ProgramType::Load,
            0x00000002 => ProgramType::Dynamic,
            0x00000003 => ProgramType::Interpreter,
            0x00000004 => ProgramType::Note,
            0x00000005 => ProgramType::Shlib,
            0x00000006 => ProgramType::ProgramHeaderTable,
            _ => {
                if 0x60000000 <= v && v <= 0x6fffffff {
                    ProgramType::OsSpecific(v - 0x60000000)
                } else if 0x70000000 <= v && v <= 0x7fffffff {
                    ProgramType::ProcessorSpecific(v - 0x70000000)
                } else {
                    ProgramType::Unknown(v)
                }
            },
        }
    }
}

impl From<u32> for ProgramType {
    fn from(v: u32) -> (r: ProgramType)
        ensures
            r == ProgramType::spec_from(v),
    {
        ProgramType::from_u32(v)
    }
}

impl vstd::std_specs::convert::FromSpecImpl<u32> for ProgramType {
    open spec fn obeys_from_spec() -> bool {
        true
    }

    open spec fn from_spec(v: u32) -> ProgramType {
        ProgramType::spec_from(v)
    }
}

impl From<ProgramType> for u32 {
    fn from(v: ProgramType) -> (r: u32)
        ensures
            r == v.spec_code(),
    {
        match v {
            ProgramType::Null => 0x00000000,
            ProgramType::Load => 0x00000001,
            ProgramType::Dynamic => 0x00000002,
            ProgramType::Interpreter => 0x00000003,
            ProgramType::Note => 0x00000004,
            ProgramType::Shlib => 0x00000005,
            ProgramType::ProgramHeaderTable => 0x00000006,
            ProgramType::OsSpecific(t) => 0x60000000 + t % 0x10000000,
            ProgramType::ProcessorSpecific(t) => 0x70000000 + t % 0x10000000,
            ProgramType::Unknown(t) => t,
        }
    }
}

impl vstd::std_specs::convert::FromSpecImpl<ProgramType> for u32 {
    open spec fn obeys_from_spec() -> bool {
        true
    }

    open spec fn from_spec(v: ProgramType) -> u32 {
        v.spec_code()
    }
}

/// Decoding a segment-type code and encoding the type again gives the code back.
pub proof fn lemma_program_type_round_trip(c: u32)
    ensures
        ProgramType::spec_from(c).spec_code() == c,
{
}

/// The permission bits of a segment: execute, write, read.
/// Bits other than these three are dropped.
#[derive(Clone, Copy, Debug, PartialEq, Eq, Structural)]
pub struct ProgramFlags {
    bits: u32,
}

impl View for ProgramFlags {
    type V = u32;

    closed spec fn view(&self) -> u32 {
        self.bits
    }
}

impl ProgramFlags {
    /// The flags whose bits are those of `bits` that this type knows.
    pub closed spec fn spec_from_bits_truncate(bits: u32) -> ProgramFlags {
        ProgramFlags { bits: bits & 0b111 }
    }

    /// Keeps the execute, write and read bits of `bits`.
    pub fn from_bits_truncate(bits: u32) -> (r: ProgramFlags)
        ensures
            r == ProgramFlags::spec_from_bits_truncate(bits),
            r@ == bits & 0b111,
    {
        ProgramFlags { bits: bits & 0b111 }
    }

    /// The raw bits.
    pub fn bits(&self) -> (r: u32)
        ensures
            r == self@,
    {
        self.bits
    }

    /// Whether the segment may be executed.
    pub fn is_execute(&self) -> (r: bool)
        ensures
            r == (self@ & 0b001 != 0),
    {
        self.bits & 0b001 != 0
    }

    /// Whether the segment may be written.
    pub fn is_write(&self) -> (r: bool)
        ensures
            r == (self@ & 0b010 != 0),
    {
        self.bits & 0b010 != 0
    }

    /// Whether the segment may be read.
    pub fn is_read(&self) -> (r: bool)
        ensures
            r == (self@ & 0b100 != 0),
    {
        self.bits & 0b100 != 0
    }
}


/// One entry of the program-header table: where a segment lies in the file
/// and in memory.
#[derive(Clone, Copy, Debug, PartialEq, Eq, Structural)]
pub struct ProgramHeader {
    pub ty: ProgramType,
    pub flags: ProgramFlags,
    pub file_offset: Offset,
    pub virtual_address: Address,
    pub physical_address: Address,
    pub file_size: u64,
    pub memory_size: u64,
    pub address_alignment: u64,
}

impl ProgramHeader {
    /// The size of a program-header record on disk.
    pub const SIZE: usize = 0x38;

    /// The program header that the bytes `s` start with, or why there is none.
    pub open spec fn spec_decode(s: Seq<u8>, encoding: Encoding) -> Result<ProgramHeader, Error> {
        if s.len() < 0x38 {
            Err(Error::SliceTooShort)
        } else {
            Ok(
                ProgramHeader {
                    ty: ProgramType::spec_from(spec_u32(s, 0x00, encoding)),
                    flags: ProgramFlags::spec_from_bits_truncate(spec_u32(s, 0x04, encoding)),
                    file_offset: spec_u64(s, 0x08, encoding),
                    virtual_address: spec_u64(s, 0x10, encoding),
                    physical_address: spec_u64(s, 0x18, encoding),
                    file_size: spec_u64(s, 0x20, encoding),
                    memory_size: spec_u64(s, 0x28, encoding),
                    address_alignment: spec_u64(s, 0x30, encoding),
                },
            )
        }
    }
}

impl Entry for ProgramHeader {
    open spec fn spec_size() -> nat {
        0x38
    }

    open spec fn spec_new(s: Seq<u8>, encoding: Encoding) -> Result<ProgramHeader, Error> {
        ProgramHeader::spec_decode(s, encoding)
    }

    fn size() -> (r: usize) {
        ProgramHeader::SIZE
    }

    fn new(slice: &[u8], encoding: Encoding) -> (r: Result<ProgramHeader, Error>) {
        if slice.len() < ProgramHeader::SIZE {
            return Err(Error::SliceTooShort);
        }
        Ok(
            ProgramHeader {
                ty: ProgramType::from_u32(read_u32(slice, 0x00, encoding)),
                flags: ProgramFlags::from_bits_truncate(read_u32(slice, 0x04, encoding)),
                file_offset: read_u64(slice, 0x08, encoding),
                virtual_address: read_u64(slice, 0x10, encoding),
                physical_address: read_u64(slice, 0x18, encoding),
                file_size: read_u64(slice, 0x20, encoding),
                memory_size: read_u64(slice, 0x28, encoding),
                address_alignment: read_u64(slice, 0x30, encoding),
            },
        )
    }

    proof fn lemma_short(s: Seq<u8>, encoding: Encoding) {
    }

    proof fn lemma_prefix(s: Seq<u8>, encoding: Encoding) {
        lemma_uint_value_prefix(s, 0x38);
    }
}

} // verus!
