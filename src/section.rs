use vstd::prelude::*;

use crate::bytes::{lemma_uint_value_prefix, read_u16, read_u32, read_u64, spec_u16, spec_u32, spec_u64};
use crate::common::{Address, Error, Offset};
use crate::header::Encoding;
use crate::table::Entry;

verus! {

/// A 16-bit field that names a section, with its reserved values told apart.
#[derive(Clone, Copy, Debug, PartialEq, Eq, Structural)]
pub enum Index {
    Undefined,
    /// An index in `0xff00 ..= 0xff1f`, given as its offset from `0xff00`.
    ProcessorSpecific(u8),
    /// An index in `0xff20 ..= 0xff3f`, given as its offset from `0xff20`.
    EnvironmentSpecific(u8),
    AbsoluteValue,
    Common,
    Regular(u16),
}

impl Index {
    /// The index that the 16-bit field `v` holds.
    pub open spec fn spec_from(v: u16) -> Index {
        if v == 0 {
            Index::Undefined
        } else if 0xff00 <= v <= 0xff1f {
            Index::ProcessorSpecific((v - 0xff00) as u8)
        } else if 0xff20 <= v <= 0xff3f {
            Index::EnvironmentSpecific((v - 0xff20) as u8)
        } else if v == 0xfff1 {
            Index::AbsoluteValue
        } else if v == 0xfff2 {
            Index::Common
        } else {
            Index::Regular(v)
        }
    }

    /// The 16-bit value that stands for this index.
    pub open spec fn spec_code(self) -> u16 {
        match self {
            Index::Undefined => 0,
            Index::ProcessorSpecific(t) => (0xff00 + t % 0x20) as u16,
            Index::EnvironmentSpecific(t) => (0xff20 + t % 0x20) as u16,
            Index::AbsoluteValue => 0xfff1,
            Index::Common => 0xfff2,
            Index::Regular(t) => t,
        }
    }

    /// Decodes the 16-bit field `v`.
    pub fn from_u16(v: u16) -> (r: Index)
        ensures
            r == Index::spec_from(v),
    {
        if v == 0x0000 {
            Index::Undefined
        } else if 0xff00 <= v && v <= 0xff1f {
            Index::ProcessorSpecific((v - 0xff00) as u8)
        } else if 0xff20 <= v && v <= 0xff3f {
            Index::EnvironmentSpecific((v - 0xff20) as u8)
        } else if v == 0xfff1 {
            Index::AbsoluteValue
        } else if v == 0xfff2 {
            Index::Common
        } else {
            Index::Regular(v)
        }
    }
}

impl From<u16> for Index {
    fn from(v: u16) -> (r: Index)
        ensures
            r == Index::spec_from(v),
    {
        Index::from_u16(v)
    }
}

impl vstd::std_specs::convert::FromSpecImpl<u16> for Index {
    open spec fn obeys_from_spec() -> bool {
        true
    }

    open spec fn from_spec(v: u16) -> Index {
        Index::spec_from(v)
    }
}

impl From<Index> for u16 {
    fn from(v: Index) -> (r: u16)
        ensures
            r == v.spec_code(),
    {
        match v {
            Index::Undefined => 0x0000,
            Index::ProcessorSpecific(t) => 0xff00 + (t % 0x20) as u16,
            Index::EnvironmentSpecific(t) => 0xff20 + (t % 0x20) as u16,
            Index::AbsoluteValue => 0xfff1,
            Index::Common => 0xfff2,
            Index::Regular(t) => t,
        }
    }
}

impl vstd::std_specs::convert::FromSpecImpl<Index> for u16 {
    open spec fn obeys_from_spec() -> bool {
        true
    }

    open spec fn from_spec(v: Index) -> u16 {
        v.spec_code()
    }
}

/// Decoding a section index and encoding it again gives the 16-bit value back.
pub proof fn lemma_index_round_trip(c: u16)
    ensures
        Index::spec_from(c).spec_code() == c,
{
}

/// What a section holds.
#[derive(Clone, Copy, Debug, PartialEq, Eq, Structural)]
pub enum SectionType {
    Null,
    ProgramBits,
    SymbolTable,
    StringTable,
    Rela,
    Hash,
    Dynamic,
    Note,
    NoBits,
    Rel,
    Shlib,
    DynamicSymbolTable,
    /// A code in `0x60000000 ..= 0x6fffffff`, given as its offset from `0x60000000`.
    OsSpecific(u32),
    /// A code in `0x70000000 ..= 0x7fffffff`, given as its offset from `0x70000000`.
    ProcessorSpecific(u32),
    Unknown(u32),
}

impl SectionType {
    /// The section type that code `v` names.
    pub open spec fn spec_from(v: u32) -> SectionType {
        if v == 0 {
            SectionType::Null
        } else if v == 1 {
            SectionType::ProgramBits
        } else if v == 2 {
            SectionType::SymbolTable
        } else if v == 3 {
            SectionType::StringTable
        } else if v == 4 {
            SectionType::Rela
        } else if v == 5 {
            SectionType::Hash
        } else if v == 6 {
            SectionType::Dynamic
        } else if v == 7 {
            SectionType::Note
        } else if v == 8 {
            SectionType::NoBits
        } else if v == 9 {
            SectionType::Rel
        } else if v == 10 {
            SectionType::Shlib
        } else if v == 11 {
            SectionType::DynamicSymbolTable
        } else if 0x60000000 <= v <= 0x6fffffff {
            SectionType::OsSpecific((v - 0x60000000) as u32)
        } else if 0x70000000 <= v <= 0x7fffffff {
            SectionType::ProcessorSpecific((v - 0x70000000) as u32)
        } else {
            SectionType::Unknown(v)
        }
    }

    /// The code that stands for this section type.
    pub open spec fn spec_code(self) -> u32 {
        match self {
            SectionType::Null => 0,
            SectionType::ProgramBits => 1,
            SectionType::SymbolTable => 2,
            SectionType::StringTable => 3,
            SectionType::Rela => 4,
            SectionType::Hash => 5,
            SectionType::Dynamic => 6,
            SectionType::Note => 7,
            SectionType::NoBits => 8,
            SectionType::Rel => 9,
            SectionType::Shlib => 10,
            SectionType::DynamicSymbolTable => 11,
            SectionType::OsSpecific(t) => (0x60000000 + t % 0x10000000) as u32,
            SectionType::ProcessorSpecific(t) => (0x70000000 + t % 0x10000000) as u32,
            SectionType::Unknown(t) => t,
        }
    }

    /// Decodes the section-type code `v`.
    pub fn from_u32(v: u32) -> (r: SectionType)
        ensures
            r == SectionType::spec_from(v),
    {
        match v {
            0x00000000 => SectionType::Null,
            0x00000001 => SectionType::ProgramBits,
            0x00000002 => SectionType::SymbolTable,
            0x00000003 => SectionType::StringTable,
            0x00000004 => SectionType::Rela,
            0x00000005 => SectionType::Hash,
            0x00000006 => SectionType::Dynamic,
            0x00000007 => SectionType::Note,
            0x00000008 => SectionType::NoBits,
            0x00000009 => SectionType::Rel,
            0x0000000a => SectionType::Shlib,
            0x0000000b => SectionType::DynamicSymbolTable,
            _ => {
                if 0x60000000 <= v && v <= 0x6fffffff {
                    SectionType::OsSpecific(v - 0x60000000)
                } else if 0x70000000 <= v && v <= 0x7fffffff {
                    SectionType::ProcessorSpecific(v - 0x70000000)
                } else {
                    SectionType::Unknown(v)
                }
            },
        }
    }
}

impl From<u32> for SectionType {
    fn from(v: u32) -> (r: SectionType)
        ensures
            r == SectionType::spec_from(v),
    {
        SectionType::from_u32(v)
    }
}

impl vstd::std_specs::convert::FromSpecImpl<u32> for SectionType {
    open spec fn obeys_from_spec() -> bool {
        true
    }

    open spec fn from_spec(v: u32) -> SectionType {
        SectionType::spec_from(v)
    }
}

impl From<SectionType> for u32 {
    fn from(v: SectionType) -> (r: u32)
        ensures
            r == v.spec_code(),
    {
        match v {
            SectionType::Null => 0x00000000,
            SectionType::ProgramBits => 0x00000001,
            SectionType::SymbolTable => 0x00000002,
            SectionType::StringTable => 0x00000003,
            SectionType::Rela => 0x00000004,
            SectionType::Hash => 0x00000005,
            SectionType::Dynamic => 0x00000006,
            SectionType::Note => 0x00000007,
            SectionType::NoBits => 0x00000008,
            SectionType::Rel => 0x00000009,
            SectionType::Shlib => 0x0000000a,
            SectionType::DynamicSymbolTable => 0x0000000b,
            SectionType::OsSpecific(t) => 0x60000000 + t % 0x10000000,
            SectionType::ProcessorSpecific(t) => 0x70000000 + t % 0x10000000,
            SectionType::Unknown(t) => t,
        }
    }
}

impl vstd::std_specs::convert::FromSpecImpl<SectionType> for u32 {
    open spec fn obeys_from_spec() -> bool {
        true
    }

    open spec fn from_spec(v: SectionType) -> u32 {
        v.spec_code()
    }
}

/// Decoding a section-type code and encoding the type again gives the code back.
pub proof fn lemma_section_type_round_trip(c: u32)
    ensures
        SectionType::spec_from(c).spec_code() == c,
{
}


/// The attribute bits of a section: writable, allocated, executable.
/// Bits other than these three are dropped.
#[derive(Clone, Copy, Debug, PartialEq, Eq, Structural)]
pub struct SectionFlags {
    bits: u32,
}

impl View for SectionFlags {
    type V = u32;

    closed spec fn view(&self) -> u32 {
        self.bits
    }
}

impl SectionFlags {
    /// The flags whose bits are those of `bits` that this type knows.
    pub closed spec fn spec_from_bits_truncate(bits: u32) -> SectionFlags {
        SectionFlags { bits: bits & 0b111 }
    }

    /// Keeps the writable, allocated and executable bits of `bits`.
    pub fn from_bits_truncate(bits: u32) -> (r: SectionFlags)
        ensures
            r == SectionFlags::spec_from_bits_truncate(bits),
            r@ == bits & 0b111,
    {
        SectionFlags { bits: bits & 0b111 }
    }

    /// The raw bits.
    pub fn bits(&self) -> (r: u32)
        ensures
            r == self@,
    {
        self.bits
    }

    /// Whether the section is writable at run time.
    pub fn is_write(&self) -> (r: bool)
        ensures
            r == (self@ & 0b001 != 0),
    {
        self.bits & 0b001 != 0
    }

    /// Whether the section occupies memory at run time.
    pub fn is_alloc(&self) -> (r: bool)
        ensures
            r == (self@ & 0b010 != 0),
    {
        self.bits & 0b010 != 0
    }

    /// Whether the section holds executable instructions.
    pub fn is_execinstr(&self) -> (r: bool)
        ensures
            r == (self@ & 0b100 != 0),
    {
        self.bits & 0b100 != 0
    }
}


/// One entry of the section-header table. The bytes `0x0c .. 0x10` and
/// `0x2a .. 0x2c` of the record are not read.
#[derive(Clone, Copy, Debug, PartialEq, Eq, Structural)]
pub struct SectionHeader {
    /// Where the section's name starts in the section-name string table.
    pub name: u32,
    pub type_: SectionType,
    pub flags: SectionFlags,
    pub address: Address,
    pub offset: Offset,
    pub size: u64,
    pub link: Index,
    /// Extra information whose meaning depends on the section type.
    pub info: u32,
    pub address_alignment: u64,
    /// The size of one record, for sections that hold a table of them.
    pub number_of_entries: u64,
}

impl SectionHeader {
    /// The size of a section-header record on disk.
    pub const SIZE: usize = 0x40;

    /// The section header that the bytes `s` start with, or why there is none.
    pub open spec fn spec_decode(s: Seq<u8>, encoding: Encoding) -> Result<SectionHeader, Error> {
        if s.len() < 0x40 {
            Err(Error::SliceTooShort)
        } else {
            Ok(
                SectionHeader {
                    name: spec_u32(s, 0x00, encoding),
                    type_: SectionType::spec_from(spec_u32(s, 0x04, encoding)),
                    flags: SectionFlags::spec_from_bits_truncate(spec_u32(s, 0x08, encoding)),
                    address: spec_u64(s, 0x10, encoding),
                    offset: spec_u64(s, 0x18, encoding),
                    size: spec_u64(s, 0x20, encoding),
                    link: Index::spec_from(spec_u16(s, 0x28, encoding)),
                    info: spec_u32(s, 0x2c, encoding),
                    address_alignment: spec_u64(s, 0x30, encoding),
                    number_of_entries: spec_u64(s, 0x38, encoding),
                },
            )
        }
    }
}

impl Entry for SectionHeader {
    open spec fn spec_size() -> nat {
        0x40
    }

    open spec fn spec_new(s: Seq<u8>, encoding: Encoding) -> Result<SectionHeader, Error> {
        SectionHeader::spec_decode(s, encoding)
    }

    fn size() -> (r: usize) {
        SectionHeader::SIZE
    }

    fn new(slice: &[u8], encoding: Encoding) -> (r: Result<SectionHeader, Error>) {
        if slice.len() < SectionHeader::SIZE {
            return Err(Error::SliceTooShort);
        }
        Ok(
            SectionHeader {
                name: read_u32(slice, 0x00, encoding),
                type_: SectionType::from_u32(read_u32(slice, 0x04, encoding)),
                flags: SectionFlags::from_bits_truncate(read_u32(slice, 0x08, encoding)),
                address: read_u64(slice, 0x10, encoding),
                offset: read_u64(slice, 0x18, encoding),
                size: read_u64(slice, 0x20, encoding),
                link: Index::from_u16(read_u16(slice, 0x28, encoding)),
                info: read_u32(slice, 0x2c, encoding),
                address_alignment: read_u64(slice, 0x30, encoding),
                number_of_entries: read_u64(slice, 0x38, encoding),
            },
        )
    }

    proof fn lemma_short(s: Seq<u8>, encoding: Encoding) {
    }

    proof fn lemma_prefix(s: Seq<u8>, encoding: Encoding) {
        lemma_uint_value_prefix(s, 0x40);
    }
}

} // verus!
