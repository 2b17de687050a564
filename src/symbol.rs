use vstd::prelude::*;

use crate::bytes::{lemma_uint_value_prefix, read_u16, read_u32, read_u64, spec_u16, spec_u32, spec_u64};
use crate::common::{Address, Error};
use crate::header::Encoding;
use crate::section::Index;
use crate::table::Entry;

verus! {

/// How far a symbol is visible: the high nibble of its info byte.
#[derive(Clone, Copy, Debug, PartialEq, Eq, Structural)]
pub enum SymbolBinding {
    Local,
    Global,
    Weak,
    /// A nibble in `0xa ..= 0xc`, given as its offset from `0xa`.
    OsSpecific(u8),
    /// A nibble in `0xd ..= 0xf`, given as its offset from `0xd`.
    ProcessorSpecific(u8),
    Unknown(u8),
}

impl SymbolBinding {
    /// The binding that nibble `v` names.
    pub open spec fn spec_from(v: u8) -> SymbolBinding
        recommends
            v < 16,
    {
        if v == 0 {
            SymbolBinding::Local
        } else if v == 1 {
            SymbolBinding::Global
        } else if v == 2 {
            SymbolBinding::Weak
        } else if 0x0a <= v <= 0x0c {
            SymbolBinding::OsSpecific((v - 0x0a) as u8)
        } else if 0x0d <= v <= 0x0f {
            SymbolBinding::ProcessorSpecific((v - 0x0d) as u8)
        } else {
            SymbolBinding::Unknown(v)
        }
    }

    /// The nibble that stands for this binding.
    pub open spec fn spec_code(self) -> u8 {
        match self {
            SymbolBinding::Local => 0,
            SymbolBinding::Global => 1,
            SymbolBinding::Weak => 2,
            SymbolBinding::OsSpecific(t) => ((0x0a + t) % 16) as u8,
            SymbolBinding::ProcessorSpecific(t) => ((0x0d + t) % 16) as u8,
            SymbolBinding::Unknown(t) => t % 16,
        }
    }
}

/// What a symbol names: the low nibble of its info byte.
#[derive(Clone, Copy, Debug, PartialEq, Eq, Structural)]
pub enum SymbolType {
    Nothing,
    Object,
    Function,
    Section,
    File,
    /// A nibble in `0xa ..= 0xc`, given as its offset from `0xa`.
    OsSpecific(u8),
    /// A nibble in `0xd ..= 0xf`, given as its offset from `0xd`.
    ProcessorSpecific(u8),
    Unknown(u8),
}

impl SymbolType {
    /// The symbol type that nibble `v` names.
    pub open spec fn spec_from(v: u8) -> SymbolType
        recommends
            v < 16,
    {
        if v == 0 {
            SymbolType::Nothing
        } else if v == 1 {
            SymbolType::Object
        } else if v == 2 {
            SymbolType::Function
        } else if v == 3 {
            SymbolType::Section
        } else if v == 4 {
            SymbolType::File
        } else if 0x0a <= v <= 0x0c {
            SymbolType::OsSpecific((v - 0x0a) as u8)
        } else if 0x0d <= v <= 0x0f {
            SymbolType::ProcessorSpecific((v - 0x0d) as u8)
        } else {
            SymbolType::Unknown(v)
        }
    }

    /// The nibble that stands for this symbol type.
    pub open spec fn spec_code(self) -> u8 {
        match self {
            SymbolType::Nothing => 0,
            SymbolType::Object => 1,
            SymbolType::Function => 2,
            SymbolType::Section => 3,
            SymbolType::File => 4,
            SymbolType::OsSpecific(t) => ((0x0a + t) % 16) as u8,
            SymbolType::ProcessorSpecific(t) => ((0x0d + t) % 16) as u8,
            SymbolType::Unknown(t) => t % 16,
        }
    }
}

/// A symbol's binding and type, packed on disk into one byte.
#[derive(Clone, Copy, Debug, PartialEq, Eq, Structural)]
pub struct SymbolInfo {
    pub binding: SymbolBinding,
    pub type_: SymbolType,
}

impl SymbolInfo {
    /// The binding and type that the info byte `v` holds.
    pub open spec fn spec_from(v: u8) -> SymbolInfo {
        SymbolInfo {
            binding: SymbolBinding::spec_from(v / 16),
            type_: SymbolType::spec_from(v % 16),
        }
    }

    /// The info byte that stands for this binding and type.
    pub open spec fn spec_code(self) -> u8 {
        (self.binding.spec_code() * 16 + self.type_.spec_code()) as u8
    }

    /// Unpacks the info byte `v`.
    pub fn from_u8(v: u8) -> (r: SymbolInfo)
        ensures
            r == SymbolInfo::spec_from(v),
    {
        let high: u8 = v / 16;
        let low: u8 = v % 16;
        let binding = match high {
            0x00 => SymbolBinding::Local,
            0x01 => SymbolBinding::Global,
            0x02 => SymbolBinding::Weak,
            0x0a..=0x0c => SymbolBinding::OsSpecific(high - 0x0a),
            0x0d..=0x0f => SymbolBinding::ProcessorSpecific(high - 0x0d),
            t => SymbolBinding::Unknown(t),
        };
        let type_ = match low {
            0x00 => SymbolType::Nothing,
            0x01 => SymbolType::Object,
            0x02 => SymbolType::Function,
            0x03 => SymbolType::Section,
            0x04 => SymbolType::File,
            0x0a..=0x0c => SymbolType::OsSpecific(low - 0x0a),
            0x0d..=0x0f => SymbolType::ProcessorSpecific(low - 0x0d),
            t => SymbolType::Unknown(t),
        };
        SymbolInfo { binding, type_ }
    }
}

impl From<u8> for SymbolInfo {
    fn from(v: u8) -> (r: SymbolInfo)
        ensures
            r == SymbolInfo::spec_from(v),
    {
        SymbolInfo::from_u8(v)
    }
}

impl vstd::std_specs::convert::FromSpecImpl<u8> for SymbolInfo {
    open spec fn obeys_from_spec() -> bool {
        true
    }

    open spec fn from_spec(v: u8) -> SymbolInfo {
        SymbolInfo::spec_from(v)
    }
}

impl From<SymbolInfo> for u8 {
    fn from(v: SymbolInfo) -> (r: u8)
        ensures
            r == v.spec_code(),
    {
        let high: u8 = match v.binding {
            SymbolBinding::Local => 0x00,
            SymbolBinding::Global => 0x01,
            SymbolBinding::Weak => 0x02,
            SymbolBinding::OsSpecific(t) => ((0x0a + t as u16) % 16) as u8,
            SymbolBinding::ProcessorSpecific(t) => ((0x0d + t as u16) % 16) as u8,
            SymbolBinding::Unknown(t) => t % 16,
        };
        let low: u8 = match v.type_ {
            SymbolType::Nothing => 0x00,
            SymbolType::Object => 0x01,
            SymbolType::Function => 0x02,
            SymbolType::Section => 0x03,
            SymbolType::File => 0x04,
            SymbolType::OsSpecific(t) => ((0x0a + t as u16) % 16) as u8,
            SymbolType::ProcessorSpecific(t) => ((0x0d + t as u16) % 16) as u8,
            SymbolType::Unknown(t) => t % 16,
        };
        high * 16 + low
    }
}

impl vstd::std_specs::convert::FromSpecImpl<SymbolInfo> for u8 {
    open spec fn obeys_from_spec() -> bool {
        true
    }

    open spec fn from_spec(v: SymbolInfo) -> u8 {
        v.spec_code()
    }
}

/// Unpacking an info byte and packing the binding and type again gives the byte back.
pub proof fn lemma_symbol_info_round_trip(c: u8)
    ensures
        SymbolInfo::spec_from(c).spec_code() == c,
{
    assert(c == (c / 16) * 16 + c % 16);
}


/// One entry of a symbol table. The byte at offset `0x05` of the record is
/// reserved and must be zero.
#[derive(Clone, Copy, Debug, PartialEq, Eq, Structural)]
pub struct SymbolEntry {
    /// Where the symbol's name starts in the linked string table.
    pub name: u32,
    pub info: SymbolInfo,
    /// The section the symbol is defined in.
    pub section_index: Index,
    pub value: Address,
    pub size: u64,
}

impl SymbolEntry {
    /// The size of a symbol record on disk.
    pub const SIZE: usize = 0x18;

    /// The symbol that the bytes `s` start with, or why there is none.
    pub open spec fn spec_decode(s: Seq<u8>, encoding: Encoding) -> Result<SymbolEntry, Error> {
        if s.len() < 0x18 {
            Err(Error::SliceTooShort)
        } else if s[0x05] != 0 {
            Err(Error::ReservedFieldIsNotZero)
        } else {
            Ok(
                SymbolEntry {
                    name: spec_u32(s, 0x00, encoding),
                    info: SymbolInfo::spec_from(s[0x04]),
                    section_index: Index::spec_from(spec_u16(s, 0x06, encoding)),
                    value: spec_u64(s, 0x08, encoding),
                    size: spec_u64(s, 0x10, encoding),
                },
            )
        }
    }
}

impl Entry for SymbolEntry {
    open spec fn spec_size() -> nat {
        0x18
    }

    open spec fn spec_new(s: Seq<u8>, encoding: Encoding) -> Result<SymbolEntry, Error> {
        SymbolEntry::spec_decode(s, encoding)
    }

    fn size() -> (r: usize) {
        SymbolEntry::SIZE
    }

    fn new(slice: &[u8], encoding: Encoding) -> (r: Result<SymbolEntry, Error>) {
        if slice.len() < SymbolEntry::SIZE {
            return Err(Error::SliceTooShort);
        }
        if slice[0x05] != 0 {
            return Err(Error::ReservedFieldIsNotZero);
        }
        Ok(
            SymbolEntry {
                name: read_u32(slice, 0x00, encoding),
                info: SymbolInfo::from_u8(slice[0x04]),
                section_index: Index::from_u16(read_u16(slice, 0x06, encoding)),
                value: read_u64(slice, 0x08, encoding),
                size: read_u64(slice, 0x10, encoding),
            },
        )
    }

    proof fn lemma_short(s: Seq<u8>, encoding: Encoding) {
    }

    proof fn lemma_prefix(s: Seq<u8>, encoding: Encoding) {
        lemma_uint_value_prefix(s, 0x18);
    }
}

/// A symbol record whose reserved byte is not zero is refused, whatever its
/// other bytes hold.
pub proof fn lemma_reserved_byte_refused(s: Seq<u8>, encoding: Encoding)
    requires
        s.len() >= 0x18,
        s[0x05] != 0,
    ensures
        SymbolEntry::spec_new(s, encoding) == Err::<SymbolEntry, Error>(
            Error::ReservedFieldIsNotZero,
        ),
{
}

} // verus!
