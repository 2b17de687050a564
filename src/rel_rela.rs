use vstd::prelude::*;

use crate::bytes::{lemma_uint_value_prefix, read_i64, read_u64, spec_u64};
use crate::common::{Address, Error};
use crate::header::Encoding;
use crate::table::Entry;

verus! {

/// The symbol index held in the high half of a relocation's info field.
pub open spec fn spec_symbol_index(info: u64) -> u32 {
    (info / 0x1_0000_0000) as u32
}

/// The relocation type held in the low half of a relocation's info field.
pub open spec fn spec_relocation_type(info: u64) -> u32 {
    (info % 0x1_0000_0000) as u32
}

/// A relocation without an explicit addend.
#[derive(Clone, Copy, Debug, PartialEq, Eq, Structural)]
pub struct RelEntry {
    /// The location to patch.
    pub address: Address,
    pub symbol_index: u32,
    pub relocation_type: u32,
}

impl RelEntry {
    /// The size of a relocation record on disk.
    pub const SIZE: usize = 0x10;

    /// The relocation that the bytes `s` start with, or why there is none.
    pub open spec fn spec_decode(s: Seq<u8>, encoding: Encoding) -> Result<RelEntry, Error> {
        if s.len() < 0x10 {
            Err(Error::SliceTooShort)
        } else {
            Ok(
                RelEntry {
                    address: spec_u64(s, 0x00, encoding),
                    symbol_index: spec_symbol_index(spec_u64(s, 0x08, encoding)),
                    relocation_type: spec_relocation_type(spec_u64(s, 0x08, encoding)),
                },
            )
        }
    }
}

impl Entry for RelEntry {
    open spec fn spec_size() -> nat {
        0x10
    }

    open spec fn spec_new(s: Seq<u8>, encoding: Encoding) -> Result<RelEntry, Error> {
        RelEntry::spec_decode(s, encoding)
    }

    fn size() -> (r: usize) {
        RelEntry::SIZE
    }

    fn new(slice: &[u8], encoding: Encoding) -> (r: Result<RelEntry, Error>) {
        if slice.len() < RelEntry::SIZE {
            return Err(Error::SliceTooShort);
        }
        let info = read_u64(slice, 0x08, encoding);
        Ok(
            RelEntry {
                address: read_u64(slice, 0x00, encoding),
                symbol_index: (info / 0x1_0000_0000) as u32,
                relocation_type: (info % 0x1_0000_0000) as u32,
            },
        )
    }

    proof fn lemma_short(s: Seq<u8>, encoding: Encoding) {
    }

    proof fn lemma_prefix(s: Seq<u8>, encoding: Encoding) {
        lemma_uint_value_prefix(s, 0x10);
    }
}

/// A relocation with an explicit signed addend.
#[derive(Clone, Copy, Debug, PartialEq, Eq, Structural)]
pub struct RelaEntry {
    /// The location to patch.
    pub address: Address,
    pub symbol_index: u32,
    pub relocation_type: u32,
    pub addend: i64,
}

impl RelaEntry {
    /// The size of a relocation-with-addend record on disk.
    pub const SIZE: usize = 0x18;

    /// The relocation that the bytes `s` start with, or why there is none.
    pub open spec fn spec_decode(s: Seq<u8>, encoding: Encoding) -> Result<RelaEntry, Error> {
        if s.len() < 0x18 {
            Err(Error::SliceTooShort)
        } else {
            Ok(
                RelaEntry {
                    address: spec_u64(s, 0x00, encoding),
                    symbol_index: spec_symbol_index(spec_u64(s, 0x08, encoding)),
                    relocation_type: spec_relocation_type(spec_u64(s, 0x08, encoding)),
                    addend: spec_u64(s, 0x10, encoding) as i64,
                },
            )
        }
    }
}

impl Entry for RelaEntry {
    open spec fn spec_size() -> nat {
        0x18
    }

    open spec fn spec_new(s: Seq<u8>, encoding: Encoding) -> Result<RelaEntry, Error> {
        RelaEntry::spec_decode(s, encoding)
    }

    fn size() -> (r: usize) {
        RelaEntry::SIZE
    }

    fn new(slice: &[u8], encoding: Encoding) -> (r: Result<RelaEntry, Error>) {
        if slice.len() < RelaEntry::SIZE {
            return Err(Error::SliceTooShort);
        }
        let info = read_u64(slice, 0x08, encoding);
        Ok(
            RelaEntry {
                address: read_u64(slice, 0x00, encoding),
                symbol_index: (info / 0x1_0000_0000) as u32,
                relocation_type: (info % 0x1_0000_0000) as u32,
                addend: read_i64(slice, 0x10, encoding),
            },
        )
    }

    proof fn lemma_short(s: Seq<u8>, encoding: Encoding) {
    }

    proof fn lemma_prefix(s: Seq<u8>, encoding: Encoding) {
        lemma_uint_value_prefix(s, 0x18);
    }
}

} // verus!
