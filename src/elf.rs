use vstd::prelude::*;

use crate::common::{Address, Error};
use crate::header::{sub_region, Abi, Class, Encoding, Header, Machine, Type};
use crate::program::{ProgramFlags, ProgramHeader, ProgramType};
use crate::rel_rela::{RelEntry, RelaEntry};
use crate::section::{Index, SectionFlags, SectionHeader, SectionType};
use crate::string_note::{NoteTable, StringTable};
use crate::symbol::SymbolEntry;
use crate::table::{spec_pick, Table};

verus! {

/// What a decoded file is: its bytes, its header, and the section-name
/// string table when the header names one.
pub ghost struct Elf64View {
    pub raw: Seq<u8>,
    pub header: Header,
    pub names: Option<Seq<u8>>,
}

/// Where the section-name string table lies in `raw`, if the header names a
/// regular section of string-table type; or why looking it up failed.
pub open spec fn spec_names_range(raw: Seq<u8>, header: Header) -> Result<Option<(int, int)>, Error> {
    match header.section_names {
        Index::Regular(i) => {
            let range = header.spec_section_range();
            match spec_pick::<SectionHeader>(
                raw.subrange(range.0, range.1),
                header.identifier.encoding,
                i as int,
            ) {
                Err(e) => Err(e),
                Ok(names) => {
                    if names.type_ == SectionType::StringTable {
                        if names.offset + names.size > raw.len() {
                            Err(Error::SliceTooShort)
                        } else {
                            Ok(Some((names.offset as int, names.offset + names.size)))
                        }
                    } else {
                        Ok(None)
                    }
                },
            }
        },
        _ => Ok(None),
    }
}

/// What decoding the whole file `raw` gives: its view, or why it failed.
pub open spec fn spec_elf64(raw: Seq<u8>) -> Result<Elf64View, Error> {
    match Header::spec_new(raw) {
        Err(e) => Err(e),
        Ok(header) => {
            if header.spec_program_range().1 > raw.len() || header.spec_section_range().1
                > raw.len() {
                Err(Error::SliceTooShort)
            } else {
                match spec_names_range(raw, header) {
                    Err(e) => Err(e),
                    Ok(None) => Ok(Elf64View { raw, header, names: None }),
                    Ok(Some(range)) => Ok(
                        Elf64View { raw, header, names: Some(raw.subrange(range.0, range.1)) },
                    ),
                }
            }
        },
    }
}

/// A file whose header declares a program-header table that runs past the
/// end of the file is refused with truncation.
pub proof fn lemma_program_table_past_end(raw: Seq<u8>)
    requires
        Header::spec_new(raw) matches Ok(header) && header.spec_program_range().1 > raw.len(),
    ensures
        spec_elf64(raw) == Err::<Elf64View, Error>(Error::SliceTooShort),
{
}

/// A file whose header declares a section-header table that runs past the
/// end of the file is refused with truncation.
pub proof fn lemma_section_table_past_end(raw: Seq<u8>)
    requires
        Header::spec_new(raw) matches Ok(header) && header.spec_section_range().1 > raw.len(),
    ensures
        spec_elf64(raw) == Err::<Elf64View, Error>(Error::SliceTooShort),
{
}

/// The bytes `[offset, offset + size)` of `raw`, if they lie inside it.
pub open spec fn spec_file_range(raw: Seq<u8>, offset: u64, size: u64) -> Option<Seq<u8>> {
    if offset + size > raw.len() {
        None
    } else {
        Some(raw.subrange(offset as int, offset + size))
    }
}

/// The name at `offset` of the section-name string table, or the empty name
/// when there is no such table.
pub open spec fn spec_section_name(names: Option<Seq<u8>>, offset: u32) -> Result<Seq<u8>, Error> {
    match names {
        None => Ok(Seq::empty()),
        Some(t) => StringTable::spec_pick(t, offset as int),
    }
}

/// The payload of a segment, by segment type.
#[derive(Clone, Copy)]
pub enum ProgramData<'a> {
    Load { data: &'a [u8], address: Address },
    /// The path of the program interpreter.
    Interpreter(&'a [u8]),
    Note(NoteTable<'a>),
    OsSpecific { code: u32, data: &'a [u8], address: Address },
    ProcessorSpecific { code: u32, data: &'a [u8], address: Address },
    Unknown { code: u32, data: &'a [u8], address: Address },
}

impl<'a> ProgramData<'a> {
    /// Whether this is the payload that a segment with header `ph`, whose
    /// file bytes are `data`, carries in a file of byte order `encoding`.
    pub open spec fn spec_is_payload_of(
        self,
        ph: ProgramHeader,
        data: Seq<u8>,
        encoding: Encoding,
    ) -> bool {
        match (ph.ty, self) {
            (ProgramType::Load, ProgramData::Load { data: d, address }) => d@ == data && address
                == ph.virtual_address,
            (ProgramType::Interpreter, ProgramData::Interpreter(d)) => d@ == data,
            (ProgramType::Note, ProgramData::Note(t)) => t.spec_region() == data
                && t.spec_encoding() == encoding,
            (ProgramType::OsSpecific(c), ProgramData::OsSpecific { code, data: d, address }) => {
                code == c && d@ == data && address == ph.virtual_address
            },
            (
                ProgramType::ProcessorSpecific(c),
                ProgramData::ProcessorSpecific { code, data: d, address },
            ) => code == c && d@ == data && address == ph.virtual_address,
            (ProgramType::Unknown(c), ProgramData::Unknown { code, data: d, address }) => code
                == c && d@ == data && address == ph.virtual_address,
            _ => false,
        }
    }
}

/// A segment: its payload with the permissions and memory layout of its header.
#[derive(Clone, Copy)]
pub struct Program<'a> {
    pub data: ProgramData<'a>,
    pub flags: ProgramFlags,
    pub memory_size: u64,
    pub address_alignment: u64,
}

/// What resolving a segment with header `ph` and file bytes `data` gives:
/// nothing for null, shared-library and program-header-table segments, an
/// error for dynamic-linking segments, whose payload is not decoded, and the
/// payload with the header's flags and layout otherwise.
pub open spec fn spec_program_result<'a>(
    r: Result<Option<Program<'a>>, Error>,
    ph: ProgramHeader,
    data: Seq<u8>,
    encoding: Encoding,
) -> bool {
    match ph.ty {
        ProgramType::Null | ProgramType::Shlib | ProgramType::ProgramHeaderTable => r == Ok::<
            Option<Program<'a>>,
            Error,
        >(None),
        ProgramType::Dynamic => r == Err::<Option<Program<'a>>, Error>(Error::Unimplemented),
        _ => match r {
            Ok(Some(p)) => {
                &&& p.data.spec_is_payload_of(ph, data, encoding)
                &&& p.flags == ph.flags
                &&& p.memory_size == ph.memory_size
                &&& p.address_alignment == ph.address_alignment
            },
            _ => false,
        },
    }
}

/// The payload of a section, by section type.
#[derive(Clone, Copy)]
pub enum SectionData<'a> {
    ProgramBits(&'a [u8]),
    SymbolTable { table: Table<'a, SymbolEntry>, number_of_locals: usize },
    StringTable(StringTable<'a>),
    Rela { table: Table<'a, RelaEntry>, apply_to_section: Index },
    Note(NoteTable<'a>),
    Rel { table: Table<'a, RelEntry>, apply_to_section: Index },
    DynamicSymbolTable { table: Table<'a, SymbolEntry>, number_of_locals: usize },
    OsSpecific { code: u32, slice: &'a [u8] },
    ProcessorSpecific { code: u32, slice: &'a [u8] },
    Unknown { code: u32, slice: &'a [u8] },
}

impl<'a> SectionData<'a> {
    /// Whether this is the payload that a section with header `sh`, whose
    /// file bytes are `data`, carries in a file of byte order `encoding`.
    pub open spec fn spec_is_payload_of(
        self,
        sh: SectionHeader,
        data: Seq<u8>,
        encoding: Encoding,
    ) -> bool {
        match (sh.type_, self) {
            (SectionType::ProgramBits, SectionData::ProgramBits(d)) => d@ == data,
            (SectionType::SymbolTable, SectionData::SymbolTable { table, number_of_locals }) => {
                &&& table.spec_region() == data
                &&& table.spec_encoding() == encoding
                &&& number_of_locals == sh.info
            },
            (SectionType::StringTable, SectionData::StringTable(t)) => t@ == data,
            (SectionType::Rela, SectionData::Rela { table, apply_to_section }) => {
                &&& table.spec_region() == data
                &&& table.spec_encoding() == encoding
                &&& apply_to_section == Index::spec_from(sh.info as u16)
            },
            (SectionType::Note, SectionData::Note(t)) => t.spec_region() == data
                && t.spec_encoding() == encoding,
            (SectionType::Rel, SectionData::Rel { table, apply_to_section }) => {
                &&& table.spec_region() == data
                &&& table.spec_encoding() == encoding
                &&& apply_to_section == Index::spec_from(sh.info as u16)
            },
            (
                SectionType::DynamicSymbolTable,
                SectionData::DynamicSymbolTable { table, number_of_locals },
            ) => {
                &&& table.spec_region() == data
                &&& table.spec_encoding() == encoding
                &&& number_of_locals == sh.info
            },
            (SectionType::OsSpecific(c), SectionData::OsSpecific { code, slice }) => code == c
                && slice@ == data,
            (SectionType::ProcessorSpecific(c), SectionData::ProcessorSpecific { code, slice }) => {
                code == c && slice@ == data
            },
            (SectionType::Unknown(c), SectionData::Unknown { code, slice }) => code == c && slice@
                == data,
            _ => false,
        }
    }
}

/// A section: its payload and name with the attributes of its header.
#[derive(Clone, Copy)]
pub struct Section<'a> {
    pub data: SectionData<'a>,
    pub name: &'a [u8],
    pub flags: SectionFlags,
    pub address: Address,
    pub address_alignment: u64,
    pub link: Index,
}

/// What resolving a section with header `sh`, file bytes `data` and name
/// `name` gives: nothing for null, no-bits and shared-library sections, an
/// error for hash and dynamic-linking sections, whose payload is not
/// decoded, and the payload with the name and the header's attributes otherwise.
pub open spec fn spec_section_result<'a>(
    r: Result<Option<Section<'a>>, Error>,
    sh: SectionHeader,
    data: Seq<u8>,
    name: Seq<u8>,
    encoding: Encoding,
) -> bool {
    match sh.type_ {
        SectionType::Null | SectionType::NoBits | SectionType::Shlib => r == Ok::<
            Option<Section<'a>>,
            Error,
        >(None),
        SectionType::Hash | SectionType::Dynamic => r == Err::<Option<Section<'a>>, Error>(
            Error::Unimplemented,
        ),
        _ => match r {
            Ok(Some(section)) => {
                &&& section.data.spec_is_payload_of(sh, data, encoding)
                &&& section.name@ == name
                &&& section.flags == sh.flags
                &&& section.address == sh.address
                &&& section.address_alignment == sh.address_alignment
                &&& section.link == sh.link
            },
            _ => false,
        },
    }
}

/// A decoded 64-bit ELF file over a borrowed buffer. Tables and payloads are
/// decoded on demand, by index.
#[derive(Clone, Copy)]
pub struct Elf64<'a> {
    raw: &'a [u8],
    header: Header,
    program_table: Table<'a, ProgramHeader>,
    section_table: Table<'a, SectionHeader>,
    names: Option<StringTable<'a>>,
}

impl<'a> View for Elf64<'a> {
    type V = Elf64View;

    closed spec fn view(&self) -> Elf64View {
        Elf64View {
            raw: self.raw@,
            header: self.header,
            names: match self.names {
                Some(t) => Some(t@),
                None => None,
            },
        }
    }
}

impl<'a> Elf64<'a> {
    /// The tables agree with the header and the buffer.
    #[verifier::type_invariant]
    closed spec fn wf(&self) -> bool {
        let programs = self.header.spec_program_range();
        let sections = self.header.spec_section_range();
        &&& programs.1 <= self.raw@.len()
        &&& sections.1 <= self.raw@.len()
        &&& self.program_table.spec_region() == self.raw@.subrange(programs.0, programs.1)
        &&& self.program_table.spec_encoding() == self.header.identifier.encoding
        &&& self.section_table.spec_region() == self.raw@.subrange(sections.0, sections.1)
        &&& self.section_table.spec_encoding() == self.header.identifier.encoding
    }

    /// Decodes the header of the file `raw` and locates its tables.
    pub fn new(raw: &'a [u8]) -> (r: Result<Elf64<'a>, Error>)
        ensures
            match r {
                Ok(elf) => spec_elf64(raw@) == Ok::<Elf64View, Error>(elf@),
                Err(e) => spec_elf64(raw@) == Err::<Elf64View, Error>(e),
            },
    {
        if raw.len() < Header::SIZE {
            return Err(Error::SliceTooShort);
        }
        let header = Header::new(raw)?;
        let program_table = header.program_header_table(raw)?;
        let section_table = header.section_header_table(raw)?;
        let names = match header.section_names {
            Index::Regular(i) => {
                let names_section = section_table.pick(i as usize)?;
                match names_section.type_ {
                    SectionType::StringTable => {
                        let region = sub_region(raw, names_section.offset, names_section.size)?;
                        Some(StringTable::new(region))
                    },
                    _ => None,
                }
            },
            _ => None,
        };
        Ok(Elf64 { raw, header, program_table, section_table, names })
    }

    /// The file class.
    pub fn class(&self) -> (r: Class)
        ensures
            r == self@.header.identifier.class,
    {
        self.header.identifier.class
    }

    /// The byte order of the file.
    pub fn encoding(&self) -> (r: Encoding)
        ensures
            r == self@.header.identifier.encoding,
    {
        self.header.identifier.encoding
    }

    /// The identifier's version byte.
    pub fn version(&self) -> (r: u8)
        ensures
            r == self@.header.identifier.version,
    {
        self.header.identifier.version
    }

    /// The operating-system ABI.
    pub fn abi(&self) -> (r: Abi)
        ensures
            r == self@.header.identifier.abi,
    {
        self.header.identifier.abi
    }

    /// The ABI version byte.
    pub fn abi_version(&self) -> (r: u8)
        ensures
            r == self@.header.identifier.abi_version,
    {
        self.header.identifier.abi_version
    }

    /// The object type.
    pub fn ty(&self) -> (r: Type)
        ensures
            r == self@.header.ty,
    {
        self.header.ty
    }

    /// The target architecture.
    pub fn machine(&self) -> (r: Machine)
        ensures
            r == self@.header.machine,
    {
        self.header.machine
    }

    /// The format version of the header.
    pub fn format_version(&self) -> (r: u32)
        ensures
            r == self@.header.format_version,
    {
        self.header.format_version
    }

    /// The entry-point address.
    pub fn entry(&self) -> (r: Address)
        ensures
            r == self@.header.entry,
    {
        self.header.entry
    }

    /// The processor-specific flags.
    pub fn flags(&self) -> (r: u32)
        ensures
            r == self@.header.flags,
    {
        self.header.flags
    }

    /// How many program headers the header declares.
    pub fn program_number(&self) -> (r: usize)
        ensures
            r == self@.header.program_header_number,
    {
        self.header.program_header_number as usize
    }

    /// How many section headers the header declares.
    pub fn section_number(&self) -> (r: usize)
        ensures
            r == self@.header.section_header_number,
    {
        self.header.section_header_number as usize
    }

    /// Resolves the segment described by program header `index`.
    pub fn program(&self, index: usize) -> (r: Result<Option<Program<'a>>, Error>)
        ensures
            ({
                let v = self@;
                let encoding = v.header.identifier.encoding;
                let range = v.header.spec_program_range();
                match spec_pick::<ProgramHeader>(
                    v.raw.subrange(range.0, range.1),
                    encoding,
                    index as int,
                ) {
                    Err(e) => r == Err::<Option<Program<'a>>, Error>(e),
                    Ok(ph) => match spec_file_range(v.raw, ph.file_offset, ph.file_size) {
                        None => r == Err::<Option<Program<'a>>, Error>(Error::SliceTooShort),
                        Some(data) => spec_program_result(r, ph, data, encoding),
                    },
                }
            }),
    {
        proof {
            use_type_invariant(self);
        }
        let program_header = self.program_table.pick(index)?;
        let encoding = self.header.identifier.encoding;
        let slice = sub_region(self.raw, program_header.file_offset, program_header.file_size)?;
        let address = program_header.virtual_address;
        let data = match program_header.ty {
            ProgramType::Null => return Ok(None),
            ProgramType::Shlib => return Ok(None),
            ProgramType::ProgramHeaderTable => return Ok(None),
            ProgramType::Dynamic => return Err(Error::Unimplemented),
            ProgramType::Load => ProgramData::Load { data: slice, address },
            ProgramType::Interpreter => ProgramData::Interpreter(slice),
            ProgramType::Note => ProgramData::Note(NoteTable::new(slice, encoding)),
            ProgramType::OsSpecific(code) => ProgramData::OsSpecific { code, data: slice, address },
            ProgramType::ProcessorSpecific(code) => ProgramData::ProcessorSpecific {
                code,
                data: slice,
                address,
            },
            ProgramType::Unknown(code) => ProgramData::Unknown { code, data: slice, address },
        };
        Ok(
            Some(
                Program {
                    data,
                    flags: program_header.flags,
                    memory_size: program_header.memory_size,
                    address_alignment: program_header.address_alignment,
                },
            ),
        )
    }

    /// Resolves the section described by section header `index`, with its name.
    pub fn section(&self, index: usize) -> (r: Result<Option<Section<'a>>, Error>)
        ensures
            ({
                let v = self@;
                let encoding = v.header.identifier.encoding;
                let range = v.header.spec_section_range();
                match spec_pick::<SectionHeader>(
                    v.raw.subrange(range.0, range.1),
                    encoding,
                    index as int,
                ) {
                    Err(e) => r == Err::<Option<Section<'a>>, Error>(e),
                    Ok(sh) => match spec_file_range(v.raw, sh.offset, sh.size) {
                        None => r == Err::<Option<Section<'a>>, Error>(Error::SliceTooShort),
                        Some(data) => match spec_section_name(v.names, sh.name) {
                            Err(e) => r == Err::<Option<Section<'a>>, Error>(e),
                            Ok(name) => spec_section_result(r, sh, data, name, encoding),
                        },
                    },
                }
            }),
    {
        proof {
            use_type_invariant(self);
        }
        let section_header = self.section_table.pick(index)?;
        let encoding = self.header.identifier.encoding;
        let slice = sub_region(self.raw, section_header.offset, section_header.size)?;
        let name: &'a [u8] = match self.names {
            Some(table) => table.pick(section_header.name as usize)?,
            None => {
                let empty = &self.raw[0..0];
                assert(empty@ =~= Seq::<u8>::empty());
                empty
            },
        };
        let data = match section_header.type_ {
            SectionType::Null => return Ok(None),
            SectionType::NoBits => return Ok(None),
            SectionType::Shlib => return Ok(None),
            SectionType::Hash => return Err(Error::Unimplemented),
            SectionType::Dynamic => return Err(Error::Unimplemented),
            SectionType::ProgramBits => SectionData::ProgramBits(slice),
            SectionType::SymbolTable => SectionData::SymbolTable {
                table: Table::new(slice, encoding),
                number_of_locals: section_header.info as usize,
            },
            SectionType::StringTable => SectionData::StringTable(StringTable::new(slice)),
            SectionType::Rela => SectionData::Rela {
                table: Table::new(slice, encoding),
                apply_to_section: Index::from_u16(#[verifier::truncate] (section_header.info as u16)),
            },
            SectionType::Note => SectionData::Note(NoteTable::new(slice, encoding)),
            SectionType::Rel => SectionData::Rel {
                table: Table::new(slice, encoding),
                apply_to_section: Index::from_u16(#[verifier::truncate] (section_header.info as u16)),
            },
            SectionType::DynamicSymbolTable => SectionData::DynamicSymbolTable {
                table: Table::new(slice, encoding),
                number_of_locals: section_header.info as usize,
            },
            SectionType::OsSpecific(code) => SectionData::OsSpecific { code, slice },
            SectionType::ProcessorSpecific(code) => SectionData::ProcessorSpecific { code, slice },
            SectionType::Unknown(code) => SectionData::Unknown { code, slice },
        };
        Ok(
            Some(
                Section {
                    data,
                    name,
                    flags: section_header.flags,
                    address: section_header.address,
                    address_alignment: section_header.address_alignment,
                    link: section_header.link,
                },
            ),
        )
    }
}

} // verus!
