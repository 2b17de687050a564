//! Read-only decoding of 64-bit ELF images: header, program and section
//! headers, symbols, relocations, string tables and notes, each checked
//! against the buffer it is read from.

mod bytes;
mod common;
mod elf;
mod header;
mod section;
mod program;
mod symbol;
mod table;
mod rel_rela;
mod string_note;

pub use self::bytes::{le_value, be_value, uint_value, read_u16, read_u32, read_u64, read_i64};
pub use self::common::{Address, Offset, Error, UnexpectedSize};
pub use self::header::{Class, Encoding, Abi, Identifier, Type, Machine, Header};
pub use self::section::{Index, SectionType, SectionFlags, SectionHeader};
pub use self::program::{ProgramType, ProgramFlags, ProgramHeader};
pub use self::symbol::{SymbolBinding, SymbolType, SymbolInfo, SymbolEntry};
pub use self::rel_rela::{RelEntry, RelaEntry};
pub use self::table::{Entry, Table};
pub use self::string_note::{StringTable, NoteEntry, NoteTable, MAX_STRING_LENGTH, NOTE_HEADER_SIZE};
pub use self::elf::{Elf64, Elf64View, spec_elf64, Program, ProgramData, Section, SectionData};
