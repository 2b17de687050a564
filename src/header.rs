use vstd::prelude::*;

use core::convert::TryFrom;

use crate::bytes::{read_u16, read_u32, read_u64, spec_u16, spec_u32, spec_u64};
use crate::common::{Address, Error, Offset, UnexpectedSize};
use crate::program::ProgramHeader;
use crate::section::{Index, SectionHeader};
use crate::table::Table;

verus! {

/// The file class: 32-bit or 64-bit records.
#[derive(Clone, Copy, Debug, PartialEq, Eq, Structural)]
pub enum Class {
    _32,
    _64,
    Unknown(u8),
}

impl Class {
    /// The class that byte `v` of the identifier names.
    pub open spec fn spec_from(v: u8) -> Class {
        match v {
            1 => Class::_32,
            2 => Class::_64,
            t => Class::Unknown(t),
        }
    }

    /// The byte that stands for this class.
    pub open spec fn spec_code(self) -> u8 {
        match self {
            Class::_32 => 1,
            Class::_64 => 2,
            Class::Unknown(t) => t,
        }
    }
}

impl From<u8> for Class {
    fn from(v: u8) -> (r: Class)
        ensures
            r == Class::spec_from(v),
    {
        match v {
            1 => Class::_32,
            2 => Class::_64,
            t => Class::Unknown(t),
        }
    }
}

impl vstd::std_specs::convert::FromSpecImpl<u8> for Class {
    open spec fn obeys_from_spec() -> bool {
        true
    }

    open spec fn from_spec(v: u8) -> Class {
        Class::spec_from(v)
    }
}

impl From<Class> for u8 {
    fn from(v: Class) -> (r: u8)
        ensures
            r == v.spec_code(),
    {
        match v {
            Class::_32 => 1,
            Class::_64 => 2,
            Class::Unknown(t) => t,
        }
    }
}

impl vstd::std_specs::convert::FromSpecImpl<Class> for u8 {
    open spec fn obeys_from_spec() -> bool {
        true
    }

    open spec fn from_spec(v: Class) -> u8 {
        v.spec_code()
    }
}

/// Decoding a class byte and encoding the class again gives the byte back.
pub proof fn lemma_class_round_trip(c: u8)
    ensures
        Class::spec_from(c).spec_code() == c,
{
}

/// The byte order of every multi-byte field of the file.
#[derive(Clone, Copy, Debug, PartialEq, Eq, Structural)]
pub enum Encoding {
    Little,
    Big,
}

impl Encoding {
    /// The byte order that byte `v` of the identifier names, or `v` itself when it names none.
    pub open spec fn spec_try_from(v: u8) -> Result<Encoding, u8> {
        match v {
            1 => Ok(Encoding::Little),
            2 => Ok(Encoding::Big),
            t => Err(t),
        }
    }

    /// The byte that stands for this byte order.
    pub open spec fn spec_code(self) -> u8 {
        match self {
            Encoding::Little => 1,
            Encoding::Big => 2,
        }
    }
}

impl TryFrom<u8> for Encoding {
    type Error = u8;

    fn try_from(v: u8) -> (r: Result<Encoding, u8>)
        ensures
            r == Encoding::spec_try_from(v),
    {
        match v {
            1 => Ok(Encoding::Little),
            2 => Ok(Encoding::Big),
            t => Err(t),
        }
    }
}

impl vstd::std_specs::convert::TryFromSpecImpl<u8> for Encoding {
    open spec fn obeys_try_from_spec() -> bool {
        true
    }

    open spec fn try_from_spec(v: u8) -> Result<Encoding, u8> {
        Encoding::spec_try_from(v)
    }
}

impl From<Encoding> for u8 {
    fn from(v: Encoding) -> (r: u8)
        ensures
            r == v.spec_code(),
    {
        match v {
            Encoding::Little => 1,
            Encoding::Big => 2,
        }
    }
}

impl vstd::std_specs::convert::FromSpecImpl<Encoding> for u8 {
    open spec fn obeys_from_spec() -> bool {
        true
    }

    open spec fn from_spec(v: Encoding) -> u8 {
        v.spec_code()
    }
}

/// Every byte that names a byte order is given back by encoding that byte order.
pub proof fn lemma_encoding_round_trip(c: u8)
    ensures
        match Encoding::spec_try_from(c) {
            Ok(e) => e.spec_code() == c,
            Err(t) => t == c,
        },
{
}


/// The operating-system ABI that the file targets.
#[derive(Clone, Copy, Debug, PartialEq, Eq, Structural)]
pub enum Abi {
    SystemV,
    HpUx,
    NetBSD,
    Linux,
    Solaris,
    Aix,
    Irix,
    FreeBSD,
    OpenBSD,
    OpenVMS,
    Standalone,
    Unknown(u8),
}

impl Abi {
    /// The ABI that byte `v` of the identifier names.
    pub open spec fn spec_from(v: u8) -> Abi {
        match v {
            0x00 => Abi::SystemV,
            0x01 => Abi::HpUx,
            0x02 => Abi::NetBSD,
            0x03 => Abi::Linux,
            0x06 => Abi::Solaris,
            0x07 => Abi::Aix,
            0x08 => Abi::Irix,
            0x09 => Abi::FreeBSD,
            0x0c => Abi::OpenBSD,
            0x0d => Abi::OpenVMS,
            0xff => Abi::Standalone,
            t => Abi::Unknown(t),
        }
    }

    /// The byte that stands for this ABI.
    pub open spec fn spec_code(self) -> u8 {
        match self {
            Abi::SystemV => 0x00,
            Abi::HpUx => 0x01,
            Abi::NetBSD => 0x02,
            Abi::Linux => 0x03,
            Abi::Solaris => 0x06,
            Abi::Aix => 0x07,
            Abi::Irix => 0x08,
            Abi::FreeBSD => 0x09,
            Abi::OpenBSD => 0x0c,
            Abi::OpenVMS => 0x0d,
            Abi::Standalone => 0xff,
            Abi::Unknown(t) => t,
        }
    }
}

impl From<u8> for Abi {
    fn from(v: u8) -> (r: Abi)
        ensures
            r == Abi::spec_from(v),
    {
        match v {
            0x00 => Abi::SystemV,
            0x01 => Abi::HpUx,
            0x02 => Abi::NetBSD,
            0x03 => Abi::Linux,
            0x06 => Abi::Solaris,
            0x07 => Abi::Aix,
            0x08 => Abi::Irix,
            0x09 => Abi::FreeBSD,
            0x0c => Abi::OpenBSD,
            0x0d => Abi::OpenVMS,
            0xff => Abi::Standalone,
            t => Abi::Unknown(t),
        }
    }
}

impl vstd::std_specs::convert::FromSpecImpl<u8> for Abi {
    open spec fn obeys_from_spec() -> bool {
        true
    }

    open spec fn from_spec(v: u8) -> Abi {
        Abi::spec_from(v)
    }
}

impl From<Abi> for u8 {
    fn from(v: Abi) -> (r: u8)
        ensures
            r == v.spec_code(),
    {
        match v {
            Abi::SystemV => 0x00,
            Abi::HpUx => 0x01,
            Abi::NetBSD => 0x02,
            Abi::Linux => 0x03,
            Abi::Solaris => 0x06,
            Abi::Aix => 0x07,
            Abi::Irix => 0x08,
            Abi::FreeBSD => 0x09,
            Abi::OpenBSD => 0x0c,
            Abi::OpenVMS => 0x0d,
            Abi::Standalone => 0xff,
            Abi::Unknown(t) => t,
        }
    }
}

impl vstd::std_specs::convert::FromSpecImpl<Abi> for u8 {
    open spec fn obeys_from_spec() -> bool {
        true
    }

    open spec fn from_spec(v: Abi) -> u8 {
        v.spec_code()
    }
}

/// Decoding an ABI byte and encoding the ABI again gives the byte back.
pub proof fn lemma_abi_round_trip(c: u8)
    ensures
        Abi::spec_from(c).spec_code() == c,
{
}

/// The kind of object the file holds.
#[derive(Clone, Copy, Debug, PartialEq, Eq, Structural)]
pub enum Type {
    /// No object type given (code 0).
    NoType,
    Relocatable,
    Executable,
    SharedObject,
    Core,
    /// A code in `0xfe00 ..= 0xfeff`, given as its offset from `0xfe00`.
    OsSpecific(u8),
    /// A code in `0xff00 ..= 0xffff`, given as its offset from `0xff00`.
    ProcessorSpecific(u8),
    Unknown(u16),
}

impl Type {
    /// The object type that code `v` names.
    pub open spec fn spec_from(v: u16) -> Type {
        if v == 0 {
            Type::NoType
        } else if v == 1 {
            Type::Relocatable
        } else if v == 2 {
            Type::Executable
        } else if v == 3 {
            Type::SharedObject
        } else if v == 4 {
            Type::Core
        } else if 0xfe00 <= v <= 0xfeff {
            Type::OsSpecific((v - 0xfe00) as u8)
        } else if 0xff00 <= v {
            Type::ProcessorSpecific((v - 0xff00) as u8)
        } else {
            Type::Unknown(v)
        }
    }

    /// The code that stands for this object type.
    pub open spec fn spec_code(self) -> u16 {
        match self {
            Type::NoType => 0,
            Type::Relocatable => 1,
            Type::Executable => 2,
            Type::SharedObject => 3,
            Type::Core => 4,
            Type::OsSpecific(t) => (0xfe00 + t) as u16,
            Type::ProcessorSpecific(t) => (0xff00 + t) as u16,
            Type::Unknown(t) => t,
        }
    }
}

impl From<u16> for Type {
    fn from(v: u16) -> (r: Type)
        ensures
            r == Type::spec_from(v),
    {
        match v {
            0x0000 => Type::NoType,
            0x0001 => Type::Relocatable,
            0x0002 => Type::Executable,
            0x0003 => Type::SharedObject,
            0x0004 => Type::Core,
            0xfe00..=0xfeff => Type::OsSpecific((v - 0xfe00) as u8),
            0xff00..=0xffff => Type::ProcessorSpecific((v - 0xff00) as u8),
            t => Type::Unknown(t),
        }
    }
}

impl vstd::std_specs::convert::FromSpecImpl<u16> for Type {
    open spec fn obeys_from_spec() -> bool {
        true
    }

    open spec fn from_spec(v: u16) -> Type {
        Type::spec_from(v)
    }
}

impl From<Type> for u16 {
    fn from(v: Type) -> (r: u16)
        ensures
            r == v.spec_code(),
    {
        match v {
            Type::NoType => 0x0000,
            Type::Relocatable => 0x0001,
            Type::Executable => 0x0002,
            Type::SharedObject => 0x0003,
            Type::Core => 0x0004,
            Type::OsSpecific(t) => 0xfe00 + t as u16,
            Type::ProcessorSpecific(t) => 0xff00 + t as u16,
            Type::Unknown(t) => t,
        }
    }
}

impl vstd::std_specs::convert::FromSpecImpl<Type> for u16 {
    open spec fn obeys_from_spec() -> bool {
        true
    }

    open spec fn from_spec(v: Type) -> u16 {
        v.spec_code()
    }
}

/// Decoding an object-type code and encoding the type again gives the code back.
pub proof fn lemma_type_round_trip(c: u16)
    ensures
        Type::spec_from(c).spec_code() == c,
{
}

/// The target architecture.
#[derive(Clone, Copy, Debug, PartialEq, Eq, Structural)]
pub enum Machine {
    /// No architecture given (code 0).
    NoMachine,
    Sparc,
    X86,
    Mips,
    PowerPC,
    Arm,
    SuperH,
    Ia64,
    X86_64,
    AArch64,
    Bpf,
    Unknown(u16),
}

impl Machine {
    /// The architecture that code `v` names.
    pub open spec fn spec_from(v: u16) -> Machine {
        match v {
            0x0000 => Machine::NoMachine,
            0x0002 => Machine::Sparc,
            0x0003 => Machine::X86,
            0x0008 => Machine::Mips,
            0x0014 => Machine::PowerPC,
            0x0028 => Machine::Arm,
            0x002a => Machine::SuperH,
            0x0032 => Machine::Ia64,
            0x003e => Machine::X86_64,
            0x00b7 => Machine::AArch64,
            0x00f7 => Machine::Bpf,
            t => Machine::Unknown(t),
        }
    }

    /// The code that stands for this architecture.
    pub open spec fn spec_code(self) -> u16 {
        match self {
            Machine::NoMachine => 0x0000,
            Machine::Sparc => 0x0002,
            Machine::X86 => 0x0003,
            Machine::Mips => 0x0008,
            Machine::PowerPC => 0x0014,
            Machine::Arm => 0x0028,
            Machine::SuperH => 0x002a,
            Machine::Ia64 => 0x0032,
            Machine::X86_64 => 0x003e,
            Machine::AArch64 => 0x00b7,
            Machine::Bpf => 0x00f7,
            Machine::Unknown(t) => t,
        }
    }
}

impl From<u16> for Machine {
    fn from(v: u16) -> (r: Machine)
        ensures
            r == Machine::spec_from(v),
    {
        match v {
            0x0000 => Machine::NoMachine,
            0x0002 => Machine::Sparc,
            0x0003 => Machine::X86,
            0x0008 => Machine::Mips,
            0x0014 => Machine::PowerPC,
            0x0028 => Machine::Arm,
            0x002a => Machine::SuperH,
            0x0032 => Machine::Ia64,
            0x003e => Machine::X86_64,
            0x00b7 => Machine::AArch64,
            0x00f7 => Machine::Bpf,
            t => Machine::Unknown(t),
        }
    }
}

impl vstd::std_specs::convert::FromSpecImpl<u16> for Machine {
    open spec fn obeys_from_spec() -> bool {
        true
    }

    open spec fn from_spec(v: u16) -> Machine {
        Machine::spec_from(v)
    }
}

impl From<Machine> for u16 {
    fn from(v: Machine) -> (r: u16)
        ensures
            r == v.spec_code(),
    {
        match v {
            Machine::NoMachine => 0x0000,
            Machine::Sparc => 0x0002,
            Machine::X86 => 0x0003,
            Machine::Mips => 0x0008,
            Machine::PowerPC => 0x0014,
            Machine::Arm => 0x0028,
            Machine::SuperH => 0x002a,
            Machine::Ia64 => 0x0032,
            Machine::X86_64 => 0x003e,
            Machine::AArch64 => 0x00b7,
            Machine::Bpf => 0x00f7,
            Machine::Unknown(t) => t,
        }
    }
}

impl vstd::std_specs::convert::FromSpecImpl<Machine> for u16 {
    open spec fn obeys_from_spec() -> bool {
        true
    }

    open spec fn from_spec(v: Machine) -> u16 {
        v.spec_code()
    }
}

/// Decoding an architecture code and encoding the architecture again gives the code back.
pub proof fn lemma_machine_round_trip(c: u16)
    ensures
        Machine::spec_from(c).spec_code() == c,
{
}


/// The identification bytes that open the file.
#[derive(Clone, Copy, Debug, PartialEq, Eq, Structural)]
pub struct Identifier {
    pub class: Class,
    pub encoding: Encoding,
    pub version: u8,
    pub abi: Abi,
    pub abi_version: u8,
}

/// Whether `s` opens with the bytes `7f 'E' 'L' 'F'`.
pub open spec fn has_magic(s: Seq<u8>) -> bool {
    &&& s.len() >= 4
    &&& s[0] == 0x7f
    &&& s[1] == 0x45
    &&& s[2] == 0x4c
    &&& s[3] == 0x46
}

impl Identifier {
    /// The size of the identification block on disk.
    pub const SIZE: usize = 0x10;

    /// The identifier that the bytes `s` start with, or why there is none.
    pub open spec fn spec_new(s: Seq<u8>) -> Result<Identifier, Error> {
        if s.len() < 0x10 {
            Err(Error::SliceTooShort)
        } else if !has_magic(s) {
            Err(Error::WrongMagicNumber)
        } else {
            match Encoding::spec_try_from(s[0x05]) {
                Err(t) => Err(Error::UnknownEncoding(t)),
                Ok(encoding) => Ok(
                    Identifier {
                        class: Class::spec_from(s[0x04]),
                        encoding,
                        version: s[0x06],
                        abi: Abi::spec_from(s[0x07]),
                        abi_version: s[0x08],
                    },
                ),
            }
        }
    }

    /// Decodes the identification block that `slice` starts with, checking the magic bytes.
    pub fn new(slice: &[u8]) -> (r: Result<Identifier, Error>)
        ensures
            r == Identifier::spec_new(slice@),
    {
        if slice.len() < Identifier::SIZE {
            return Err(Error::SliceTooShort);
        }
        if !(slice[0x00] == 0x7f && slice[0x01] == 0x45 && slice[0x02] == 0x4c && slice[0x03]
            == 0x46) {
            return Err(Error::WrongMagicNumber);
        }
        let encoding = match Encoding::try_from(slice[0x05]) {
            Ok(e) => e,
            Err(t) => return Err(Error::UnknownEncoding(t)),
        };
        Ok(
            Identifier {
                class: Class::from(slice[0x04]),
                encoding,
                version: slice[0x06],
                abi: Abi::from(slice[0x07]),
                abi_version: slice[0x08],
            },
        )
    }
}

/// The file header: what the file is and where its tables lie.
#[derive(Clone, Copy, Debug, PartialEq, Eq, Structural)]
pub struct Header {
    pub identifier: Identifier,
    pub ty: Type,
    pub machine: Machine,
    pub format_version: u32,
    pub entry: Address,
    pub program_headers_offset: Offset,
    pub section_headers_offset: Offset,
    pub flags: u32,
    pub program_header_number: u16,
    pub section_header_number: u16,
    /// The section that holds the section names.
    pub section_names: Index,
}

impl Header {
    /// The size of the file header on disk.
    pub const SIZE: usize = 0x40;

    /// The header that the bytes `s` start with, or why there is none. The
    /// identifier is checked first, then the three declared record sizes.
    pub open spec fn spec_new(s: Seq<u8>) -> Result<Header, Error> {
        if s.len() < 0x40 {
            Err(Error::SliceTooShort)
        } else {
            match Identifier::spec_new(s) {
                Err(e) => Err(e),
                Ok(identifier) => {
                    let e = identifier.encoding;
                    if spec_u16(s, 0x34, e) != 0x40 {
                        Err(Error::UnexpectedSize(UnexpectedSize::Header))
                    } else if spec_u16(s, 0x36, e) != 0x38 {
                        Err(Error::UnexpectedSize(UnexpectedSize::ProgramHeader))
                    } else if spec_u16(s, 0x3a, e) != 0x40 {
                        Err(Error::UnexpectedSize(UnexpectedSize::SectionHeader))
                    } else {
                        Ok(
                            Header {
                                identifier,
                                ty: Type::spec_from(spec_u16(s, 0x10, e)),
                                machine: Machine::spec_from(spec_u16(s, 0x12, e)),
                                format_version: spec_u32(s, 0x14, e),
                                entry: spec_u64(s, 0x18, e),
                                program_headers_offset: spec_u64(s, 0x20, e),
                                section_headers_offset: spec_u64(s, 0x28, e),
                                flags: spec_u32(s, 0x30, e),
                                program_header_number: spec_u16(s, 0x38, e),
                                section_header_number: spec_u16(s, 0x3c, e),
                                section_names: Index::spec_from(spec_u16(s, 0x3e, e)),
                            },
                        )
                    }
                },
            }
        }
    }

    /// Where the program-header table lies: its first byte and one past its last.
    pub open spec fn spec_program_range(self) -> (int, int) {
        (
            self.program_headers_offset as int,
            self.program_headers_offset + self.program_header_number * 0x38,
        )
    }

    /// Where the section-header table lies: its first byte and one past its last.
    pub open spec fn spec_section_range(self) -> (int, int) {
        (
            self.section_headers_offset as int,
            self.section_headers_offset + self.section_header_number * 0x40,
        )
    }

    /// Decodes the file header that `slice` starts with.
    pub fn new(slice: &[u8]) -> (r: Result<Header, Error>)
        ensures
            r == Header::spec_new(slice@),
    {
        if slice.len() < Header::SIZE {
            return Err(Error::SliceTooShort);
        }
        let identifier = Identifier::new(slice)?;
        let e = identifier.encoding;
        if read_u16(slice, 0x34, e) != 0x40 {
            return Err(Error::UnexpectedSize(UnexpectedSize::Header));
        }
        if read_u16(slice, 0x36, e) != 0x38 {
            return Err(Error::UnexpectedSize(UnexpectedSize::ProgramHeader));
        }
        if read_u16(slice, 0x3a, e) != 0x40 {
            return Err(Error::UnexpectedSize(UnexpectedSize::SectionHeader));
        }
        Ok(
            Header {
                identifier,
                ty: Type::from(read_u16(slice, 0x10, e)),
                machine: Machine::from(read_u16(slice, 0x12, e)),
                format_version: read_u32(slice, 0x14, e),
                entry: read_u64(slice, 0x18, e),
                program_headers_offset: read_u64(slice, 0x20, e),
                section_headers_offset: read_u64(slice, 0x28, e),
                flags: read_u32(slice, 0x30, e),
                program_header_number: read_u16(slice, 0x38, e),
                section_header_number: read_u16(slice, 0x3c, e),
                section_names: Index::from(read_u16(slice, 0x3e, e)),
            },
        )
    }

    /// The program-header table inside the whole file `raw`, or truncation when
    /// the declared table runs past the end of `raw`.
    pub fn program_header_table<'a>(&self, raw: &'a [u8]) -> (r: Result<
        Table<'a, ProgramHeader>,
        Error,
    >)
        ensures
            match r {
                Ok(t) => {
                    &&& self.spec_program_range().1 <= raw@.len()
                    &&& t.spec_region() == raw@.subrange(
                        self.spec_program_range().0,
                        self.spec_program_range().1,
                    )
                    &&& t.spec_encoding() == self.identifier.encoding
                },
                Err(e) => {
                    &&& self.spec_program_range().1 > raw@.len()
                    &&& e == Error::SliceTooShort
                },
            },
    {
        let region = sub_region(raw, self.program_headers_offset, self.program_header_number as u64 * 0x38)?;
        Ok(Table::new(region, self.identifier.encoding))
    }

    /// The section-header table inside the whole file `raw`, or truncation when
    /// the declared table runs past the end of `raw`.
    pub fn section_header_table<'a>(&self, raw: &'a [u8]) -> (r: Result<
        Table<'a, SectionHeader>,
        Error,
    >)
        ensures
            match r {
                Ok(t) => {
                    &&& self.spec_section_range().1 <= raw@.len()
                    &&& t.spec_region() == raw@.subrange(
                        self.spec_section_range().0,
                        self.spec_section_range().1,
                    )
                    &&& t.spec_encoding() == self.identifier.encoding
                },
                Err(e) => {
                    &&& self.spec_section_range().1 > raw@.len()
                    &&& e == Error::SliceTooShort
                },
            },
    {
        let region = sub_region(raw, self.section_headers_offset, self.section_header_number as u64 * 0x40)?;
        Ok(Table::new(region, self.identifier.encoding))
    }
}

/// Decoding a file header, or its identifier, from fewer bytes than it
/// holds fails with truncation.
pub proof fn lemma_header_short(s: Seq<u8>)
    ensures
        s.len() < 0x40 ==> Header::spec_new(s) == Err::<Header, Error>(Error::SliceTooShort),
        s.len() < 0x10 ==> Identifier::spec_new(s) == Err::<Identifier, Error>(
            Error::SliceTooShort,
        ),
{
}

/// The `size` bytes of `raw` that start at `offset`, or truncation when they
/// run past its end.
pub(crate) fn sub_region<'a>(raw: &'a [u8], offset: u64, size: u64) -> (r: Result<&'a [u8], Error>)
    ensures
        match r {
            Ok(s) => {
                &&& offset + size <= raw@.len()
                &&& s@ == raw@.subrange(offset as int, offset + size)
            },
            Err(e) => {
                &&& offset + size > raw@.len()
                &&& e == Error::SliceTooShort
            },
        },
{
    let len = raw.len() as u64;
    if offset > len || size > len - offset {
        return Err(Error::SliceTooShort);
    }
    let start = offset as usize;
    let end = (offset + size) as usize;
    Ok(&raw[start..end])
}

} // verus!
