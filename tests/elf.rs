use elf64::{
    Abi, Class, Elf64, Encoding, Error, Index, Machine, ProgramData, ProgramFlags, SectionData,
    SectionFlags, SymbolBinding, SymbolInfo, SymbolType, Type, UnexpectedSize,
};

fn put(buf: &mut Vec<u8>, at: usize, bytes: &[u8]) {
    if buf.len() < at + bytes.len() {
        buf.resize(at + bytes.len(), 0);
    }
    buf[at..at + bytes.len()].copy_from_slice(bytes);
}

fn header_le(ph_off: u64, ph_num: u16, sh_off: u64, sh_num: u16, names: u16) -> Vec<u8> {
    let mut h = vec![0u8; 0x40];
    put(&mut h, 0x00, &[0x7f, b'E', b'L', b'F', 2, 1, 1, 3, 0]);
    put(&mut h, 0x10, &2u16.to_le_bytes());
    put(&mut h, 0x12, &0x3eu16.to_le_bytes());
    put(&mut h, 0x14, &1u32.to_le_bytes());
    put(&mut h, 0x18, &[0x10, 0x20, 0x30, 0x40, 0x50, 0x60, 0x70, 0x00]);
    put(&mut h, 0x20, &ph_off.to_le_bytes());
    put(&mut h, 0x28, &sh_off.to_le_bytes());
    put(&mut h, 0x30, &0x11u32.to_le_bytes());
    put(&mut h, 0x34, &0x40u16.to_le_bytes());
    put(&mut h, 0x36, &0x38u16.to_le_bytes());
    put(&mut h, 0x38, &ph_num.to_le_bytes());
    put(&mut h, 0x3a, &0x40u16.to_le_bytes());
    put(&mut h, 0x3c, &sh_num.to_le_bytes());
    put(&mut h, 0x3e, &names.to_le_bytes());
    h
}

fn program_header(buf: &mut Vec<u8>, at: usize, ty: u32, flags: u32, off: u64, size: u64, vaddr: u64) {
    put(buf, at, &ty.to_le_bytes());
    put(buf, at + 0x04, &flags.to_le_bytes());
    put(buf, at + 0x08, &off.to_le_bytes());
    put(buf, at + 0x10, &vaddr.to_le_bytes());
    put(buf, at + 0x18, &vaddr.to_le_bytes());
    put(buf, at + 0x20, &size.to_le_bytes());
    put(buf, at + 0x28, &(size + 0x100).to_le_bytes());
    put(buf, at + 0x30, &0x1000u64.to_le_bytes());
}

#[allow(clippy::too_many_arguments)]
fn section_header(
    buf: &mut Vec<u8>,
    at: usize,
    name: u32,
    ty: u32,
    flags: u32,
    off: u64,
    size: u64,
    link: u16,
    info: u32,
) {
    put(buf, at, &name.to_le_bytes());
    put(buf, at + 0x04, &ty.to_le_bytes());
    put(buf, at + 0x08, &flags.to_le_bytes());
    put(buf, at + 0x10, &0x5000u64.to_le_bytes());
    put(buf, at + 0x18, &off.to_le_bytes());
    put(buf, at + 0x20, &size.to_le_bytes());
    put(buf, at + 0x28, &link.to_le_bytes());
    put(buf, at + 0x2c, &info.to_le_bytes());
    put(buf, at + 0x30, &8u64.to_le_bytes());
    put(buf, at + 0x38, &0x18u64.to_le_bytes());
}

/// A small image: four program headers at 0x40, their data from 0x120,
/// a section-name table at 0x160, a symbol table at 0x180 and six section
/// headers at 0x1b0.
fn image() -> Vec<u8> {
    let mut b = header_le(0x40, 4, 0x1b0, 6, 2);
    program_header(&mut b, 0x40, 1, 5, 0x120, 0x10, 0x400000);
    program_header(&mut b, 0x78, 3, 4, 0x130, 8, 0);
    program_header(&mut b, 0xb0, 4, 4, 0x138, 0x28, 0);
    program_header(&mut b, 0xe8, 2, 6, 0x120, 0x10, 0);
    put(&mut b, 0x120, &[0xaa; 0x10]);
    put(&mut b, 0x130, b"/lib/ld\0");
    put(&mut b, 0x138, &4u64.to_le_bytes());
    put(&mut b, 0x140, &3u64.to_le_bytes());
    put(&mut b, 0x148, &1u64.to_le_bytes());
    put(&mut b, 0x150, b"GNU\0\0\0\0\0");
    put(&mut b, 0x158, &[1, 2, 3, 0, 0, 0, 0, 0]);
    put(&mut b, 0x160, b"\0.text\0.shstrtab\0.symtab\0");
    put(&mut b, 0x180, &[0u8; 0x18]);
    put(&mut b, 0x198, &1u32.to_le_bytes());
    put(&mut b, 0x19c, &[0x12, 0]);
    put(&mut b, 0x19e, &1u16.to_le_bytes());
    put(&mut b, 0x1a0, &0x400000u64.to_le_bytes());
    put(&mut b, 0x1a8, &0x10u64.to_le_bytes());
    section_header(&mut b, 0x1b0, 0, 0, 0, 0, 0, 0, 0);
    section_header(&mut b, 0x1f0, 1, 1, 6, 0x120, 0x10, 0, 0);
    section_header(&mut b, 0x230, 7, 3, 0, 0x160, 25, 0, 0);
    section_header(&mut b, 0x270, 17, 2, 0, 0x180, 0x30, 2, 1);
    section_header(&mut b, 0x2b0, 0, 5, 0, 0x180, 0x30, 3, 0);
    section_header(&mut b, 0x2f0, 1, 9, 0, 0x180, 0x30, 3, 0x0001_0001);
    assert_eq!(b.len(), 0x330);
    b
}

#[test]
fn minimal_header_decodes() {
    let raw = header_le(0, 0, 0, 0, 0);
    assert_eq!(raw.len(), 64);
    let elf = Elf64::new(&raw).unwrap();
    assert_eq!(elf.entry(), u64::from_le_bytes([0x10, 0x20, 0x30, 0x40, 0x50, 0x60, 0x70, 0x00]));
    assert_eq!(elf.entry(), 0x0070605040302010);
    assert_eq!(elf.program_number(), 0);
    assert_eq!(elf.section_number(), 0);
    assert_eq!(elf.class(), Class::_64);
    assert_eq!(elf.encoding(), Encoding::Little);
    assert_eq!(elf.version(), 1);
    assert_eq!(elf.abi(), Abi::Linux);
    assert_eq!(elf.abi_version(), 0);
    assert_eq!(elf.ty(), Type::Executable);
    assert_eq!(elf.machine(), Machine::X86_64);
    assert_eq!(elf.format_version(), 1);
    assert_eq!(elf.flags(), 0x11);
    assert_eq!(elf.program(0).err(), Some(Error::SliceTooShort));
    assert_eq!(elf.section(0).err(), Some(Error::SliceTooShort));
}

#[test]
fn program_table_past_end_is_refused() {
    let raw = header_le(0x10, 1, 0, 0, 0);
    assert_eq!(Elf64::new(&raw).err(), Some(Error::SliceTooShort));
    let mut longer = header_le(0x40, 2, 0, 0, 0);
    longer.resize(0x40 + 2 * 0x38 - 1, 0);
    assert_eq!(Elf64::new(&longer).err(), Some(Error::SliceTooShort));
    longer.push(0);
    assert!(Elf64::new(&longer).is_ok());
    let far = header_le(u64::MAX, 1, 0, 0, 0);
    assert_eq!(Elf64::new(&far).err(), Some(Error::SliceTooShort));
}

#[test]
fn section_table_past_end_is_refused() {
    let raw = header_le(0, 0, 0x40, 1, 0);
    assert_eq!(Elf64::new(&raw).err(), Some(Error::SliceTooShort));
}

#[test]
fn header_errors() {
    let mut raw = header_le(0, 0, 0, 0, 0);
    raw[3] = b'G';
    assert_eq!(Elf64::new(&raw).err(), Some(Error::WrongMagicNumber));
    let mut raw = header_le(0, 0, 0, 0, 0);
    raw[5] = 3;
    assert_eq!(Elf64::new(&raw).err(), Some(Error::UnknownEncoding(3)));
    let mut raw = header_le(0, 0, 0, 0, 0);
    raw[0x34] = 0x34;
    assert_eq!(Elf64::new(&raw).err(), Some(Error::UnexpectedSize(UnexpectedSize::Header)));
    let mut raw = header_le(0, 0, 0, 0, 0);
    raw[0x36] = 0x20;
    assert_eq!(Elf64::new(&raw).err(), Some(Error::UnexpectedSize(UnexpectedSize::ProgramHeader)));
    let mut raw = header_le(0, 0, 0, 0, 0);
    raw[0x3a] = 0x28;
    assert_eq!(Elf64::new(&raw).err(), Some(Error::UnexpectedSize(UnexpectedSize::SectionHeader)));
    let raw = header_le(0, 0, 0, 0, 0);
    assert_eq!(Elf64::new(&raw[..63]).err(), Some(Error::SliceTooShort));
}

#[test]
fn big_endian_header() {
    let mut h = vec![0u8; 0x40];
    h[..9].copy_from_slice(&[0x7f, b'E', b'L', b'F', 2, 2, 1, 0, 0]);
    h[0x10..0x12].copy_from_slice(&3u16.to_be_bytes());
    h[0x12..0x14].copy_from_slice(&0xb7u16.to_be_bytes());
    h[0x18..0x20].copy_from_slice(&0x1234u64.to_be_bytes());
    h[0x34..0x36].copy_from_slice(&0x40u16.to_be_bytes());
    h[0x36..0x38].copy_from_slice(&0x38u16.to_be_bytes());
    h[0x3a..0x3c].copy_from_slice(&0x40u16.to_be_bytes());
    let elf = Elf64::new(&h).unwrap();
    assert_eq!(elf.encoding(), Encoding::Big);
    assert_eq!(elf.ty(), Type::SharedObject);
    assert_eq!(elf.machine(), Machine::AArch64);
    assert_eq!(elf.entry(), 0x1234);
    assert_eq!(elf.abi(), Abi::SystemV);
}

#[test]
fn segments_resolve_by_type() {
    let raw = image();
    let elf = Elf64::new(&raw).unwrap();
    assert_eq!(elf.program_number(), 4);
    let load = elf.program(0).unwrap().unwrap();
    match load.data {
        ProgramData::Load { data, address } => {
            assert_eq!(data, &[0xaa; 0x10]);
            assert_eq!(address, 0x400000);
        },
        _ => panic!("expected a loadable segment"),
    }
    assert_eq!(load.flags, ProgramFlags::from_bits_truncate(5));
    assert_eq!(load.memory_size, 0x110);
    assert_eq!(load.address_alignment, 0x1000);
    match elf.program(1).unwrap().unwrap().data {
        ProgramData::Interpreter(path) => assert_eq!(path, b"/lib/ld\0"),
        _ => panic!("expected an interpreter segment"),
    }
    match elf.program(2).unwrap().unwrap().data {
        ProgramData::Note(notes) => {
            let mut position = 0usize;
            let note = notes.next(&mut position).unwrap();
            assert_eq!(note.ty, 1);
            assert_eq!(note.name, b"GNU\0");
            assert_eq!(note.description, &[1, 2, 3]);
            assert_eq!(position, 0x28);
            assert_eq!(notes.next(&mut position), Err(Error::SliceTooShort));
        },
        _ => panic!("expected a note segment"),
    }
    assert_eq!(elf.program(3).err(), Some(Error::Unimplemented));
    assert_eq!(elf.program(4).err(), Some(Error::SliceTooShort));
}

#[test]
fn segment_past_end_of_file() {
    let mut raw = image();
    raw[0x48..0x50].copy_from_slice(&0x330u64.to_le_bytes());
    let elf = Elf64::new(&raw).unwrap();
    assert_eq!(elf.program(0).err(), Some(Error::SliceTooShort));
    raw[0x48..0x50].copy_from_slice(&0x320u64.to_le_bytes());
    let elf = Elf64::new(&raw).unwrap();
    assert!(elf.program(0).is_ok());
    raw[0x60..0x68].copy_from_slice(&u64::MAX.to_le_bytes());
    let elf = Elf64::new(&raw).unwrap();
    assert_eq!(elf.program(0).err(), Some(Error::SliceTooShort));
}

#[test]
fn sections_resolve_by_type_with_names() {
    let raw = image();
    let elf = Elf64::new(&raw).unwrap();
    assert_eq!(elf.section_number(), 6);
    assert!(elf.section(0).unwrap().is_none());
    let text = elf.section(1).unwrap().unwrap();
    assert_eq!(text.name, b".text");
    assert_eq!(text.flags, SectionFlags::from_bits_truncate(6));
    assert_eq!(text.address, 0x5000);
    assert_eq!(text.address_alignment, 8);
    assert_eq!(text.link, Index::Undefined);
    match text.data {
        SectionData::ProgramBits(bytes) => assert_eq!(bytes, &[0xaa; 0x10]),
        _ => panic!("expected program bits"),
    }
    let names = elf.section(2).unwrap().unwrap();
    assert_eq!(names.name, b".shstrtab");
    match names.data {
        SectionData::StringTable(table) => assert_eq!(table.pick(17), Ok(&b".symtab"[..])),
        _ => panic!("expected a string table"),
    }
    let symbols = elf.section(3).unwrap().unwrap();
    assert_eq!(symbols.name, b".symtab");
    assert_eq!(symbols.link, Index::Regular(2));
    match symbols.data {
        SectionData::SymbolTable { table, number_of_locals } => {
            assert_eq!(number_of_locals, 1);
            assert_eq!(table.length(), 2);
            let main = table.pick(1).unwrap();
            assert_eq!(main.name, 1);
            assert_eq!(
                main.info,
                SymbolInfo { binding: SymbolBinding::Global, type_: SymbolType::Function }
            );
            assert_eq!(main.section_index, Index::Regular(1));
            assert_eq!(main.value, 0x400000);
            assert_eq!(main.size, 0x10);
            assert_eq!(table.pick(2).err(), Some(Error::SliceTooShort));
        },
        _ => panic!("expected a symbol table"),
    }
    assert_eq!(elf.section(4).err(), Some(Error::Unimplemented));
    match elf.section(5).unwrap().unwrap().data {
        SectionData::Rel { table, apply_to_section } => {
            assert_eq!(apply_to_section, Index::Regular(1));
            assert_eq!(table.length(), 3);
        },
        _ => panic!("expected relocations"),
    }
    assert_eq!(elf.section(6).err(), Some(Error::SliceTooShort));
}

#[test]
fn sections_without_name_table() {
    let mut raw = image();
    raw[0x3e..0x40].copy_from_slice(&0u16.to_le_bytes());
    let elf = Elf64::new(&raw).unwrap();
    let text = elf.section(1).unwrap().unwrap();
    assert_eq!(text.name, b"");
    raw[0x3e..0x40].copy_from_slice(&1u16.to_le_bytes());
    let elf = Elf64::new(&raw).unwrap();
    assert_eq!(elf.section(3).unwrap().unwrap().name, b"");
}

#[test]
fn bad_section_name_offset_fails() {
    let mut raw = image();
    raw[0x1f0..0x1f4].copy_from_slice(&100u32.to_le_bytes());
    let elf = Elf64::new(&raw).unwrap();
    assert_eq!(elf.section(1).err(), Some(Error::SliceTooShort));
}

#[test]
fn name_table_index_past_table_fails() {
    let mut raw = image();
    raw[0x3e..0x40].copy_from_slice(&9u16.to_le_bytes());
    assert_eq!(Elf64::new(&raw).err(), Some(Error::SliceTooShort));
}
