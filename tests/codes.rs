use std::convert::TryFrom;

use elf64::{
    Abi, Class, Encoding, Index, Machine, ProgramFlags, ProgramType, SectionFlags, SectionType,
    SymbolBinding, SymbolInfo, SymbolType, Type,
};

#[test]
fn class_codes_round_trip() {
    assert_eq!(Class::from(1), Class::_32);
    assert_eq!(Class::from(2), Class::_64);
    assert_eq!(Class::from(9), Class::Unknown(9));
    for c in 0..=255u8 {
        assert_eq!(u8::from(Class::from(c)), c);
    }
}

#[test]
fn encoding_codes_round_trip() {
    assert_eq!(Encoding::try_from(1u8), Ok(Encoding::Little));
    assert_eq!(Encoding::try_from(2u8), Ok(Encoding::Big));
    assert_eq!(Encoding::try_from(0u8), Err(0));
    assert_eq!(Encoding::try_from(3u8), Err(3));
    for c in 0..=255u8 {
        match Encoding::try_from(c) {
            Ok(e) => assert_eq!(u8::from(e), c),
            Err(t) => assert_eq!(t, c),
        }
    }
}

#[test]
fn abi_codes_round_trip() {
    assert_eq!(Abi::from(0x03), Abi::Linux);
    assert_eq!(Abi::from(0x0c), Abi::OpenBSD);
    assert_eq!(Abi::from(0xff), Abi::Standalone);
    assert_eq!(Abi::from(0x04), Abi::Unknown(0x04));
    for c in 0..=255u8 {
        assert_eq!(u8::from(Abi::from(c)), c);
    }
}

#[test]
fn object_type_codes_round_trip() {
    assert_eq!(Type::from(0), Type::NoType);
    assert_eq!(Type::from(3), Type::SharedObject);
    assert_eq!(Type::from(0xfe12), Type::OsSpecific(0x12));
    assert_eq!(Type::from(0xffff), Type::ProcessorSpecific(0xff));
    assert_eq!(Type::from(0x0005), Type::Unknown(5));
    assert_eq!(Type::from(0xfdff), Type::Unknown(0xfdff));
    for c in 0..=u16::MAX {
        assert_eq!(u16::from(Type::from(c)), c);
    }
}

#[test]
fn machine_codes_round_trip() {
    assert_eq!(Machine::from(0x3e), Machine::X86_64);
    assert_eq!(Machine::from(0xb7), Machine::AArch64);
    assert_eq!(Machine::from(0), Machine::NoMachine);
    assert_eq!(Machine::from(0x1234), Machine::Unknown(0x1234));
    for c in 0..=u16::MAX {
        assert_eq!(u16::from(Machine::from(c)), c);
    }
}

#[test]
fn section_index_codes_round_trip() {
    assert_eq!(Index::from(0), Index::Undefined);
    assert_eq!(Index::from(7), Index::Regular(7));
    assert_eq!(Index::from(0xff05), Index::ProcessorSpecific(5));
    assert_eq!(Index::from(0xff25), Index::EnvironmentSpecific(5));
    assert_eq!(Index::from(0xfff1), Index::AbsoluteValue);
    assert_eq!(Index::from(0xfff2), Index::Common);
    assert_eq!(Index::from(0xff40), Index::Regular(0xff40));
    for c in 0..=u16::MAX {
        assert_eq!(u16::from(Index::from(c)), c);
    }
}

#[test]
fn section_type_codes_round_trip() {
    assert_eq!(SectionType::from(2), SectionType::SymbolTable);
    assert_eq!(SectionType::from(0x0b), SectionType::DynamicSymbolTable);
    assert_eq!(SectionType::from(0x0c), SectionType::Unknown(0x0c));
    assert_eq!(SectionType::from(0x6ffffff6), SectionType::OsSpecific(0x0ffffff6));
    assert_eq!(SectionType::from(0x70000001), SectionType::ProcessorSpecific(1));
    assert_eq!(SectionType::from(0x80000000), SectionType::Unknown(0x80000000));
    let samples = [
        0u32, 1, 5, 11, 12, 0x5fffffff, 0x60000000, 0x6fffffff, 0x70000000, 0x7fffffff,
        0x80000000, u32::MAX,
    ];
    for c in samples {
        assert_eq!(u32::from(SectionType::from(c)), c);
    }
    for c in (0..=u32::MAX).step_by(65521) {
        assert_eq!(u32::from(SectionType::from(c)), c);
    }
}

#[test]
fn program_type_codes_round_trip() {
    assert_eq!(ProgramType::from(1), ProgramType::Load);
    assert_eq!(ProgramType::from(6), ProgramType::ProgramHeaderTable);
    assert_eq!(ProgramType::from(7), ProgramType::Unknown(7));
    assert_eq!(ProgramType::from(0x6474e550), ProgramType::OsSpecific(0x0474e550));
    assert_eq!(ProgramType::from(0x70000003), ProgramType::ProcessorSpecific(3));
    let samples = [
        0u32, 1, 6, 7, 0x5fffffff, 0x60000000, 0x6fffffff, 0x70000000, 0x7fffffff, 0x80000000,
        u32::MAX,
    ];
    for c in samples {
        assert_eq!(u32::from(ProgramType::from(c)), c);
    }
    for c in (0..=u32::MAX).step_by(65521) {
        assert_eq!(u32::from(ProgramType::from(c)), c);
    }
}

#[test]
fn symbol_info_codes_round_trip() {
    assert_eq!(
        SymbolInfo::from(0x12),
        SymbolInfo { binding: SymbolBinding::Global, type_: SymbolType::Function }
    );
    assert_eq!(
        SymbolInfo::from(0xb3),
        SymbolInfo { binding: SymbolBinding::OsSpecific(1), type_: SymbolType::Section }
    );
    assert_eq!(
        SymbolInfo::from(0x5f),
        SymbolInfo { binding: SymbolBinding::Unknown(5), type_: SymbolType::ProcessorSpecific(2) }
    );
    for c in 0..=255u8 {
        assert_eq!(u8::from(SymbolInfo::from(c)), c);
    }
}

#[test]
fn flags_keep_known_bits() {
    let p = ProgramFlags::from_bits_truncate(0xffff_fff5);
    assert_eq!(p.bits(), 0b101);
    assert!(p.is_execute());
    assert!(!p.is_write());
    assert!(p.is_read());
    let s = SectionFlags::from_bits_truncate(0b1010);
    assert_eq!(s.bits(), 0b010);
    assert!(!s.is_write());
    assert!(s.is_alloc());
    assert!(!s.is_execinstr());
}
