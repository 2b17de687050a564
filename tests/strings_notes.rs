use elf64::{Encoding, Error, NoteTable, StringTable, MAX_STRING_LENGTH};

#[test]
fn string_lookup_stops_at_first_zero() {
    let region = b"\0.text\0.data\0";
    let table = StringTable::new(region);
    assert_eq!(table.pick(0), Ok(&b""[..]));
    assert_eq!(table.pick(1), Ok(&b".text"[..]));
    assert_eq!(table.pick(3), Ok(&b"ext"[..]));
    assert_eq!(table.pick(7), Ok(&b".data"[..]));
    assert_eq!(table.pick(12), Ok(&b""[..]));
    assert_eq!(table.as_raw(), &region[..]);
}

#[test]
fn string_lookup_fails_without_terminator() {
    let table = StringTable::new(b"abc\0def");
    assert_eq!(table.pick(4), Err(Error::SliceTooShort));
    assert_eq!(table.pick(7), Err(Error::SliceTooShort));
    assert_eq!(table.pick(100), Err(Error::SliceTooShort));
    let empty = StringTable::new(&[]);
    assert_eq!(empty.pick(0), Err(Error::SliceTooShort));
}

#[test]
fn string_lookup_is_capped() {
    let mut region = vec![b'x'; 300];
    region.push(0);
    let table = StringTable::new(&region);
    assert_eq!(table.pick(0), Err(Error::SliceTooShort));
    assert_eq!(table.pick(44), Err(Error::SliceTooShort));
    assert_eq!(table.pick(45).map(|s| s.len()), Ok(MAX_STRING_LENGTH));
    let near_end = table.pick(100).unwrap();
    assert_eq!(near_end, &region[100..300]);
    let mut exact = vec![b'y'; 255];
    exact.push(0);
    assert_eq!(StringTable::new(&exact).pick(0), Ok(&exact[..255]));
    let short = vec![b'z'; 255];
    assert_eq!(StringTable::new(&short).pick(0), Err(Error::SliceTooShort));
}

fn note_le(name: &[u8], description: &[u8], ty: u64) -> Vec<u8> {
    let mut b = Vec::new();
    b.extend((name.len() as u64).to_le_bytes());
    b.extend((description.len() as u64).to_le_bytes());
    b.extend(ty.to_le_bytes());
    b.extend(name);
    while b.len() % 8 != 0 {
        b.push(0);
    }
    b.extend(description);
    while b.len() % 8 != 0 {
        b.push(0);
    }
    b
}

#[test]
fn notes_advance_by_padded_sizes() {
    let mut region = note_le(b"GNU\0", b"", 1);
    region.extend(note_le(b"Linux\0\0", b"abc", 0x46494c45));
    assert_eq!(region.len(), 24 + 8 + 0 + 24 + 8 + 8);
    let notes = NoteTable::new(&region, Encoding::Little);
    let mut position = 0usize;
    let first = notes.next(&mut position).unwrap();
    assert_eq!(position, 24 + 8 + 0);
    assert_eq!(first.ty, 1);
    assert_eq!(first.name, b"GNU\0");
    assert_eq!(first.description, b"");
    let second = notes.next(&mut position).unwrap();
    assert_eq!(position, 32 + 24 + 8 + 8);
    assert_eq!(second.ty, 0x46494c45);
    assert_eq!(second.name, b"Linux\0\0");
    assert_eq!(second.description, b"abc");
    assert_eq!(notes.next(&mut position), Err(Error::SliceTooShort));
    assert_eq!(position, 72);
}

#[test]
fn notes_big_endian() {
    let mut region = Vec::new();
    region.extend(3u64.to_be_bytes());
    region.extend(9u64.to_be_bytes());
    region.extend(7u64.to_be_bytes());
    region.extend(b"ab\0\0\0\0\0\0");
    region.extend(b"123456789\0\0\0\0\0\0\0");
    let notes = NoteTable::new(&region, Encoding::Big);
    let mut position = 0usize;
    let n = notes.next(&mut position).unwrap();
    assert_eq!(n.ty, 7);
    assert_eq!(n.name, b"ab\0");
    assert_eq!(n.description, b"123456789");
    assert_eq!(position, region.len());
}

#[test]
fn notes_refuse_overrun() {
    let mut region = note_le(b"GNU\0", b"abcd", 3);
    region.truncate(region.len() - 1);
    let notes = NoteTable::new(&region, Encoding::Little);
    let mut position = 0usize;
    assert_eq!(notes.next(&mut position), Err(Error::SliceTooShort));
    assert_eq!(position, 0);
    let mut huge = Vec::new();
    huge.extend(u64::MAX.to_le_bytes());
    huge.extend(0u64.to_le_bytes());
    huge.extend(0u64.to_le_bytes());
    let notes = NoteTable::new(&huge, Encoding::Little);
    assert_eq!(notes.next(&mut position), Err(Error::SliceTooShort));
    let mut past = 100usize;
    assert_eq!(notes.next(&mut past), Err(Error::SliceTooShort));
    assert_eq!(past, 100);
}
