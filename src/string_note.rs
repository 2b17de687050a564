use vstd::prelude::*;

use crate::bytes::{read_u64, spec_u64};
use crate::common::Error;
use crate::header::Encoding;

verus! {

/// The longest string a lookup returns. A lookup looks for the terminator no
/// further than this many bytes past the offset, and fails when it is not there.
pub const MAX_STRING_LENGTH: usize = 0xff;

/// Whether the string at `offset` of `s` is `n` bytes long, at most the
/// length limit: each of its bytes is non-zero and in `s`, and the byte after
/// it is in `s` and is zero.
pub open spec fn string_ends_at(s: Seq<u8>, offset: int, n: int) -> bool {
    &&& 0 <= offset
    &&& 0 <= n <= MAX_STRING_LENGTH
    &&& offset + n < s.len()
    &&& s[offset + n] == 0
    &&& forall|i: int| offset <= i < offset + n ==> s[i] != 0
}

/// A region of null-terminated strings addressed by byte offset.
#[derive(Clone, Copy)]
pub struct StringTable<'a> {
    slice: &'a [u8],
}

impl<'a> View for StringTable<'a> {
    type V = Seq<u8>;

    closed spec fn view(&self) -> Seq<u8> {
        self.slice@
    }
}

impl<'a> StringTable<'a> {
    /// The string at `offset` of `s`, without its terminator, or truncation
    /// when no zero byte lies within the length limit before `s` ends.
    pub open spec fn spec_pick(s: Seq<u8>, offset: int) -> Result<Seq<u8>, Error> {
        if exists|n: int| string_ends_at(s, offset, n) {
            let n = choose|n: int| string_ends_at(s, offset, n);
            Ok(s.subrange(offset, offset + n))
        } else {
            Err(Error::SliceTooShort)
        }
    }

    /// A string table over `slice`.
    pub fn new(slice: &'a [u8]) -> (r: StringTable<'a>)
        ensures
            r@ == slice@,
    {
        StringTable { slice }
    }

    /// The string that starts at byte `index`, without its terminator.
    pub fn pick(&self, index: usize) -> (r: Result<&'a [u8], Error>)
        ensures
            match r {
                Ok(t) => StringTable::spec_pick(self@, index as int) == Ok::<Seq<u8>, Error>(t@),
                Err(e) => StringTable::spec_pick(self@, index as int) == Err::<Seq<u8>, Error>(e),
            },
    {
        let len = self.slice.len();
        if index >= len {
            proof {
                assert(!exists|n: int| string_ends_at(self@, index as int, n));
            }
            return Err(Error::SliceTooShort);
        }
        let mut length: usize = 0;
        while self.slice[index + length] != 0
            invariant
                index < len == self.slice@.len(),
                length <= MAX_STRING_LENGTH,
                index + length < len,
                forall|i: int| index <= i < index + length ==> self.slice@[i] != 0,
            decreases MAX_STRING_LENGTH - length,
        {
            if length == MAX_STRING_LENGTH || index + length + 1 >= len {
                proof {
                    assert forall|n: int| !string_ends_at(self@, index as int, n) by {
                        if string_ends_at(self@, index as int, n) {
                            assert(n <= length);
                            if n < length {
                                assert(self.slice@[index + n] != 0);
                            }
                        }
                    }
                }
                return Err(Error::SliceTooShort);
            }
            length = length + 1;
        }
        proof {
            assert(string_ends_at(self@, index as int, length as int));
            lemma_string_end_unique(self@, index as int, length as int);
        }
        Ok(&self.slice[index..index + length])
    }

    /// The whole region.
    pub fn as_raw(&self) -> (r: &'a [u8])
        ensures
            r@ == self@,
    {
        self.slice
    }
}

/// A string has one length.
pub proof fn lemma_string_end_unique(s: Seq<u8>, offset: int, n: int)
    requires
        string_ends_at(s, offset, n),
    ensures
        forall|m: int| string_ends_at(s, offset, m) ==> m == n,
{
    assert forall|m: int| string_ends_at(s, offset, m) implies m == n by {
        if m < n {
            assert(s[offset + m] != 0);
        } else if n < m {
            assert(s[offset + n] != 0);
        }
    }
}

/// A lookup gives the bytes from `offset` up to the first zero byte after it,
/// when that zero byte lies within the length limit.
pub proof fn lemma_pick_up_to_first_zero(s: Seq<u8>, offset: int, n: int)
    requires
        0 <= offset,
        0 <= n <= MAX_STRING_LENGTH,
        offset + n < s.len(),
        s[offset + n] == 0,
        forall|i: int| offset <= i < offset + n ==> s[i] != 0,
    ensures
        StringTable::spec_pick(s, offset) == Ok::<Seq<u8>, Error>(s.subrange(offset, offset + n)),
{
    assert(string_ends_at(s, offset, n));
    lemma_string_end_unique(s, offset, n);
}

/// A lookup fails with truncation when no zero byte lies from `offset` up
/// to the length limit, or up to the end of the region if that comes first.
pub proof fn lemma_pick_fails_without_zero(s: Seq<u8>, offset: int)
    requires
        0 <= offset,
        forall|i: int| offset <= i < s.len() && i <= offset + MAX_STRING_LENGTH ==> s[i] != 0,
    ensures
        StringTable::spec_pick(s, offset) == Err::<Seq<u8>, Error>(Error::SliceTooShort),
{
    assert forall|n: int| !string_ends_at(s, offset, n) by {
        if string_ends_at(s, offset, n) {
            assert(s[offset + n] != 0);
        }
    }
}


/// The size on disk of the fixed part of a note: name length, description
/// length and type, each a 64-bit field.
pub const NOTE_HEADER_SIZE: usize = 0x18;

/// `x` rounded up to the next multiple of 8.
pub open spec fn spec_align8(x: int) -> int {
    if x % 8 == 0 {
        x
    } else {
        x + 8 - x % 8
    }
}

/// Rounds `x` up to the next multiple of 8.
fn align8(x: u64) -> (r: u64)
    requires
        x <= u64::MAX - 7,
    ensures
        r == spec_align8(x as int),
{
    if x % 8 == 0 {
        x
    } else {
        x + (8 - x % 8)
    }
}

/// One note: a type code and the exact bytes of its name and description.
#[derive(Clone, Copy, Debug, PartialEq, Eq)]
pub struct NoteEntry<'a> {
    pub ty: u64,
    pub name: &'a [u8],
    pub description: &'a [u8],
}

/// A region of notes, read one after another from a position that the caller keeps.
#[derive(Clone, Copy)]
pub struct NoteTable<'a> {
    slice: &'a [u8],
    encoding: Encoding,
}

impl<'a> NoteTable<'a> {
    /// The bytes the notes are read from.
    pub closed spec fn spec_region(&self) -> Seq<u8> {
        self.slice@
    }

    /// The byte order the notes are read in.
    pub closed spec fn spec_encoding(&self) -> Encoding {
        self.encoding
    }

    /// Where the note that starts at `position` of `s` ends, padding included.
    pub open spec fn spec_note_end(s: Seq<u8>, position: int, encoding: Encoding) -> int {
        position + NOTE_HEADER_SIZE + spec_align8(spec_u64(s, position, encoding) as int)
            + spec_align8(spec_u64(s, position + 8, encoding) as int)
    }

    /// Whether a whole note, padding included, starts at `position` of `s`.
    pub open spec fn spec_note_fits(s: Seq<u8>, position: int, encoding: Encoding) -> bool {
        &&& position + NOTE_HEADER_SIZE <= s.len()
        &&& NoteTable::spec_note_end(s, position, encoding) <= s.len()
    }

    /// A note table over `slice`.
    pub fn new(slice: &'a [u8], encoding: Encoding) -> (r: NoteTable<'a>)
        ensures
            r.spec_region() == slice@,
            r.spec_encoding() == encoding,
    {
        NoteTable { slice, encoding }
    }

    /// Decodes the note at `*position` and moves `*position` past it and its
    /// padding. When no whole note starts there, fails with truncation and
    /// leaves `*position` as it was.
    pub fn next(&self, position: &mut usize) -> (r: Result<NoteEntry<'a>, Error>)
        ensures
            ({
                let s = self.spec_region();
                let e = self.spec_encoding();
                let p = *old(position) as int;
                let name_size = spec_u64(s, p, e) as int;
                let description_size = spec_u64(s, p + 8, e) as int;
                let name_start = p + NOTE_HEADER_SIZE;
                let description_start = name_start + spec_align8(name_size);
                if NoteTable::spec_note_fits(s, p, e) {
                    &&& r matches Ok(entry)
                    &&& entry.ty == spec_u64(s, p + 16, e)
                    &&& entry.name@ == s.subrange(name_start, name_start + name_size)
                    &&& entry.description@ == s.subrange(
                        description_start,
                        description_start + description_size,
                    )
                    &&& *final(position) == NoteTable::spec_note_end(s, p, e)
                } else {
                    &&& r == Err::<NoteEntry<'a>, Error>(Error::SliceTooShort)
                    &&& *final(position) == *old(position)
                }
            }),
    {
        let len = self.slice.len();
        let pos = *position;
        if pos > len || len - pos < NOTE_HEADER_SIZE {
            return Err(Error::SliceTooShort);
        }
        let name_size = read_u64(self.slice, pos, self.encoding);
        let description_size = read_u64(self.slice, pos + 8, self.encoding);
        let ty = read_u64(self.slice, pos + 16, self.encoding);
        let room = (len - pos - NOTE_HEADER_SIZE) as u64;
        if name_size > room || description_size > room {
            return Err(Error::SliceTooShort);
        }
        let name_padded = align8(name_size);
        let description_padded = align8(description_size);
        if name_padded > room || description_padded > room - name_padded {
            return Err(Error::SliceTooShort);
        }
        let name_start = pos + NOTE_HEADER_SIZE;
        let name = &self.slice[name_start..name_start + name_size as usize];
        let description_start = name_start + name_padded as usize;
        let description = &self.slice[description_start..description_start
            + description_size as usize];
        *position = description_start + description_padded as usize;
        Ok(NoteEntry { ty, name, description })
    }
}

} // verus!
