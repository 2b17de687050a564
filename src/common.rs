use vstd::prelude::*;

verus! {

/// A virtual address inside the loaded image.
pub type Address = u64;

/// A byte offset from the start of the file.
pub type Offset = u64;

/// Why a structure could not be decoded.
#[derive(Clone, Copy, Debug, PartialEq, Eq, Structural)]
pub enum Error {
    /// A read, slice or table access needs more bytes than remain.
    SliceTooShort,
    /// The first four bytes are not `7f 'E' 'L' 'F'`.
    WrongMagicNumber,
    /// The data-encoding byte is neither 1 (little) nor 2 (big).
    UnknownEncoding(u8),
    /// A field that must be zero is not.
    ReservedFieldIsNotZero,
    /// A record size declared in the header differs from the one decoded here.
    UnexpectedSize(UnexpectedSize),
    /// The segment or section kind is known but its payload is not decoded.
    Unimplemented,
}

/// Which of the header's declared record sizes was wrong.
#[derive(Clone, Copy, Debug, PartialEq, Eq, Structural)]
pub enum UnexpectedSize {
    Header,
    ProgramHeader,
    SectionHeader,
}

} // verus!
