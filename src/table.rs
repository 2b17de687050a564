use vstd::prelude::*;

use core::marker::PhantomData;

use crate::common::Error;
use crate::header::Encoding;

verus! {

/// A record of fixed size that can be decoded from the start of a byte slice.
pub trait Entry: Sized {
    /// The record's size on disk, in bytes.
    spec fn spec_size() -> nat;

    /// The record that the bytes `s` start with, or why there is none.
    spec fn spec_new(s: Seq<u8>, encoding: Encoding) -> Result<Self, Error>;

    /// The record's size on disk, in bytes.
    fn size() -> (r: usize)
        ensures
            r == Self::spec_size(),
            r > 0,
    ;

    /// Decodes the record that `slice` starts with.
    fn new(slice: &[u8], encoding: Encoding) -> (r: Result<Self, Error>)
        ensures
            r == Self::spec_new(slice@, encoding),
    ;

    /// Decoding fewer bytes than a record holds fails with truncation.
    proof fn lemma_short(s: Seq<u8>, encoding: Encoding)
        requires
            s.len() < Self::spec_size(),
        ensures
            Self::spec_new(s, encoding) == Err::<Self, Error>(Error::SliceTooShort),
    ;

    /// Decoding reads no byte past the record's size.
    proof fn lemma_prefix(s: Seq<u8>, encoding: Encoding)
        requires
            s.len() >= Self::spec_size(),
        ensures
            Self::spec_new(s, encoding) == Self::spec_new(
                s.subrange(0, Self::spec_size() as int),
                encoding,
            ),
    ;
}

/// The record at position `index` of a table over `region`: the bytes
/// `[index * size, (index + 1) * size)` decoded, or truncation when they run
/// past the end of the region.
pub open spec fn spec_pick<E: Entry>(region: Seq<u8>, encoding: Encoding, index: int) -> Result<
    E,
    Error,
> {
    let size = E::spec_size() as int;
    if (index + 1) * size > region.len() {
        Err(Error::SliceTooShort)
    } else {
        E::spec_new(region.subrange(index * size, (index + 1) * size), encoding)
    }
}

/// Random access to a run of fixed-size records in a byte region. Nothing is
/// decoded until a record is picked.
pub struct Table<'a, E> {
    slice: &'a [u8],
    encoding: Encoding,
    phantom_data: PhantomData<E>,
}

impl<'a, E> Copy for Table<'a, E> {

}

impl<'a, E> Clone for Table<'a, E> {
    fn clone(&self) -> (r: Self)
        ensures
            r == *self,
    {
        Table { slice: self.slice, encoding: self.encoding, phantom_data: PhantomData }
    }
}

impl<'a, E: Entry> Table<'a, E> {
    /// The bytes the records are read from.
    pub closed spec fn spec_region(&self) -> Seq<u8> {
        self.slice@
    }

    /// The byte order the records are read in.
    pub closed spec fn spec_encoding(&self) -> Encoding {
        self.encoding
    }

    /// A table over `slice`.
    pub fn new(slice: &'a [u8], encoding: Encoding) -> (r: Self)
        ensures
            r.spec_region() == slice@,
            r.spec_encoding() == encoding,
    {
        Table { slice, encoding, phantom_data: PhantomData }
    }

    /// How many whole records the region holds; a trailing partial record is not counted.
    pub fn length(&self) -> (r: usize)
        ensures
            r == self.spec_region().len() / E::spec_size(),
    {
        self.slice.len() / E::size()
    }

    /// Decodes the record at position `index`.
    pub fn pick(&self, index: usize) -> (r: Result<E, Error>)
        ensures
            r == spec_pick::<E>(self.spec_region(), self.spec_encoding(), index as int),
    {
        let size = E::size();
        let len = self.slice.len();
        if index >= len / size {
            proof {
                lemma_past_end(len as int, size as int, index as int);
            }
            return Err(Error::SliceTooShort);
        }
        proof {
            lemma_within(len as int, size as int, index as int);
        }
        let start = index * size;
        let end = start + size;
        E::new(&self.slice[start..end], self.encoding)
    }
}

proof fn lemma_past_end(len: int, size: int, index: int)
    requires
        0 <= len,
        0 < size,
        index >= len / size,
    ensures
        (index + 1) * size > len,
{
    assert(len < (len / size + 1) * size) by (nonlinear_arith)
        requires
            0 <= len,
            0 < size,
    ;
    assert((len / size + 1) * size <= (index + 1) * size) by (nonlinear_arith)
        requires
            0 < size,
            len / size <= index,
    ;
}

proof fn lemma_within(len: int, size: int, index: int)
    requires
        0 <= len,
        0 < size,
        0 <= index < len / size,
    ensures
        (index + 1) * size <= len,
        0 <= index * size,
        index * size + size <= len,
        (index + 1) * size == index * size + size,
{
    assert((index + 1) * size == index * size + size) by (nonlinear_arith);
    assert(0 <= index * size) by (nonlinear_arith)
        requires
            0 <= index,
            0 < size,
    ;
    assert((index + 1) * size <= (len / size) * size) by (nonlinear_arith)
        requires
            0 < size,
            index + 1 <= len / size,
    ;
    assert((len / size) * size <= len) by (nonlinear_arith)
        requires
            0 <= len,
            0 < size,
    ;
}

/// Picking a record that lies inside the region gives what decoding the
/// region from that record's offset gives.
pub proof fn lemma_pick_matches_offset_decode<E: Entry>(
    region: Seq<u8>,
    encoding: Encoding,
    index: int,
)
    requires
        0 <= index,
        (index + 1) * E::spec_size() <= region.len(),
    ensures
        spec_pick::<E>(region, encoding, index) == E::spec_new(
            region.subrange(index * E::spec_size(), region.len() as int),
            encoding,
        ),
{
    let size = E::spec_size() as int;
    assert((index + 1) * size == index * size + size) by (nonlinear_arith);
    assert(0 <= index * size) by (nonlinear_arith)
        requires
            0 <= index,
            0 <= size,
    ;
    let rest = region.subrange(index * size, region.len() as int);
    E::lemma_prefix(rest, encoding);
    assert(rest.subrange(0, size) =~= region.subrange(index * size, (index + 1) * size));
}

/// Picking a record that runs past the end of the region fails with truncation.
pub proof fn lemma_pick_past_end<E: Entry>(region: Seq<u8>, encoding: Encoding, index: int)
    requires
        (index + 1) * E::spec_size() > region.len(),
    ensures
        spec_pick::<E>(region, encoding, index) == Err::<E, Error>(Error::SliceTooShort),
{
}

} // verus!
