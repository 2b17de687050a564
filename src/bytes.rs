use byteorder::ByteOrder;
use vstd::prelude::*;

use crate::header::Encoding;

verus! {

/// The number that `b` denotes with its least significant byte first.
pub open spec fn le_value(b: Seq<u8>) -> nat
    decreases b.len(),
{
    if b.len() == 0 {
        0
    } else {
        b[0] as nat + 256 * le_value(b.drop_first())
    }
}

/// The number that `b` denotes with its most significant byte first.
pub open spec fn be_value(b: Seq<u8>) -> nat
    decreases b.len(),
{
    if b.len() == 0 {
        0
    } else {
        be_value(b.drop_last()) * 256 + b.last() as nat
    }
}

/// The unsigned integer stored in `s[off .. off + width]` under `encoding`.
pub open spec fn uint_value(s: Seq<u8>, off: int, width: int, encoding: Encoding) -> nat {
    let b = s.subrange(off, off + width);
    match encoding {
        Encoding::Little => le_value(b),
        Encoding::Big => be_value(b),
    }
}

/// The 16-bit field at `off` of `s`.
pub open spec fn spec_u16(s: Seq<u8>, off: int, encoding: Encoding) -> u16 {
    uint_value(s, off, 2, encoding) as u16
}

/// The 32-bit field at `off` of `s`.
pub open spec fn spec_u32(s: Seq<u8>, off: int, encoding: Encoding) -> u32 {
    uint_value(s, off, 4, encoding) as u32
}

/// The 64-bit field at `off` of `s`.
pub open spec fn spec_u64(s: Seq<u8>, off: int, encoding: Encoding) -> u64 {
    uint_value(s, off, 8, encoding) as u64
}

/// A field that lies within the first `n` bytes reads the same from those bytes alone.
pub proof fn lemma_uint_value_prefix(s: Seq<u8>, n: int)
    requires
        0 <= n <= s.len(),
    ensures
        forall|off: int, width: int, encoding: Encoding|
            0 <= off && 0 <= width && off + width <= n ==> #[trigger] uint_value(
                s.subrange(0, n),
                off,
                width,
                encoding,
            ) == uint_value(s, off, width, encoding),
{
    assert forall|off: int, width: int, encoding: Encoding|
        0 <= off && 0 <= width && off + width <= n implies #[trigger] uint_value(
            s.subrange(0, n),
            off,
            width,
            encoding,
        ) == uint_value(s, off, width, encoding) by {
        assert(s.subrange(0, n).subrange(off, off + width) =~= s.subrange(off, off + width));
    }
}

/// Relies on byteorder's `LittleEndian::read_u16`: the first two bytes, least significant first.
#[verifier::external_body]
fn le_u16(buf: &[u8]) -> (r: u16)
    requires
        buf@.len() >= 2,
    ensures
        r as nat == le_value(buf@.subrange(0, 2)),
{
    byteorder::LittleEndian::read_u16(buf)
}

/// Relies on byteorder's `BigEndian::read_u16`: the first two bytes, most significant first.
#[verifier::external_body]
fn be_u16(buf: &[u8]) -> (r: u16)
    requires
        buf@.len() >= 2,
    ensures
        r as nat == be_value(buf@.subrange(0, 2)),
{
    byteorder::BigEndian::read_u16(buf)
}

/// Relies on byteorder's `LittleEndian::read_u32`: the first four bytes, least significant first.
#[verifier::external_body]
fn le_u32(buf: &[u8]) -> (r: u32)
    requires
        buf@.len() >= 4,
    ensures
        r as nat == le_value(buf@.subrange(0, 4)),
{
    byteorder::LittleEndian::read_u32(buf)
}

/// Relies on byteorder's `BigEndian::read_u32`: the first four bytes, most significant first.
#[verifier::external_body]
fn be_u32(buf: &[u8]) -> (r: u32)
    requires
        buf@.len() >= 4,
    ensures
        r as nat == be_value(buf@.subrange(0, 4)),
{
    byteorder::BigEndian::read_u32(buf)
}

/// Relies on byteorder's `LittleEndian::read_u64`: the first eight bytes, least significant first.
#[verifier::external_body]
fn le_u64(buf: &[u8]) -> (r: u64)
    requires
        buf@.len() >= 8,
    ensures
        r as nat == le_value(buf@.subrange(0, 8)),
{
    byteorder::LittleEndian::read_u64(buf)
}

/// Relies on byteorder's `BigEndian::read_u64`: the first eight bytes, most significant first.
#[verifier::external_body]
fn be_u64(buf: &[u8]) -> (r: u64)
    requires
        buf@.len() >= 8,
    ensures
        r as nat == be_value(buf@.subrange(0, 8)),
{
    byteorder::BigEndian::read_u64(buf)
}

/// Reads the 16-bit field at `offset` of `slice` in the file's byte order.
pub fn read_u16(slice: &[u8], offset: usize, encoding: Encoding) -> (r: u16)
    requires
        offset + 2 <= slice@.len(),
    ensures
        r as nat == uint_value(slice@, offset as int, 2, encoding),
        r == spec_u16(slice@, offset as int, encoding),
{
    let (_, rest) = slice.split_at(offset);
    let b = &rest[0..2];
    assert(b@.subrange(0, 2) =~= slice@.subrange(offset as int, offset + 2));
    match encoding {
        Encoding::Little => le_u16(b),
        Encoding::Big => be_u16(b),
    }
}

/// Reads the 32-bit field at `offset` of `slice` in the file's byte order.
pub fn read_u32(slice: &[u8], offset: usize, encoding: Encoding) -> (r: u32)
    requires
        offset + 4 <= slice@.len(),
    ensures
        r as nat == uint_value(slice@, offset as int, 4, encoding),
        r == spec_u32(slice@, offset as int, encoding),
{
    let (_, rest) = slice.split_at(offset);
    let b = &rest[0..4];
    assert(b@.subrange(0, 4) =~= slice@.subrange(offset as int, offset + 4));
    match encoding {
        Encoding::Little => le_u32(b),
        Encoding::Big => be_u32(b),
    }
}

/// Reads the 64-bit field at `offset` of `slice` in the file's byte order.
pub fn read_u64(slice: &[u8], offset: usize, encoding: Encoding) -> (r: u64)
    requires
        offset + 8 <= slice@.len(),
    ensures
        r as nat == uint_value(slice@, offset as int, 8, encoding),
        r == spec_u64(slice@, offset as int, encoding),
{
    let (_, rest) = slice.split_at(offset);
    let b = &rest[0..8];
    assert(b@.subrange(0, 8) =~= slice@.subrange(offset as int, offset + 8));
    match encoding {
        Encoding::Little => le_u64(b),
        Encoding::Big => be_u64(b),
    }
}

/// Reads the signed 64-bit field at `offset` of `slice` (two's complement)
/// in the file's byte order.
pub fn read_i64(slice: &[u8], offset: usize, encoding: Encoding) -> (r: i64)
    requires
        offset + 8 <= slice@.len(),
    ensures
        r == spec_u64(slice@, offset as int, encoding) as i64,
{
    let v = read_u64(slice, offset, encoding);
    v as i64
}

} // verus!
