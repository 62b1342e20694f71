//! Big-endian encoding of unsigned integers, as the key formats use it.

use byteorder::{BigEndian, ReadBytesExt, WriteBytesExt};
use std::io::Cursor;
use vstd::prelude::*;

verus! {

/// 256 to the power `width`.
pub open spec fn pow256(width: nat) -> nat
    decreases width,
{
    if width == 0 {
        1
    } else {
        256 * pow256((width - 1) as nat)
    }
}

/// The `width` bytes that hold `value` with the most significant byte first.
pub open spec fn be_bytes(value: nat, width: nat) -> Seq<u8>
    decreases width,
{
    if width == 0 {
        Seq::empty()
    } else {
        be_bytes(value / 256, (width - 1) as nat).push((value % 256) as u8)
    }
}

/// The number that `bytes` hold with the most significant byte first.
pub open spec fn be_value(bytes: Seq<u8>) -> nat
    decreases bytes.len(),
{
    if bytes.len() == 0 {
        0
    } else {
        be_value(bytes.drop_last()) * 256 + bytes.last() as nat
    }
}

/// An encoding is as wide as asked.
pub proof fn lemma_be_bytes_len(value: nat, width: nat)
    ensures
        be_bytes(value, width).len() == width,
    decreases width,
{
    if width > 0 {
        lemma_be_bytes_len(value / 256, (width - 1) as nat);
    }
}

/// Decoding gives back a value that fits the width it was encoded in.
pub proof fn lemma_be_value_of_bytes(value: nat, width: nat)
    requires
        value < pow256(width),
    ensures
        be_value(be_bytes(value, width)) == value,
    decreases width,
{
    if width > 0 {
        let rest = be_bytes(value / 256, (width - 1) as nat);
        lemma_be_value_of_bytes(value / 256, (width - 1) as nat);
        lemma_be_bytes_len(value / 256, (width - 1) as nat);
        assert(be_bytes(value, width).drop_last() =~= rest);
    }
}

/// What a byte string holds is below 256 to the power of its length.
pub proof fn lemma_be_value_bound(bytes: Seq<u8>)
    ensures
        be_value(bytes) < pow256(bytes.len()),
    decreases bytes.len(),
{
    if bytes.len() > 0 {
        lemma_be_value_bound(bytes.drop_last());
    }
}

/// Encoding what a byte string holds, in its own width, gives the string back.
pub proof fn lemma_be_bytes_of_value(bytes: Seq<u8>)
    ensures
        be_bytes(be_value(bytes), bytes.len()) == bytes,
    decreases bytes.len(),
{
    if bytes.len() > 0 {
        let head = bytes.drop_last();
        lemma_be_bytes_of_value(head);
        let v = be_value(bytes);
        assert(v / 256 == be_value(head));
        assert(v % 256 == bytes.last() as nat);
        assert(be_bytes(v, bytes.len()) =~= bytes);
    } else {
        assert(be_bytes(0, 0) =~= bytes);
    }
}

/// Four bytes span the 32-bit numbers, eight bytes the 64-bit ones.
pub proof fn lemma_pow256_widths()
    ensures
        pow256(4) == 0x1_0000_0000,
        pow256(8) == 0x1_0000_0000_0000_0000,
{
    reveal_with_fuel(pow256, 9);
}

/// Appends the four big-endian bytes of `value` to `buf`.
///
/// Calls `byteorder::WriteBytesExt::write_u32` with `BigEndian` on the vector,
/// whose writer appends and never fails. The contract claims that the bytes
/// appended are those of `value`, most significant first.
#[verifier::external_body]
pub(crate) fn write_u32_be(buf: &mut Vec<u8>, value: u32)
    ensures
        final(buf)@ == old(buf)@ + be_bytes(value as nat, 4),
{
    buf.write_u32::<BigEndian>(value).unwrap();
}

/// Appends the eight big-endian bytes of `value` to `buf`.
///
/// Calls `byteorder::WriteBytesExt::write_u64` with `BigEndian` on the vector,
/// whose writer appends and never fails. The contract claims that the bytes
/// appended are those of `value`, most significant first.
#[verifier::external_body]
pub(crate) fn write_u64_be(buf: &mut Vec<u8>, value: u64)
    ensures
        final(buf)@ == old(buf)@ + be_bytes(value as nat, 8),
{
    buf.write_u64::<BigEndian>(value).unwrap();
}

/// Reads the number that the first four bytes of `data` hold, big-endian.
///
/// Calls `byteorder::ReadBytesExt::read_u32` with `BigEndian` on a cursor over
/// `data`; it fails only when fewer than four bytes are left, which `requires`
/// rules out. The contract claims that the result is the number those four
/// bytes hold, most significant first.
#[verifier::external_body]
pub(crate) fn read_u32_be(data: &[u8]) -> (value: u32)
    requires
        data@.len() >= 4,
    ensures
        value as nat == be_value(data@.subrange(0, 4)),
{
    Cursor::new(data).read_u32::<BigEndian>().unwrap()
}

/// Reads the number that the first eight bytes of `data` hold, big-endian.
///
/// Calls `byteorder::ReadBytesExt::read_u64` with `BigEndian` on a cursor over
/// `data`; it fails only when fewer than eight bytes are left, which
/// `requires` rules out. The contract claims that the result is the number
/// those eight bytes hold, most significant first.
#[verifier::external_body]
pub(crate) fn read_u64_be(data: &[u8]) -> (value: u64)
    requires
        data@.len() >= 8,
    ensures
        value as nat == be_value(data@.subrange(0, 8)),
{
    Cursor::new(data).read_u64::<BigEndian>().unwrap()
}

} // verus!

