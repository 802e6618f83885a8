//! Little-endian layout of unsigned integers: the mathematical model, and the
//! calls into `byteorder` that read and write it.

use vstd::prelude::*;
use byteorder::{ByteOrder, LittleEndian, WriteBytesExt};

verus! {

/// The number that the bytes of `s` spell, least significant byte first.
pub open spec fn le_value(s: Seq<u8>) -> nat
    decreases s.len(),
{
    if s.len() == 0 {
        0
    } else {
        s[0] as nat + 256 * le_value(s.drop_first())
    }
}

/// The `width` low-order bytes of `n`, least significant first.
pub open spec fn le_bytes(n: nat, width: nat) -> Seq<u8>
    decreases width,
{
    if width == 0 {
        Seq::empty()
    } else {
        seq![(n % 256) as u8] + le_bytes(n / 256, (width - 1) as nat)
    }
}

/// The number of values that `width` bytes can spell: 256 to the power `width`.
pub open spec fn le_limit(width: nat) -> nat
    decreases width,
{
    if width == 0 {
        1
    } else {
        256 * le_limit((width - 1) as nat)
    }
}

/// `le_bytes(n, width)` has `width` bytes.
pub proof fn lemma_le_bytes_len(n: nat, width: nat)
    ensures
        le_bytes(n, width).len() == width,
    decreases width,
{
    if width > 0 {
        lemma_le_bytes_len(n / 256, (width - 1) as nat);
    }
}

/// A number that fits in `width` bytes is what its layout spells.
pub proof fn lemma_le_value_of_bytes(n: nat, width: nat)
    requires
        n < le_limit(width),
    ensures
        le_value(le_bytes(n, width)) == n,
    decreases width,
{
    if width > 0 {
        let rest = le_bytes(n / 256, (width - 1) as nat);
        lemma_le_value_of_bytes(n / 256, (width - 1) as nat);
        assert(le_bytes(n, width).drop_first() =~= rest);
    }
}

/// Bytes are the layout of the number they spell, and that number fits in as many bytes.
pub proof fn lemma_le_bytes_of_value(s: Seq<u8>)
    ensures
        le_value(s) < le_limit(s.len()),
        le_bytes(le_value(s), s.len()) == s,
    decreases s.len(),
{
    if s.len() > 0 {
        lemma_le_bytes_of_value(s.drop_first());
        let rest = le_value(s.drop_first());
        assert((s[0] as nat + 256 * rest) / 256 == rest);
        assert((s[0] as nat + 256 * rest) % 256 == s[0] as nat);
        assert(le_bytes(le_value(s), s.len()) =~= s);
    }
}

/// Four bytes spell a 32-bit number, eight bytes a 64-bit one.
pub proof fn lemma_le_limits()
    ensures
        le_limit(4) == 0x1_0000_0000,
        le_limit(8) == 0x1_0000_0000_0000_0000,
{
    reveal_with_fuel(le_limit, 9);
}

/// Calls `byteorder::LittleEndian::read_u32` (of the `ByteOrder` trait), which returns
/// the number spelled little-endian by the first four bytes of `buf`. It panics
/// on a shorter slice; the precondition leaves that out.
#[verifier::external_body]
pub(crate) fn le_read_u32(buf: &[u8]) -> (n: u32)
    requires
        buf@.len() >= 4,
    ensures
        n == le_value(buf@.subrange(0, 4)),
{
    LittleEndian::read_u32(buf)
}

/// Calls `byteorder::LittleEndian::read_u64` (of the `ByteOrder` trait), which returns
/// the number spelled little-endian by the first eight bytes of `buf`. It panics
/// on a shorter slice; the precondition leaves that out.
#[verifier::external_body]
pub(crate) fn le_read_u64(buf: &[u8]) -> (n: u64)
    requires
        buf@.len() >= 8,
    ensures
        n == le_value(buf@.subrange(0, 8)),
{
    LittleEndian::read_u64(buf)
}

/// Calls `byteorder::LittleEndian::write_u32` (of the `ByteOrder` trait) on
/// `buffer[from..to]`. It overwrites the first four bytes of that range with the
/// little-endian layout of `n` and touches nothing else. It panics on a range
/// outside the buffer or shorter than four bytes; the precondition leaves
/// those out.
#[verifier::external_body]
pub(crate) fn le_write_u32(buffer: &mut Vec<u8>, from: usize, to: usize, n: u32)
    requires
        from + 4 <= to <= old(buffer)@.len(),
    ensures
        final(buffer)@ == old(buffer)@.subrange(0, from as int) + le_bytes(n as nat, 4) + old(
            buffer,
        )@.subrange(from + 4, old(buffer)@.len() as int),
{
    LittleEndian::write_u32(&mut buffer[from..to], n)
}

/// Calls `byteorder::LittleEndian::write_u64` (of the `ByteOrder` trait) on
/// `buffer[from..to]`. It overwrites the first eight bytes of that range with the
/// little-endian layout of `n` and touches nothing else. It panics on a range
/// outside the buffer or shorter than eight bytes; the precondition leaves
/// those out.
#[verifier::external_body]
pub(crate) fn le_write_u64(buffer: &mut Vec<u8>, from: usize, to: usize, n: u64)
    requires
        from + 8 <= to <= old(buffer)@.len(),
    ensures
        final(buffer)@ == old(buffer)@.subrange(0, from as int) + le_bytes(n as nat, 8) + old(
            buffer,
        )@.subrange(from + 8, old(buffer)@.len() as int),
{
    LittleEndian::write_u64(&mut buffer[from..to], n)
}

/// Calls `byteorder::WriteBytesExt::write_u32` with `LittleEndian` on a vector,
/// which appends the four bytes of `n`, least significant first. Writing to a
/// vector does not fail.
#[verifier::external_body]
pub(crate) fn stream_write_u32(buffer: &mut Vec<u8>, n: u32)
    ensures
        final(buffer)@ == old(buffer)@ + le_bytes(n as nat, 4),
{
    buffer.write_u32::<LittleEndian>(n).unwrap()
}

/// Calls `byteorder::WriteBytesExt::write_u64` with `LittleEndian` on a vector,
/// which appends the eight bytes of `n`, least significant first. Writing to a
/// vector does not fail.
#[verifier::external_body]
pub(crate) fn stream_write_u64(buffer: &mut Vec<u8>, n: u64)
    ensures
        final(buffer)@ == old(buffer)@ + le_bytes(n as nat, 8),
{
    buffer.write_u64::<LittleEndian>(n).unwrap()
}

} // verus!
