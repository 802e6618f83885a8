//! Reading numbers from the front of a run of bytes.

use vstd::prelude::*;
use byteorder::{LittleEndian, ReadBytesExt};
use crate::bytes::le_value;
use crate::views::error::MetadataError;

verus! {

/// A forward-only reader over borrowed bytes.
///
/// Reading a number consumes the bytes that spell it, so consecutive reads see
/// consecutive parts of the input.
pub struct Reader<'a> {
    rest: &'a [u8],
}

impl<'a> View for Reader<'a> {
    type V = Seq<u8>;

    /// The bytes not yet consumed.
    closed spec fn view(&self) -> Seq<u8> {
        self.rest@
    }
}

impl<'a> Reader<'a> {
    /// A reader positioned at the start of `bytes`.
    pub fn new(bytes: &'a [u8]) -> (reader: Self)
        ensures
            reader@ == bytes@,
    {
        Reader { rest: bytes }
    }

    /// The bytes not yet consumed.
    pub fn remaining(&self) -> (rest: &'a [u8])
        ensures
            rest@ == self@,
    {
        self.rest
    }

    /// Reads a 32-bit number, least significant byte first, and consumes its
    /// four bytes; fails where fewer than four bytes are left.
    pub fn read_u32(&mut self) -> (result: Result<u32, MetadataError>)
        ensures
            old(self)@.len() >= 4 ==> result == Ok::<u32, MetadataError>(
                le_value(old(self)@.subrange(0, 4)) as u32,
            ) && final(self)@ == old(self)@.subrange(4, old(self)@.len() as int),
            old(self)@.len() < 4 ==> result == Err::<u32, MetadataError>(
                MetadataError::UnexpectedEof,
            ),
    {
        match stream_read_u32(self) {
            Some(n) => Ok(n),
            None => Err(MetadataError::UnexpectedEof),
        }
    }

    /// Reads a 64-bit number, least significant byte first, and consumes its
    /// eight bytes; fails where fewer than eight bytes are left.
    pub fn read_u64(&mut self) -> (result: Result<u64, MetadataError>)
        ensures
            old(self)@.len() >= 8 ==> result == Ok::<u64, MetadataError>(
                le_value(old(self)@.subrange(0, 8)) as u64,
            ) && final(self)@ == old(self)@.subrange(8, old(self)@.len() as int),
            old(self)@.len() < 8 ==> result == Err::<u64, MetadataError>(
                MetadataError::UnexpectedEof,
            ),
    {
        match stream_read_u64(self) {
            Some(n) => Ok(n),
            None => Err(MetadataError::UnexpectedEof),
        }
    }
}

/// Calls `byteorder::ReadBytesExt::read_u32` with `LittleEndian` on the reader's
/// bytes. Where at least four bytes are left it consumes four and returns the
/// number they spell; where fewer are left it fails, and nothing is claimed of
/// how much of the input it has consumed by then.
#[verifier::external_body]
fn stream_read_u32(reader: &mut Reader) -> (result: Option<u32>)
    ensures
        old(reader)@.len() >= 4 ==> result == Some(le_value(old(reader)@.subrange(0, 4)) as u32)
            && final(reader)@ == old(reader)@.subrange(4, old(reader)@.len() as int),
        old(reader)@.len() < 4 ==> result is None,
{
    reader.rest.read_u32::<LittleEndian>().ok()
}

/// Calls `byteorder::ReadBytesExt::read_u64` with `LittleEndian` on the reader's
/// bytes. Where at least eight bytes are left it consumes eight and returns the
/// number they spell; where fewer are left it fails, and nothing is claimed of
/// how much of the input it has consumed by then.
#[verifier::external_body]
fn stream_read_u64(reader: &mut Reader) -> (result: Option<u64>)
    ensures
        old(reader)@.len() >= 8 ==> result == Some(le_value(old(reader)@.subrange(0, 8)) as u64)
            && final(reader)@ == old(reader)@.subrange(8, old(reader)@.len() as int),
        old(reader)@.len() < 8 ==> result is None,
{
    reader.rest.read_u64::<LittleEndian>().ok()
}

} // verus!
