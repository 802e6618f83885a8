//! Small values that describe their own size and write and read themselves.

use vstd::prelude::*;
use crate::bytes::{
    le_bytes, le_value, lemma_le_bytes_len, lemma_le_limits, lemma_le_value_of_bytes,
    stream_write_u64,
};
use crate::views::error::MetadataError;
use crate::views::reader::Reader;

verus! {

/// What a read leaves in the reader and returns, given what the bytes in front
/// of the reader stand for.
pub open spec fn read_outcome<V>(
    decoded: Result<(V, nat), MetadataError>,
    before: Seq<u8>,
    after: Seq<u8>,
    result: Result<V, MetadataError>,
) -> bool {
    match decoded {
        Ok((value, used)) => result == Ok::<V, MetadataError>(value) && used <= before.len()
            && after == before.subrange(used as int, before.len() as int),
        Err(e) => result == Err::<V, MetadataError>(e),
    }
}

/// The auxiliary state that an index keeps beside its identifier and type.
///
/// A value knows the bytes that stand for it. Written to a buffer it appends
/// exactly those bytes; read from a reader it consumes the bytes that stand for
/// one value and leaves the rest.
pub trait BinaryAttribute: Sized {
    /// The bytes that stand for the value.
    spec fn encoding(&self) -> Seq<u8>;

    /// What the front of `bytes` stands for: a value and the number of bytes
    /// that spell it, or the reason why no value can be read.
    spec fn decoding(bytes: Seq<u8>) -> Result<(Self, nat), MetadataError>;

    /// A value is read back from its own bytes, whatever follows them.
    proof fn lemma_round_trip(&self, rest: Seq<u8>)
        ensures
            Self::decoding(self.encoding() + rest) == Ok::<(Self, nat), MetadataError>(
                (*self, self.encoding().len()),
            ),
    ;

    /// The number of bytes that stand for the value.
    fn size(&self) -> (size: usize)
        ensures
            size == self.encoding().len(),
    ;

    /// Appends the bytes of the value to `buffer`.
    fn write(&self, buffer: &mut Vec<u8>)
        ensures
            final(buffer)@ == old(buffer)@ + self.encoding(),
    ;

    /// Reads one value from the front of `buffer` and consumes its bytes.
    ///
    /// Where the bytes stand for no value the failure is returned, and nothing
    /// is said of how much of the input is consumed by then.
    fn read(buffer: &mut Reader) -> (result: Result<Self, MetadataError>)
        ensures
            read_outcome(Self::decoding(old(buffer)@), old(buffer)@, final(buffer)@, result),
    ;
}

/// No state: nothing is written and nothing is read.
impl BinaryAttribute for () {
    open spec fn encoding(&self) -> Seq<u8> {
        Seq::empty()
    }

    open spec fn decoding(bytes: Seq<u8>) -> Result<((), nat), MetadataError> {
        Ok(((), 0))
    }

    proof fn lemma_round_trip(&self, rest: Seq<u8>) {
    }

    fn size(&self) -> (size: usize) {
        0
    }

    fn write(&self, buffer: &mut Vec<u8>) {
    }

    fn read(buffer: &mut Reader) -> (result: Result<Self, MetadataError>) {
        assert(buffer@.subrange(0, buffer@.len() as int) =~= buffer@);
        Ok(())
    }
}

/// A counter: eight bytes, least significant first.
impl BinaryAttribute for u64 {
    open spec fn encoding(&self) -> Seq<u8> {
        le_bytes(*self as nat, 8)
    }

    open spec fn decoding(bytes: Seq<u8>) -> Result<(u64, nat), MetadataError> {
        if bytes.len() >= 8 {
            Ok((le_value(bytes.subrange(0, 8)) as u64, 8))
        } else {
            Err(MetadataError::UnexpectedEof)
        }
    }

    proof fn lemma_round_trip(&self, rest: Seq<u8>) {
        lemma_le_limits();
        lemma_le_bytes_len(*self as nat, 8);
        lemma_le_value_of_bytes(*self as nat, 8);
        assert((self.encoding() + rest).subrange(0, 8) =~= self.encoding());
    }

    fn size(&self) -> (size: usize) {
        proof {
            lemma_le_bytes_len(*self as nat, 8);
        }
        8
    }

    fn write(&self, buffer: &mut Vec<u8>) {
        stream_write_u64(buffer, *self)
    }

    fn read(buffer: &mut Reader) -> (result: Result<Self, MetadataError>) {
        buffer.read_u64()
    }
}

} // verus!
