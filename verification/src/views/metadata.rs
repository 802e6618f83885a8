//! The record kept for every index, and its layout in bytes.
//!
//! A record is laid out as the identifier in eight bytes, the tag of the index
//! type in four, the length of the state in four, and the bytes of the state,
//! every number least significant byte first.

use std::borrow::Cow;
use vstd::prelude::*;
use vstd::slice::slice_subrange;
use crate::bytes::{
    le_bytes, le_value, lemma_le_bytes_len, lemma_le_bytes_of_value, lemma_le_limits,
    lemma_le_value_of_bytes, stream_write_u32, stream_write_u64,
};
use crate::views::address::{AddressView, IndexAddress};
use crate::views::attribute::BinaryAttribute;
use crate::views::error::MetadataError;
use crate::views::reader::Reader;

verus! {

/// The kind of index that a record describes.
#[derive(Debug, Copy, Clone, PartialEq, Eq, Structural)]
pub enum IndexType {
    /// A map from keys to values.
    MapIndex,
    List,
    Entry,
    ValueSet,
    KeySet,
    SparseList,
    ProofList,
    ProofMap,
    /// No known kind; also the default.
    Unknown,
}

impl IndexType {
    /// The number that stands for the kind in a record.
    pub open spec fn tag_of(self) -> u32 {
        match self {
            IndexType::MapIndex => 1,
            IndexType::List => 2,
            IndexType::Entry => 3,
            IndexType::ValueSet => 4,
            IndexType::KeySet => 5,
            IndexType::SparseList => 6,
            IndexType::ProofList => 7,
            IndexType::ProofMap => 8,
            IndexType::Unknown => 255,
        }
    }

    /// The kind that a number stands for, if it stands for one.
    pub open spec fn of_tag(tag: u32) -> Option<IndexType> {
        if tag == 1 {
            Some(IndexType::MapIndex)
        } else if tag == 2 {
            Some(IndexType::List)
        } else if tag == 3 {
            Some(IndexType::Entry)
        } else if tag == 4 {
            Some(IndexType::ValueSet)
        } else if tag == 5 {
            Some(IndexType::KeySet)
        } else if tag == 6 {
            Some(IndexType::SparseList)
        } else if tag == 7 {
            Some(IndexType::ProofList)
        } else if tag == 8 {
            Some(IndexType::ProofMap)
        } else if tag == 255 {
            Some(IndexType::Unknown)
        } else {
            None
        }
    }

    /// Every kind is the kind that its own tag stands for, and a tag that stands
    /// for a kind is the tag of that kind.
    pub proof fn lemma_tags_correspond(kind: IndexType, tag: u32)
        ensures
            Self::of_tag(kind.tag_of()) == Some(kind),
            Self::of_tag(tag) == Some(kind) ==> kind.tag_of() == tag,
    {
    }

    /// The number that stands for the kind in a record.
    #[verifier::when_used_as_spec(tag_of)]
    pub fn tag(self) -> (tag: u32)
        ensures
            tag == self.tag_of(),
    {
        match self {
            IndexType::MapIndex => 1,
            IndexType::List => 2,
            IndexType::Entry => 3,
            IndexType::ValueSet => 4,
            IndexType::KeySet => 5,
            IndexType::SparseList => 6,
            IndexType::ProofList => 7,
            IndexType::ProofMap => 8,
            IndexType::Unknown => 255,
        }
    }

    /// The kind that `tag` stands for, or `None` for a number that is no tag.
    pub fn from_u32(tag: u32) -> (kind: Option<IndexType>)
        ensures
            kind == Self::of_tag(tag),
    {
        match tag {
            1 => Some(IndexType::MapIndex),
            2 => Some(IndexType::List),
            3 => Some(IndexType::Entry),
            4 => Some(IndexType::ValueSet),
            5 => Some(IndexType::KeySet),
            6 => Some(IndexType::SparseList),
            7 => Some(IndexType::ProofList),
            8 => Some(IndexType::ProofMap),
            255 => Some(IndexType::Unknown),
            _ => None,
        }
    }
}

impl Default for IndexType {
    fn default() -> (kind: Self)
        ensures
            kind == IndexType::Unknown,
    {
        IndexType::Unknown
    }
}

/// The number of bytes in front of the state of a record.
pub const HEADER_SIZE: usize = 16;

/// What is kept for an index: its identifier, its kind and its state.
#[derive(Debug, Clone, Copy, PartialEq)]
pub struct IndexMetadata<V> {
    /// The number given to the index when it was created.
    pub identifier: u64,
    /// The kind the index was created with.
    pub index_type: IndexType,
    /// The auxiliary state of the index.
    pub state: V,
}

impl<V: BinaryAttribute> IndexMetadata<V> {
    /// The bytes that stand for the record. The length field holds the length
    /// of the state modulo 2 to the power 32.
    pub open spec fn encoding(&self) -> Seq<u8> {
        le_bytes(self.identifier as nat, 8) + le_bytes(self.index_type.tag_of() as nat, 4)
            + le_bytes((self.state.encoding().len() % 0x1_0000_0000) as nat, 4)
            + self.state.encoding()
    }

    /// The record that `bytes` stand for, or the reason why they stand for none.
    ///
    /// The state is read from exactly as many bytes as the length field says,
    /// and before the tag is looked at.
    pub open spec fn decoding(bytes: Seq<u8>) -> Result<Self, MetadataError> {
        if bytes.len() < HEADER_SIZE {
            Err(MetadataError::UnexpectedEof)
        } else {
            let identifier = le_value(bytes.subrange(0, 8)) as u64;
            let tag = le_value(bytes.subrange(8, 12)) as u32;
            let state_len = le_value(bytes.subrange(12, 16));
            if bytes.len() - HEADER_SIZE < state_len {
                Err(MetadataError::StateTooShort)
            } else {
                match V::decoding(bytes.subrange(16, 16 + state_len as int)) {
                    Err(e) => Err(e),
                    Ok((state, _)) => match IndexType::of_tag(tag) {
                        Some(index_type) => Ok(IndexMetadata { identifier, index_type, state }),
                        None => Err(MetadataError::UnknownIndexType(tag)),
                    },
                }
            }
        }
    }

    /// A record whose state takes fewer than 2 to the power 32 bytes is read
    /// back from its own bytes.
    pub proof fn lemma_round_trip(&self)
        requires
            self.state.encoding().len() <= u32::MAX,
        ensures
            Self::decoding(self.encoding()) == Ok::<Self, MetadataError>(*self),
    {
        let state = self.state.encoding();
        let bytes = self.encoding();
        lemma_le_limits();
        lemma_le_bytes_len(self.identifier as nat, 8);
        lemma_le_bytes_len(self.index_type.tag_of() as nat, 4);
        lemma_le_bytes_len(state.len(), 4);
        lemma_le_value_of_bytes(self.identifier as nat, 8);
        lemma_le_value_of_bytes(self.index_type.tag_of() as nat, 4);
        lemma_le_value_of_bytes(state.len(), 4);
        assert(bytes.subrange(0, 8) =~= le_bytes(self.identifier as nat, 8));
        assert(bytes.subrange(8, 12) =~= le_bytes(self.index_type.tag_of() as nat, 4));
        assert(bytes.subrange(12, 16) =~= le_bytes(state.len(), 4));
        assert(bytes.subrange(16, 16 + state.len() as int) =~= state + Seq::<u8>::empty());
        self.state.lemma_round_trip(Seq::empty());
        IndexType::lemma_tags_correspond(self.index_type, 0);
    }

    /// The bytes that stand for the record.
    pub fn to_bytes(&self) -> (bytes: Vec<u8>)
        ensures
            bytes@ == self.encoding(),
    {
        let state_len: usize = self.state.size();
        let mut buf: Vec<u8> = if state_len <= isize::MAX as usize - HEADER_SIZE {
            Vec::with_capacity(HEADER_SIZE + state_len)
        } else {
            Vec::new()
        };
        stream_write_u64(&mut buf, self.identifier);
        stream_write_u32(&mut buf, self.index_type.tag());
        let wide: u64 = state_len as u64;
        let recorded: u32 = #[verifier::truncate] (wide as u32);
        assert(recorded == wide % 0x1_0000_0000) by (bit_vector)
            requires
                recorded == wide as u32,
        ;
        stream_write_u32(&mut buf, recorded);
        self.state.write(&mut buf);
        buf
    }

    /// Reads a record back from bytes.
    ///
    /// Fails with [`MetadataError::UnexpectedEof`] on fewer than sixteen bytes,
    /// with [`MetadataError::StateTooShort`] where fewer bytes follow the header
    /// than it says, with the failure of reading the state, and with
    /// [`MetadataError::UnknownIndexType`] on an unknown tag, in this order.
    pub fn from_bytes(bytes: Cow<[u8]>) -> (result: Result<Self, MetadataError>)
        ensures
            result == Self::decoding(bytes@),
    {
        let bytes: &[u8] = match &bytes {
            Cow::Borrowed(borrowed) => borrowed,
            Cow::Owned(owned) => owned.as_slice(),
        };
        let mut reader = Reader::new(bytes);
        let identifier: u64 = reader.read_u64()?;
        let tag: u32 = reader.read_u32()?;
        let state_len: usize = reader.read_u32()? as usize;
        let rest = reader.remaining();
        proof {
            assert(bytes@.subrange(8, bytes@.len() as int).subrange(0, 4) =~= bytes@.subrange(
                8,
                12,
            ));
            assert(bytes@.subrange(8, bytes@.len() as int).subrange(4, bytes@.len() - 8).subrange(
                0,
                4,
            ) =~= bytes@.subrange(12, 16));
            assert(rest@ =~= bytes@.subrange(16, bytes@.len() as int));
            lemma_le_bytes_of_value(bytes@.subrange(12, 16));
            lemma_le_limits();
        }
        if rest.len() < state_len {
            return Err(MetadataError::StateTooShort);
        }
        let mut state_reader = Reader::new(slice_subrange(rest, 0, state_len));
        assert(state_reader@ =~= bytes@.subrange(16, 16 + state_len));
        let state = V::read(&mut state_reader)?;
        match IndexType::from_u32(tag) {
            Some(index_type) => Ok(IndexMetadata { identifier, index_type, state }),
            None => Err(MetadataError::UnknownIndexType(tag)),
        }
    }
}

impl<V> IndexMetadata<V> {
    /// The address under which the content of the index is stored: no name,
    /// and for bytes the identifier, least significant byte first.
    pub open spec fn address_of(identifier: u64) -> AddressView {
        AddressView { name: Seq::empty(), bytes: Some(le_bytes(identifier as nat, 8)) }
    }

    /// The address under which the content of the index is stored.
    pub fn index_address(&self) -> (address: IndexAddress)
        ensures
            address@ == Self::address_of(self.identifier),
    {
        let mut suffix: Vec<u8> = Vec::new();
        stream_write_u64(&mut suffix, self.identifier);
        IndexAddress::new().append_bytes(suffix.as_slice())
    }
}

} // verus!
