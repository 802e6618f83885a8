//! The pool of indexes: a counter of the identifiers given out, and for each
//! index name the record of the index.

use std::borrow::Cow;
use vstd::prelude::*;
use crate::bytes::{
    le_bytes, le_read_u64, le_value, lemma_le_bytes_len, lemma_le_limits,
    lemma_le_value_of_bytes, stream_write_u64,
};
use crate::views::access::{lookup, Entries, IndexAccess};
use crate::views::address::{AddressView, IndexAddress};
use crate::views::attribute::BinaryAttribute;
use crate::views::error::MetadataError;
use crate::views::metadata::{IndexMetadata, IndexType};

verus! {

/// The name of the scope that holds the pool.
pub const INDEXES_POOL_NAME: &'static str = "__INDEXES_POOL__";

/// The address of the scope that holds the pool.
pub open spec fn pool_address() -> AddressView {
    AddressView { name: INDEXES_POOL_NAME@, bytes: None }
}

/// The key of the counter: the empty key.
pub open spec fn counter_key() -> Seq<u8> {
    Seq::empty()
}

/// The bytes found under `key` in the pool.
pub open spec fn pool_get(entries: Entries, key: Seq<u8>) -> Option<Seq<u8>> {
    lookup(entries, pool_address(), key)
}

/// The store after `value` is put under `key` in the pool.
pub open spec fn pool_put(entries: Entries, key: Seq<u8>, value: Seq<u8>) -> Entries {
    entries.insert((pool_address(), key), value)
}

/// Whether the counter can be read: it is absent, or has the eight bytes of a number.
pub open spec fn counter_readable(entries: Entries) -> bool {
    match pool_get(entries, counter_key()) {
        Some(bytes) => bytes.len() >= 8,
        None => true,
    }
}

/// The number of records created so far, which is the next identifier: what
/// the counter spells, and zero while there is no counter.
pub open spec fn pool_len(entries: Entries) -> u64 {
    match pool_get(entries, counter_key()) {
        Some(bytes) => le_value(bytes.subrange(0, 8)) as u64,
        None => 0,
    }
}

/// What the pool holds under an index name: nothing, a record, or bytes that
/// stand for no record.
pub open spec fn stored<V: BinaryAttribute>(entries: Entries, index_name: Seq<u8>) -> Option<
    Result<IndexMetadata<V>, MetadataError>,
> {
    match pool_get(entries, index_name) {
        Some(bytes) => Some(IndexMetadata::<V>::decoding(bytes)),
        None => None,
    }
}

/// The store and the record after an index is created under `index_name`
/// with the given kind and state: the record takes the counter's value for
/// its identifier and is put under the name, then the counter goes up by one.
pub open spec fn created<V: BinaryAttribute>(
    entries: Entries,
    index_name: Seq<u8>,
    index_type: IndexType,
    state: V,
) -> (Entries, IndexMetadata<V>) {
    let metadata = IndexMetadata { identifier: pool_len(entries), index_type, state };
    let with_record = pool_put(entries, index_name, metadata.encoding());
    let with_counter = pool_put(
        with_record,
        counter_key(),
        le_bytes((pool_len(entries) + 1) as nat, 8),
    );
    (with_counter, metadata)
}

/// A creation takes the counter's value for the identifier and moves the
/// counter up by one, so the counter is the number of records created and no
/// identifier is given out twice.
pub proof fn lemma_creation_counts<V: BinaryAttribute>(
    entries: Entries,
    index_name: Seq<u8>,
    index_type: IndexType,
    state: V,
)
    requires
        pool_len(entries) < u64::MAX,
    ensures
        ({
            let (after, metadata) = created(entries, index_name, index_type, state);
            &&& metadata.identifier == pool_len(entries)
            &&& counter_readable(after)
            &&& pool_len(after) == pool_len(entries) + 1
        }),
{
    let next = (pool_len(entries) + 1) as nat;
    lemma_le_limits();
    lemma_le_bytes_len(next, 8);
    lemma_le_value_of_bytes(next, 8);
    assert(le_bytes(next, 8).subrange(0, 8) =~= le_bytes(next, 8));
}

/// Two creations in a row, under whatever names, give out two identifiers in
/// a row.
pub proof fn lemma_identifiers_go_up<V: BinaryAttribute>(
    entries: Entries,
    first_name: Seq<u8>,
    first_type: IndexType,
    first_state: V,
    second_name: Seq<u8>,
    second_type: IndexType,
    second_state: V,
)
    requires
        pool_len(entries) < u64::MAX,
    ensures
        ({
            let (after, first) = created(entries, first_name, first_type, first_state);
            let (_, second) = created(after, second_name, second_type, second_state);
            second.identifier == first.identifier + 1
        }),
{
    lemma_creation_counts(entries, first_name, first_type, first_state);
}

/// The pool of indexes of a store.
///
/// The pool lives in the scope named [`INDEXES_POOL_NAME`]; every operation
/// is handed the store it works on.
pub struct IndexesPool {
    address: IndexAddress,
}

impl IndexesPool {
    #[verifier::type_invariant]
    spec fn at_pool_address(self) -> bool {
        self.address@ == pool_address()
    }

    /// The address of the scope that the pool works in.
    pub closed spec fn address(&self) -> AddressView {
        self.address@
    }

    /// The pool, at its address.
    pub fn new() -> (pool: Self)
        ensures
            pool.address() == pool_address(),
    {
        IndexesPool { address: IndexAddress::with_root(INDEXES_POOL_NAME) }
    }

    /// The number of records created so far, or `None` where the counter
    /// cannot be read.
    pub fn checked_len<T: IndexAccess>(&self, index_access: &T) -> (len: Option<u64>)
        ensures
            counter_readable(index_access.entries()) ==> len == Some(
                pool_len(index_access.entries()),
            ),
            !counter_readable(index_access.entries()) ==> len.is_none(),
    {
        proof {
            use_type_invariant(self);
        }
        let key: Vec<u8> = Vec::new();
        match index_access.get(&self.address, key.as_slice()) {
            Some(bytes) => if bytes.len() >= 8 {
                Some(le_read_u64(bytes.as_slice()))
            } else {
                None
            },
            None => Some(0),
        }
    }

    /// The number of records created so far, which is the next identifier.
    pub fn len<T: IndexAccess>(&self, index_access: &T) -> (len: u64)
        requires
            counter_readable(index_access.entries()),
        ensures
            len == pool_len(index_access.entries()),
    {
        self.checked_len(index_access).unwrap()
    }

    /// Sets the counter to `len`.
    pub fn set_len<T: IndexAccess>(&self, index_access: &mut T, len: u64)
        ensures
            final(index_access).entries() == pool_put(
                old(index_access).entries(),
                counter_key(),
                le_bytes(len as nat, 8),
            ),
    {
        proof {
            use_type_invariant(self);
        }
        let key: Vec<u8> = Vec::new();
        let mut value: Vec<u8> = Vec::new();
        stream_write_u64(&mut value, len);
        index_access.put(&self.address, key.as_slice(), value);
    }

    /// What the pool holds under `index_name`: nothing, a record, or the
    /// reason why the bytes found there stand for no record.
    pub fn find<T: IndexAccess, V: BinaryAttribute>(
        &self,
        index_access: &T,
        index_name: &[u8],
    ) -> (found: Option<Result<IndexMetadata<V>, MetadataError>>)
        ensures
            found == stored::<V>(index_access.entries(), index_name@),
    {
        proof {
            use_type_invariant(self);
        }
        match index_access.get(&self.address, index_name) {
            Some(bytes) => Some(IndexMetadata::<V>::from_bytes(Cow::Owned(bytes))),
            None => None,
        }
    }

    /// The record kept under `index_name`, or `None` where no index was
    /// created under it. Bytes that stand for no record must not be there.
    pub fn index_metadata<T: IndexAccess, V: BinaryAttribute>(
        &self,
        index_access: &T,
        index_name: &[u8],
    ) -> (metadata: Option<IndexMetadata<V>>)
        requires
            stored::<V>(index_access.entries(), index_name@) matches Some(read) ==> read is Ok,
        ensures
            match metadata {
                Some(found) => stored::<V>(index_access.entries(), index_name@) == Some(
                    Ok::<IndexMetadata<V>, MetadataError>(found),
                ),
                None => stored::<V>(index_access.entries(), index_name@).is_none(),
            },
    {
        proof {
            use_type_invariant(self);
        }
        match index_access.get(&self.address, index_name) {
            Some(bytes) => IndexMetadata::<V>::from_bytes(Cow::Owned(bytes)).ok(),
            None => None,
        }
    }

    /// Puts `metadata` under `index_name`, in place of what was there.
    pub fn put_index_metadata<T: IndexAccess, V: BinaryAttribute>(
        &self,
        index_access: &mut T,
        index_name: &[u8],
        metadata: &IndexMetadata<V>,
    )
        ensures
            final(index_access).entries() == pool_put(
                old(index_access).entries(),
                index_name@,
                metadata.encoding(),
            ),
    {
        proof {
            use_type_invariant(self);
        }
        index_access.put(&self.address, index_name, metadata.to_bytes());
    }

    /// Creates the record of a new index under `index_name`: it takes the
    /// counter's value for its identifier and the default state, is put under
    /// the name, and the counter goes up by one.
    pub fn create_index_metadata<T: IndexAccess, V: BinaryAttribute + Default>(
        &self,
        index_access: &mut T,
        index_name: &[u8],
        index_type: IndexType,
    ) -> (metadata: IndexMetadata<V>)
        requires
            counter_readable(old(index_access).entries()),
            pool_len(old(index_access).entries()) < u64::MAX,
        ensures
            call_ensures(V::default, (), metadata.state),
            (final(index_access).entries(), metadata) == created(
                old(index_access).entries(),
                index_name@,
                index_type,
                metadata.state,
            ),
    {
        let len: u64 = self.len(index_access);
        let metadata = IndexMetadata { index_type, identifier: len, state: V::default() };
        self.put_index_metadata(index_access, index_name, &metadata);
        self.set_len(index_access, len + 1);
        metadata
    }
}

} // verus!
