//! Finding the record of a named index, or creating it on first use.

use vstd::prelude::*;
use crate::views::access::{Entries, IndexAccess};
use crate::views::address::{index_name_of, IndexAddress};
use crate::views::attribute::BinaryAttribute;
use crate::views::error::MetadataError;
use crate::views::metadata::{IndexMetadata, IndexType};
use crate::views::pool::{
    counter_key, counter_readable, created, pool_len, pool_put, stored, IndexesPool,
};
use crate::views::state::IndexState;

verus! {

/// Why the record of an index can neither be found nor created.
#[derive(Debug, Clone, Copy, PartialEq, Eq, Structural)]
pub enum ResolveError {
    /// The bytes kept under the name stand for no record.
    Corrupted(MetadataError),
    /// The index was created with another kind than the one asked for.
    TypeMismatch { stored: IndexType, requested: IndexType },
    /// The counter of the pool is shorter than the eight bytes of a number.
    CounterCorrupted,
    /// The counter of the pool has reached the largest identifier.
    CounterExhausted,
}

/// Why the index under `index_name` cannot be resolved as an index of kind
/// `index_type`, or `None` where it can.
pub open spec fn refusal<V: BinaryAttribute>(
    entries: Entries,
    index_name: Seq<u8>,
    index_type: IndexType,
) -> Option<ResolveError> {
    match stored::<V>(entries, index_name) {
        Some(Err(e)) => Some(ResolveError::Corrupted(e)),
        Some(Ok(metadata)) => if metadata.index_type != index_type {
            Some(ResolveError::TypeMismatch { stored: metadata.index_type, requested: index_type })
        } else {
            None
        },
        None => if !counter_readable(entries) {
            Some(ResolveError::CounterCorrupted)
        } else if pool_len(entries) == u64::MAX {
            Some(ResolveError::CounterExhausted)
        } else {
            None
        },
    }
}

/// Whether the index under `index_name` can be resolved as an index of kind
/// `index_type`: its record is there and has that kind, or it is not there
/// and the counter can give it an identifier.
pub open spec fn resolvable<V: BinaryAttribute>(
    entries: Entries,
    index_name: Seq<u8>,
    index_type: IndexType,
) -> bool {
    refusal::<V>(entries, index_name, index_type).is_none()
}

/// The store and the record after the index under `index_name` is resolved:
/// the record found there and the store as it was, or else the record and the
/// store of a creation with the state `fresh`.
pub open spec fn resolved<V: BinaryAttribute>(
    entries: Entries,
    index_name: Seq<u8>,
    index_type: IndexType,
    fresh: V,
) -> (Entries, IndexMetadata<V>) {
    match stored::<V>(entries, index_name) {
        Some(Ok(metadata)) => (entries, metadata),
        _ => created(entries, index_name, index_type, fresh),
    }
}

/// Whether `resolution` is what resolving the index at `index_address` as an
/// index of kind `index_type` hands out, when it takes the store from `before`
/// to `after`: a handle that holds the index name and the record found or
/// created, and the address made from the identifier of the record. A record
/// that was created has a default state.
pub open spec fn is_resolution<V: BinaryAttribute + Default>(
    before: Entries,
    after: Entries,
    index_address: IndexAddress,
    index_type: IndexType,
    resolution: (IndexAddress, IndexState<V>),
) -> bool {
    let index_name = index_name_of(index_address@);
    let metadata = resolution.1.metadata();
    &&& resolution.1.index_name() == index_name
    &&& resolution.0@ == IndexMetadata::<V>::address_of(metadata.identifier)
    &&& (after, metadata) == resolved(before, index_name, index_type, metadata.state)
    &&& stored::<V>(before, index_name).is_none() ==> call_ensures(
        V::default,
        (),
        metadata.state,
    )
}

/// What is handed out for the record `metadata` of the index registered
/// under `index_name`: the address of its content and a handle on its state.
fn resolution<V>(index_name: Vec<u8>, metadata: IndexMetadata<V>) -> (resolution: (
    IndexAddress,
    IndexState<V>,
))
    ensures
        resolution.0@ == IndexMetadata::<V>::address_of(metadata.identifier),
        resolution.1.index_name() == index_name@,
        resolution.1.metadata() == metadata,
{
    let index_address = metadata.index_address();
    let index_state = IndexState::new(index_name, metadata);
    (index_address, index_state)
}

/// Resolves the index at `index_address` as an index of kind `index_type`.
///
/// The record of the index is looked up in the pool under the index name of
/// the address, and created there if this is the first time the name is
/// used. The answer is the address under which the content of the index is
/// stored, made from the identifier, and a handle on the state of the index.
///
/// The index must be resolvable: a record found under the name has the kind
/// asked for. [`try_index_metadata`] asks for nothing and reports instead.
pub fn index_metadata<T, V>(
    index_access: &mut T,
    index_address: &IndexAddress,
    index_type: IndexType,
) -> (resolution: (IndexAddress, IndexState<V>)) where
    T: IndexAccess,
    V: BinaryAttribute + Copy + Default,

    requires
        resolvable::<V>(old(index_access).entries(), index_name_of(index_address@), index_type),
    ensures
        is_resolution(
            old(index_access).entries(),
            final(index_access).entries(),
            *index_address,
            index_type,
            resolution,
        ),
{
    let index_name: Vec<u8> = index_address.index_name();
    let pool = IndexesPool::new();
    let metadata: IndexMetadata<V> = match pool.index_metadata(
        index_access,
        index_name.as_slice(),
    ) {
        Some(metadata) => metadata,
        None => pool.create_index_metadata(index_access, index_name.as_slice(), index_type),
    };
    resolution(index_name, metadata)
}

/// Resolves the index at `index_address` as [`index_metadata`] does where it
/// can be resolved, and says why where it cannot; the store is then left as
/// it was.
pub fn try_index_metadata<T, V>(
    index_access: &mut T,
    index_address: &IndexAddress,
    index_type: IndexType,
) -> (result: Result<(IndexAddress, IndexState<V>), ResolveError>) where
    T: IndexAccess,
    V: BinaryAttribute + Copy + Default,

    ensures
        match result {
            Ok(resolution) => resolvable::<V>(
                old(index_access).entries(),
                index_name_of(index_address@),
                index_type,
            ) && is_resolution(
                old(index_access).entries(),
                final(index_access).entries(),
                *index_address,
                index_type,
                resolution,
            ),
            Err(e) => refusal::<V>(
                old(index_access).entries(),
                index_name_of(index_address@),
                index_type,
            ) == Some(e) && final(index_access).entries() == old(index_access).entries(),
        },
{
    let index_name: Vec<u8> = index_address.index_name();
    let pool = IndexesPool::new();
    let metadata: IndexMetadata<V> = match pool.find(index_access, index_name.as_slice()) {
        Some(Err(e)) => return Err(ResolveError::Corrupted(e)),
        Some(Ok(metadata)) => {
            if metadata.index_type != index_type {
                return Err(
                    ResolveError::TypeMismatch {
                        stored: metadata.index_type,
                        requested: index_type,
                    },
                );
            }
            metadata
        },
        None => match pool.checked_len(index_access) {
            None => return Err(ResolveError::CounterCorrupted),
            Some(len) => {
                if len == u64::MAX {
                    return Err(ResolveError::CounterExhausted);
                }
                pool.create_index_metadata(index_access, index_name.as_slice(), index_type)
            },
        },
    };
    Ok(resolution(index_name, metadata))
}

/// Resolving an index a second time finds the record of the first time and
/// changes nothing: the identifier is the same, the store is the same, and
/// the counter has not moved.
///
/// This holds of every index name but the empty one, which is the key of the
/// counter, and of every new state whose length fits the length field of a
/// record.
pub proof fn lemma_resolving_twice<V: BinaryAttribute>(
    entries: Entries,
    index_name: Seq<u8>,
    index_type: IndexType,
    fresh: V,
    again: V,
)
    requires
        resolvable::<V>(entries, index_name, index_type),
        index_name != counter_key(),
        fresh.encoding().len() <= u32::MAX,
    ensures
        ({
            let (first_entries, first) = resolved(entries, index_name, index_type, fresh);
            let (second_entries, second) = resolved(first_entries, index_name, index_type, again);
            &&& resolvable::<V>(first_entries, index_name, index_type)
            &&& second.identifier == first.identifier
            &&& second == first
            &&& second_entries == first_entries
            &&& pool_len(second_entries) == pool_len(first_entries)
        }),
{
    let (first_entries, first) = resolved(entries, index_name, index_type, fresh);
    if stored::<V>(entries, index_name).is_none() {
        first.lemma_round_trip();
        assert(index_name.len() != 0) by {
            if index_name.len() == 0 {
                assert(index_name =~= counter_key());
            }
        }
        assert(stored::<V>(first_entries, index_name) == Some(
            Ok::<IndexMetadata<V>, MetadataError>(first),
        ));
    }
}

/// Once an index is resolved its kind is settled: the record kept under its
/// name has the kind it was resolved as, resolving it again as the same kind
/// is possible, and as any other kind it is refused as a mismatch of the two
/// kinds. Such a call is left out by the precondition of [`index_metadata`];
/// [`try_index_metadata`] answers it with the mismatch and leaves the store,
/// and with it the record and the counter, as they were.
///
/// The index name and the new state are limited as in [`lemma_resolving_twice`].
pub proof fn lemma_kind_is_settled<V: BinaryAttribute>(
    entries: Entries,
    index_name: Seq<u8>,
    index_type: IndexType,
    fresh: V,
    other: IndexType,
)
    requires
        resolvable::<V>(entries, index_name, index_type),
        index_name != counter_key(),
        fresh.encoding().len() <= u32::MAX,
    ensures
        ({
            let (after, first) = resolved(entries, index_name, index_type, fresh);
            &&& first.index_type == index_type
            &&& stored::<V>(after, index_name) == Some(
                Ok::<IndexMetadata<V>, MetadataError>(first),
            )
            &&& resolvable::<V>(after, index_name, other) <==> other == index_type
            &&& other != index_type ==> refusal::<V>(after, index_name, other) == Some(
                ResolveError::TypeMismatch { stored: index_type, requested: other },
            )
        }),
{
    lemma_resolving_twice(entries, index_name, index_type, fresh, fresh);
    let (after, first) = resolved(entries, index_name, index_type, fresh);
    if stored::<V>(entries, index_name).is_none() {
        first.lemma_round_trip();
    }
}

/// A state that a handle has set is what a later resolution of the same name
/// finds: the record put in the store is read back, whatever the store held
/// before, provided the length of the state fits the length field of a record.
pub proof fn lemma_set_is_found<V: BinaryAttribute>(
    entries: Entries,
    index_name: Seq<u8>,
    metadata: IndexMetadata<V>,
    state: V,
    fresh: V,
)
    requires
        state.encoding().len() <= u32::MAX,
    ensures
        ({
            let written = IndexMetadata { state, ..metadata };
            let after = pool_put(entries, index_name, written.encoding());
            &&& stored::<V>(after, index_name) == Some(
                Ok::<IndexMetadata<V>, MetadataError>(written),
            )
            &&& resolvable::<V>(after, index_name, metadata.index_type)
            &&& resolved(after, index_name, metadata.index_type, fresh) == (after, written)
        }),
{
    let written = IndexMetadata { state, ..metadata };
    written.lemma_round_trip();
}

} // verus!
