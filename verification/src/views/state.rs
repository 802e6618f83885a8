//! The handle through which the state of one index is read and changed.

use vstd::prelude::*;
use crate::views::access::IndexAccess;
use crate::views::attribute::BinaryAttribute;
use crate::views::metadata::IndexMetadata;
use crate::views::pool::{pool_put, IndexesPool};

verus! {

/// The state of one index, as its holder last knew it.
///
/// The handle keeps a copy of the record of the index. `get` answers from the
/// copy alone, and `set` changes the copy and the store together. A handle
/// never looks at the store again: what another handle of the same index
/// puts there does not reach it.
#[derive(Debug)]
pub struct IndexState<V> {
    index_name: Vec<u8>,
    cache: IndexMetadata<V>,
}

impl<V> IndexState<V> {
    /// The key under which the record is kept in the pool.
    pub closed spec fn index_name(&self) -> Seq<u8> {
        self.index_name@
    }

    /// The record as the handle knows it.
    pub closed spec fn metadata(&self) -> IndexMetadata<V> {
        self.cache
    }

    /// A handle for the index registered under `index_name` with the record `metadata`.
    pub fn new(index_name: Vec<u8>, metadata: IndexMetadata<V>) -> (handle: Self)
        ensures
            handle.index_name() == index_name@,
            handle.metadata() == metadata,
    {
        IndexState { index_name, cache: metadata }
    }
}

impl<V: BinaryAttribute + Default + Copy> IndexState<V> {
    /// The state as the handle knows it.
    pub fn get(&self) -> (state: V)
        ensures
            state == self.metadata().state,
    {
        self.cache.state
    }

    /// Changes the state: in the handle, and in the store, where the whole
    /// record is written anew under the name of the index.
    pub fn set<T: IndexAccess>(&mut self, index_access: &mut T, state: V)
        ensures
            final(self).index_name() == old(self).index_name(),
            final(self).metadata() == (IndexMetadata { state, ..old(self).metadata() }),
            final(index_access).entries() == pool_put(
                old(index_access).entries(),
                old(self).index_name(),
                final(self).metadata().encoding(),
            ),
    {
        self.cache.state = state;
        IndexesPool::new().put_index_metadata(
            index_access,
            self.index_name.as_slice(),
            &self.cache,
        );
    }
}

} // verus!
