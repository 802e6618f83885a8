//! The key-value store that the registry is kept in.

use vstd::prelude::*;
use crate::views::address::{AddressView, IndexAddress};

verus! {

/// What a store holds: the bytes last put under each key of each scope.
pub type Entries = Map<(AddressView, Seq<u8>), Seq<u8>>;

/// The bytes found under `key` in the scope at `address`, if any.
pub open spec fn lookup(entries: Entries, address: AddressView, key: Seq<u8>) -> Option<Seq<u8>> {
    if entries.contains_key((address, key)) {
        Some(entries[(address, key)])
    } else {
        None
    }
}

/// The view of what `get` hands out.
pub open spec fn bytes_view(value: Option<Vec<u8>>) -> Option<Seq<u8>> {
    match value {
        Some(bytes) => Some(bytes@),
        None => None,
    }
}

/// Keyed access to the scopes of a store.
///
/// A store maps the keys of each scope to bytes. `get` reads the map and `put`
/// changes it at one key; an implementation over a database owes both
/// contracts to its users.
pub trait IndexAccess {
    /// The bytes last put under each key of each scope.
    spec fn entries(&self) -> Entries;

    /// The bytes under `key` in the scope at `address`, or `None` where
    /// nothing was put there.
    fn get(&self, address: &IndexAddress, key: &[u8]) -> (value: Option<Vec<u8>>)
        ensures
            bytes_view(value) == lookup(self.entries(), address@, key@),
    ;

    /// Puts `value` under `key` in the scope at `address`, in place of what was there.
    fn put(&mut self, address: &IndexAddress, key: &[u8], value: Vec<u8>)
        ensures
            final(self).entries() == old(self).entries().insert((address@, key@), value@),
    ;
}

} // verus!
