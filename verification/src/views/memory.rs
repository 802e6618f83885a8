//! A store kept in memory.

use vstd::prelude::*;
use vstd::slice::slice_to_vec;
use crate::views::access::{lookup, Entries, IndexAccess};
use crate::views::address::IndexAddress;

verus! {

/// One `put`: the scope, the key and the bytes put there.
struct Record {
    address: IndexAddress,
    key: Vec<u8>,
    value: Vec<u8>,
}

/// What a store holds after the puts of `log`, made in order: a later put
/// under a key takes the place of an earlier one.
spec fn replay(log: Seq<Record>) -> Entries
    decreases log.len(),
{
    if log.len() == 0 {
        Map::empty()
    } else {
        let last = log.last();
        replay(log.drop_last()).insert((last.address@, last.key@), last.value@)
    }
}

/// Whether two slices hold the same bytes.
fn same_bytes(a: &[u8], b: &[u8]) -> (same: bool)
    ensures
        same == (a@ == b@),
{
    if a.len() != b.len() {
        return false;
    }
    let mut i: usize = 0;
    while i < a.len()
        invariant
            i <= a@.len(),
            a@.len() == b@.len(),
            a@.subrange(0, i as int) == b@.subrange(0, i as int),
        decreases a@.len() - i,
    {
        if a[i] != b[i] {
            return false;
        }
        assert(a@.subrange(0, i + 1) =~= a@.subrange(0, i as int).push(a@[i as int]));
        assert(b@.subrange(0, i + 1) =~= b@.subrange(0, i as int).push(b@[i as int]));
        i += 1;
    }
    assert(a@ =~= a@.subrange(0, i as int));
    assert(b@ =~= b@.subrange(0, i as int));
    true
}

/// A store that keeps every `put` in memory, in the order they were made.
///
/// It answers a `get` with the latest put under the key. It is meant for
/// trying the registry out without a database behind it.
pub struct MemoryStorage {
    log: Vec<Record>,
}

impl MemoryStorage {
    /// A store that holds nothing.
    pub fn new() -> (storage: Self)
        ensures
            storage.entries() == Entries::empty(),
    {
        MemoryStorage { log: Vec::new() }
    }
}

impl IndexAccess for MemoryStorage {
    closed spec fn entries(&self) -> Entries {
        replay(self.log@)
    }

    fn get(&self, address: &IndexAddress, key: &[u8]) -> (value: Option<Vec<u8>>) {
        let mut i: usize = self.log.len();
        assert(self.log@.subrange(0, i as int) =~= self.log@);
        while i > 0
            invariant
                i <= self.log@.len(),
                lookup(replay(self.log@), address@, key@) == lookup(
                    replay(self.log@.subrange(0, i as int)),
                    address@,
                    key@,
                ),
            decreases i,
        {
            let ghost prefix = self.log@.subrange(0, i as int);
            assert(prefix.drop_last() =~= self.log@.subrange(0, i - 1));
            assert(prefix.last() == self.log@[i - 1]);
            i -= 1;
            let record = &self.log[i];
            if record.address == *address && same_bytes(record.key.as_slice(), key) {
                return Some(slice_to_vec(record.value.as_slice()));
            }
        }
        None
    }

    fn put(&mut self, address: &IndexAddress, key: &[u8], value: Vec<u8>) {
        let scope = IndexAddress::with_root(address.name());
        let scope = match address.bytes() {
            Some(bytes) => scope.append_bytes(bytes),
            None => scope,
        };
        assert(scope@ == address@) by {
            if address@.bytes.is_some() {
                assert(scope@.bytes.unwrap() =~= address@.bytes.unwrap());
            }
        }
        let ghost before = self.log@;
        self.log.push(Record { address: scope, key: slice_to_vec(key), value });
        assert(self.log@.drop_last() =~= before);
    }
}

} // verus!
