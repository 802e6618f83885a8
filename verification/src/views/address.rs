//! Addresses of storage scopes: a name and, optionally, further bytes.

use vstd::prelude::*;
use vstd::std_specs::cmp::PartialEqSpecImpl;
use vstd::string::StringExecFns;
use vstd::string::StringSliceAdditionalSpecFns;

verus! {

/// What an [`IndexAddress`] holds.
pub struct AddressView {
    /// The name of the scope.
    pub name: Seq<char>,
    /// The bytes that tell scopes of one name apart, if any were appended.
    pub bytes: Option<Seq<u8>>,
}

/// The key under which an index with the given address is registered: the
/// UTF-8 bytes of the name, followed where the address carries bytes by a zero
/// byte and those bytes.
pub open spec fn index_name_of(address: AddressView) -> Seq<u8> {
    match address.bytes {
        Some(bytes) => vstd::utf8::encode_utf8(address.name) + seq![0u8] + bytes,
        None => vstd::utf8::encode_utf8(address.name),
    }
}

/// The address of a storage scope.
#[derive(Debug, Clone)]
pub struct IndexAddress {
    name: String,
    bytes: Option<Vec<u8>>,
}

impl View for IndexAddress {
    type V = AddressView;

    closed spec fn view(&self) -> AddressView {
        AddressView {
            name: self.name@,
            bytes: match self.bytes {
                Some(bytes) => Some(bytes@),
                None => None,
            },
        }
    }
}

impl IndexAddress {
    /// The address with an empty name and no bytes.
    pub fn new() -> (address: Self)
        ensures
            address@ == (AddressView { name: Seq::empty(), bytes: None }),
    {
        IndexAddress { name: String::new(), bytes: None }
    }

    /// The address with the given name and no bytes.
    pub fn with_root(root: &str) -> (address: Self)
        ensures
            address@ == (AddressView { name: root@, bytes: None }),
    {
        IndexAddress { name: String::from_str(root), bytes: None }
    }

    /// The name of the scope.
    pub fn name(&self) -> (name: &str)
        ensures
            name@ == self@.name,
    {
        self.name.as_str()
    }

    /// The bytes appended to the address, if any.
    pub fn bytes(&self) -> (bytes: Option<&[u8]>)
        ensures
            match bytes {
                Some(b) => self@.bytes == Some(b@),
                None => self@.bytes.is_none(),
            },
    {
        match &self.bytes {
            Some(bytes) => Some(bytes.as_slice()),
            None => None,
        }
    }

    /// The address with `suffix` appended to its bytes.
    pub fn append_bytes(self, suffix: &[u8]) -> (address: Self)
        ensures
            address@.name == self@.name,
            address@.bytes == Some(
                match self@.bytes {
                    Some(bytes) => bytes + suffix@,
                    None => suffix@,
                },
            ),
    {
        let IndexAddress { name, bytes } = self;
        let mut joined: Vec<u8> = match bytes {
            Some(bytes) => bytes,
            None => Vec::new(),
        };
        joined.extend_from_slice(suffix);
        IndexAddress { name, bytes: Some(joined) }
    }

    /// The key under which the index at this address is registered.
    pub fn index_name(&self) -> (key: Vec<u8>)
        ensures
            key@ == index_name_of(self@),
    {
        let mut key: Vec<u8> = Vec::new();
        key.extend_from_slice(self.name.as_str().as_bytes());
        match &self.bytes {
            Some(bytes) => {
                key.push(0);
                key.extend_from_slice(bytes.as_slice());
            },
            None => {},
        }
        key
    }
}

impl PartialEq for IndexAddress {
    /// Whether the two addresses have the same name and the same bytes.
    fn eq(&self, other: &IndexAddress) -> (equal: bool) {
        let equal = self.name == other.name && self.bytes == other.bytes;
        proof {
            if self.bytes.is_some() && other.bytes.is_some() {
                let a = self.bytes.unwrap()@;
                let b = other.bytes.unwrap()@;
                assert(a =~= b <==> a == b);
            }
        }
        equal
    }
}

impl PartialEqSpecImpl for IndexAddress {
    open spec fn obeys_eq_spec() -> bool {
        true
    }

    open spec fn eq_spec(&self, other: &IndexAddress) -> bool {
        self@ == other@
    }
}

} // verus!
