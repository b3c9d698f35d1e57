//! Names, requests and payloads as the getter and the message queue see them.

use vstd::prelude::*;

verus! {

/// Byte length of a name.
pub const NAME_TYPE_LEN: usize = 64;

/// The key under which the network files a piece of data.
///
/// Two names are equal when their bytes are; the view of a name is its bytes.
#[derive(Clone, Copy, Debug, Eq)]
pub struct NameType(pub [u8; NAME_TYPE_LEN]);

impl View for NameType {
    type V = Seq<u8>;

    open spec fn view(&self) -> Seq<u8> {
        self.0@
    }
}

impl PartialEq for NameType {
    /// Compares the two names byte by byte.
    fn eq(&self, other: &NameType) -> (equal: bool) {
        let mut i: usize = 0;
        while i < NAME_TYPE_LEN
            invariant
                i <= NAME_TYPE_LEN,
                forall|j: int| 0 <= j < i ==> self.0@[j] == other.0@[j],
            decreases NAME_TYPE_LEN - i,
        {
            if self.0[i] != other.0[i] {
                return false;
            }
            i += 1;
        }
        assert(self.0@ =~= other.0@);
        true
    }
}

impl vstd::std_specs::cmp::PartialEqSpecImpl for NameType {
    open spec fn obeys_eq_spec() -> bool {
        true
    }

    open spec fn eq_spec(&self, other: &NameType) -> bool {
        self@ == other@
    }
}

impl NameType {
    /// Wraps the bytes of a name.
    pub fn new(id: [u8; NAME_TYPE_LEN]) -> (name: NameType)
        ensures
            name@ == id@,
    {
        NameType(id)
    }

    /// The bytes of the name.
    pub fn get_id(&self) -> (id: [u8; NAME_TYPE_LEN])
        ensures
            id@ == self@,
    {
        self.0
    }
}

/// The payload of a response, as the network delivered it.
#[derive(Debug, PartialEq, Eq)]
pub struct Data {
    value: Vec<u8>,
}

impl View for Data {
    type V = Seq<u8>;

    closed spec fn view(&self) -> Seq<u8> {
        self.value@
    }
}

impl Clone for Data {
    fn clone(&self) -> (copy: Data)
        ensures
            copy@ == self@,
    {
        Data { value: self.value.clone() }
    }
}

impl Data {
    /// Wraps the bytes of a response.
    pub fn new(value: Vec<u8>) -> (data: Data)
        ensures
            data@ == value@,
    {
        Data { value }
    }

    /// The bytes of the response.
    pub fn value(&self) -> (value: &Vec<u8>)
        ensures
            value@ == self@,
    {
        &self.value
    }
}

/// The replication class of a piece of immutable data.
#[derive(Clone, Copy, Debug, PartialEq, Eq, Structural)]
pub enum ImmutableDataType {
    /// The primary copy.
    Normal,
    /// The first fallback copy.
    Backup,
    /// The copy that may be given up when space runs short.
    Sacrificial,
}

/// What a client asks the network for.
///
/// Every request carries the name under which its response is filed. For
/// structured data that is the name the network resolved from the identifier
/// and the tag, not the identifier itself.
#[derive(Clone, Copy, Debug, PartialEq, Eq)]
pub enum DataRequest {
    /// Structured data, by its resolved name and its type tag. The content
    /// under such a name may change over time.
    StructuredData(NameType, u64),
    /// Immutable data, by its name and replication class. The content under
    /// such a name never changes and is the same everywhere.
    ImmutableData(NameType, ImmutableDataType),
    /// Plain data, by its name. The content under such a name may change
    /// over time.
    PlainData(NameType),
}

impl DataRequest {
    /// The name under which the response to this request is filed.
    pub open spec fn spec_name(&self) -> NameType {
        match *self {
            DataRequest::StructuredData(name, _) => name,
            DataRequest::ImmutableData(name, _) => name,
            DataRequest::PlainData(name) => name,
        }
    }

    /// Whether a response to this request may be kept in a local cache:
    /// exactly when the request is for immutable data.
    pub open spec fn spec_is_cacheable(&self) -> bool {
        *self is ImmutableData
    }

    /// The name under which the response to this request is filed.
    #[verifier::when_used_as_spec(spec_name)]
    pub fn name(&self) -> (name: NameType)
        ensures
            name == self.spec_name(),
    {
        match *self {
            DataRequest::StructuredData(name, _) => name,
            DataRequest::ImmutableData(name, _) => name,
            DataRequest::PlainData(name) => name,
        }
    }

    /// Whether a response to this request may be kept in a local cache.
    #[verifier::when_used_as_spec(spec_is_cacheable)]
    pub fn is_cacheable(&self) -> (cacheable: bool)
        ensures
            cacheable == self.spec_is_cacheable(),
    {
        match *self {
            DataRequest::ImmutableData(_, _) => true,
            _ => false,
        }
    }
}

} // verus!
