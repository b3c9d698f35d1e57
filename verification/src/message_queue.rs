//! The registry a getter reads its response from.
//!
//! A message queue has two regions, both keyed by name: the responses that
//! the network has delivered, and a local cache of responses that were handed
//! out before and cannot have changed since.

use crate::data::{Data, NameType};
use crate::errors::CoreError;
use vstd::prelude::*;

verus! {

/// The contents of a message queue: for each region, the payload bytes filed
/// under the bytes of each name.
pub struct QueueView {
    /// What the network has delivered.
    pub responses: Map<Seq<u8>, Seq<u8>>,
    /// What has been memoized locally.
    pub local_cache: Map<Seq<u8>, Seq<u8>>,
}

/// What a region answers when asked for `name`: the payload filed under it,
/// or `NotFound` when there is none.
pub open spec fn lookup(region: Map<Seq<u8>, Seq<u8>>, name: Seq<u8>) -> Result<
    Seq<u8>,
    CoreError,
> {
    if region.contains_key(name) {
        Ok(region[name])
    } else {
        Err(CoreError::NotFound)
    }
}

/// A lookup result with its payload replaced by the payload's bytes.
pub open spec fn outcome_view(outcome: Result<Data, CoreError>) -> Result<Seq<u8>, CoreError> {
    match outcome {
        Ok(data) => Ok(data@),
        Err(error) => Err(error),
    }
}

impl QueueView {
    /// The queue with nothing in either region.
    pub open spec fn empty() -> QueueView {
        QueueView { responses: Map::empty(), local_cache: Map::empty() }
    }

    /// The delivered response under `name`.
    pub open spec fn get_response(self, name: Seq<u8>) -> Result<Seq<u8>, CoreError> {
        lookup(self.responses, name)
    }

    /// The cached response under `name`.
    pub open spec fn local_cache_get(self, name: Seq<u8>) -> Result<Seq<u8>, CoreError> {
        lookup(self.local_cache, name)
    }

    /// The queue after `data` has been delivered under `name`.
    pub open spec fn insert_response(self, name: Seq<u8>, data: Seq<u8>) -> QueueView {
        QueueView { responses: self.responses.insert(name, data), local_cache: self.local_cache }
    }

    /// The queue after `data` has been cached under `name`.
    pub open spec fn local_cache_insert(self, name: Seq<u8>, data: Seq<u8>) -> QueueView {
        QueueView { responses: self.responses, local_cache: self.local_cache.insert(name, data) }
    }
}

/// One payload filed under one name.
struct Entry {
    name: NameType,
    data: Data,
}

/// Whether `entries[i]` is filed under `name`.
spec fn filed_at(entries: Seq<Entry>, name: Seq<u8>, i: int) -> bool {
    0 <= i < entries.len() && entries[i].name@ == name
}

/// No two entries are filed under the same name.
spec fn distinct(entries: Seq<Entry>) -> bool {
    forall|i: int, j: int|
        0 <= i < j < entries.len() ==> #[trigger] entries[i].name@ != #[trigger] entries[j].name@
}

/// The map that a list of entries stands for.
spec fn region(entries: Seq<Entry>) -> Map<Seq<u8>, Seq<u8>> {
    Map::new(
        |name: Seq<u8>| exists|i: int| filed_at(entries, name, i),
        |name: Seq<u8>| entries[choose|i: int| filed_at(entries, name, i)].data@,
    )
}

/// In a list without repeated names, the entry at `i` is what the region
/// holds under that entry's name.
proof fn lemma_region_at(entries: Seq<Entry>, i: int)
    requires
        distinct(entries),
        0 <= i < entries.len(),
    ensures
        region(entries).contains_key(entries[i].name@),
        region(entries)[entries[i].name@] == entries[i].data@,
{
    let name = entries[i].name@;
    assert(filed_at(entries, name, i));
    let k = choose|k: int| filed_at(entries, name, k);
    assert(k == i);
}

/// A name under which no entry is filed is not in the region.
proof fn lemma_region_absent(entries: Seq<Entry>, name: Seq<u8>)
    requires
        forall|i: int| 0 <= i < entries.len() ==> entries[i].name@ != name,
    ensures
        !region(entries).contains_key(name),
{
    assert forall|i: int| !filed_at(entries, name, i) by {}
}

/// Replacing the entry filed under a name inserts the new payload under it.
proof fn lemma_region_update(entries: Seq<Entry>, i: int, entry: Entry)
    requires
        distinct(entries),
        0 <= i < entries.len(),
        entries[i].name@ == entry.name@,
    ensures
        distinct(entries.update(i, entry)),
        region(entries.update(i, entry)) == region(entries).insert(entry.name@, entry.data@),
{
    let after = entries.update(i, entry);
    assert(distinct(after)) by {
        assert forall|a: int, b: int| 0 <= a < b < after.len() implies #[trigger] after[a].name@
            != #[trigger] after[b].name@ by {
            assert(after[a].name@ == entries[a].name@);
            assert(after[b].name@ == entries[b].name@);
        }
    }
    let expected = region(entries).insert(entry.name@, entry.data@);
    assert forall|name: Seq<u8>| region(after).contains_key(name) == expected.contains_key(
        name,
    ) by {
        if region(after).contains_key(name) {
            let k = choose|k: int| filed_at(after, name, k);
            assert(filed_at(entries, entries[k].name@, k));
        }
        if region(entries).contains_key(name) {
            let k = choose|k: int| filed_at(entries, name, k);
            assert(filed_at(after, name, k));
        }
        assert(filed_at(after, entry.name@, i));
    }
    assert forall|name: Seq<u8>| region(after).contains_key(name) implies region(after)[name]
        == expected[name] by {
        let k = choose|k: int| filed_at(after, name, k);
        lemma_region_at(after, k);
        if k != i {
            lemma_region_at(entries, k);
        }
    }
    assert(region(after) =~= expected);
}

/// Appending an entry under a name that is not filed yet inserts its payload
/// under that name.
proof fn lemma_region_push(entries: Seq<Entry>, entry: Entry)
    requires
        distinct(entries),
        forall|i: int| 0 <= i < entries.len() ==> entries[i].name@ != entry.name@,
    ensures
        distinct(entries.push(entry)),
        region(entries.push(entry)) == region(entries).insert(entry.name@, entry.data@),
{
    let after = entries.push(entry);
    let last = entries.len() as int;
    assert(distinct(after)) by {
        assert forall|a: int, b: int| 0 <= a < b < after.len() implies #[trigger] after[a].name@
            != #[trigger] after[b].name@ by {
            assert(after[a] == entries[a]);
            if b < last {
                assert(after[b] == entries[b]);
            }
        }
    }
    let expected = region(entries).insert(entry.name@, entry.data@);
    assert forall|name: Seq<u8>| region(after).contains_key(name) == expected.contains_key(
        name,
    ) by {
        if region(after).contains_key(name) {
            let k = choose|k: int| filed_at(after, name, k);
            if k < last {
                assert(filed_at(entries, name, k));
            }
        }
        if region(entries).contains_key(name) {
            let k = choose|k: int| filed_at(entries, name, k);
            assert(filed_at(after, name, k));
        }
        assert(filed_at(after, entry.name@, last));
    }
    assert forall|name: Seq<u8>| region(after).contains_key(name) implies region(after)[name]
        == expected[name] by {
        let k = choose|k: int| filed_at(after, name, k);
        lemma_region_at(after, k);
        if k < last {
            lemma_region_at(entries, k);
        }
    }
    assert(region(after) =~= expected);
}

/// The index of the entry filed under `name`, if there is one.
fn find(entries: &Vec<Entry>, name: &NameType) -> (found: Option<usize>)
    ensures
        match found {
            Some(i) => filed_at(entries@, name@, i as int),
            None => forall|i: int| 0 <= i < entries@.len() ==> entries@[i].name@ != name@,
        },
{
    let mut i: usize = 0;
    while i < entries.len()
        invariant
            i <= entries@.len(),
            forall|j: int| 0 <= j < i ==> entries@[j].name@ != name@,
        decreases entries@.len() - i,
    {
        if entries[i].name == *name {
            return Some(i);
        }
        i += 1;
    }
    None
}

/// What a list of entries answers when asked for `name`.
fn read(entries: &Vec<Entry>, name: &NameType) -> (outcome: Result<Data, CoreError>)
    requires
        distinct(entries@),
    ensures
        outcome_view(outcome) == lookup(region(entries@), name@),
{
    match find(entries, name) {
        Some(i) => {
            proof {
                lemma_region_at(entries@, i as int);
            }
            Ok(entries[i].data.clone())
        },
        None => {
            proof {
                lemma_region_absent(entries@, name@);
            }
            Err(CoreError::NotFound)
        },
    }
}

/// Files `data` under `name`, in place of what was filed there before.
fn write(entries: &mut Vec<Entry>, name: NameType, data: Data)
    requires
        distinct(old(entries)@),
    ensures
        distinct(final(entries)@),
        region(final(entries)@) == region(old(entries)@).insert(name@, data@),
{
    let entry = Entry { name, data };
    match find(entries, &entry.name) {
        Some(i) => {
            proof {
                lemma_region_update(entries@, i as int, entry);
            }
            entries[i] = entry;
        },
        None => {
            proof {
                lemma_region_push(entries@, entry);
            }
            entries.push(entry);
        },
    }
}

/// The shared registry of delivered and cached responses.
pub struct MessageQueue {
    responses: Vec<Entry>,
    local_cache: Vec<Entry>,
}

impl View for MessageQueue {
    type V = QueueView;

    closed spec fn view(&self) -> QueueView {
        QueueView { responses: region(self.responses@), local_cache: region(self.local_cache@) }
    }
}

impl MessageQueue {
    /// Within each region no name is filed twice.
    #[verifier::type_invariant]
    spec fn well_formed(&self) -> bool {
        distinct(self.responses@) && distinct(self.local_cache@)
    }

    /// A queue with nothing delivered and nothing cached.
    pub fn new() -> (queue: MessageQueue)
        ensures
            queue@ == QueueView::empty(),
    {
        let queue = MessageQueue { responses: Vec::new(), local_cache: Vec::new() };
        assert(queue@.responses =~= Map::empty());
        assert(queue@.local_cache =~= Map::empty());
        queue
    }

    /// Files a response that the network delivered under `name`, in place of
    /// an earlier one under that name. The cache is left as it is.
    pub fn insert_response(&mut self, name: NameType, data: Data)
        ensures
            final(self)@ == old(self)@.insert_response(name@, data@),
    {
        proof {
            use_type_invariant(&*self);
        }
        let mut entries = Vec::new();
        std::mem::swap(&mut entries, &mut self.responses);
        write(&mut entries, name, data);
        self.responses = entries;
    }

    /// The delivered response under `name`, or `NotFound`.
    pub fn get_response(&self, name: &NameType) -> (outcome: Result<Data, CoreError>)
        ensures
            outcome_view(outcome) == self@.get_response(name@),
    {
        proof {
            use_type_invariant(self);
        }
        read(&self.responses, name)
    }

    /// Caches `data` under `name`, in place of what was cached there before.
    /// The delivered responses are left as they are.
    pub fn local_cache_insert(&mut self, name: NameType, data: Data)
        ensures
            final(self)@ == old(self)@.local_cache_insert(name@, data@),
    {
        proof {
            use_type_invariant(&*self);
        }
        let mut entries = Vec::new();
        std::mem::swap(&mut entries, &mut self.local_cache);
        write(&mut entries, name, data);
        self.local_cache = entries;
    }

    /// The cached response under `name`, or `NotFound`.
    pub fn local_cache_get(&self, name: &NameType) -> (outcome: Result<Data, CoreError>)
        ensures
            outcome_view(outcome) == self@.local_cache_get(name@),
    {
        proof {
            use_type_invariant(self);
        }
        read(&self.local_cache, name)
    }
}

} // verus!
