//! The crash records: the inputs that met the objective, one record for each
//! content key.

use vstd::prelude::*;

verus! {

/// The content key of an input: what `libafl_bolts::hash_std` returns for
/// its bytes.
pub uninterp spec fn content_hash(bytes: Seq<u8>) -> u64;

/// `libafl_bolts::hash_std` hashes a byte slice with XXH3 (64 bit), which
/// the crate is built with: the hash depends on the bytes alone.
pub assume_specification[ libafl_bolts::hash_std ](input: &[u8]) -> (hash: u64)
    ensures
        hash == content_hash(input@),
;

/// One crash record as the contracts see it.
pub struct CrashView {
    /// The content key of the input.
    pub key: u64,
    /// The bytes of the input.
    pub input: Seq<u8>,
}

/// Whether one of `records` has the key `key`.
pub open spec fn has_key(records: Seq<CrashView>, key: u64) -> bool {
    exists|i: int| 0 <= i < records.len() && (#[trigger] records[i]).key == key
}

/// The records after `input` met the objective: as before if its key is
/// already there, else with one more record, for `input` under its key.
pub open spec fn recorded(records: Seq<CrashView>, input: Seq<u8>) -> Seq<CrashView> {
    if has_key(records, content_hash(input)) {
        records
    } else {
        records.push(CrashView { key: content_hash(input), input })
    }
}

/// Every record stands under the key of its own input, and no two records
/// share a key.
pub open spec fn keyed_once(records: Seq<CrashView>) -> bool {
    &&& forall|i: int|
        0 <= i < records.len() ==> (#[trigger] records[i]).key == content_hash(records[i].input)
    &&& forall|i: int, j: int|
        0 <= i < j < records.len() ==> (#[trigger] records[i]).key != (#[trigger] records[j]).key
}

/// One crash record: an input that met the objective, under its content
/// key.
struct CrashRecord {
    key: u64,
    input: Vec<u8>,
}

impl CrashRecord {
    /// The record as the contracts see it.
    pub closed spec fn view(&self) -> CrashView {
        CrashView { key: self.key, input: self.input@ }
    }
}

/// The store of crash records.
pub struct CrashStore {
    records: Vec<CrashRecord>,
}

impl CrashStore {
    /// The records, oldest first.
    pub closed spec fn view(&self) -> Seq<CrashView> {
        Seq::new(self.records@.len(), |i: int| self.records@[i]@)
    }

    /// Every record stands under the key of its own input, and no two
    /// records share a key.
    pub open spec fn well_formed(&self) -> bool {
        keyed_once(self@)
    }

    /// Makes an empty store.
    pub fn new() -> (store: CrashStore)
        ensures
            store@ == Seq::<CrashView>::empty(),
            store.well_formed(),
    {
        let store = CrashStore { records: Vec::new() };
        assert(store@ =~= Seq::<CrashView>::empty());
        store
    }

    /// The number of records.
    pub fn len(&self) -> (count: usize)
        ensures
            count == self@.len(),
    {
        self.records.len()
    }

    /// The key of the record at `index`, if there is one.
    pub fn key_at(&self, index: usize) -> (key: Option<u64>)
        ensures
            index < self@.len() ==> key == Some(self@[index as int].key),
            index >= self@.len() ==> key is None,
    {
        if index < self.records.len() {
            Some(self.records[index].key)
        } else {
            None
        }
    }

    /// A copy of the input of the record at `index`, if there is one.
    pub fn input_at(&self, index: usize) -> (input: Option<Vec<u8>>)
        ensures
            index < self@.len() ==> input is Some && input->Some_0@ == self@[index as int].input,
            index >= self@.len() ==> input is None,
    {
        if index < self.records.len() {
            Some(self.records[index].input.clone())
        } else {
            None
        }
    }

    /// Whether a record with the key `key` is in the store.
    pub fn contains_key(&self, key: u64) -> (found: bool)
        ensures
            found == has_key(self@, key),
    {
        let mut at: usize = 0;
        while at < self.records.len()
            invariant
                at <= self.records@.len(),
                forall|i: int| 0 <= i < at ==> (#[trigger] self@[i]).key != key,
            decreases self.records.len() - at,
        {
            if self.records[at].key == key {
                assert(self@[at as int].key == key);
                return true;
            }
            at = at + 1;
        }
        false
    }

    /// Records `input` under `key`, its content key, unless a record with
    /// that key is there already. Returns whether a record was added.
    pub fn record_keyed(&mut self, key: u64, input: Vec<u8>) -> (added: bool)
        requires
            old(self).well_formed(),
            key == content_hash(input@),
        ensures
            added == !has_key(old(self)@, key),
            final(self)@ == recorded(old(self)@, input@),
            final(self).well_formed(),
    {
        if self.contains_key(key) {
            return false;
        }
        let ghost before = self@;
        self.records.push(CrashRecord { key, input });
        proof {
            assert(self@ =~= before.push(CrashView { key, input: input@ }));
            assert forall|i: int, j: int| 0 <= i < j < self@.len() implies (#[trigger] self@[i]).key
                != (#[trigger] self@[j]).key by {
                if j == before.len() {
                    assert(before[i].key != key);
                } else {
                    assert(before[i].key != before[j].key);
                }
            }
        }
        true
    }

    /// Records `input` under its content key, unless an input with that key
    /// is recorded already. Returns the key if a record was added.
    pub fn record(&mut self, input: &Vec<u8>) -> (added: Option<u64>)
        requires
            old(self).well_formed(),
        ensures
            final(self)@ == recorded(old(self)@, input@),
            final(self).well_formed(),
            added == (if has_key(old(self)@, content_hash(input@)) {
                None
            } else {
                Some(content_hash(input@))
            }),
    {
        let key: u64 = content_key(input);
        if self.record_keyed(key, input.clone()) {
            Some(key)
        } else {
            None
        }
    }
}

/// Computes the content key of `input`.
pub fn content_key(input: &Vec<u8>) -> (key: u64)
    ensures
        key == content_hash(input@),
{
    libafl_bolts::hash_std(input.as_slice())
}

/// Recording keeps every record under its own key, and every key once.
pub proof fn lemma_recorded_keyed_once(records: Seq<CrashView>, input: Seq<u8>)
    requires
        keyed_once(records),
    ensures
        keyed_once(recorded(records, input)),
{
    let key = content_hash(input);
    if !has_key(records, key) {
        let after = records.push(CrashView { key, input });
        assert forall|i: int, j: int| 0 <= i < j < after.len() implies (#[trigger] after[i]).key
            != (#[trigger] after[j]).key by {
            if j == records.len() {
                assert(records[i].key != key);
            } else {
                assert(records[i].key != records[j].key);
            }
        }
    }
}

/// No two records hold the same bytes: inputs with identical content share
/// one record.
pub proof fn lemma_no_duplicate_content(records: Seq<CrashView>, i: int, j: int)
    requires
        keyed_once(records),
        0 <= i < records.len(),
        0 <= j < records.len(),
        i != j,
    ensures
        records[i].input != records[j].input,
{
    if i < j {
        assert(records[i].key != records[j].key);
    } else {
        assert(records[j].key != records[i].key);
    }
}

/// Recording the same bytes a second time changes nothing.
pub proof fn lemma_recorded_twice(records: Seq<CrashView>, input: Seq<u8>)
    ensures
        recorded(recorded(records, input), input) == recorded(records, input),
{
    let key = content_hash(input);
    if !has_key(records, key) {
        let after = records.push(CrashView { key, input });
        assert(after[records.len() as int].key == key);
        assert(has_key(after, key));
    }
}

} // verus!
