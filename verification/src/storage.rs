//! The view of the key-value store that one transaction works on.
//!
//! A `Fork` maps byte keys to byte values. It belongs to whoever executes a
//! transaction: nothing else reads or writes it meanwhile, and what is done with its
//! contents afterwards is the owner's business.
use vstd::prelude::*;
use vstd::slice::slice_to_vec;
use crate::crypto::bytes_eq;

verus! {

/// One key with its value.
struct Entry {
    key: Vec<u8>,
    value: Vec<u8>,
}

/// The map that a list of entries stands for: of two entries with one key, the later
/// one counts.
spec fn entries_map(entries: Seq<Entry>) -> Map<Seq<u8>, Seq<u8>>
    decreases entries.len(),
{
    if entries.len() == 0 {
        Map::empty()
    } else {
        entries_map(entries.drop_last()).insert(entries.last().key@, entries.last().value@)
    }
}

proof fn lemma_entries_finite(entries: Seq<Entry>)
    ensures
        entries_map(entries).dom().finite(),
    decreases entries.len(),
{
    if entries.len() > 0 {
        lemma_entries_finite(entries.drop_last());
    }
}

proof fn lemma_entries_absent(entries: Seq<Entry>, key: Seq<u8>)
    requires
        forall|j: int| 0 <= j < entries.len() ==> entries[j].key@ != key,
    ensures
        !entries_map(entries).contains_key(key),
    decreases entries.len(),
{
    if entries.len() > 0 {
        lemma_entries_absent(entries.drop_last(), key);
    }
}

proof fn lemma_entries_last(entries: Seq<Entry>, at: int, key: Seq<u8>)
    requires
        0 <= at < entries.len(),
        entries[at].key@ == key,
        forall|j: int| at < j < entries.len() ==> entries[j].key@ != key,
    ensures
        entries_map(entries).contains_key(key),
        entries_map(entries)[key] == entries[at].value@,
    decreases entries.len(),
{
    if at < entries.len() - 1 {
        lemma_entries_last(entries.drop_last(), at, key);
    }
}

proof fn lemma_entries_replace(entries: Seq<Entry>, at: int, entry: Entry)
    requires
        0 <= at < entries.len(),
        entries[at].key@ == entry.key@,
        forall|j: int| at < j < entries.len() ==> entries[j].key@ != entry.key@,
    ensures
        entries_map(entries.update(at, entry)) == entries_map(entries).insert(
            entry.key@,
            entry.value@,
        ),
    decreases entries.len(),
{
    let updated = entries.update(at, entry);
    if at == entries.len() - 1 {
        assert(updated.drop_last() =~= entries.drop_last());
        assert(entries_map(updated) =~= entries_map(entries).insert(entry.key@, entry.value@));
    } else {
        lemma_entries_replace(entries.drop_last(), at, entry);
        assert(updated.drop_last() =~= entries.drop_last().update(at, entry));
        assert(updated.last() == entries.last());
        assert(entries_map(updated) =~= entries_map(entries).insert(entry.key@, entry.value@));
    }
}

/// A mutable view of a key-value store.
pub struct Fork {
    entries: Vec<Entry>,
}

impl View for Fork {
    type V = Map<Seq<u8>, Seq<u8>>;

    closed spec fn view(&self) -> Map<Seq<u8>, Seq<u8>> {
        entries_map(self.entries@)
    }
}

impl Fork {
    /// An empty view.
    pub fn new() -> (fork: Fork)
        ensures
            fork@ == Map::<Seq<u8>, Seq<u8>>::empty(),
    {
        Fork { entries: Vec::new() }
    }

    /// A view holds finitely many keys.
    pub proof fn lemma_finite(&self)
        ensures
            self@.dom().finite(),
    {
        lemma_entries_finite(self.entries@);
    }

    /// Index of the entry that counts for `key`.
    fn position(&self, key: &[u8]) -> (at: Option<usize>)
        ensures
            match at {
                Some(i) => {
                    &&& i < self.entries@.len()
                    &&& self.entries@[i as int].key@ == key@
                    &&& self@.contains_key(key@)
                    &&& self@[key@] == self.entries@[i as int].value@
                    &&& forall|j: int|
                        i < j < self.entries@.len() ==> self.entries@[j].key@ != key@
                },
                None => !self@.contains_key(key@),
            },
    {
        let mut i: usize = self.entries.len();
        while i > 0
            invariant
                i <= self.entries@.len(),
                forall|j: int| i <= j < self.entries@.len() ==> self.entries@[j].key@ != key@,
            decreases i,
        {
            i -= 1;
            if bytes_eq(self.entries[i].key.as_slice(), key) {
                proof {
                    lemma_entries_last(self.entries@, i as int, key@);
                }
                return Some(i);
            }
        }
        proof {
            lemma_entries_absent(self.entries@, key@);
        }
        None
    }

    /// The value stored under `key`, if there is one.
    pub fn get(&self, key: &[u8]) -> (value: Option<Vec<u8>>)
        ensures
            value.is_some() == self@.contains_key(key@),
            value matches Some(v) ==> v@ == self@[key@],
    {
        match self.position(key) {
            Some(i) => Some(slice_to_vec(self.entries[i].value.as_slice())),
            None => None,
        }
    }

    /// Tells whether a value is stored under `key`.
    pub fn contains(&self, key: &[u8]) -> (present: bool)
        ensures
            present == self@.contains_key(key@),
    {
        self.position(key).is_some()
    }

    /// Stores `value` under `key`, in place of what was stored there.
    pub fn put(&mut self, key: Vec<u8>, value: Vec<u8>)
        ensures
            final(self)@ == old(self)@.insert(key@, value@),
    {
        match self.position(key.as_slice()) {
            Some(i) => {
                let entry = Entry { key, value };
                proof {
                    lemma_entries_replace(self.entries@, i as int, entry);
                }
                self.entries.set(i, entry);
            },
            None => {
                let entry = Entry { key, value };
                self.entries.push(entry);
                assert(self.entries@.drop_last() =~= old(self).entries@);
            },
        }
    }
}

} // verus!
