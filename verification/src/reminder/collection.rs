//! The reminders of one owner: a map from the key of a reminder to its
//! record, which also keeps the order in which the keys came.
//!
//! The collection is held as a sequence of pairs with distinct keys. Verus
//! has no model of how the standard hash map treats keys that are texts, so
//! nothing could be proved of what such a map holds; here every operation is
//! stated and proved over the contents.

use crate::reminder::model::{Record, ReminderData, ReminderUpdate};
use vstd::prelude::*;

verus! {

/// The model of a collection in its order: pairs of a key and a record.
pub type Listing = Seq<(Seq<char>, Record)>;

/// No key stands twice in `l`.
pub open spec fn keys_distinct(l: Listing) -> bool {
    forall|i: int, j: int| 0 <= i < j < l.len() ==> (#[trigger] l[i]).0 != (#[trigger] l[j]).0
}

/// `key` stands in `l`.
pub open spec fn has_key(l: Listing, key: Seq<char>) -> bool {
    exists|i: int| 0 <= i < l.len() && (#[trigger] l[i]).0 == key
}

/// A place at which `key` stands in `l`, where it stands in it.
pub open spec fn index_of(l: Listing, key: Seq<char>) -> int {
    choose|i: int| 0 <= i < l.len() && (#[trigger] l[i]).0 == key
}

/// `l` as a map from keys to records.
pub open spec fn as_map(l: Listing) -> Map<Seq<char>, Record> {
    Map::new(|key: Seq<char>| has_key(l, key), |key: Seq<char>| l[index_of(l, key)].1)
}

/// `l` with `record` under `key`: in the place of the record that stood
/// under that key, or at the end where the key is new.
pub open spec fn placed(l: Listing, key: Seq<char>, record: Record) -> Listing {
    if has_key(l, key) {
        l.update(index_of(l, key), (key, record))
    } else {
        l.push((key, record))
    }
}

/// `l` without `key` and its record; the others keep their order.
pub open spec fn dropped(l: Listing, key: Seq<char>) -> Listing {
    if has_key(l, key) {
        l.remove(index_of(l, key))
    } else {
        l
    }
}

/// In a listing of distinct keys, a key stands at one place only.
pub proof fn lemma_index_of(l: Listing, i: int)
    requires
        keys_distinct(l),
        0 <= i < l.len(),
    ensures
        has_key(l, l[i].0),
        index_of(l, l[i].0) == i,
        as_map(l).contains_key(l[i].0),
        as_map(l)[l[i].0] == l[i].1,
{
}

/// Placing a record keeps the keys distinct and is an insertion into the map.
pub proof fn lemma_placed(l: Listing, key: Seq<char>, record: Record)
    requires
        keys_distinct(l),
    ensures
        keys_distinct(placed(l, key, record)),
        as_map(placed(l, key, record)) == as_map(l).insert(key, record),
{
    let after = placed(l, key, record);
    let at = if has_key(l, key) {
        index_of(l, key)
    } else {
        l.len() as int
    };
    assert(after[at] == (key, record));
    assert forall|k: Seq<char>| has_key(after, k) <==> (k == key || has_key(l, k)) by {
        if has_key(l, k) {
            let i = index_of(l, k);
            assert(after[i].0 == l[i].0);
        }
    }
    assert forall|k: Seq<char>| has_key(after, k) implies #[trigger] as_map(after)[k] == as_map(
        l,
    ).insert(key, record)[k] by {
        let i = index_of(after, k);
        if i != at {
            lemma_index_of(l, i);
        }
    }
    assert(as_map(after) =~= as_map(l).insert(key, record));
}

/// Dropping a key keeps the keys distinct and is a removal from the map.
pub proof fn lemma_dropped(l: Listing, key: Seq<char>)
    requires
        keys_distinct(l),
    ensures
        keys_distinct(dropped(l, key)),
        !has_key(dropped(l, key), key),
        as_map(dropped(l, key)) == as_map(l).remove(key),
{
    let after = dropped(l, key);
    if has_key(l, key) {
        let at = index_of(l, key);
        // The place in `l` of what stands at place `i` in `after`.
        let from = |i: int|
            if i < at {
                i
            } else {
                i + 1
            };
        assert forall|i: int| 0 <= i < after.len() implies #[trigger] after[i] == l[from(i)] by {}
        assert forall|k: Seq<char>| has_key(after, k) <==> (k != key && has_key(l, k)) by {
            if k != key && has_key(l, k) {
                let i = index_of(l, k);
                let to = if i < at {
                    i
                } else {
                    i - 1
                };
                assert(after[to].0 == k);
            }
        }
        assert forall|k: Seq<char>| has_key(after, k) implies #[trigger] as_map(after)[k] == as_map(
            l,
        ).remove(key)[k] by {
            lemma_index_of(l, from(index_of(after, k)));
        }
    }
    assert(as_map(after) =~= as_map(l).remove(key));
}

/// The reminders of one owner, each under its key.
#[derive(Debug)]
pub struct RemindersMap {
    entries: Vec<(String, ReminderData)>,
}

impl View for RemindersMap {
    type V = Map<Seq<char>, Record>;

    open spec fn view(&self) -> Map<Seq<char>, Record> {
        as_map(self.listing())
    }
}

impl RemindersMap {
    /// The keys and records of this collection, in their order.
    pub closed spec fn listing(&self) -> Listing {
        self.entries@.map_values(|e: (String, ReminderData)| (e.0@, e.1@))
    }

    /// What holds of every collection: no key stands in it twice.
    #[verifier::type_invariant]
    pub open spec fn valid(&self) -> bool {
        keys_distinct(self.listing())
    }

    /// The collection without reminders.
    pub fn new() -> (map: RemindersMap)
        ensures
            map.listing() == Listing::empty(),
            map@ == Map::<Seq<char>, Record>::empty(),
    {
        let map = RemindersMap { entries: Vec::new() };
        assert(map.listing() =~= Listing::empty());
        assert(map@ =~= Map::<Seq<char>, Record>::empty());
        map
    }

    /// The number of reminders.
    pub fn len(&self) -> (n: usize)
        ensures
            n == self.listing().len(),
    {
        self.entries.len()
    }

    /// Whether there is no reminder.
    pub fn is_empty(&self) -> (b: bool)
        ensures
            b == (self.listing().len() == 0),
    {
        self.entries.len() == 0
    }

    /// The key at place `i`.
    pub fn key_at(&self, i: usize) -> (key: &String)
        requires
            i < self.listing().len(),
        ensures
            key@ == self.listing()[i as int].0,
    {
        &self.entries[i].0
    }

    /// The record at place `i`.
    pub fn record_at(&self, i: usize) -> (data: &ReminderData)
        requires
            i < self.listing().len(),
        ensures
            data@ == self.listing()[i as int].1,
    {
        &self.entries[i].1
    }

    /// The place at which `key` stands.
    fn find(&self, key: &String) -> (r: Option<usize>)
        ensures
            r is Some <==> has_key(self.listing(), key@),
            r matches Some(i) ==> i < self.listing().len() && self.listing()[i as int].0 == key@
                && index_of(self.listing(), key@) == i,
    {
        proof {
            use_type_invariant(self);
        }
        let mut i: usize = 0;
        while i < self.entries.len()
            invariant
                i <= self.entries.len(),
                keys_distinct(self.listing()),
                forall|j: int| 0 <= j < i ==> (#[trigger] self.listing()[j]).0 != key@,
            decreases self.entries.len() - i,
        {
            if self.entries[i].0 == *key {
                proof {
                    lemma_index_of(self.listing(), i as int);
                }
                return Some(i);
            }
            i += 1;
        }
        None
    }

    /// Whether a reminder stands under `key`.
    pub fn contains_key(&self, key: &str) -> (b: bool)
        ensures
            b == self@.contains_key(key@),
    {
        let owned = key.to_owned();
        self.find(&owned).is_some()
    }

    /// The record under `key`, if there is one.
    pub fn get(&self, key: &str) -> (r: Option<&ReminderData>)
        ensures
            r is Some <==> self@.contains_key(key@),
            r matches Some(data) ==> data@ == self@[key@],
    {
        proof {
            use_type_invariant(self);
        }
        let owned = key.to_owned();
        match self.find(&owned) {
            Some(i) => {
                proof {
                    lemma_index_of(self.listing(), i as int);
                }
                Some(&self.entries[i].1)
            },
            None => None,
        }
    }

    /// Puts `data` under `key`, in place of the record that stood there if
    /// there was one.
    pub fn insert(&mut self, key: String, data: ReminderData)
        ensures
            final(self)@ == old(self)@.insert(key@, data@),
            final(self).listing() == placed(old(self).listing(), key@, data@),
    {
        proof {
            use_type_invariant(&*self);
            lemma_placed(self.listing(), key@, data@);
        }
        let found = self.find(&key);
        let ghost before = self.listing();
        let mut entries: Vec<(String, ReminderData)> = Vec::new();
        std::mem::swap(&mut entries, &mut self.entries);
        match found {
            Some(i) => {
                entries.set(i, (key, data));
            },
            None => {
                entries.push((key, data));
            },
        }
        assert(entries@.map_values(|e: (String, ReminderData)| (e.0@, e.1@)) =~= placed(
            before,
            key@,
            data@,
        ));
        self.entries = entries;
    }

    /// Takes the reminder under `key` out, if there is one, and returns its
    /// record.
    pub fn remove(&mut self, key: &str) -> (r: Option<ReminderData>)
        ensures
            final(self)@ == old(self)@.remove(key@),
            final(self).listing() == dropped(old(self).listing(), key@),
            r is Some <==> old(self)@.contains_key(key@),
            r matches Some(data) ==> data@ == old(self)@[key@],
    {
        proof {
            use_type_invariant(&*self);
            lemma_dropped(self.listing(), key@);
        }
        let owned = key.to_owned();
        let found = self.find(&owned);
        let ghost before = self.listing();
        match found {
            Some(i) => {
                proof {
                    lemma_index_of(before, i as int);
                }
                let mut entries: Vec<(String, ReminderData)> = Vec::new();
                std::mem::swap(&mut entries, &mut self.entries);
                let taken = entries.remove(i);
                assert(entries@.map_values(|e: (String, ReminderData)| (e.0@, e.1@)) =~= dropped(
                    before,
                    key@,
                ));
                self.entries = entries;
                Some(taken.1)
            },
            None => None,
        }
    }

    /// Changes the fields that `update` names in the record under `key`.
    /// Where no record stands under `key`, nothing changes.
    pub fn apply_update(&mut self, key: &str, update: &ReminderUpdate<'_>)
        ensures
            final(self)@ == if old(self)@.contains_key(key@) {
                old(self)@.insert(key@, old(self)@[key@].updated(update@))
            } else {
                old(self)@
            },
            final(self).listing() == if has_key(old(self).listing(), key@) {
                placed(old(self).listing(), key@, old(self)@[key@].updated(update@))
            } else {
                old(self).listing()
            },
    {
        proof {
            use_type_invariant(&*self);
        }
        let owned = key.to_owned();
        let found = self.find(&owned);
        let ghost before = self.listing();
        match found {
            Some(i) => {
                proof {
                    lemma_index_of(before, i as int);
                    lemma_placed(before, key@, before[i as int].1.updated(update@));
                }
                let mut entries: Vec<(String, ReminderData)> = Vec::new();
                std::mem::swap(&mut entries, &mut self.entries);
                let mut data = entries[i].1.clone();
                data.apply(update);
                entries.set(i, (owned, data));
                assert(entries@.map_values(|e: (String, ReminderData)| (e.0@, e.1@)) =~= placed(
                    before,
                    key@,
                    before[i as int].1.updated(update@),
                ));
                self.entries = entries;
            },
            None => {},
        }
    }
}

} // verus!
