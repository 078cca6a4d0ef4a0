//! A map keyed by strings, kept as an insertion-ordered list of distinct
//! keys.
use vstd::prelude::*;

verus! {

/// A string-keyed map. Its entries hold distinct keys, in the order they
/// were first inserted.
#[derive(Debug)]
pub struct StrMap<V> {
    entries: Vec<(String, V)>,
}

/// The keys of `entries` are pairwise distinct.
pub open spec fn distinct_keys<V>(entries: Seq<(String, V)>) -> bool {
    forall|i: int, j: int|
        0 <= i < entries.len() && 0 <= j < entries.len() && i != j ==> entries[i].0@ != entries[j].0@
}

/// The map that a list of entries with distinct keys denotes.
pub open spec fn entries_map<V>(entries: Seq<(String, V)>) -> Map<Seq<char>, V>
    decreases entries.len(),
{
    if entries.len() == 0 {
        Map::empty()
    } else {
        let last = entries.last();
        entries_map(entries.drop_last()).insert(last.0@, last.1)
    }
}

proof fn lemma_entries_map<V>(entries: Seq<(String, V)>)
    requires
        distinct_keys(entries),
    ensures
        forall|k: Seq<char>|
            #[trigger] entries_map(entries).contains_key(k) <==> exists|i: int|
                0 <= i < entries.len() && entries[i].0@ == k,
        forall|i: int|
            0 <= i < entries.len() ==> #[trigger] entries_map(entries)[entries[i].0@]
                == entries[i].1,
        entries_map(entries).dom().finite(),
        entries_map(entries).dom().len() == entries.len(),
    decreases entries.len(),
{
    if entries.len() > 0 {
        let prefix = entries.drop_last();
        assert(distinct_keys(prefix));
        lemma_entries_map(prefix);
        let last = entries.last();
        assert(!entries_map(prefix).contains_key(last.0@)) by {
            if entries_map(prefix).contains_key(last.0@) {
                let i = choose|i: int| 0 <= i < prefix.len() && prefix[i].0@ == last.0@;
                assert(entries[i].0@ == entries[entries.len() - 1].0@);
            }
        }
        assert forall|k: Seq<char>|
            #[trigger] entries_map(entries).contains_key(k) <==> exists|i: int|
                0 <= i < entries.len() && entries[i].0@ == k by {
            if entries_map(entries).contains_key(k) && k != last.0@ {
                let i = choose|i: int| 0 <= i < prefix.len() && prefix[i].0@ == k;
                assert(entries[i].0@ == k);
            }
            if exists|i: int| 0 <= i < entries.len() && entries[i].0@ == k {
                let i = choose|i: int| 0 <= i < entries.len() && entries[i].0@ == k;
                if i < entries.len() - 1 {
                    assert(prefix[i].0@ == k);
                }
            }
        }
        assert forall|i: int|
            0 <= i < entries.len() implies #[trigger] entries_map(entries)[entries[i].0@]
            == entries[i].1 by {
            if i < entries.len() - 1 {
                assert(prefix[i] == entries[i]);
            }
        }
    } else {
        assert(entries_map(entries).dom() =~= Set::<Seq<char>>::empty());
    }
}

proof fn lemma_update_value<V>(entries: Seq<(String, V)>, i: int, x: V)
    requires
        distinct_keys(entries),
        0 <= i < entries.len(),
    ensures
        distinct_keys(entries.update(i, (entries[i].0, x))),
        entries_map(entries.update(i, (entries[i].0, x))) == entries_map(entries).insert(
            entries[i].0@,
            x,
        ),
{
    let after = entries.update(i, (entries[i].0, x));
    assert(distinct_keys(after)) by {
        assert forall|a: int, b: int|
            0 <= a < after.len() && 0 <= b < after.len() && a != b implies after[a].0@
            != after[b].0@ by {
            assert(entries[a].0@ != entries[b].0@);
        }
    }
    lemma_entries_map(entries);
    lemma_entries_map(after);
    let k = entries[i].0@;
    assert(entries_map(after) =~= entries_map(entries).insert(k, x)) by {
        assert forall|kk: Seq<char>|
            #[trigger] entries_map(after).contains_key(kk) == entries_map(entries).insert(
                k,
                x,
            ).contains_key(kk) by {
            if entries_map(entries).contains_key(kk) {
                let j = choose|j: int| 0 <= j < entries.len() && entries[j].0@ == kk;
                assert(after[j].0@ == kk);
            }
            if entries_map(after).contains_key(kk) {
                let j = choose|j: int| 0 <= j < after.len() && after[j].0@ == kk;
                assert(entries[j].0@ == kk);
            }
        }
        assert forall|kk: Seq<char>|
            #[trigger] entries_map(after).contains_key(kk) implies entries_map(after)[kk]
            == entries_map(entries).insert(k, x)[kk] by {
            let j = choose|j: int| 0 <= j < after.len() && after[j].0@ == kk;
            assert(entries_map(after)[after[j].0@] == after[j].1);
            if j != i {
                assert(entries_map(entries)[entries[j].0@] == entries[j].1);
            }
        }
    }
}

impl<V> View for StrMap<V> {
    type V = Map<Seq<char>, V>;

    closed spec fn view(&self) -> Map<Seq<char>, V> {
        entries_map(self.entries@)
    }
}

impl<V> StrMap<V> {
    /// The entries are keyed by distinct strings.
    pub closed spec fn wf(&self) -> bool {
        distinct_keys(self.entries@)
    }

    /// The entries in order.
    pub closed spec fn entry_seq(&self) -> Seq<(String, V)> {
        self.entries@
    }

    /// The entry sequence lists exactly the map's contents, once each.
    pub proof fn lemma_entries(&self)
        requires
            self.wf(),
        ensures
            distinct_keys(self.entry_seq()),
            self@.dom().finite(),
            self@.len() == self.entry_seq().len(),
            forall|k: Seq<char>|
                #[trigger] self@.contains_key(k) <==> exists|i: int|
                    0 <= i < self.entry_seq().len() && self.entry_seq()[i].0@ == k,
            forall|i: int|
                0 <= i < self.entry_seq().len() ==> #[trigger] self@[self.entry_seq()[i].0@]
                    == self.entry_seq()[i].1,
    {
        lemma_entries_map(self.entries@);
    }

    /// An empty map.
    pub fn new() -> (m: Self)
        ensures
            m.wf(),
            m@ == Map::<Seq<char>, V>::empty(),
    {
        StrMap { entries: Vec::new() }
    }

    fn find(&self, key: &String) -> (r: Option<usize>)
        requires
            self.wf(),
        ensures
            match r {
                Some(i) => i < self.entries@.len() && self.entries@[i as int].0@ == key@,
                None => forall|i: int| 0 <= i < self.entries@.len() ==> self.entries@[i].0@ != key@,
            },
    {
        let mut i: usize = 0;
        while i < self.entries.len()
            invariant
                i <= self.entries@.len(),
                forall|j: int| 0 <= j < i ==> self.entries@[j].0@ != key@,
            decreases self.entries@.len() - i,
        {
            if self.entries[i].0 == *key {
                return Some(i);
            }
            i = i + 1;
        }
        None
    }

    /// Maps `key` to `value`, replacing an earlier value for `key`.
    pub fn insert(&mut self, key: String, value: V)
        requires
            old(self).wf(),
        ensures
            final(self).wf(),
            final(self)@ == old(self)@.insert(key@, value),
    {
        proof {
            lemma_entries_map(self.entries@);
        }
        match self.find(&key) {
            Some(i) => {
                let ghost before = self.entries@;
                let ghost k = key@;
                self.entries.set(i, (key, value));
                proof {
                    assert(distinct_keys(self.entries@)) by {
                        assert forall|a: int, b: int|
                            0 <= a < self.entries@.len() && 0 <= b < self.entries@.len() && a != b
                            implies self.entries@[a].0@ != self.entries@[b].0@ by {
                            assert(before[a].0@ != before[b].0@);
                        }
                    }
                    lemma_entries_map(self.entries@);
                    assert(entries_map(self.entries@) =~= entries_map(before).insert(k, value)) by {
                        assert forall|kk: Seq<char>|
                            #[trigger] entries_map(self.entries@).contains_key(kk)
                                == entries_map(before).insert(k, value).contains_key(kk) by {
                            if entries_map(before).contains_key(kk) {
                                let j = choose|j: int| 0 <= j < before.len() && before[j].0@ == kk;
                                assert(self.entries@[j].0@ == kk);
                            }
                        }
                        assert forall|kk: Seq<char>|
                            #[trigger] entries_map(self.entries@).contains_key(kk) implies entries_map(
                                self.entries@,
                            )[kk] == entries_map(before).insert(k, value)[kk] by {
                            let j = choose|j: int|
                                0 <= j < self.entries@.len() && self.entries@[j].0@ == kk;
                            assert(entries_map(self.entries@)[self.entries@[j].0@] == self.entries@[j].1);
                            if j != i {
                                assert(entries_map(before)[before[j].0@] == before[j].1);
                            }
                        }
                    }
                }
            },
            None => {
                let ghost before = self.entries@;
                self.entries.push((key, value));
                proof {
                    assert(self.entries@.drop_last() =~= before);
                    assert(distinct_keys(self.entries@)) by {
                        assert forall|a: int, b: int|
                            0 <= a < self.entries@.len() && 0 <= b < self.entries@.len() && a != b
                            implies self.entries@[a].0@ != self.entries@[b].0@ by {
                            if a < before.len() && b < before.len() {
                                assert(before[a].0@ != before[b].0@);
                            }
                        }
                    }
                }
            },
        }
    }

    /// The value for `key`, if any.
    pub fn get(&self, key: &str) -> (r: Option<&V>)
        requires
            self.wf(),
        ensures
            match r {
                Some(v) => self@.contains_key(key@) && *v == self@[key@],
                None => !self@.contains_key(key@),
            },
    {
        proof {
            lemma_entries_map(self.entries@);
        }
        let k = String::from_str(key);
        match self.find(&k) {
            Some(i) => Some(&self.entries[i].1),
            None => None,
        }
    }

    /// Mutable access to the value for `key`, if any.
    pub fn get_mut(&mut self, key: &str) -> (r: Option<&mut V>)
        requires
            old(self).wf(),
        ensures
            final(self).wf(),
            match r {
                Some(v) => old(self)@.contains_key(key@) && *v == old(self)@[key@] && final(self)@
                    == old(self)@.insert(key@, *final(v)),
                None => !old(self)@.contains_key(key@) && final(self)@ == old(self)@,
            },
    {
        proof {
            lemma_entries_map(self.entries@);
        }
        let k = String::from_str(key);
        match self.find(&k) {
            Some(i) => {
                let ghost before = self.entries@;
                let entry = vstd::std_specs::vec::vec_index_mut(&mut self.entries, i);
                let v = &mut entry.1;
                proof {
                    lemma_update_value(before, i as int, *final(v));
                }
                Some(v)
            },
            None => None,
        }
    }

    /// Whether `key` has a value.
    pub fn contains_key(&self, key: &str) -> (b: bool)
        requires
            self.wf(),
        ensures
            b == self@.contains_key(key@),
    {
        proof {
            lemma_entries_map(self.entries@);
        }
        let k = String::from_str(key);
        self.find(&k).is_some()
    }

    /// Number of keys.
    pub fn len(&self) -> (n: usize)
        requires
            self.wf(),
        ensures
            n == self@.len(),
    {
        proof {
            lemma_entries_map(self.entries@);
        }
        self.entries.len()
    }

    /// Whether the map is empty.
    pub fn is_empty(&self) -> (b: bool)
        requires
            self.wf(),
        ensures
            b == (self@.len() == 0),
    {
        proof {
            lemma_entries_map(self.entries@);
        }
        self.entries.len() == 0
    }

    /// The entries, each key once, in the order of first insertion.
    pub fn entries(&self) -> (e: &Vec<(String, V)>)
        ensures
            e@ == self.entry_seq(),
    {
        &self.entries
    }
}

} // verus!
