//! A map with text keys that is walked in a fixed order.

use crate::text::same_text;
use vstd::prelude::*;

pub mod laws;

verus! {

/// One key with its value.
#[derive(Debug)]
struct Entry<T> {
    key: String,
    value: T,
}

/// A map from text to values. A walk visits every key exactly once.
#[derive(Debug)]
pub struct StringMap<T> {
    entries: Vec<Entry<T>>,
}

/// Whether `order` names every element of `keys` exactly once.
pub open spec fn is_walk<K>(order: Seq<K>, keys: Set<K>) -> bool {
    &&& order.no_duplicates()
    &&& order.to_set() == keys
}

/// One step of picking out of a walk the keys that satisfy `ok`.
pub(crate) proof fn lemma_walk_step<K>(
    all: Seq<K>,
    i: int,
    ok: spec_fn(K) -> bool,
    picked: Seq<K>,
    next: Seq<K>,
)
    requires
        all.no_duplicates(),
        0 <= i < all.len(),
        picked.no_duplicates(),
        forall|k: K| #[trigger] picked.contains(k) <==> all.take(i).contains(k) && ok(k),
        ok(all[i]) ==> next == picked.push(all[i]),
        !ok(all[i]) ==> next == picked,
    ensures
        next.no_duplicates(),
        forall|k: K| #[trigger] next.contains(k) <==> all.take(i + 1).contains(k) && ok(k),
{
    assert(!all.take(i).contains(all[i]));
    assert(!picked.contains(all[i]));
    assert forall|a: int, b: int| 0 <= a < b < next.len() implies next[a] != next[b] by {
        assert(picked.contains(picked[a]));
    }
    assert(all.take(i + 1) =~= all.take(i).push(all[i]));
    assert forall|k: K| #[trigger] next.contains(k) <==> all.take(i + 1).contains(k) && ok(k) by {
        let here = all.take(i);
        let there = all.take(i + 1);
        if here.contains(k) {
            let j = choose|j: int| 0 <= j < here.len() && here[j] == k;
            assert(there[j] == k);
        }
        if there.contains(k) && k != all[i] {
            let j = choose|j: int| 0 <= j < there.len() && there[j] == k;
            assert(here[j] == k);
        }
        assert(there[i] == all[i]);
        if picked.contains(k) {
            let j = choose|j: int| 0 <= j < picked.len() && picked[j] == k;
            assert(next[j] == k);
        }
        if ok(all[i]) {
            assert(next[picked.len() as int] == all[i]);
        }
    }
}

spec fn keys_distinct<T>(entries: Seq<Entry<T>>) -> bool {
    forall|i: int, j: int|
        0 <= i < j < entries.len() ==> #[trigger] entries[i].key@ != #[trigger] entries[j].key@
}

spec fn has_key<T>(entries: Seq<Entry<T>>, key: Seq<char>) -> bool {
    exists|i: int| 0 <= i < entries.len() && #[trigger] entries[i].key@ == key
}

spec fn index_of_key<T>(entries: Seq<Entry<T>>, key: Seq<char>) -> int {
    choose|i: int| 0 <= i < entries.len() && #[trigger] entries[i].key@ == key
}

spec fn entries_map<T: View>(entries: Seq<Entry<T>>) -> Map<Seq<char>, T::V> {
    Map::new(
        |key: Seq<char>| has_key(entries, key),
        |key: Seq<char>| entries[index_of_key(entries, key)].value@,
    )
}

impl<T: View> View for StringMap<T> {
    type V = Map<Seq<char>, T::V>;

    closed spec fn view(&self) -> Map<Seq<char>, T::V> {
        entries_map(self.entries@)
    }
}

proof fn lemma_entry_at<T: View>(entries: Seq<Entry<T>>, i: int)
    requires
        keys_distinct(entries),
        0 <= i < entries.len(),
    ensures
        entries_map(entries).contains_key(entries[i].key@),
        entries_map(entries)[entries[i].key@] == entries[i].value@,
{
    let key = entries[i].key@;
    assert(has_key(entries, key));
    let j = index_of_key(entries, key);
    assert(0 <= j < entries.len() && entries[j].key@ == key);
}

impl<T> StringMap<T> {
    #[verifier::type_invariant]
    spec fn distinct(self) -> bool {
        keys_distinct(self.entries@)
    }
}

impl<T: View> StringMap<T> {
    spec fn order(self) -> Seq<Seq<char>> {
        self.entries@.map_values(|e: Entry<T>| e.key@)
    }

    /// Creates an empty map.
    pub fn new() -> (r: Self)
        ensures
            r@ == Map::<Seq<char>, T::V>::empty(),
    {
        let r = StringMap { entries: Vec::new() };
        proof {
            assert(r@ =~= Map::<Seq<char>, T::V>::empty());
        }
        r
    }

    fn position(&self, key: &str) -> (r: Option<usize>)
        ensures
            match r {
                Some(i) => i < self.entries@.len() && self.entries@[i as int].key@ == key@,
                None => !has_key(self.entries@, key@),
            },
    {
        let mut i: usize = 0;
        while i < self.entries.len()
            invariant
                i <= self.entries@.len(),
                forall|j: int| 0 <= j < i ==> #[trigger] self.entries@[j].key@ != key@,
            decreases self.entries@.len() - i,
        {
            if same_text(self.entries[i].key.as_str(), key) {
                return Some(i);
            }
            i = i + 1;
        }
        None
    }

    /// Whether the map holds the key.
    pub fn contains_key(&self, key: &str) -> (r: bool)
        ensures
            r == self@.contains_key(key@),
    {
        proof {
            use_type_invariant(self);
        }
        match self.position(key) {
            Some(i) => {
                proof {
                    lemma_entry_at(self.entries@, i as int);
                }
                true
            },
            None => false,
        }
    }

    /// The value of a key.
    pub fn get(&self, key: &str) -> (r: Option<&T>)
        ensures
            match r {
                Some(v) => self@.contains_key(key@) && v@ == self@[key@],
                None => !self@.contains_key(key@),
            },
    {
        proof {
            use_type_invariant(self);
        }
        match self.position(key) {
            Some(i) => {
                proof {
                    lemma_entry_at(self.entries@, i as int);
                }
                Some(&self.entries[i].value)
            },
            None => None,
        }
    }

    /// Sets the value of a key, in place of the one it had.
    pub fn insert(&mut self, key: String, value: T)
        ensures
            final(self)@ == old(self)@.insert(key@, value@),
    {
        proof {
            use_type_invariant(&*self);
        }
        let at = self.position(key.as_str());
        let ghost before = self.entries@;
        let mut entries: Vec<Entry<T>> = Vec::new();
        core::mem::swap(&mut entries, &mut self.entries);
        let ghost k = key@;
        let ghost v = value@;
        match at {
            Some(i) => {
                entries.set(i, Entry { key, value });
            },
            None => {
                entries.push(Entry { key, value });
            },
        }
        proof {
            assert(keys_distinct(entries@));
            assert forall|q: Seq<char>| has_key(entries@, q) implies has_key(before, q) || q == k by {
                let i = index_of_key(entries@, q);
                if i < before.len() && entries@[i] == before[i] {
                    assert(before[i].key@ == q);
                }
            }
            assert forall|q: Seq<char>| has_key(before, q) implies #[trigger] has_key(entries@, q) by {
                let i = index_of_key(before, q);
                assert(entries@[i].key@ == q);
            }
            assert forall|q: Seq<char>| #[trigger] entries_map(entries@).contains_key(q) implies
                entries_map(entries@)[q] == entries_map(before).insert(k, v)[q] by {
                let i = index_of_key(entries@, q);
                lemma_entry_at(entries@, i);
                if q != k {
                    assert(entries@[i] == before[i]);
                    lemma_entry_at(before, i);
                }
            }
            let last = if at is Some { at->0 as int } else { before.len() as int };
            assert(entries@[last].key@ == k);
            assert(has_key(entries@, k));
            assert(entries_map(entries@) =~= entries_map(before).insert(k, v));
        }
        self.entries = entries;
    }

    proof fn lemma_order(self)
        requires
            keys_distinct(self.entries@),
        ensures
            is_walk(self.order(), self@.dom()),
            self@.dom().finite(),
            self@.len() == self.entries@.len(),
    {
        let order = self.order();
        assert(order.no_duplicates());
        assert forall|q: Seq<char>| order.to_set().contains(q) == self@.dom().contains(q) by {
            if order.contains(q) {
                let i = choose|i: int| 0 <= i < order.len() && order[i] == q;
                lemma_entry_at(self.entries@, i);
            }
            if self@.dom().contains(q) {
                let i = index_of_key(self.entries@, q);
                assert(order[i] == q);
            }
        }
        assert(order.to_set() =~= self@.dom());
        order.unique_seq_to_set();
    }

    /// The number of keys.
    pub fn len(&self) -> (r: usize)
        ensures
            r == self@.len(),
            self@.dom().finite(),
    {
        proof {
            use_type_invariant(self);
            self.lemma_order();
        }
        self.entries.len()
    }

    /// Whether the map holds no key.
    pub fn is_empty(&self) -> (r: bool)
        ensures
            r == (self@ == Map::<Seq<char>, T::V>::empty()),
    {
        proof {
            use_type_invariant(self);
            if self.entries@.len() == 0 {
                assert(self@ =~= Map::<Seq<char>, T::V>::empty());
            } else {
                lemma_entry_at(self.entries@, 0);
            }
        }
        self.entries.len() == 0
    }

    /// The keys, each once.
    pub fn keys(&self) -> (r: Vec<String>)
        ensures
            is_walk(r@.map_values(|k: String| k@), self@.dom()),
            self@.dom().finite(),
    {
        proof {
            use_type_invariant(self);
            self.lemma_order();
        }
        let mut r: Vec<String> = Vec::new();
        let mut i: usize = 0;
        while i < self.entries.len()
            invariant
                i <= self.entries@.len(),
                r@.len() == i,
                forall|j: int| 0 <= j < i ==> #[trigger] r@[j]@ == self.entries@[j].key@,
            decreases self.entries@.len() - i,
        {
            r.push(self.entries[i].key.clone());
            i = i + 1;
        }
        proof {
            assert(r@.map_values(|k: String| k@) =~= self.order());
        }
        r
    }
}

impl<T: View + Clone> Clone for StringMap<T> {
    /// Copies every key with a clone of its value.
    fn clone(&self) -> (r: Self)
        ensures
            (forall|a: T, b: T| cloned(a, b) ==> #[trigger] a@ == #[trigger] b@) ==> r@ == self@,
    {
        proof {
            use_type_invariant(self);
        }
        let mut entries: Vec<Entry<T>> = Vec::new();
        let mut i: usize = 0;
        while i < self.entries.len()
            invariant
                i <= self.entries@.len(),
                keys_distinct(self.entries@),
                entries@.len() == i,
                forall|j: int| 0 <= j < i ==> (#[trigger] entries@[j]).key@ == self.entries@[j].key@,
                forall|j: int|
                    0 <= j < i ==> cloned(self.entries@[j].value, (#[trigger] entries@[j]).value),
            decreases self.entries@.len() - i,
        {
            let key = self.entries[i].key.clone();
            let value = self.entries[i].value.clone();
            entries.push(Entry { key, value });
            i = i + 1;
        }
        let r = StringMap { entries };
        proof {
            if forall|a: T, b: T| cloned(a, b) ==> #[trigger] a@ == #[trigger] b@ {
                assert forall|q: Seq<char>|
                    #![trigger r@.dom().contains(q)]
                    #![trigger self@.dom().contains(q)]
                    r@.contains_key(q) == self@.contains_key(q) && (r@.contains_key(q) ==> r@[q]
                        == self@[q]) by {
                    if self@.contains_key(q) {
                        let j = index_of_key(self.entries@, q);
                        assert(r.entries@[j].key@ == q);
                        assert(has_key(r.entries@, q));
                    }
                    if r@.contains_key(q) {
                        let j = index_of_key(r.entries@, q);
                        assert(self.entries@[j].key@ == q);
                        assert(has_key(self.entries@, q));
                        lemma_entry_at(r.entries@, j);
                        lemma_entry_at(self.entries@, j);
                    }
                }
                assert(r@ =~= self@);
            }
        }
        r
    }
}

} // verus!
