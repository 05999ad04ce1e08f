//! Maps keyed by strings, held as lists of entries.
//!
//! A key may in principle occur more than once in the list; the map that a
//! list stands for gives each key the value of its first entry, which is also
//! the entry that every lookup finds.
use vstd::prelude::*;

verus! {

broadcast use vstd::string::group_string_axioms;

/// Index of the first entry whose key is `k`, or the number of entries where none is.
pub open spec fn first_key_index<V>(s: Seq<(String, V)>, k: Seq<char>) -> int
    decreases s.len(),
{
    if s.len() == 0 {
        0
    } else {
        let p = first_key_index(s.drop_last(), k);
        if p < s.len() - 1 {
            p
        } else if s.last().0@ == k {
            s.len() - 1
        } else {
            s.len() as int
        }
    }
}

/// The map that a list of entries stands for: each key to the view of its first entry's value.
pub open spec fn entries_view<V: View>(s: Seq<(String, V)>) -> Map<Seq<char>, V::V> {
    Map::new(
        |k: Seq<char>| first_key_index(s, k) < s.len(),
        |k: Seq<char>| s[first_key_index(s, k)].1@,
    )
}

/// The first index of a key lies in range, holds the key, and no earlier entry does.
pub proof fn lemma_first_key_index<V>(s: Seq<(String, V)>, k: Seq<char>)
    ensures
        0 <= first_key_index(s, k) <= s.len(),
        first_key_index(s, k) < s.len() ==> s[first_key_index(s, k)].0@ == k,
        forall|j: int| 0 <= j < first_key_index(s, k) ==> s[j].0@ != k,
    decreases s.len(),
{
    if s.len() > 0 {
        let t = s.drop_last();
        lemma_first_key_index(t, k);
        assert forall|j: int| 0 <= j < t.len() implies #[trigger] s[j] == t[j] by {}
    }
}

/// An index with those three properties is the first index of the key.
pub proof fn lemma_first_key_index_unique<V>(s: Seq<(String, V)>, k: Seq<char>, i: int)
    requires
        0 <= i <= s.len(),
        i < s.len() ==> s[i].0@ == k,
        forall|j: int| 0 <= j < i ==> s[j].0@ != k,
    ensures
        first_key_index(s, k) == i,
{
    lemma_first_key_index(s, k);
}

/// Two lists with the same keys at the same places find every key at the same index.
pub proof fn lemma_same_keys_same_index<V, W>(s: Seq<(String, V)>, t: Seq<(String, W)>, k: Seq<char>)
    requires
        s.len() == t.len(),
        forall|j: int| 0 <= j < s.len() ==> s[j].0@ == t[j].0@,
    ensures
        first_key_index(s, k) == first_key_index(t, k),
{
    lemma_first_key_index(s, k);
    lemma_first_key_index_unique(t, k, first_key_index(s, k));
}


/// Appending an entry adds its key with its value, unless the key was already there.
pub proof fn lemma_entries_view_push<V: View>(s: Seq<(String, V)>, e: (String, V))
    ensures
        entries_view(s.push(e)) == (if entries_view(s).contains_key(e.0@) {
            entries_view(s)
        } else {
            entries_view(s).insert(e.0@, e.1@)
        }),
{
    let t = s.push(e);
    assert(t.drop_last() =~= s);
    assert forall|k: Seq<char>| #[trigger] first_key_index(s, k) < s.len()
        implies first_key_index(t, k) == first_key_index(s, k) by {
        lemma_first_key_index(s, k);
    }
    assert forall|k: Seq<char>| k != e.0@ && first_key_index(s, k) >= s.len()
        implies #[trigger] first_key_index(t, k) == t.len() by {
        lemma_first_key_index(s, k);
    }
    lemma_first_key_index(s, e.0@);
    if entries_view(s).contains_key(e.0@) {
        assert forall|k: Seq<char>| #[trigger] entries_view(t).contains_key(k) == entries_view(s).contains_key(k) by {
            lemma_first_key_index(s, k);
        }
        assert forall|k: Seq<char>| #[trigger] entries_view(t).contains_key(k) implies entries_view(t)[k] == entries_view(s)[k] by {
            lemma_first_key_index(s, k);
        }
        assert(entries_view(t) =~= entries_view(s));
    } else {
        assert forall|k: Seq<char>| #[trigger] entries_view(t).contains_key(k) == entries_view(s).insert(e.0@, e.1@).contains_key(k) by {
            lemma_first_key_index(s, k);
        }
        assert forall|k: Seq<char>| #[trigger] entries_view(t).contains_key(k) implies entries_view(t)[k] == entries_view(s).insert(e.0@, e.1@)[k] by {
            lemma_first_key_index(s, k);
        }
        assert(entries_view(t) =~= entries_view(s).insert(e.0@, e.1@));
    }
}

/// The whole list of entries is its own prefix of full length.
pub proof fn lemma_take_full<V>(s: Seq<(String, V)>)
    ensures
        s.take(s.len() as int) == s,
{
    assert(s.take(s.len() as int) =~= s);
}

/// The prefix one entry longer is the prefix with that entry appended.
pub proof fn lemma_take_push<V>(s: Seq<(String, V)>, i: int)
    requires
        0 <= i < s.len(),
    ensures
        s.take(i + 1) == s.take(i).push(s[i]),
{
    assert(s.take(i + 1) =~= s.take(i).push(s[i]));
}

/// Whether the entry at `i` is the one a lookup of its key finds.
pub open spec fn is_first_entry<V>(s: Seq<(String, V)>, i: int) -> bool {
    first_key_index(s, s[i].0@) == i
}

/// The map of a prefix gains the entry at `i` exactly when that entry is the first of its key.
pub proof fn lemma_prefix_view_step<V: View>(s: Seq<(String, V)>, i: int)
    requires
        0 <= i < s.len(),
    ensures
        entries_view(s.take(i + 1)) == (if is_first_entry(s, i) {
            entries_view(s.take(i)).insert(s[i].0@, s[i].1@)
        } else {
            entries_view(s.take(i))
        }),
        is_first_entry(s, i) == !entries_view(s.take(i)).contains_key(s[i].0@),
{
    lemma_take_push(s, i);
    lemma_entries_view_push(s.take(i), s[i]);
    let p = s.take(i);
    let k = s[i].0@;
    lemma_first_key_index(p, k);
    lemma_first_key_index(s, k);
    if first_key_index(p, k) < p.len() {
        let f = first_key_index(p, k);
        assert(p[f] == s[f]);
        assert forall|j: int| 0 <= j < f implies s[j].0@ != k by {
            assert(p[j] == s[j]);
        }
        lemma_first_key_index_unique(s, k, f);
    } else {
        assert forall|j: int| 0 <= j < i implies s[j].0@ != k by {
            assert(p[j] == s[j]);
        }
        lemma_first_key_index_unique(s, k, i);
    }
}

/// A map from string keys to values, as a list of entries.
#[derive(Debug, Clone)]
pub struct StrMap<V> {
    pub entries: Vec<(String, V)>,
}

impl<V: View> View for StrMap<V> {
    type V = Map<Seq<char>, V::V>;

    open spec fn view(&self) -> Map<Seq<char>, V::V> {
        entries_view(self.entries@)
    }
}

impl<V: View> StrMap<V> {
    /// The index of the entry that a lookup of `k` finds.
    pub open spec fn index_of_key(&self, k: Seq<char>) -> int {
        first_key_index(self.entries@, k)
    }

    pub fn new() -> (m: Self)
        ensures
            m@ == Map::<Seq<char>, V::V>::empty(),
            m.entries@.len() == 0,
    {
        let m = StrMap { entries: Vec::new() };
        assert(m@ =~= Map::<Seq<char>, V::V>::empty());
        m
    }

    pub fn entry_count(&self) -> (n: usize)
        ensures
            n == self.entries@.len(),
    {
        self.entries.len()
    }

    /// The index of the entry that holds `key`, if one does.
    pub fn find(&self, key: &str) -> (r: Option<usize>)
        ensures
            match r {
                Some(i) => {
                    &&& i < self.entries@.len()
                    &&& i == self.index_of_key(key@)
                    &&& self@.contains_key(key@)
                    &&& self@[key@] == self.entries@[i as int].1@
                    &&& self.entries@[i as int].0@ == key@
                },
                None => !self@.contains_key(key@),
            },
    {
        let n = self.entries.len();
        let mut i: usize = 0;
        while i < n
            invariant
                n == self.entries@.len(),
                i <= n,
                forall|j: int| 0 <= j < i ==> self.entries@[j].0@ != key@,
            decreases n - i,
        {
            let k = self.entries[i].0.as_str();
            if crate::text::str_eq(k, key) {
                proof {
                    lemma_first_key_index_unique(self.entries@, key@, i as int);
                }
                return Some(i);
            }
            i = i + 1;
        }
        proof {
            lemma_first_key_index_unique(self.entries@, key@, n as int);
        }
        None
    }

    pub fn contains_key(&self, key: &str) -> (r: bool)
        ensures
            r == self@.contains_key(key@),
    {
        self.find(key).is_some()
    }

    /// The value stored under `key`.
    pub fn get(&self, key: &str) -> (r: Option<&V>)
        ensures
            match r {
                Some(v) => self@.contains_key(key@) && v@ == self@[key@]
                    && *v == self.entries@[self.index_of_key(key@)].1,
                None => !self@.contains_key(key@),
            },
    {
        match self.find(key) {
            Some(i) => Some(&self.entries[i].1),
            None => None,
        }
    }

    /// Stores `value` under `key`, in place of the value it had.
    pub fn insert(&mut self, key: String, value: V)
        ensures
            final(self)@ == old(self)@.insert(key@, value@),
    {
        let ghost old_entries = self.entries@;
        match self.find(key.as_str()) {
            Some(i) => {
                self.entries.set(i, (key, value));
                proof {
                    let s = self.entries@;
                    assert forall|k: Seq<char>| #[trigger] first_key_index(s, k) == first_key_index(old_entries, k) by {
                        lemma_same_keys_same_index(old_entries, s, k);
                    }
                    assert forall|k: Seq<char>| #[trigger] self@.contains_key(k) == old(self)@.insert(key@, value@).contains_key(k) by {
                        lemma_first_key_index(old_entries, k);
                    }
                    assert forall|k: Seq<char>| #[trigger] self@.contains_key(k) implies self@[k] == old(self)@.insert(key@, value@)[k] by {
                        lemma_first_key_index(old_entries, k);
                        if k != key@ {
                            assert(first_key_index(old_entries, k) != i);
                        }
                    }
                    assert(self@ =~= old(self)@.insert(key@, value@));
                }
            },
            None => {
                let ghost kv = key@;
                self.entries.push((key, value));
                proof {
                    let s = self.entries@;
                    assert(s.drop_last() =~= old_entries);
                    assert forall|k: Seq<char>| k != kv implies #[trigger] first_key_index(s, k) < s.len()
                        <==> first_key_index(old_entries, k) < old_entries.len() by {
                        lemma_first_key_index(old_entries, k);
                    }
                    assert forall|k: Seq<char>| k != kv && first_key_index(old_entries, k) < old_entries.len()
                        implies #[trigger] first_key_index(s, k) == first_key_index(old_entries, k) by {
                        lemma_first_key_index(old_entries, k);
                    }
                    lemma_first_key_index(old_entries, kv);
                    assert(first_key_index(s, kv) == old_entries.len());
                    assert forall|k: Seq<char>| #[trigger] self@.contains_key(k) == old(self)@.insert(kv, value@).contains_key(k) by {
                        lemma_first_key_index(old_entries, k);
                    }
                    assert forall|k: Seq<char>| #[trigger] self@.contains_key(k) implies self@[k] == old(self)@.insert(kv, value@)[k] by {
                        lemma_first_key_index(old_entries, k);
                    }
                    assert(self@ =~= old(self)@.insert(kv, value@));
                }
            },
        }
    }
}

/// A set of strings, as a list.
#[derive(Debug, Clone)]
pub struct StrSet {
    pub items: Vec<String>,
}

/// The set of the texts of a list of strings.
pub open spec fn strings_set(s: Seq<String>) -> Set<Seq<char>> {
    Set::new(|k: Seq<char>| exists|i: int| 0 <= i < s.len() && #[trigger] s[i]@ == k)
}

impl View for StrSet {
    type V = Set<Seq<char>>;

    open spec fn view(&self) -> Set<Seq<char>> {
        strings_set(self.items@)
    }
}

impl StrSet {
    pub fn new() -> (r: StrSet)
        ensures
            r@ == Set::<Seq<char>>::empty(),
    {
        let r = StrSet { items: Vec::new() };
        assert(r@ =~= Set::<Seq<char>>::empty());
        r
    }

    pub fn contains(&self, s: &str) -> (r: bool)
        ensures
            r == self@.contains(s@),
    {
        let n = self.items.len();
        for i in 0..n
            invariant
                n == self.items@.len(),
                forall|j: int| 0 <= j < i ==> self.items@[j]@ != s@,
        {
            if crate::text::str_eq(self.items[i].as_str(), s) {
                return true;
            }
        }
        false
    }

    pub fn insert(&mut self, s: String)
        ensures
            final(self)@ == old(self)@.insert(s@),
    {
        let ghost sv = s@;
        self.items.push(s);
        proof {
            assert forall|k: Seq<char>| #[trigger] final(self)@.contains(k) == old(self)@.insert(sv).contains(k) by {
                if old(self)@.contains(k) {
                    let i = choose|i: int| 0 <= i < old(self).items@.len() && #[trigger] old(self).items@[i]@ == k;
                    assert(self.items@[i]@ == k);
                }
                if k == sv {
                    assert(self.items@[self.items@.len() - 1]@ == k);
                }
                if self@.contains(k) {
                    let i = choose|i: int| 0 <= i < self.items@.len() && #[trigger] self.items@[i]@ == k;
                    if i < old(self).items@.len() {
                        assert(old(self).items@[i]@ == k);
                    }
                }
            }
            assert(self@ =~= old(self)@.insert(sv));
        }
    }
}

} // verus!
