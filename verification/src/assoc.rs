//! A small map kept as a vector of key/value pairs with no key twice.
//! Its view is a `Map`; its entries keep the order in which keys arrived.

use vstd::prelude::*;

verus! {

/// A key type: compared and copied by its view.
pub trait MapKey: View + Sized {
    fn key_eq(&self, other: &Self) -> (b: bool)
        ensures
            b == (self@ == other@),
    ;

    fn key_clone(&self) -> (c: Self)
        ensures
            c@ == self@,
    ;
}

impl MapKey for u128 {
    fn key_eq(&self, other: &Self) -> (b: bool) {
        *self == *other
    }

    fn key_clone(&self) -> (c: Self) {
        *self
    }
}

impl MapKey for String {
    fn key_eq(&self, other: &Self) -> (b: bool) {
        *self == *other
    }

    fn key_clone(&self) -> (c: Self) {
        self.clone()
    }
}

/// No key occurs twice in `s`.
pub open spec fn keys_distinct<A, B>(s: Seq<(A, B)>) -> bool {
    forall|i: int, j: int| 0 <= i < s.len() && 0 <= j < s.len() && i != j ==> s[i].0 != s[j].0
}

/// `s` holds an entry with key `k`.
pub open spec fn has_key<A, B>(s: Seq<(A, B)>, k: A) -> bool {
    exists|i: int| 0 <= i < s.len() && #[trigger] s[i].0 == k
}

/// The position of key `k` in `s` (meaningful when `has_key(s, k)`).
pub open spec fn key_index<A, B>(s: Seq<(A, B)>, k: A) -> int {
    choose|i: int| 0 <= i < s.len() && #[trigger] s[i].0 == k
}

/// The map that a list of entries denotes.
pub open spec fn seq_to_map<A, B>(s: Seq<(A, B)>) -> Map<A, B> {
    Map::new(|k: A| has_key(s, k), |k: A| s[key_index(s, k)].1)
}

/// The entries after storing `v` under `k`: in place where `k` is present,
/// at the end where it is not.
pub open spec fn insert_entry<A, B>(s: Seq<(A, B)>, k: A, v: B) -> Seq<(A, B)> {
    if has_key(s, k) {
        s.update(key_index(s, k), (k, v))
    } else {
        s.push((k, v))
    }
}

/// `m` without the keys whose value is `v`.
pub open spec fn remove_value<A, B>(m: Map<A, B>, v: B) -> Map<A, B> {
    Map::new(|k: A| m.contains_key(k) && m[k] != v, |k: A| m[k])
}

pub proof fn lemma_seq_to_map_at<A, B>(s: Seq<(A, B)>, i: int)
    requires
        keys_distinct(s),
        0 <= i < s.len(),
    ensures
        seq_to_map(s).contains_key(s[i].0),
        seq_to_map(s)[s[i].0] == s[i].1,
        key_index(s, s[i].0) == i,
{
    let k = s[i].0;
    assert(has_key(s, k));
    let j = key_index(s, k);
    assert(s[j].0 == k);
}

pub proof fn lemma_seq_to_map_key<A, B>(s: Seq<(A, B)>, k: A)
    requires
        keys_distinct(s),
        has_key(s, k),
    ensures
        0 <= key_index(s, k) < s.len(),
        s[key_index(s, k)].0 == k,
        seq_to_map(s).contains_key(k),
        seq_to_map(s)[k] == s[key_index(s, k)].1,
{
}

/// The views of a list of exec entries.
pub open spec fn entry_views<K: View, V: View>(s: Seq<(K, V)>) -> Seq<(K::V, V::V)> {
    s.map_values(|e: (K, V)| (e.0@, e.1@))
}

/// Entries that keep their keys and have `f` applied to each value denote
/// the old map with `f` applied to each value.
pub proof fn lemma_entries_map_values<A, B>(s: Seq<(A, B)>, t: Seq<(A, B)>, f: spec_fn(B) -> B)
    requires
        keys_distinct(s),
        t.len() == s.len(),
        forall|j: int| 0 <= j < s.len() ==> #[trigger] t[j] == (s[j].0, f(s[j].1)),
    ensures
        keys_distinct(t),
        seq_to_map(t) == seq_to_map(s).map_values(f),
{
    assert forall|i: int, j: int|
        0 <= i < t.len() && 0 <= j < t.len() && i != j implies t[i].0 != t[j].0 by {
        assert(t[i] == (s[i].0, f(s[i].1)));
        assert(t[j] == (s[j].0, f(s[j].1)));
    }
    let target = seq_to_map(s).map_values(f);
    assert forall|k: A| #[trigger] seq_to_map(t).contains_key(k) == target.contains_key(k)
        && (seq_to_map(t).contains_key(k) ==> seq_to_map(t)[k] == target[k]) by {
        if has_key(s, k) {
            let i = key_index(s, k);
            lemma_seq_to_map_key(s, k);
            assert(t[i] == (s[i].0, f(s[i].1)));
            lemma_seq_to_map_at(t, i);
        } else if has_key(t, k) {
            let i = key_index(t, k);
            assert(t[i] == (s[i].0, f(s[i].1)));
            assert(s[i].0 == k);
        }
    }
    assert(seq_to_map(t) =~= target);
}

pub struct AssocMap<K, V> {
    entries: Vec<(K, V)>,
}

impl<K: View, V: View> AssocMap<K, V> {
    /// The entries, by view, in the order they are kept.
    pub closed spec fn entries(&self) -> Seq<(K::V, V::V)> {
        entry_views(self.entries@)
    }

    pub open spec fn wf(&self) -> bool {
        keys_distinct(self.entries())
    }
}

impl<K: View, V: View> View for AssocMap<K, V> {
    type V = Map<K::V, V::V>;

    open spec fn view(&self) -> Map<K::V, V::V> {
        seq_to_map(self.entries())
    }
}

impl<K: MapKey, V: View> AssocMap<K, V> {
    pub fn new() -> (m: Self)
        ensures
            m.wf(),
            m.entries() == Seq::<(K::V, V::V)>::empty(),
            m@ == Map::<K::V, V::V>::empty(),
    {
        let m = AssocMap { entries: Vec::new() };
        assert(m.entries() =~= Seq::<(K::V, V::V)>::empty());
        assert(m@ =~= Map::<K::V, V::V>::empty());
        m
    }

    pub fn len(&self) -> (n: usize)
        ensures
            n == self.entries().len(),
    {
        self.entries.len()
    }

    pub fn key_at(&self, i: usize) -> (k: &K)
        requires
            i < self.entries().len(),
        ensures
            k@ == self.entries()[i as int].0,
    {
        &self.entries[i].0
    }

    pub fn value_at(&self, i: usize) -> (v: &V)
        requires
            i < self.entries().len(),
        ensures
            v@ == self.entries()[i as int].1,
    {
        &self.entries[i].1
    }

    pub fn index_of(&self, k: &K) -> (r: Option<usize>)
        requires
            self.wf(),
        ensures
            match r {
                Some(i) => i < self.entries().len() && self.entries()[i as int].0 == k@
                    && key_index(self.entries(), k@) == i && has_key(self.entries(), k@),
                None => !has_key(self.entries(), k@) && !self@.contains_key(k@),
            },
    {
        let n = self.entries.len();
        let mut i: usize = 0;
        while i < n
            invariant
                n == self.entries().len(),
                keys_distinct(self.entries()),
                0 <= i <= n,
                forall|j: int| 0 <= j < i ==> self.entries()[j].0 != k@,
            decreases n - i,
        {
            if self.entries[i].0.key_eq(k) {
                proof {
                    lemma_seq_to_map_at(self.entries(), i as int);
                }
                return Some(i);
            }
            i = i + 1;
        }
        None
    }

    pub fn get(&self, k: &K) -> (r: Option<&V>)
        requires
            self.wf(),
        ensures
            match r {
                Some(v) => self@.contains_key(k@) && v@ == self@[k@],
                None => !self@.contains_key(k@),
            },
    {
        match self.index_of(k) {
            Some(i) => {
                proof {
                    lemma_seq_to_map_at(self.entries(), i as int);
                }
                Some(&self.entries[i].1)
            },
            None => None,
        }
    }

    pub fn contains_key(&self, k: &K) -> (b: bool)
        requires
            self.wf(),
        ensures
            b == self@.contains_key(k@),
    {
        self.index_of(k).is_some()
    }

    pub fn insert(&mut self, k: K, v: V)
        requires
            old(self).wf(),
        ensures
            final(self).wf(),
            final(self).entries() == insert_entry(old(self).entries(), k@, v@),
            final(self)@ == old(self)@.insert(k@, v@),
    {
        let ghost old_entries = self.entries();
        let ghost kv = k@;
        let ghost vv = v@;
        let ghost pos: int;
        match self.index_of(&k) {
            Some(i) => {
                self.entries.set(i, (k, v));
                assert(self.entries() =~= old_entries.update(i as int, (kv, vv)));
                proof {
                    pos = i as int;
                }
            },
            None => {
                self.entries.push((k, v));
                assert(self.entries() =~= old_entries.push((kv, vv)));
                proof {
                    pos = old_entries.len() as int;
                }
            },
        }
        let ghost s = self.entries();
        assert(s[pos].0 == kv);
        assert(keys_distinct(s));
        let ghost target = seq_to_map(old_entries).insert(kv, vv);
        assert forall|key: K::V| #[trigger] self@.contains_key(key) == target.contains_key(key)
            && (self@.contains_key(key) ==> self@[key] == target[key]) by {
            if key == kv {
                lemma_seq_to_map_at(s, pos);
            } else if has_key(old_entries, key) {
                let j = key_index(old_entries, key);
                lemma_seq_to_map_key(old_entries, key);
                assert(s[j] == old_entries[j]);
                lemma_seq_to_map_at(s, j);
            } else {
                if has_key(s, key) {
                    let j = key_index(s, key);
                    assert(j < old_entries.len());
                    assert(s[j] == old_entries[j]);
                    assert(has_key(old_entries, key));
                }
            }
        }
        assert(self@ =~= target);
    }

    /// Replaces the value of the entry at position `i`, keeping its key.
    pub fn set_value(&mut self, i: usize, v: V)
        requires
            old(self).wf(),
            i < old(self).entries().len(),
        ensures
            final(self).wf(),
            final(self).entries() == old(self).entries().update(
                i as int,
                (old(self).entries()[i as int].0, v@),
            ),
            final(self)@ == old(self)@.insert(old(self).entries()[i as int].0, v@),
    {
        let k = self.entries[i].0.key_clone();
        proof {
            lemma_seq_to_map_at(self.entries(), i as int);
        }
        self.insert(k, v);
    }
}

/// Two entries are the same pair.
pub open spec fn same_entry<A, B>(x: (A, B), y: (A, B)) -> bool {
    x == y
}

/// `kept` lists, in order and once each, the entries of `orig` before
/// position `j` whose value is not `v`; `idx` gives the position in `orig` of
/// each kept entry.
pub open spec fn kept_prefix<A, B>(orig: Seq<(A, B)>, kept: Seq<(A, B)>, idx: Seq<int>, j: int, v: B) -> bool {
    &&& idx.len() == kept.len()
    &&& forall|a: int|
        #![trigger idx[a]]
        0 <= a < kept.len() ==> 0 <= idx[a] && idx[a] < j && same_entry(kept[a], orig[idx[a]]) && orig[idx[a]].1 != v
    &&& forall|b: int|
        #![trigger orig[b]]
        0 <= b < j && orig[b].1 != v ==> exists|a: int|
            0 <= a < kept.len() && same_entry(#[trigger] kept[a], orig[b])
    &&& keys_distinct(kept)
}

proof fn lemma_kept_step<A, B>(
    orig: Seq<(A, B)>,
    before: Seq<(A, B)>,
    idx: Seq<int>,
    after: Seq<(A, B)>,
    idx2: Seq<int>,
    j: int,
    v: B,
)
    requires
        keys_distinct(orig),
        0 <= j < orig.len(),
        kept_prefix(orig, before, idx, j, v),
        after == (if orig[j].1 != v { before.push(orig[j]) } else { before }),
        idx2 == (if orig[j].1 != v { idx.push(j) } else { idx }),
    ensures
        kept_prefix(orig, after, idx2, j + 1, v),
{
    assert forall|a: int| #![trigger idx2[a]] 0 <= a < after.len() implies 0 <= idx2[a] && idx2[a] < j + 1
        && same_entry(after[a], orig[idx2[a]]) && orig[idx2[a]].1 != v by {
        if a < before.len() {
            assert(idx[a] == idx[a]);
            assert(idx2[a] == idx[a]);
            assert(after[a] == before[a]);
        } else {
            assert(idx2[a] == j);
        }
    }
    assert forall|b: int| #![trigger orig[b]] 0 <= b < j + 1 && orig[b].1 != v implies exists|a: int|
        0 <= a < after.len() && same_entry(#[trigger] after[a], orig[b]) by {
        if b < j {
            let a = choose|a: int| 0 <= a < before.len() && same_entry(#[trigger] before[a], orig[b]);
            assert(same_entry(after[a], orig[b]));
        } else {
            assert(same_entry(after[before.len() as int], orig[b]));
        }
    }
    assert forall|a1: int, a2: int|
        0 <= a1 < after.len() && 0 <= a2 < after.len() && a1 != a2 implies after[a1].0
            != after[a2].0 by {
        if a1 < before.len() && a2 < before.len() {
            assert(after[a1] == before[a1] && after[a2] == before[a2]);
        } else if a1 < before.len() {
            assert(same_entry(before[a1], orig[idx[a1]]));
            assert(after[a1] == before[a1]);
            assert(after[a2] == orig[j]);
        } else if a2 < before.len() {
            assert(same_entry(before[a2], orig[idx[a2]]));
            assert(after[a2] == before[a2]);
            assert(after[a1] == orig[j]);
        }
    }
}

impl<K: MapKey, V: MapKey> AssocMap<K, V> {
    /// Drops every entry whose value is `v`, keeping the order of the rest.
    pub fn remove_value(&mut self, v: &V)
        requires
            old(self).wf(),
        ensures
            final(self).wf(),
            final(self)@ == remove_value(old(self)@, v@),
            forall|i: int|
                0 <= i < final(self).entries().len() ==> old(self).entries().contains(
                    #[trigger] final(self).entries()[i],
                ),
    {
        let ghost old_entries = self.entries();
        let ghost mut idx: Seq<int> = Seq::empty();
        let mut kept: Vec<(K, V)> = Vec::new();
        let n = self.entries.len();
        let mut j: usize = 0;
        while j < n
            invariant
                n == old_entries.len(),
                old_entries == self.entries(),
                keys_distinct(old_entries),
                0 <= j <= n,
                kept_prefix(old_entries, entry_views(kept@), idx, j as int, v@),
            decreases n - j,
        {
            let ghost jj = j as int;
            let ghost before = entry_views(kept@);
            let ghost idx_before = idx;
            if !self.entries[j].1.key_eq(v) {
                let k2 = self.entries[j].0.key_clone();
                let v2 = self.entries[j].1.key_clone();
                kept.push((k2, v2));
                assert(entry_views(kept@) =~= before.push(old_entries[jj]));
                proof {
                    idx = idx.push(jj);
                }
            }
            proof {
                lemma_kept_step(old_entries, before, idx_before, entry_views(kept@), idx, jj, v@);
            }
            j = j + 1;
        }
        self.entries = kept;
        let ghost s = self.entries();
        assert(s == entry_views(kept@));
        assert forall|a: int|
            0 <= a < s.len() implies old_entries.contains(#[trigger] s[a]) && s[a].1 != v@ by {
            assert(same_entry(s[a], old_entries[idx[a]]));
        }
        let ghost target = remove_value(seq_to_map(old_entries), v@);
        assert forall|key: K::V| #[trigger] self@.contains_key(key) == target.contains_key(key)
            && (self@.contains_key(key) ==> self@[key] == target[key]) by {
            if has_key(s, key) {
                let a = key_index(s, key);
                lemma_seq_to_map_key(s, key);
                assert(same_entry(s[a], old_entries[idx[a]]));
                lemma_seq_to_map_at(old_entries, idx[a]);
            } else if has_key(old_entries, key) {
                let b = key_index(old_entries, key);
                lemma_seq_to_map_key(old_entries, key);
                if old_entries[b].1 != v@ {
                    let a = choose|a: int| 0 <= a < s.len() && same_entry(#[trigger] s[a], old_entries[b]);
                    assert(s[a].0 == key);
                    assert(has_key(s, key));
                }
            }
        }
        assert(self@ =~= target);
    }
}

} // verus!
