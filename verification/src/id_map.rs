//! A map from text identifiers to records, kept in ascending identifier order.
//!
//! Every registry of the library stores its records here: lookups by id,
//! duplicate detection on insert, and enumeration in stable (sorted) order.
use vstd::prelude::*;
use crate::text::{seq_lt, str_eq, str_lt, lemma_seq_lt_irreflexive, lemma_seq_lt_transitive,
    lemma_seq_lt_trichotomy};

verus! {

/// `true` when the sequence is strictly ascending, hence free of duplicates.
pub open spec fn strictly_sorted(s: Seq<Seq<char>>) -> bool {
    forall|i: int, j: int| 0 <= i < j < s.len() ==> seq_lt(#[trigger] s[i], #[trigger] s[j])
}

/// A strictly sorted sequence is fixed by its elements: two of them with
/// the same elements are equal.
pub proof fn lemma_sorted_unique(a: Seq<Seq<char>>, b: Seq<Seq<char>>)
    requires
        strictly_sorted(a),
        strictly_sorted(b),
        a.to_set() == b.to_set(),
    ensures
        a == b,
    decreases a.len(),
{
    if a.len() == 0 {
        if b.len() > 0 {
            assert(b.to_set().contains(b[0]));
        }
        assert(a =~= b);
    } else {
        assert(a.to_set().contains(a[0]));
        if b.len() == 0 {
            assert(false);
        }
        assert(b.to_set().contains(b[0]));
        let ia = a.index_of(b[0]);
        let ib = b.index_of(a[0]);
        lemma_seq_lt_trichotomy(a[0], b[0]);
        if a[0] != b[0] {
            assert(ia > 0 && ib > 0);
            assert(seq_lt(a[0], a[ia]));
            assert(seq_lt(b[0], b[ib]));
            assert(false);
        }
        let (ra, rb) = (a.drop_first(), b.drop_first());
        assert forall|i: int, j: int| 0 <= i < j < ra.len() implies seq_lt(#[trigger] ra[i], #[trigger] ra[j]) by {
            assert(ra[i] == a[i + 1] && ra[j] == a[j + 1]);
        }
        assert forall|i: int, j: int| 0 <= i < j < rb.len() implies seq_lt(#[trigger] rb[i], #[trigger] rb[j]) by {
            assert(rb[i] == b[i + 1] && rb[j] == b[j + 1]);
        }
        assert forall|x: Seq<char>| ra.to_set().contains(x) <==> rb.to_set().contains(x) by {
            if ra.to_set().contains(x) {
                let k = ra.index_of(x);
                assert(a[k + 1] == x);
                assert(seq_lt(a[0], x));
                lemma_seq_lt_irreflexive(x);
                assert(b.to_set().contains(x));
                let m = b.index_of(x);
                assert(m != 0);
                assert(rb[m - 1] == x);
            }
            if rb.to_set().contains(x) {
                let k = rb.index_of(x);
                assert(b[k + 1] == x);
                assert(seq_lt(b[0], x));
                lemma_seq_lt_irreflexive(x);
                assert(a.to_set().contains(x));
                let m = a.index_of(x);
                assert(m != 0);
                assert(ra[m - 1] == x);
            }
        }
        assert(ra.to_set() =~= rb.to_set());
        lemma_sorted_unique(ra, rb);
        assert(a =~= b) by {
            assert forall|i: int| 0 <= i < a.len() implies a[i] == b[i] by {
                if i > 0 {
                    assert(a[i] == ra[i - 1] && b[i] == rb[i - 1]);
                }
            }
        }
    }
}

pub struct IdMap<V> {
    entries: Vec<(String, V)>,
}

impl<V> IdMap<V> {
    /// Identifiers in the order they are stored (ascending).
    pub closed spec fn key_seq(&self) -> Seq<Seq<char>> {
        self.entries@.map_values(|e: (String, V)| e.0@)
    }

    /// Records in identifier order.
    pub closed spec fn value_seq(&self) -> Seq<V> {
        self.entries@.map_values(|e: (String, V)| e.1)
    }

    /// Well-formedness: identifiers strictly ascending.
    pub closed spec fn wf(&self) -> bool {
        strictly_sorted(self.key_seq())
    }

    /// The abstract map from identifiers to records.
    pub closed spec fn map(&self) -> Map<Seq<char>, V> {
        Map::new(
            |k: Seq<char>| self.key_seq().contains(k),
            |k: Seq<char>| self.value_seq()[self.key_seq().index_of(k)],
        )
    }

    /// Stored positions agree with the abstract map, and the identifier
    /// sequence lists exactly its domain in ascending order.
    pub proof fn lemma_layout(&self)
        requires
            self.wf(),
        ensures
            strictly_sorted(self.key_seq()),
            self.key_seq().len() == self.value_seq().len(),
            self.key_seq().no_duplicates(),
            forall|i: int|
                0 <= i < self.key_seq().len() ==> #[trigger] self.map().contains_key(
                    self.key_seq()[i],
                ) && self.map()[self.key_seq()[i]] == self.value_seq()[i],
            forall|k: Seq<char>| #[trigger]
                self.map().contains_key(k) <==> self.key_seq().contains(k),
            self.map().dom().finite(),
    {
        let ks = self.key_seq();
        assert forall|i: int, j: int| 0 <= i < ks.len() && 0 <= j < ks.len() && i != j implies ks[i]
            != ks[j] by {
            if i < j {
                lemma_seq_lt_irreflexive(ks[i]);
            } else {
                lemma_seq_lt_irreflexive(ks[j]);
            }
        }
        assert(ks.no_duplicates());
        assert forall|i: int| 0 <= i < ks.len() implies #[trigger] self.map().contains_key(ks[i])
            && self.map()[ks[i]] == self.value_seq()[i] by {
            assert(ks.contains(ks[i]));
            let j = ks.index_of(ks[i]);
            assert(ks[j] == ks[i]);
        }
        assert(self.map().dom() =~= ks.to_set());
        vstd::seq_lib::seq_to_set_is_finite(ks);
    }

    pub fn new() -> (m: Self)
        ensures
            m.wf(),
            m.map() == Map::<Seq<char>, V>::empty(),
            m.key_seq() == Seq::<Seq<char>>::empty(),
    {
        let m = IdMap { entries: Vec::new() };
        assert(m.key_seq() =~= Seq::<Seq<char>>::empty());
        assert(m.map() =~= Map::<Seq<char>, V>::empty());
        m
    }

    pub fn len(&self) -> (n: usize)
        requires
            self.wf(),
        ensures
            n == self.key_seq().len(),
            n == self.value_seq().len(),
            n == self.map().len(),
    {
        proof {
            self.lemma_layout();
            self.key_seq().unique_seq_to_set();
            assert(self.map().dom() =~= self.key_seq().to_set());
        }
        self.entries.len()
    }

    /// Position of `k`: the first index whose identifier is not below `k`,
    /// and whether the identifier there is `k`.
    fn locate(&self, k: &str) -> (r: (usize, bool))
        requires
            self.wf(),
        ensures
            r.0 <= self.key_seq().len(),
            forall|i: int| 0 <= i < r.0 ==> seq_lt(#[trigger] self.key_seq()[i], k@),
            r.1 ==> r.0 < self.key_seq().len() && self.key_seq()[r.0 as int] == k@,
            !r.1 ==> forall|i: int|
                r.0 <= i < self.key_seq().len() ==> seq_lt(k@, #[trigger] self.key_seq()[i]),
            r.1 <==> self.key_seq().contains(k@),
    {
        let ghost ks = self.key_seq();
        let n = self.entries.len();
        let mut i: usize = 0;
        while i < n
            invariant
                n == ks.len(),
                ks == self.key_seq(),
                strictly_sorted(ks),
                i <= n,
                forall|j: int| 0 <= j < i ==> seq_lt(#[trigger] ks[j], k@),
            decreases n - i,
        {
            let key = &self.entries[i].0;
            assert(key@ == ks[i as int]);
            if str_eq(key.as_str(), k) {
                assert(ks.contains(k@));
                return (i, true);
            }
            if !str_lt(key.as_str(), k) {
                proof {
                    lemma_seq_lt_trichotomy(key@, k@);
                    assert forall|j: int| i <= j < ks.len() implies seq_lt(k@, #[trigger] ks[j]) by {
                        if j > i {
                            lemma_seq_lt_transitive(k@, ks[i as int], ks[j]);
                        }
                    }
                    if ks.contains(k@) {
                        let j = ks.index_of(k@);
                        if j < i {
                            lemma_seq_lt_irreflexive(k@);
                        } else {
                            lemma_seq_lt_irreflexive(k@);
                        }
                    }
                }
                return (i, false);
            }
            i = i + 1;
        }
        proof {
            if ks.contains(k@) {
                let j = ks.index_of(k@);
                lemma_seq_lt_irreflexive(k@);
            }
        }
        (n, false)
    }

    pub fn contains_key(&self, k: &str) -> (b: bool)
        requires
            self.wf(),
        ensures
            b == self.map().contains_key(k@),
    {
        proof {
            self.lemma_layout();
        }
        self.locate(k).1
    }

    pub fn get(&self, k: &str) -> (r: Option<&V>)
        requires
            self.wf(),
        ensures
            r is Some <==> self.map().contains_key(k@),
            r matches Some(v) ==> *v == self.map()[k@],
    {
        proof {
            self.lemma_layout();
        }
        let (i, found) = self.locate(k);
        if found {
            Some(&self.entries[i].1)
        } else {
            None
        }
    }

    /// The record stored at position `i` (identifier order).
    pub fn value_at(&self, i: usize) -> (r: &V)
        requires
            self.wf(),
            i < self.value_seq().len(),
        ensures
            *r == self.value_seq()[i as int],
    {
        &self.entries[i].1
    }

    /// The identifier stored at position `i` (identifier order).
    pub fn key_at(&self, i: usize) -> (r: &String)
        requires
            self.wf(),
            i < self.key_seq().len(),
        ensures
            r@ == self.key_seq()[i as int],
    {
        &self.entries[i].0
    }

    /// Adds a record under a fresh identifier.
    pub fn insert_new(&mut self, k: String, v: V)
        requires
            old(self).wf(),
            !old(self).map().contains_key(k@),
        ensures
            final(self).wf(),
            final(self).map() == old(self).map().insert(k@, v),
    {
        proof {
            self.lemma_layout();
        }
        let ghost old_map = self.map();
        let ghost old_keys = self.key_seq();
        let ghost old_vals = self.value_seq();
        let ghost kv = k@;
        let (i, found) = self.locate(k.as_str());
        assert(!found);
        let ghost new_entries = self.entries@.insert(i as int, (k, v));
        proof {
            let nk = new_entries.map_values(|e: (String, V)| e.0@);
            assert(nk =~= old_keys.insert(i as int, kv));
            assert forall|a: int, b: int| 0 <= a < b < nk.len() implies seq_lt(
                #[trigger] nk[a],
                #[trigger] nk[b],
            ) by {
                if b < i {
                } else if a < i && b == i {
                } else if a < i && b > i {
                    assert(nk[b] == old_keys[b - 1]);
                    lemma_seq_lt_transitive(nk[a], kv, nk[b]);
                } else if a == i {
                    assert(nk[b] == old_keys[b - 1]);
                } else {
                    assert(nk[a] == old_keys[a - 1]);
                    assert(nk[b] == old_keys[b - 1]);
                }
            }
        }
        self.entries.insert(i, (k, v));
        proof {
            self.lemma_layout();
            let nk = self.key_seq();
            let nv = self.value_seq();
            assert(nk =~= old_keys.insert(i as int, kv));
            assert(nv =~= old_vals.insert(i as int, v));
            assert forall|key: Seq<char>| #[trigger] self.map().contains_key(key) == old_map.insert(
                kv,
                v,
            ).contains_key(key) by {
                if nk.contains(key) {
                    let j = nk.index_of(key);
                    if j < i {
                        assert(old_keys[j] == key);
                    } else if j > i {
                        assert(old_keys[j - 1] == key);
                    }
                }
                if old_keys.contains(key) {
                    let j = old_keys.index_of(key);
                    if j < i {
                        assert(nk[j] == key);
                    } else {
                        assert(nk[j + 1] == key);
                    }
                }
                if key == kv {
                    assert(nk[i as int] == kv);
                }
            }
            assert forall|key: Seq<char>| #[trigger] self.map().contains_key(key) implies self.map()[key]
                == old_map.insert(kv, v)[key] by {
                let j = nk.index_of(key);
                assert(nk[j] == key);
                if j < i {
                    assert(old_keys[j] == key);
                    assert(old_map[old_keys[j]] == old_vals[j]);
                } else if j > i {
                    assert(old_keys[j - 1] == key);
                    assert(old_map[old_keys[j - 1]] == old_vals[j - 1]);
                }
            }
            assert(self.map() =~= old_map.insert(kv, v));
        }
    }

    /// Removes the record under `k` and hands it back.
    pub fn take(&mut self, k: &str) -> (v: V)
        requires
            old(self).wf(),
            old(self).map().contains_key(k@),
        ensures
            final(self).wf(),
            v == old(self).map()[k@],
            final(self).map() == old(self).map().remove(k@),
    {
        proof {
            self.lemma_layout();
        }
        let ghost old_map = self.map();
        let ghost old_keys = self.key_seq();
        let ghost old_vals = self.value_seq();
        let (i, found) = self.locate(k);
        assert(found);
        proof {
            let nk = self.entries@.remove(i as int).map_values(|e: (String, V)| e.0@);
            assert(nk =~= old_keys.remove(i as int));
            assert forall|a: int, b: int| 0 <= a < b < nk.len() implies seq_lt(
                #[trigger] nk[a],
                #[trigger] nk[b],
            ) by {
                if b < i {
                } else if a < i {
                    assert(nk[b] == old_keys[b + 1]);
                } else {
                    assert(nk[a] == old_keys[a + 1]);
                    assert(nk[b] == old_keys[b + 1]);
                }
            }
        }
        let (_, v) = self.entries.remove(i);
        proof {
            self.lemma_layout();
            let nk = self.key_seq();
            let nv = self.value_seq();
            assert(nk =~= old_keys.remove(i as int));
            assert(nv =~= old_vals.remove(i as int));
            assert forall|key: Seq<char>| #[trigger] self.map().contains_key(key) == old_map.remove(
                k@,
            ).contains_key(key) by {
                if nk.contains(key) {
                    let j = nk.index_of(key);
                    if j < i {
                        assert(old_keys[j] == key);
                    } else {
                        assert(old_keys[j + 1] == key);
                    }
                }
                if old_keys.contains(key) && key != k@ {
                    let j = old_keys.index_of(key);
                    if j < i {
                        assert(nk[j] == key);
                    } else {
                        assert(j != i);
                        assert(nk[j - 1] == key);
                    }
                }
            }
            assert forall|key: Seq<char>| #[trigger] self.map().contains_key(key) implies self.map()[key]
                == old_map.remove(k@)[key] by {
                let j = nk.index_of(key);
                assert(nk[j] == key);
                if j < i {
                    assert(old_keys[j] == key);
                    assert(old_map[old_keys[j]] == old_vals[j]);
                } else {
                    assert(old_keys[j + 1] == key);
                    assert(old_map[old_keys[j + 1]] == old_vals[j + 1]);
                }
            }
            assert(self.map() =~= old_map.remove(k@));
        }
        v
    }
}

impl<V> IdMap<V> {
    /// Identifiers in ascending order.
    pub fn keys(&self) -> (r: Vec<String>)
        requires
            self.wf(),
        ensures
            r@.map_values(|s: String| s@) == self.key_seq(),
            strictly_sorted(self.key_seq()),
            forall|k: Seq<char>| self.map().contains_key(k) <==> self.key_seq().contains(k),
    {
        proof {
            self.lemma_layout();
        }
        let mut r: Vec<String> = Vec::new();
        let n = self.entries.len();
        let mut i: usize = 0;
        while i < n
            invariant
                self.wf(),
                n == self.key_seq().len(),
                i <= n,
                r@.map_values(|s: String| s@) =~= self.key_seq().take(i as int),
            decreases n - i,
        {
            let k = self.key_at(i).clone();
            r.push(k);
            assert(self.key_seq().take(i + 1) =~= self.key_seq().take(i as int).push(self.key_seq()[i as int]));
            i = i + 1;
        }
        assert(self.key_seq().take(n as int) =~= self.key_seq());
        r
    }
}

impl<V> IdMap<V> {
    /// Stores `v` under `k`, replacing any record already there.
    pub fn insert(&mut self, k: String, v: V)
        requires
            old(self).wf(),
        ensures
            final(self).wf(),
            final(self).map() == old(self).map().insert(k@, v),
    {
        if self.contains_key(k.as_str()) {
            let _ = self.take(k.as_str());
        }
        let ghost mid = self.map();
        self.insert_new(k, v);
        proof {
            assert(self.map() =~= old(self).map().insert(k@, v));
        }
    }
}

} // verus!
