//! Chronological order of recorded facts: by time, then by id.
use vstd::prelude::*;
use crate::text::{seq_lt, lemma_seq_lt_irreflexive, lemma_seq_lt_transitive};

verus! {

/// A fact's place in time: when it happened and its id, both as text.
pub struct Stamp {
    pub time: Seq<char>,
    pub id: Seq<char>,
}

/// `a` comes strictly before `b`: an earlier time, or the same time and a
/// smaller id (both compared as Rust compares `str`).
pub open spec fn stamp_lt(a: Stamp, b: Stamp) -> bool {
    seq_lt(a.time, b.time) || (a.time == b.time && seq_lt(a.id, b.id))
}

pub proof fn lemma_stamp_lt_irreflexive(a: Stamp)
    ensures
        !stamp_lt(a, a),
{
    lemma_seq_lt_irreflexive(a.time);
    lemma_seq_lt_irreflexive(a.id);
}

pub proof fn lemma_stamp_lt_transitive(a: Stamp, b: Stamp, c: Stamp)
    requires
        stamp_lt(a, b),
        stamp_lt(b, c),
    ensures
        stamp_lt(a, c),
{
    if seq_lt(a.time, b.time) && seq_lt(b.time, c.time) {
        lemma_seq_lt_transitive(a.time, b.time, c.time);
    } else if seq_lt(a.id, b.id) && seq_lt(b.id, c.id) && a.time == b.time && b.time == c.time {
        lemma_seq_lt_transitive(a.id, b.id, c.id);
    }
}

pub proof fn lemma_stamp_lt_asymmetric(a: Stamp, b: Stamp)
    ensures
        !(stamp_lt(a, b) && stamp_lt(b, a)),
{
    if stamp_lt(a, b) && stamp_lt(b, a) {
        lemma_stamp_lt_transitive(a, b, a);
        lemma_stamp_lt_irreflexive(a);
    }
}

/// A record placed in time by a stamp.
pub trait Chronological {
    spec fn stamp(&self) -> Stamp;

    /// `self` comes strictly before `other`.
    fn comes_before(&self, other: &Self) -> (r: bool)
        ensures
            r == stamp_lt(self.stamp(), other.stamp()),
    ;
}

/// `s` is in chronological order: no record comes strictly before one
/// placed ahead of it.
pub open spec fn in_chronological_order<T: Chronological>(s: Seq<T>) -> bool {
    forall|i: int, j: int| 0 <= i < j < s.len() ==> !stamp_lt((#[trigger] s[j]).stamp(), (#[trigger] s[i]).stamp())
}

/// Stable insertion sort by time, then id.
pub fn sort_chronologically<T: Chronological>(v: &mut Vec<T>)
    ensures
        final(v)@.to_multiset() == old(v)@.to_multiset(),
        in_chronological_order(final(v)@),
{
    let n = v.len();
    let mut i: usize = 0;
    while i < n
        invariant
            n == v@.len(),
            i <= n,
            v@.to_multiset() == old(v)@.to_multiset(),
            in_chronological_order(v@.take(i as int)),
        decreases n - i,
    {
        let ghost before_remove = v@;
        let e = v.remove(i);
        let ghost prefix = v@.take(i as int);
        proof {
            assert(prefix =~= before_remove.take(i as int));
        }
        let mut p: usize = 0;
        while p < i && !e.comes_before(&v[p])
            invariant
                p <= i,
                i < n,
                v@.len() == n - 1,
                v@ == before_remove.remove(i as int),
                prefix == v@.take(i as int),
                forall|k: int| 0 <= k < p ==> !stamp_lt(e.stamp(), #[trigger] v@[k].stamp()),
            decreases i - p,
        {
            p = p + 1;
        }
        let ghost removed = v@;
        v.insert(p, e);
        proof {
            vstd::seq_lib::to_multiset_remove(before_remove, i as int);
            vstd::seq_lib::to_multiset_insert(removed, p as int, e);
            assert(before_remove[i as int] == e);
            assert(before_remove.contains(e));
            vstd::seq_lib::to_multiset_contains(before_remove, e);
            assert(v@.to_multiset() =~= before_remove.to_multiset()) by {
                broadcast use vstd::multiset::group_multiset_axioms;
            }
            let s = v@.take(i + 1);
            assert forall|a: int, b: int| 0 <= a < b < s.len() implies !stamp_lt(
                #[trigger] s[b].stamp(),
                #[trigger] s[a].stamp(),
            ) by {
                if b < p {
                    assert(s[a] == prefix[a] && s[b] == prefix[b]);
                } else if b == p {
                    assert(s[b] == e);
                    assert(s[a] == v@[a]);
                } else if a == p {
                    assert(s[a] == e);
                    assert(s[b] == prefix[b - 1]);
                    assert(p < i);
                    assert(stamp_lt(e.stamp(), prefix[p as int].stamp()));
                    if b - 1 > p {
                        assert(!stamp_lt(prefix[b - 1].stamp(), prefix[p as int].stamp()));
                        if stamp_lt(prefix[b - 1].stamp(), e.stamp()) {
                            lemma_stamp_lt_transitive(
                                prefix[b - 1].stamp(),
                                e.stamp(),
                                prefix[p as int].stamp(),
                            );
                        }
                    } else {
                        lemma_stamp_lt_asymmetric(e.stamp(), prefix[p as int].stamp());
                    }
                } else if a < p {
                    assert(s[a] == prefix[a] && s[b] == prefix[b - 1]);
                } else {
                    assert(s[a] == prefix[a - 1] && s[b] == prefix[b - 1]);
                }
            }
        }
        i = i + 1;
    }
    proof {
        assert(v@.take(n as int) =~= v@);
    }
}


} // verus!
