//! Chains of records that each name at most one successor by id (a parent
//! jurisdiction, a superseded source), and detection of cycles among them.
use vstd::prelude::*;
use crate::id_map::IdMap;
use crate::text::str_eq;

verus! {

/// A record that may name one other record by id.
pub trait Linked {
    spec fn link(&self) -> Option<Seq<char>>;

    fn link_id(&self) -> (r: Option<&String>)
        ensures
            match r {
                Some(s) => self.link() == Some(s@),
                None => self.link() is None,
            },
    ;
}

/// The id that record `k` of `m` links to, if `k` is stored and links.
pub open spec fn step<V: Linked>(m: Map<Seq<char>, V>, k: Seq<char>) -> Option<Seq<char>> {
    if m.contains_key(k) {
        m[k].link()
    } else {
        None
    }
}

/// Where `n` steps along the links from `k` lead, if they all exist.
pub open spec fn ancestor<V: Linked>(m: Map<Seq<char>, V>, k: Seq<char>, n: nat) -> Option<Seq<char>>
    decreases n,
{
    if n == 0 {
        Some(k)
    } else {
        match ancestor(m, k, (n - 1) as nat) {
            Some(a) => step(m, a),
            None => None,
        }
    }
}

/// Following links from some record comes back to it.
pub open spec fn has_cycle<V: Linked>(m: Map<Seq<char>, V>) -> bool {
    exists|k: Seq<char>, n: nat| n >= 1 && #[trigger] ancestor(m, k, n) == Some(k)
}

/// Following links from `k` eventually stops.
pub open spec fn chain_ends<V: Linked>(m: Map<Seq<char>, V>, k: Seq<char>) -> bool {
    exists|l: nat| #[trigger] ancestor(m, k, l) is None
}

/// `t + d` steps from `k` are `d` steps from where `t` steps lead.
pub proof fn lemma_ancestor_split<V: Linked>(m: Map<Seq<char>, V>, k: Seq<char>, t: nat, d: nat)
    requires
        ancestor(m, k, t) is Some,
    ensures
        ancestor(m, k, t + d) == ancestor(m, ancestor(m, k, t)->0, d),
    decreases d,
{
    if d > 0 {
        lemma_ancestor_split(m, k, t, (d - 1) as nat);
        assert((t + d - 1) as nat == t + (d - 1) as nat);
    }
}

/// Once a chain ends it stays ended.
pub proof fn lemma_ancestor_none_persists<V: Linked>(m: Map<Seq<char>, V>, k: Seq<char>, i: nat, j: nat)
    requires
        i <= j,
        ancestor(m, k, i) is None,
    ensures
        ancestor(m, k, j) is None,
    decreases j - i,
{
    if i < j {
        lemma_ancestor_none_persists(m, k, i, (j - 1) as nat);
    }
}

/// On a cycle the chain never ends.
pub proof fn lemma_cycle_never_ends<V: Linked>(m: Map<Seq<char>, V>, k: Seq<char>, n: nat, i: nat)
    requires
        n >= 1,
        ancestor(m, k, n) == Some(k),
    ensures
        ancestor(m, k, i) is Some,
    decreases i,
{
    if i < n {
        if ancestor(m, k, i) is None {
            lemma_ancestor_none_persists(m, k, i, n);
        }
    } else {
        lemma_ancestor_split(m, k, n, (i - n) as nat);
        lemma_cycle_never_ends(m, k, n, (i - n) as nat);
    }
}

fn contains_text(v: &Vec<String>, x: &str) -> (r: Option<usize>)
    ensures
        match r {
            Some(i) => i < v@.len() && v@[i as int]@ == x@,
            None => forall|i: int| 0 <= i < v@.len() ==> (#[trigger] v@[i])@ != x@,
        },
{
    let mut i: usize = 0;
    while i < v.len()
        invariant
            i <= v.len(),
            forall|j: int| 0 <= j < i ==> (#[trigger] v@[j])@ != x@,
        decreases v.len() - i,
    {
        if str_eq(v[i].as_str(), x) {
            return Some(i);
        }
        i = i + 1;
    }
    None
}

/// Whether following links from the record stored under `start` runs into
/// a cycle; `false` means the chain from `start` ends.
pub fn walk_finds_cycle<V: Linked>(m: &IdMap<V>, start: &String) -> (b: bool)
    requires
        m.wf(),
    ensures
        b ==> has_cycle(m.map()),
        b ==> !chain_ends(m.map(), start@),
        !b ==> chain_ends(m.map(), start@),
{
    let ghost map = m.map();
    let mut visited: Vec<String> = Vec::new();
    let mut current: String = start.clone();
    let mut j: usize = 0;
    proof {
        m.lemma_layout();
    }
    loop
        invariant
            m.wf(),
            map == m.map(),
            map.dom().finite(),
            visited@.len() == j,
            ancestor(map, start@, j as nat) == Some(current@),
            forall|t: int| 0 <= t < j ==> ancestor(map, start@, t as nat) == Some(
                (#[trigger] visited@[t])@,
            ),
            forall|t: int| 0 <= t < j ==> map.contains_key((#[trigger] visited@[t])@),
            forall|s: int, t: int|
                0 <= s < t < j ==> (#[trigger] visited@[s])@ != (#[trigger] visited@[t])@,
        decreases map.dom().len() - j,
    {
        let next = match m.get(current.as_str()) {
            None => {
                assert(ancestor(map, start@, (j + 1) as nat) is None);
                return false;
            },
            Some(record) => match record.link_id() {
                None => {
                    assert(ancestor(map, start@, (j + 1) as nat) is None);
                    return false;
                },
                Some(next) => next.clone(),
            },
        };
        match contains_text(&visited, current.as_str()) {
            Some(t) => {
                proof {
                    let x = visited@[t as int]@;
                    lemma_ancestor_split(map, start@, t as nat, (j - t) as nat);
                    assert(ancestor(map, x, (j - t) as nat) == Some(x));
                    if chain_ends(map, start@) {
                        let l = choose|l: nat| #[trigger] ancestor(map, start@, l) is None;
                        if l <= t {
                            lemma_ancestor_none_persists(map, start@, l, t as nat);
                        } else {
                            lemma_ancestor_split(map, start@, t as nat, (l - t) as nat);
                            lemma_cycle_never_ends(map, x, (j - t) as nat, (l - t) as nat);
                        }
                    }
                }
                return true;
            },
            None => {},
        }
        let ghost seen = visited@.map_values(|s: String| s@);
        proof {
            assert forall|t: int| 0 <= t < j implies seen.to_set().contains(#[trigger] visited@[t]@) by {
                assert(seen[t] == visited@[t]@);
            }
        }
        visited.push(current);
        current = next;
        j = visited.len();
        proof {
            let seen2 = visited@.map_values(|s: String| s@);
            assert forall|a: int, b: int| 0 <= a < seen2.len() && 0 <= b < seen2.len() && a != b implies seen2[a]
                != seen2[b] by {
                if a < b {
                    assert(seen2[a] == visited@[a]@ && seen2[b] == visited@[b]@);
                } else {
                    assert(seen2[a] == visited@[a]@ && seen2[b] == visited@[b]@);
                }
            }
            assert(seen2.no_duplicates());
            seen2.unique_seq_to_set();
            assert(seen2.to_set().subset_of(map.dom())) by {
                assert forall|x: Seq<char>| seen2.to_set().contains(x) implies map.dom().contains(x) by {
                    let t = seen2.index_of(x);
                    assert(seen2[t] == visited@[t]@);
                }
            }
            vstd::set_lib::lemma_len_subset(seen2.to_set(), map.dom());
        }
    }
}

/// Whether the links among the records of `m` form a cycle.
pub fn chain_has_cycle<V: Linked>(m: &IdMap<V>) -> (b: bool)
    requires
        m.wf(),
    ensures
        b == has_cycle(m.map()),
{
    let ghost map = m.map();
    let n = m.len();
    let mut i: usize = 0;
    proof {
        m.lemma_layout();
    }
    while i < n
        invariant
            m.wf(),
            map == m.map(),
            n == m.key_seq().len(),
            i <= n,
            forall|t: int|
                0 <= t < i ==> chain_ends(map, #[trigger] m.key_seq()[t]),
        decreases n - i,
    {
        let key = m.key_at(i);
        if walk_finds_cycle(m, key) {
            return true;
        }
        i = i + 1;
    }
    proof {
        m.lemma_layout();
        if has_cycle(map) {
            let (k, c) = choose|k: Seq<char>, c: nat| c >= 1 && #[trigger] ancestor(map, k, c) == Some(k);
            assert(map.contains_key(k)) by {
                if !map.contains_key(k) {
                    assert(ancestor(map, k, 0) == Some(k));
                    assert(ancestor(map, k, 1) is None);
                    lemma_ancestor_none_persists(map, k, 1, c);
                }
            }
            let t = m.key_seq().index_of(k);
            let l = choose|l: nat| #[trigger] ancestor(map, m.key_seq()[t], l) is None;
            lemma_cycle_never_ends(map, k, c, l);
        }
    }
    false
}

} // verus!
