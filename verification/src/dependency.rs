//! Dependency graphs between versioned registry entries, and detection of
//! dependency cycles when an entry is added.
use vstd::prelude::*;
use crate::text::str_eq;

verus! {

/// What versions of a dependency are acceptable.
#[derive(Debug, Clone, Copy, PartialEq, Eq, Structural)]
pub enum DepRequirement {
    Exact(u64, u64, u64),
    CompatibleMajor(u64),
}

/// One dependency of a node: an id, a requirement on its version, and
/// whether it may be absent.
pub struct DepEdge {
    pub id: String,
    pub requirement: DepRequirement,
    pub optional: bool,
}

/// A versioned node with its dependencies.
pub struct DepNode {
    pub id: String,
    pub version: (u64, u64, u64),
    pub deps: Vec<DepEdge>,
}

/// Abstract value of a node: id, version and (id, requirement, optional)
/// for each dependency.
pub struct DepView {
    pub id: Seq<char>,
    pub version: (u64, u64, u64),
    pub deps: Seq<(Seq<char>, DepRequirement, bool)>,
}

impl View for DepNode {
    type V = DepView;

    open spec fn view(&self) -> DepView {
        DepView {
            id: self.id@,
            version: self.version,
            deps: self.deps@.map_values(|d: DepEdge| (d.id@, d.requirement, d.optional)),
        }
    }
}

/// Abstract value of a list of nodes.
pub open spec fn views(g: Seq<DepNode>) -> Seq<DepView> {
    g.map_values(|n: DepNode| n@)
}

/// The identity of a node: id and version.
pub type DepKey = (Seq<char>, (u64, u64, u64));

pub open spec fn key_of(n: DepView) -> DepKey {
    (n.id, n.version)
}

pub open spec fn accepts(requirement: DepRequirement, version: (u64, u64, u64)) -> bool {
    match requirement {
        DepRequirement::Exact(a, b, c) => version == (a, b, c),
        DepRequirement::CompatibleMajor(m) => version.0 == m,
    }
}

fn accepts_exec(requirement: DepRequirement, version: (u64, u64, u64)) -> (b: bool)
    ensures
        b == accepts(requirement, version),
{
    match requirement {
        DepRequirement::Exact(a, b, c) => version.0 == a && version.1 == b && version.2 == c,
        DepRequirement::CompatibleMajor(m) => version.0 == m,
    }
}

/// A required dependency of `n` is satisfied by a node with key `k`.
pub open spec fn requires_key(n: DepView, k: DepKey) -> bool {
    exists|d: int| 0 <= d < n.deps.len() && !(#[trigger] n.deps[d]).2 && n.deps[d].0 == k.0 && accepts(n.deps[d].1, k.1)
}

/// Distinct nodes have distinct keys.
pub open spec fn keys_distinct(g: Seq<DepView>) -> bool {
    forall|i: int, j: int| 0 <= i < j < g.len() ==> key_of(#[trigger] g[i]) != key_of(#[trigger] g[j])
}

/// An edge of the graph: node `i` requires node `j`.
pub open spec fn edge(g: Seq<DepView>, i: int, j: int) -> bool {
    0 <= i < g.len() && 0 <= j < g.len() && requires_key(g[i], key_of(g[j]))
}

/// A walk of at least one edge along node positions.
pub open spec fn is_walk(g: Seq<DepView>, p: Seq<int>) -> bool {
    &&& p.len() >= 2
    &&& forall|t: int| 0 <= t < p.len() - 1 ==> edge(g, #[trigger] p[t], p[t + 1])
}

/// Node `b` can be reached from node `a` along one edge or more.
pub open spec fn reaches(g: Seq<DepView>, a: int, b: int) -> bool {
    exists|p: Seq<int>| #[trigger] is_walk(g, p) && p[0] == a && p.last() == b
}

/// No node reaches itself.
pub open spec fn acyclic(g: Seq<DepView>) -> bool {
    forall|k: int| 0 <= k < g.len() ==> !#[trigger] reaches(g, k, k)
}

/// Some node on a cycle can be reached from `a` (or is `a`).
pub open spec fn reaches_cycle(g: Seq<DepView>, a: int) -> bool {
    exists|k: int| 0 <= k < g.len() && (k == a || reaches(g, a, k)) && #[trigger] reaches(g, k, k)
}

/// Walks compose.
pub proof fn lemma_reaches_trans(g: Seq<DepView>, a: int, b: int, c: int)
    requires
        reaches(g, a, b),
        reaches(g, b, c),
    ensures
        reaches(g, a, c),
{
    let p = choose|p: Seq<int>| #[trigger] is_walk(g, p) && p[0] == a && p.last() == b;
    let q = choose|q: Seq<int>| #[trigger] is_walk(g, q) && q[0] == b && q.last() == c;
    let r = p + q.skip(1);
    assert forall|t: int| 0 <= t < r.len() - 1 implies edge(g, #[trigger] r[t], r[t + 1]) by {
        if t < p.len() - 1 {
            assert(r[t] == p[t] && r[t + 1] == p[t + 1]);
        } else if t == p.len() - 1 {
            assert(r[t] == q[0] && r[t + 1] == q[1]);
        } else {
            let u = t - p.len() + 1;
            assert(r[t] == q[u] && r[t + 1] == q[u + 1]);
        }
    }
    assert(is_walk(g, r));
    assert(r.last() == q.last());
}

/// A single edge is a walk.
pub proof fn lemma_edge_reaches(g: Seq<DepView>, a: int, b: int)
    requires
        edge(g, a, b),
    ensures
        reaches(g, a, b),
{
    let p = seq![a, b];
    assert(is_walk(g, p));
}

/// Every node of a walk is reached from its first node (past the first).
pub proof fn lemma_walk_prefix(g: Seq<DepView>, p: Seq<int>, t: int)
    requires
        is_walk(g, p),
        1 <= t < p.len(),
    ensures
        reaches(g, p[0], p[t]),
    decreases t,
{
    if t == 1 {
        lemma_edge_reaches(g, p[0], p[1]);
    } else {
        lemma_walk_prefix(g, p, t - 1);
        assert(edge(g, p[t - 1], p[t]));
        lemma_edge_reaches(g, p[t - 1], p[t]);
        lemma_reaches_trans(g, p[0], p[t - 1], p[t]);
    }
}

/// Every node of a walk reaches its last node (before the last).
pub proof fn lemma_walk_suffix(g: Seq<DepView>, p: Seq<int>, t: int)
    requires
        is_walk(g, p),
        0 <= t < p.len() - 1,
    ensures
        reaches(g, p[t], p.last()),
    decreases p.len() - t,
{
    if t == p.len() - 2 {
        lemma_edge_reaches(g, p[t], p[t + 1]);
    } else {
        lemma_walk_suffix(g, p, t + 1);
        lemma_edge_reaches(g, p[t], p[t + 1]);
        lemma_reaches_trans(g, p[t], p[t + 1], p.last());
    }
}

/// Adding a node changes no edge between the old nodes.
pub proof fn lemma_old_edges_kept(g: Seq<DepView>, c: DepView, i: int, j: int)
    requires
        0 <= i < g.len(),
        0 <= j < g.len(),
    ensures
        edge(g.push(c), i, j) == edge(g, i, j),
{
    assert(g.push(c)[i] == g[i] && g.push(c)[j] == g[j]);
}

/// Once node `c` is added to an acyclic graph, every cycle passes
/// through `c`: a node on a cycle that avoids `c` would be on an old cycle.
pub proof fn lemma_new_cycles_pass_through(g: Seq<DepView>, c: DepView, k: int)
    requires
        acyclic(g),
        0 <= k < g.len() + 1,
        reaches(g.push(c), k, k),
    ensures
        reaches(g.push(c), g.len() as int, g.len() as int),
{
    let h = g.push(c);
    let n = g.len() as int;
    let p = choose|p: Seq<int>| #[trigger] is_walk(h, p) && p[0] == k && p.last() == k;
    if exists|t: int| 0 <= t < p.len() && p[t] == n {
        let t = choose|t: int| 0 <= t < p.len() && p[t] == n;
        if t == 0 || t == p.len() - 1 {
            assert(p[0] == n);
        } else {
            lemma_walk_suffix(h, p, t);
            lemma_walk_prefix(h, p, t);
            lemma_reaches_trans(h, n, k, n);
        }
    } else {
        assert forall|t: int| 0 <= t < p.len() - 1 implies edge(g, #[trigger] p[t], p[t + 1]) by {
            assert(edge(h, p[t], p[t + 1]));
            assert(p[t] != n && p[t + 1] != n);
            lemma_old_edges_kept(g, c, p[t], p[t + 1]);
        }
        assert(is_walk(g, p));
        assert(reaches(g, k, k));
    }
}

/// Adding a node that does not reach itself keeps the graph acyclic.
pub proof fn lemma_acyclic_after_push(g: Seq<DepView>, c: DepView)
    requires
        acyclic(g),
        !reaches(g.push(c), g.len() as int, g.len() as int),
    ensures
        acyclic(g.push(c)),
{
    assert forall|k: int| 0 <= k < g.push(c).len() implies !#[trigger] reaches(g.push(c), k, k) by {
        if reaches(g.push(c), k, k) {
            lemma_new_cycles_pass_through(g, c, k);
        }
    }
}

/// In an acyclic graph with one new node, a cycle can be reached from the
/// new node exactly when the new node reaches itself.
pub proof fn lemma_reachable_cycle_is_self_reach(g: Seq<DepView>, c: DepView)
    requires
        acyclic(g),
    ensures
        reaches_cycle(g.push(c), g.len() as int) == reaches(g.push(c), g.len() as int, g.len() as int),
{
    let h = g.push(c);
    let n = g.len() as int;
    if reaches_cycle(h, n) {
        let k = choose|k: int| 0 <= k < h.len() && (k == n || reaches(h, n, k)) && #[trigger] reaches(h, k, k);
        lemma_new_cycles_pass_through(g, c, k);
    }
    if reaches(h, n, n) {
        assert(0 <= n < h.len() && (n == n || reaches(h, n, n)) && reaches(h, n, n));
    }
}

/// The positions `j` that node `i` requires.
fn successors(g: &Vec<DepNode>, i: usize) -> (r: Vec<usize>)
    requires
        i < g@.len(),
    ensures
        forall|t: int| 0 <= t < r@.len() ==> (r@[t] as int) < g@.len() && edge(views(g@), i as int, #[trigger] r@[t] as int),
        forall|j: int| 0 <= j < g@.len() && edge(views(g@), i as int, j) ==> r@.contains(j as usize),
{
    let n = g.len();
    let node = &g[i];
    let ghost gv = views(g@);
    let mut r: Vec<usize> = Vec::new();
    let mut j: usize = 0;
    while j < n
        invariant
            n == g@.len(),
            i < n,
            *node == g@[i as int],
            gv == views(g@),
            j <= n,
            forall|t: int| 0 <= t < r@.len() ==> (r@[t] as int) < n && edge(gv, i as int, #[trigger] r@[t] as int),
            forall|u: int| 0 <= u < j && edge(gv, i as int, u) ==> r@.contains(u as usize),
        decreases n - j,
    {
        let target = &g[j];
        let m = node.deps.len();
        let mut d: usize = 0;
        let mut found = false;
        while d < m && !found
            invariant
                m == node.deps@.len(),
                d <= m,
                *target == g@[j as int],
                found ==> requires_key(node@, key_of(target@)),
                !found ==> forall|e: int|
                    0 <= e < d ==> !(!(#[trigger] node@.deps[e]).2 && node@.deps[e].0 == target.id@
                        && accepts(node@.deps[e].1, target.version)),
            decreases m - d,
        {
            let dep = &node.deps[d];
            assert(node@.deps[d as int] == (dep.id@, dep.requirement, dep.optional));
            if !dep.optional && str_eq(dep.id.as_str(), target.id.as_str()) && accepts_exec(
                dep.requirement,
                target.version,
            ) {
                found = true;
            }
            d = d + 1;
        }
        let ghost r_old = r@;
        if found {
            r.push(j);
        }
        proof {
            assert(gv[i as int] == node@ && gv[j as int] == target@);
            if !found {
                assert(!requires_key(node@, key_of(target@)));
            }
            assert forall|u: int| 0 <= u < j + 1 && edge(gv, i as int, u) implies r@.contains(u as usize) by {
                if u == j {
                    assert(r@[r@.len() - 1] == j);
                } else {
                    assert(r_old.contains(u as usize));
                    let w = r_old.index_of(u as usize);
                    assert(r@[w] == r_old[w]);
                }
            }
        }
        j = j + 1;
    }
    r
}

/// Distinct positions below `n` are at most `n` many.
proof fn lemma_distinct_positions_bounded(s: Seq<usize>, n: usize)
    requires
        s.no_duplicates(),
        forall|u: int| 0 <= u < s.len() ==> s[u] < n,
    ensures
        s.len() <= n,
{
    let v = s.map_values(|x: usize| x as int);
    assert forall|a: int, b: int| 0 <= a < v.len() && 0 <= b < v.len() && a != b implies v[a] != v[b] by {
        assert(s[a] != s[b]);
    }
    assert(v.no_duplicates());
    v.unique_seq_to_set();
    vstd::set_lib::lemma_int_range(0, n as int);
    assert(v.to_set().subset_of(vstd::set_lib::set_int_range(0, n as int))) by {
        assert forall|x: int| v.to_set().contains(x) implies vstd::set_lib::set_int_range(0, n as int).contains(x) by {
            let u = v.index_of(x);
            assert(v[u] == s[u] as int);
        }
    }
    vstd::set_lib::lemma_len_subset(v.to_set(), vstd::set_lib::set_int_range(0, n as int));
}

/// Marks and queues the unmarked positions of `succ`.
fn mark_all(
    succ: &Vec<usize>,
    marked: &mut Vec<bool>,
    work: &mut Vec<usize>,
    Ghost(g): Ghost<Seq<DepView>>,
    Ghost(start): Ghost<int>,
    Ghost(from): Ghost<int>,
)
    requires
        old(marked)@.len() == g.len(),
        g.len() <= usize::MAX,
        0 <= start < g.len(),
        from == start || reaches(g, start, from),
        forall|u: int| 0 <= u < succ@.len() ==> (succ@[u] as int) < g.len() && edge(g, from, #[trigger] succ@[u] as int),
        forall|m: int| 0 <= m < g.len() && #[trigger] old(marked)@[m] ==> reaches(g, start, m),
        forall|u: int| 0 <= u < old(work)@.len() ==> (old(work)@[u] as int) < g.len(),
        forall|m: int| 0 <= m < g.len() ==> (old(marked)@[m] <==> old(work)@.contains(m as usize)),
        old(work)@.no_duplicates(),
    ensures
        final(marked)@.len() == g.len(),
        forall|m: int| 0 <= m < g.len() && #[trigger] final(marked)@[m] ==> reaches(g, start, m),
        forall|u: int| 0 <= u < final(work)@.len() ==> (final(work)@[u] as int) < g.len(),
        forall|m: int| 0 <= m < g.len() ==> (final(marked)@[m] <==> final(work)@.contains(m as usize)),
        final(work)@.no_duplicates(),
        final(work)@.len() >= old(work)@.len(),
        forall|u: int| 0 <= u < old(work)@.len() ==> final(work)@[u] == old(work)@[u],
        forall|u: int| 0 <= u < succ@.len() ==> #[trigger] final(marked)@[succ@[u] as int],
        forall|m: int| 0 <= m < g.len() && #[trigger] old(marked)@[m] ==> final(marked)@[m],
{
    let ghost n = g.len();
    let mut t: usize = 0;
    while t < succ.len()
        invariant
            marked@.len() == n,
            n == g.len(),
            n <= usize::MAX,
            0 <= start < n,
            from == start || reaches(g, start, from),
            t <= succ@.len(),
            forall|u: int| 0 <= u < succ@.len() ==> (succ@[u] as int) < n && edge(g, from, #[trigger] succ@[u] as int),
            forall|m: int| 0 <= m < n && #[trigger] marked@[m] ==> reaches(g, start, m),
            forall|u: int| 0 <= u < work@.len() ==> (work@[u] as int) < n,
            forall|m: int| 0 <= m < n ==> (marked@[m] <==> work@.contains(m as usize)),
            work@.no_duplicates(),
            work@.len() >= old(work)@.len(),
            forall|u: int| 0 <= u < old(work)@.len() ==> work@[u] == old(work)@[u],
            forall|u: int| 0 <= u < t ==> #[trigger] marked@[succ@[u] as int],
            forall|m: int| 0 <= m < n && #[trigger] old(marked)@[m] ==> marked@[m],
        decreases succ@.len() - t,
    {
        let j = succ[t];
        proof {
            lemma_edge_reaches(g, from, j as int);
            if from != start {
                lemma_reaches_trans(g, start, from, j as int);
            }
        }
        if !marked[j] {
            let ghost before = work@;
            marked.set(j, true);
            work.push(j);
            proof {
                assert forall|a: int, b: int| 0 <= a < b < work@.len() implies work@[a] != work@[b] by {
                    if b == work@.len() - 1 {
                        assert(!before.contains(j));
                        assert(before[a] == work@[a]);
                    } else {
                        assert(before[a] == work@[a] && before[b] == work@[b]);
                    }
                }
                assert forall|m: int| 0 <= m < n implies (marked@[m] <==> work@.contains(m as usize)) by {
                    if m == j {
                        assert(work@[work@.len() - 1] == j);
                    } else {
                        if before.contains(m as usize) {
                            let u = before.index_of(m as usize);
                            assert(work@[u] == m as usize);
                        }
                        if work@.contains(m as usize) {
                            let u = work@.index_of(m as usize);
                            assert(u < before.len());
                            assert(before[u] == m as usize);
                        }
                    }
                }
            }
        }
        t = t + 1;
    }
}

/// Whether node `start` reaches itself along one edge or more.
pub fn reaches_itself(g: &Vec<DepNode>, start: usize) -> (b: bool)
    requires
        start < g@.len(),
    ensures
        b == reaches(views(g@), start as int, start as int),
{
    let n = g.len();
    let mut marked: Vec<bool> = Vec::new();
    let mut k: usize = 0;
    while k < n
        invariant
            k <= n,
            marked@.len() == k,
            forall|t: int| 0 <= t < k ==> !#[trigger] marked@[t],
        decreases n - k,
    {
        marked.push(false);
        k = k + 1;
    }
    let mut work: Vec<usize> = Vec::new();
    let first = successors(g, start);
    mark_all(&first, &mut marked, &mut work, Ghost(views(g@)), Ghost(start as int), Ghost(start as int));
    let mut head: usize = 0;
    while head < work.len()
        invariant
            n == g@.len(),
            start < n,
            marked@.len() == n,
            head <= work@.len(),
            forall|m: int| 0 <= m < n && #[trigger] marked@[m] ==> reaches(views(g@), start as int, m),
            forall|u: int| 0 <= u < work@.len() ==> (work@[u] as int) < n,
            forall|m: int| 0 <= m < n ==> (marked@[m] <==> work@.contains(m as usize)),
            work@.no_duplicates(),
            forall|j: int| 0 <= j < n && edge(views(g@), start as int, j) ==> #[trigger] marked@[j],
            forall|u: int| 0 <= u < head ==> work@[u] != start,
            forall|u: int, j: int|
                0 <= u < head && 0 <= j < n && edge(views(g@), #[trigger] work@[u] as int, j) ==> #[trigger] marked@[j],
        decreases n - head,
    {
        proof {
            lemma_distinct_positions_bounded(work@, n);
        }
        let j = work[head];
        proof {
            assert(work@[head as int] == j);
            assert(work@.contains(j));
            assert((j as int) as usize == j);
            assert(marked@[j as int]);
        }
        if j == start {
            return true;
        }
        let succ = successors(g, j);
        let ghost before = work@;
        let ghost old_marks = marked@;
        mark_all(&succ, &mut marked, &mut work, Ghost(views(g@)), Ghost(start as int), Ghost(j as int));
        proof {
            assert forall|x: int| 0 <= x < n && edge(views(g@), start as int, x) implies #[trigger] marked@[x] by {
                assert(old_marks[x]);
            }
            assert forall|u: int, x: int|
                0 <= u < head + 1 && 0 <= x < n && edge(views(g@), #[trigger] work@[u] as int, x) implies #[trigger] marked@[x] by {
                assert(work@[u] == before[u]);
                if u < head {
                    assert(old_marks[x]);
                }
                if u == head {
                    assert(succ@.contains(x as usize));
                    let w = succ@.index_of(x as usize);
                    assert(marked@[succ@[w] as int]);
                }
            }
        }
        head = head + 1;
    }
    proof {
        if reaches(views(g@), start as int, start as int) {
            let p = choose|p: Seq<int>| #[trigger] is_walk(views(g@), p) && p[0] == start as int && p.last() == start as int;
            assert forall|t: int| 1 <= t < p.len() implies #[trigger] marked@[p[t]] by {
                lemma_walk_marked(views(g@), p, t, marked@, work@, start as int);
            }
            assert(marked@[p.last()]);
            let u = work@.index_of(start);
            assert(work@[u] == start);
        }
    }
    false
}

/// Along a walk from `start`, every later node is marked when the marks
/// contain the successors of `start` and of every marked node.
proof fn lemma_walk_marked(g: Seq<DepView>, p: Seq<int>, t: int, marked: Seq<bool>, work: Seq<usize>, start: int)
    requires
        is_walk(g, p),
        p[0] == start,
        1 <= t < p.len(),
        marked.len() == g.len(),
        g.len() <= usize::MAX,
        forall|j: int| 0 <= j < g.len() && edge(g, start, j) ==> #[trigger] marked[j],
        forall|m: int| 0 <= m < g.len() ==> (marked[m] <==> work.contains(m as usize)),
        forall|u: int, j: int|
            0 <= u < work.len() && 0 <= j < g.len() && edge(g, #[trigger] work[u] as int, j) ==> #[trigger] marked[j],
    ensures
        marked[p[t]],
    decreases t,
{
    assert(edge(g, p[t - 1], p[t]));
    if t > 1 {
        lemma_walk_marked(g, p, t - 1, marked, work, start);
        let u = work.index_of(p[t - 1] as usize);
        assert(work[u] as int == p[t - 1]);
    }
}

} // verus!
