//! A derived projection of resources and the typed links between them.
//! It is no second source of truth, and every read and write is bound to a
//! frozen authorization for the resource it touches.
use vstd::prelude::*;
use crate::authorization::{AuthorizationDecision, AuthorizationResult};
use crate::id_map::IdMap;
use crate::resource::{Id, ResourceRef, ResourceRefView, refs_view};

verus! {

/// Relationship strength of a link.
#[derive(Debug, Clone, Copy, PartialEq, Eq, Structural, Hash, PartialOrd, Ord)]
pub enum KnowledgeLinkClass {
    Strong,
    Forward,
    External,
}

/// A typed node; its labels are kept sorted and free of repeats by
/// whoever builds it.
#[derive(Debug, Clone, PartialEq, Eq)]
pub struct KnowledgeNode {
    pub resource: ResourceRef,
    pub labels: Vec<String>,
}

/// A typed, attributable relationship between two resources.
#[derive(Debug, Clone, PartialEq, Eq)]
pub struct KnowledgeEdge {
    pub edge_id: Id,
    pub source: ResourceRef,
    pub predicate: String,
    pub target: ResourceRef,
    pub class: KnowledgeLinkClass,
    pub provenance: ResourceRef,
}

impl KnowledgeEdge {
    pub fn new(
        edge_id: Id,
        source: ResourceRef,
        predicate: String,
        target: ResourceRef,
        class: KnowledgeLinkClass,
        provenance: ResourceRef,
    ) -> (r: Result<Self, &'static str>)
        ensures
            edge_id@.len() == 0 || predicate@.len() == 0 ==> r == Err::<KnowledgeEdge, &'static str>(
                "knowledge edge id and predicate are required",
            ),
            edge_id@.len() > 0 && predicate@.len() > 0 ==> r == Ok::<KnowledgeEdge, &'static str>(
                KnowledgeEdge { edge_id, source, predicate, target, class, provenance },
            ),
    {
        if edge_id.as_str().is_empty() || predicate.as_str().is_empty() {
            return Err("knowledge edge id and predicate are required");
        }
        Ok(KnowledgeEdge { edge_id, source, predicate, target, class, provenance })
    }
}

/// The authorization an operation on the graph was evaluated under, and the
/// time of the operation.
#[derive(Debug, Clone, PartialEq, Eq)]
pub struct KnowledgeGraphAccessContext {
    pub authorization: AuthorizationResult,
    pub now_epoch_seconds: u64,
}

impl KnowledgeGraphAccessContext {
    /// Allowed, bound to exactly `resource`, and not expired.
    pub open spec fn allows(&self, resource: ResourceRefView) -> bool {
        &&& self.authorization.decision == AuthorizationDecision::Allow
        &&& self.authorization.resource_ref@ == resource
        &&& (self.authorization.expires_at_epoch_seconds matches Some(e)
            ==> self.now_epoch_seconds <= e)
    }

    pub fn permits(&self, resource: &ResourceRef) -> (b: bool)
        ensures
            b == self.allows(resource@),
    {
        self.authorization.decision == AuthorizationDecision::Allow
            && self.authorization.resource_ref.same(resource) && match self.authorization.expires_at_epoch_seconds {
            Some(expires) => self.now_epoch_seconds <= expires,
            None => true,
        }
    }
}

/// Edge `e` leads from `a` to `b`.
pub open spec fn edge_between(edges: Map<Seq<char>, KnowledgeEdge>, a: ResourceRefView, b: ResourceRefView) -> bool {
    exists|k: Seq<char>|
        #![trigger edges[k]]
        edges.contains_key(k) && edges[k].source@ == a && edges[k].target@ == b
}

/// Consecutive resources of `path` are joined by stored edges.
pub open spec fn is_path(edges: Map<Seq<char>, KnowledgeEdge>, path: Seq<ResourceRefView>) -> bool {
    forall|i: int| 0 <= i < path.len() - 1 ==> edge_between(edges, #[trigger] path[i], path[i + 1])
}

/// `b` can be reached from `a` along at most `n` edges.
pub open spec fn reachable_within(
    edges: Map<Seq<char>, KnowledgeEdge>,
    a: ResourceRefView,
    b: ResourceRefView,
    n: nat,
) -> bool {
    exists|path: Seq<ResourceRefView>|
        #![trigger is_path(edges, path)]
        1 <= path.len() <= n + 1 && path[0] == a && path.last() == b && is_path(edges, path)
}

pub struct KnowledgeGraph {
    nodes: Vec<KnowledgeNode>,
    edges: IdMap<KnowledgeEdge>,
}

/// No two nodes stand for the same resource.
pub open spec fn nodes_distinct(nodes: Seq<KnowledgeNode>) -> bool {
    forall|i: int, j: int|
        0 <= i < j < nodes.len() ==> (#[trigger] nodes[i]).resource@ != (#[trigger] nodes[j]).resource@
}

/// Some node stands for `r`.
pub open spec fn has_node(nodes: Seq<KnowledgeNode>, r: ResourceRefView) -> bool {
    exists|i: int| 0 <= i < nodes.len() && (#[trigger] nodes[i]).resource@ == r
}

fn find_node(nodes: &Vec<KnowledgeNode>, r: &ResourceRef) -> (i: Option<usize>)
    ensures
        match i {
            Some(i) => i < nodes@.len() && nodes@[i as int].resource@ == r@,
            None => !has_node(nodes@, r@),
        },
{
    let mut i: usize = 0;
    while i < nodes.len()
        invariant
            i <= nodes.len(),
            forall|j: int| 0 <= j < i ==> (#[trigger] nodes@[j]).resource@ != r@,
        decreases nodes.len() - i,
    {
        if nodes[i].resource.same(r) {
            return Some(i);
        }
        i = i + 1;
    }
    None
}

impl KnowledgeGraph {
    pub closed spec fn wf(&self) -> bool {
        self.edges.wf() && nodes_distinct(self.nodes@)
    }

    /// The nodes, one per resource.
    pub closed spec fn node_seq(&self) -> Seq<KnowledgeNode> {
        self.nodes@
    }

    /// The edges by id.
    pub closed spec fn edge_map(&self) -> Map<Seq<char>, KnowledgeEdge> {
        self.edges.map()
    }

    /// The edges in ascending id order.
    pub closed spec fn edge_seq(&self) -> Seq<KnowledgeEdge> {
        self.edges.value_seq()
    }

    pub fn new() -> (r: Self)
        ensures
            r.wf(),
            r.node_seq() == Seq::<KnowledgeNode>::empty(),
            r.edge_map() == Map::<Seq<char>, KnowledgeEdge>::empty(),
    {
        KnowledgeGraph { nodes: Vec::new(), edges: IdMap::new() }
    }

    pub fn node_count(&self) -> (n: usize)
        requires
            self.wf(),
        ensures
            n == self.node_seq().len(),
    {
        self.nodes.len()
    }

    pub fn edge_count(&self) -> (n: usize)
        requires
            self.wf(),
        ensures
            n == self.edge_map().len(),
    {
        self.edges.len()
    }

    /// Stores `node`, replacing the node of the same resource if there is
    /// one, when the access context permits the resource.
    pub fn insert_node(&mut self, node: KnowledgeNode, access: &KnowledgeGraphAccessContext) -> (r: Result<
        (),
        &'static str,
    >)
        requires
            old(self).wf(),
        ensures
            final(self).wf(),
            final(self).edge_map() == old(self).edge_map(),
            !access.allows(node.resource@) ==> r == Err::<(), &'static str>(
                "knowledge graph node mutation is unauthorized",
            ) && final(self).node_seq() == old(self).node_seq(),
            access.allows(node.resource@) ==> r is Ok && has_node(final(self).node_seq(), node.resource@)
                && (forall|i: int|
                0 <= i < final(self).node_seq().len() && (#[trigger] final(self).node_seq()[i]).resource@
                    == node.resource@ ==> final(self).node_seq()[i] == node) && (forall|x: ResourceRefView|
                x != node.resource@ ==> (has_node(final(self).node_seq(), x) <==> has_node(
                    old(self).node_seq(),
                    x,
                ))),
    {
        if !access.permits(&node.resource) {
            return Err("knowledge graph node mutation is unauthorized");
        }
        let ghost old_nodes = self.nodes@;
        match find_node(&self.nodes, &node.resource) {
            Some(i) => {
                self.nodes.set(i, node);
                proof {
                    assert forall|x: ResourceRefView| x != node.resource@ implies (has_node(
                        self.nodes@,
                        x,
                    ) <==> has_node(old_nodes, x)) by {
                        if has_node(self.nodes@, x) {
                            let j = choose|j: int| 0 <= j < self.nodes@.len() && (#[trigger] self.nodes@[j]).resource@ == x;
                            assert(old_nodes[j].resource@ == x);
                        }
                        if has_node(old_nodes, x) {
                            let j = choose|j: int| 0 <= j < old_nodes.len() && (#[trigger] old_nodes[j]).resource@ == x;
                            assert(self.nodes@[j].resource@ == x);
                        }
                    }
                    assert(self.nodes@[i as int].resource@ == node.resource@);
                }
            },
            None => {
                self.nodes.push(node);
                proof {
                    assert forall|x: ResourceRefView| x != node.resource@ implies (has_node(
                        self.nodes@,
                        x,
                    ) <==> has_node(old_nodes, x)) by {
                        if has_node(self.nodes@, x) {
                            let j = choose|j: int| 0 <= j < self.nodes@.len() && (#[trigger] self.nodes@[j]).resource@ == x;
                            assert(old_nodes[j].resource@ == x);
                        }
                        if has_node(old_nodes, x) {
                            let j = choose|j: int| 0 <= j < old_nodes.len() && (#[trigger] old_nodes[j]).resource@ == x;
                            assert(self.nodes@[j].resource@ == x);
                        }
                    }
                    assert(self.nodes@[old_nodes.len() as int].resource@ == node.resource@);
                }
            },
        }
        Ok(())
    }

    /// What inserting `edge` under `access` answers.
    pub open spec fn edge_insertion(&self, edge: KnowledgeEdge, access: KnowledgeGraphAccessContext) -> Result<
        (),
        &'static str,
    > {
        if !access.allows(edge.source@) {
            Err("knowledge graph edge mutation is unauthorized")
        } else if edge.class == KnowledgeLinkClass::Strong && !has_node(self.node_seq(), edge.target@) {
            Err("strong knowledge link target must exist")
        } else if self.edge_map().contains_key(edge.edge_id@) {
            Err("knowledge edge id already exists")
        } else {
            Ok(())
        }
    }

    /// Stores an authorized edge under a fresh id; a strong edge needs its
    /// target node.
    pub fn insert_edge(&mut self, edge: KnowledgeEdge, access: &KnowledgeGraphAccessContext) -> (r: Result<
        (),
        &'static str,
    >)
        requires
            old(self).wf(),
        ensures
            final(self).wf(),
            r == old(self).edge_insertion(edge, *access),
            final(self).node_seq() == old(self).node_seq(),
            r is Ok ==> final(self).edge_map() == old(self).edge_map().insert(edge.edge_id@, edge),
            r is Err ==> final(self).edge_map() == old(self).edge_map(),
    {
        if !access.permits(&edge.source) {
            return Err("knowledge graph edge mutation is unauthorized");
        }
        if edge.class == KnowledgeLinkClass::Strong && find_node(&self.nodes, &edge.target).is_none() {
            return Err("strong knowledge link target must exist");
        }
        if self.edges.contains_key(edge.edge_id.as_str()) {
            return Err("knowledge edge id already exists");
        }
        let key = edge.edge_id.clone();
        self.edges.insert_new(key, edge);
        Ok(())
    }

    /// The node of `resource`, when the access context permits it.
    pub fn get_node(&self, resource: &ResourceRef, access: &KnowledgeGraphAccessContext) -> (r: Result<
        Option<&KnowledgeNode>,
        &'static str,
    >)
        requires
            self.wf(),
        ensures
            !access.allows(resource@) ==> r == Err::<Option<&KnowledgeNode>, &'static str>(
                "knowledge graph read is unauthorized",
            ),
            access.allows(resource@) ==> (r matches Ok(found) && (found is Some <==> has_node(
                self.node_seq(),
                resource@,
            )) && (found matches Some(n) ==> n.resource@ == resource@ && self.node_seq().contains(*n))),
    {
        if !access.permits(resource) {
            return Err("knowledge graph read is unauthorized");
        }
        match find_node(&self.nodes, resource) {
            Some(i) => Ok(Some(&self.nodes[i])),
            None => Ok(None),
        }
    }

    /// What conformance checking answers: the first edge, in id order, with
    /// an empty canonical field or an unresolved strong target.
    pub open spec fn conformance_from(&self, i: int) -> Result<(), &'static str>
        decreases self.edge_seq().len() - i,
    {
        if i < 0 || i >= self.edge_seq().len() {
            Ok(())
        } else if edge_incomplete(self.edge_seq()[i]) {
            Err("knowledge edge contains an incomplete canonical field")
        } else if self.edge_seq()[i].class == KnowledgeLinkClass::Strong && !has_node(
            self.node_seq(),
            self.edge_seq()[i].target@,
        ) {
            Err("strong knowledge link target is unresolved")
        } else {
            self.conformance_from(i + 1)
        }
    }

    pub fn validate_conformance(&self) -> (r: Result<(), &'static str>)
        requires
            self.wf(),
        ensures
            r == self.conformance_from(0),
    {
        let n = self.edges.len();
        let mut i: usize = 0;
        while i < n
            invariant
                self.wf(),
                n == self.edge_seq().len(),
                i <= n,
                self.conformance_from(0) == self.conformance_from(i as int),
            decreases n - i,
        {
            let edge = self.edges.value_at(i);
            if edge.edge_id.as_str().is_empty() || edge.predicate.as_str().is_empty()
                || edge.source.id.as_str().is_empty() || edge.target.id.as_str().is_empty()
                || edge.provenance.id.as_str().is_empty() {
                return Err("knowledge edge contains an incomplete canonical field");
            }
            if edge.class == KnowledgeLinkClass::Strong && find_node(&self.nodes, &edge.target).is_none() {
                return Err("strong knowledge link target is unresolved");
            }
            i = i + 1;
        }
        Ok(())
    }
}

/// Whether some reference of `v` stands for `r`.
fn refs_hold(v: &Vec<ResourceRef>, r: &ResourceRef) -> (b: bool)
    ensures
        b == exists|i: int| 0 <= i < v@.len() && (#[trigger] v@[i])@ == r@,
{
    let mut i: usize = 0;
    while i < v.len()
        invariant
            i <= v.len(),
            forall|j: int| 0 <= j < i ==> (#[trigger] v@[j])@ != r@,
        decreases v.len() - i,
    {
        if v[i].same(r) {
            return true;
        }
        i = i + 1;
    }
    false
}

/// The targets of the edges, in edge id order.
pub open spec fn target_views(edges: Seq<KnowledgeEdge>) -> Seq<ResourceRefView> {
    edges.map_values(|e: KnowledgeEdge| e.target@)
}

/// The traversal state's invariant: every visited resource is distinct,
/// reached within the depth limit, and is the start or an edge target.
pub open spec fn traversal_sound(
    edges: Map<Seq<char>, KnowledgeEdge>,
    targets: Seq<ResourceRefView>,
    start: ResourceRefView,
    max_depth: nat,
    result: Seq<ResourceRef>,
    queue: Seq<(ResourceRef, usize)>,
) -> bool {
    &&& forall|i: int, j: int| 0 <= i < j < result.len() ==> (#[trigger] result[i])@ != (#[trigger] result[j])@
    &&& forall|i: int| 0 <= i < result.len() ==> reachable_within(edges, start, (#[trigger] result[i])@, max_depth)
    &&& forall|i: int| 0 <= i < result.len() ==> (#[trigger] result[i])@ == start || targets.contains(result[i]@)
    &&& forall|i: int| 0 <= i < queue.len() ==> (#[trigger] queue[i]).1 <= max_depth
    &&& forall|i: int| 0 <= i < queue.len() ==> reachable_within(edges, start, (#[trigger] queue[i]).0@, queue[i].1 as nat)
    &&& forall|i: int| 0 <= i < queue.len() ==> (#[trigger] queue[i]).0@ == start || targets.contains(queue[i].0@)
}

/// Every resource reaches itself.
pub proof fn lemma_reachable_self(edges: Map<Seq<char>, KnowledgeEdge>, a: ResourceRefView, n: nat)
    ensures
        reachable_within(edges, a, a, n),
{
    let path = seq![a];
    assert(is_path(edges, path));
}

/// One more edge extends the reach by one step.
pub proof fn lemma_reachable_extend(
    edges: Map<Seq<char>, KnowledgeEdge>,
    a: ResourceRefView,
    c: ResourceRefView,
    b: ResourceRefView,
    n: nat,
)
    requires
        reachable_within(edges, a, c, n),
        edge_between(edges, c, b),
    ensures
        reachable_within(edges, a, b, n + 1),
{
    let path = choose|path: Seq<ResourceRefView>|
        #![trigger is_path(edges, path)]
        1 <= path.len() <= n + 1 && path[0] == a && path.last() == c && is_path(edges, path);
    let longer = path.push(b);
    assert forall|i: int| 0 <= i < longer.len() - 1 implies edge_between(edges, #[trigger] longer[i], longer[i + 1]) by {
        if i < path.len() - 1 {
            assert(longer[i] == path[i] && longer[i + 1] == path[i + 1]);
        }
    }
    assert(is_path(edges, longer));
}

/// Reaching within fewer steps is reaching within more.
pub proof fn lemma_reachable_monotone(
    edges: Map<Seq<char>, KnowledgeEdge>,
    a: ResourceRefView,
    b: ResourceRefView,
    m: nat,
    n: nat,
)
    requires
        m <= n,
        reachable_within(edges, a, b, m),
    ensures
        reachable_within(edges, a, b, n),
{
    let path = choose|path: Seq<ResourceRefView>|
        #![trigger is_path(edges, path)]
        1 <= path.len() <= m + 1 && path[0] == a && path.last() == b && is_path(edges, path);
    assert(is_path(edges, path));
}

/// `t` was visited at depth at most `d`.
pub open spec fn seen_within(result: Seq<ResourceRef>, depths: Seq<nat>, t: ResourceRefView, d: nat) -> bool {
    exists|j: int| 0 <= j < result.len() && (#[trigger] result[j])@ == t && depths[j] <= d
}

/// `t` waits in the queue, from `head` on, at depth at most `d`.
pub open spec fn pending_within(queue: Seq<(ResourceRef, usize)>, head: int, t: ResourceRefView, d: nat) -> bool {
    exists|q: int| head <= q < queue.len() && (#[trigger] queue[q]).0@ == t && queue[q].1 <= d
}

/// Every successor of a visited resource that may still be expanded was
/// visited, or waits in the queue, one step deeper at most.
pub open spec fn frontier_closed(
    edges: Map<Seq<char>, KnowledgeEdge>,
    result: Seq<ResourceRef>,
    depths: Seq<nat>,
    queue: Seq<(ResourceRef, usize)>,
    head: int,
    max_depth: nat,
) -> bool {
    forall|i: int, t: ResourceRefView|
        0 <= i < result.len() && depths[i] < max_depth && #[trigger] edge_between(edges, result[i]@, t)
            ==> seen_within(result, depths, t, depths[i] + 1) || pending_within(queue, head, t, depths[i] + 1)
}

/// Some resource within `max_depth - 1` edges of `start` has an edge leaving
/// it and is not permitted, so a walk down to `max_depth` edges would have to
/// expand it.
pub open spec fn walk_blocked(
    edges: Map<Seq<char>, KnowledgeEdge>,
    start: ResourceRefView,
    max_depth: nat,
    access: KnowledgeGraphAccessContext,
) -> bool {
    exists|x: ResourceRefView, t: ResourceRefView|
        max_depth > 0 && #[trigger] reachable_within(edges, start, x, (max_depth - 1) as nat) && #[trigger] edge_between(
            edges,
            x,
            t,
        ) && !access.allows(x)
}

/// The views of the queued references.
pub open spec fn queue_views(q: Seq<(ResourceRef, usize)>) -> Seq<ResourceRefView> {
    Seq::new(q.len(), |i: int| q[i].0@)
}

/// The targets of the edges of `es` that leave `x` and are not in `seen`,
/// in the order of `es`.
pub open spec fn fresh_targets(es: Seq<KnowledgeEdge>, x: ResourceRefView, seen: Seq<ResourceRefView>) -> Seq<
    ResourceRefView,
>
    decreases es.len(),
{
    if es.len() == 0 {
        Seq::empty()
    } else {
        let rest = fresh_targets(es.drop_last(), x, seen);
        if es.last().source@ == x && !seen.contains(es.last().target@) {
            rest.push(es.last().target@)
        } else {
            rest
        }
    }
}

/// What expanding the first `n` resources of `v` queues: for each one that
/// `expands` marks, in order, its fresh targets over `es` (those not among
/// the resources listed up to it).
pub open spec fn expansion(es: Seq<KnowledgeEdge>, v: Seq<ResourceRefView>, expands: Seq<bool>, n: int) -> Seq<
    ResourceRefView,
>
    decreases n,
{
    if n <= 0 {
        Seq::empty()
    } else {
        let before = expansion(es, v, expands, n - 1);
        if expands[n - 1] {
            before + fresh_targets(es, v[n - 1], v.take(n))
        } else {
            before
        }
    }
}

/// The first occurrence of each resource of `s`, in order.
pub open spec fn first_occurrences(s: Seq<ResourceRefView>) -> Seq<ResourceRefView>
    decreases s.len(),
{
    if s.len() == 0 {
        s
    } else {
        let d = first_occurrences(s.drop_last());
        if d.contains(s.last()) {
            d
        } else {
            d.push(s.last())
        }
    }
}

/// The exact breadth-first order over `es` (the edges in id order): the
/// listed resources `v` are the first occurrences of the start followed by
/// what expanding each of them queues, where a resource is expanded when it
/// lies within `max_depth - 1` edges of the start.
pub open spec fn breadth_first_order(
    es: Seq<KnowledgeEdge>,
    edges: Map<Seq<char>, KnowledgeEdge>,
    start: ResourceRefView,
    max_depth: nat,
    v: Seq<ResourceRefView>,
) -> bool {
    let expands = Seq::new(
        v.len(),
        |i: int| max_depth > 0 && reachable_within(edges, start, v[i], (max_depth - 1) as nat),
    );
    v == first_occurrences(seq![start] + expansion(es, v, expands, v.len() as int))
}

/// Which visited resources the walk expanded: those reached above
/// `max_depth`.
pub open spec fn depth_flags(depths: Seq<nat>, max_depth: nat) -> Seq<bool> {
    Seq::new(depths.len(), |i: int| depths[i] < max_depth)
}

/// The walk's order so far: what was visited is the first occurrences of
/// what was taken from the queue, and the queue holds the start followed by
/// what expanding each visited resource queued.
#[verifier::opaque]
pub open spec fn order_kept(
    es: Seq<KnowledgeEdge>,
    start: ResourceRefView,
    max_depth: nat,
    result: Seq<ResourceRef>,
    depths: Seq<nat>,
    queue: Seq<(ResourceRef, usize)>,
    head: int,
) -> bool {
    &&& refs_view(result) == first_occurrences(queue_views(queue).take(head))
    &&& queue_views(queue) == seq![start] + expansion(
        es,
        refs_view(result),
        depth_flags(depths, max_depth),
        result.len() as int,
    )
}

/// Taking a resource that was already visited from the queue keeps the order.
proof fn lemma_order_skip(
    es: Seq<KnowledgeEdge>,
    start: ResourceRefView,
    max_depth: nat,
    result: Seq<ResourceRef>,
    depths: Seq<nat>,
    queue: Seq<(ResourceRef, usize)>,
    at: int,
)
    requires
        order_kept(es, start, max_depth, result, depths, queue, at),
        0 <= at < queue.len(),
        refs_view(result).contains(queue[at].0@),
    ensures
        order_kept(es, start, max_depth, result, depths, queue, at + 1),
{
    reveal(order_kept);
    let qs = queue_views(queue).take(at + 1);
    assert(qs.drop_last() =~= queue_views(queue).take(at));
    assert(qs.last() == queue[at].0@);
}

/// Visiting a new resource taken from the queue, and queueing what expanding
/// it gives when it is expanded, keeps the order.
proof fn lemma_order_visit(
    es: Seq<KnowledgeEdge>,
    start: ResourceRefView,
    max_depth: nat,
    result: Seq<ResourceRef>,
    depths: Seq<nat>,
    q0: Seq<(ResourceRef, usize)>,
    q1: Seq<(ResourceRef, usize)>,
    at: int,
    x: ResourceRef,
    d: nat,
)
    requires
        order_kept(es, start, max_depth, result, depths, q0, at),
        depths.len() == result.len(),
        0 <= at < q0.len(),
        q0[at].0@ == x@,
        !refs_view(result).contains(x@),
        queue_views(q1) == queue_views(q0) + (if d < max_depth {
            fresh_targets(es, x@, refs_view(result.push(x)))
        } else {
            Seq::empty()
        }),
    ensures
        order_kept(es, start, max_depth, result.push(x), depths.push(d), q1, at + 1),
{
    reveal(order_kept);
    let n = result.len() as int;
    let (v0, v1) = (refs_view(result), refs_view(result.push(x)));
    let (f0, f1) = (depth_flags(depths, max_depth), depth_flags(depths.push(d), max_depth));
    assert(v1 =~= v0.push(x@));
    assert(v1.take(n) =~= v0.take(n));
    assert(v0.take(n) =~= v0);
    assert(f1.take(n) =~= f0.take(n));
    lemma_expansion_prefix(es, v0, f0, v1, f1, n);
    assert(v1.take(n + 1) =~= v1);
    let qs = queue_views(q1).take(at + 1);
    assert(qs.drop_last() =~= queue_views(q0).take(at));
    assert(qs.last() == x@);
    assert(queue_views(q1) =~= seq![start] + expansion(es, v1, f1, n + 1));
}

/// The expansion of a prefix depends only on that prefix.
proof fn lemma_expansion_prefix(
    es: Seq<KnowledgeEdge>,
    v1: Seq<ResourceRefView>,
    f1: Seq<bool>,
    v2: Seq<ResourceRefView>,
    f2: Seq<bool>,
    n: int,
)
    requires
        0 <= n <= v1.len(),
        n <= v2.len(),
        n <= f1.len(),
        n <= f2.len(),
        v1.take(n) == v2.take(n),
        f1.take(n) == f2.take(n),
    ensures
        expansion(es, v1, f1, n) == expansion(es, v2, f2, n),
    decreases n,
{
    if n > 0 {
        assert(v1.take(n - 1) =~= v1.take(n).take(n - 1));
        assert(v2.take(n - 1) =~= v2.take(n).take(n - 1));
        assert(f1.take(n - 1) =~= f1.take(n).take(n - 1));
        assert(f2.take(n - 1) =~= f2.take(n).take(n - 1));
        lemma_expansion_prefix(es, v1, f1, v2, f2, n - 1);
        assert(v1[n - 1] == v1.take(n)[n - 1] && v2[n - 1] == v2.take(n)[n - 1]);
        assert(f1[n - 1] == f1.take(n)[n - 1] && f2[n - 1] == f2.take(n)[n - 1]);
    }
}

/// Breadth-first order: no resource of `v` is closer to `start` than one
/// listed before it.
pub open spec fn breadth_first(edges: Map<Seq<char>, KnowledgeEdge>, start: ResourceRefView, v: Seq<ResourceRef>) -> bool {
    forall|i: int, j: int, n: nat|
        0 <= i < j < v.len() && #[trigger] reachable_within(edges, start, v[j]@, n) ==> reachable_within(
            edges,
            start,
            #[trigger] v[i]@,
            n,
        )
}

/// Every visited resource that may still be expanded and has an edge
/// leaving it is permitted.
pub open spec fn expansions_permitted(
    edges: Map<Seq<char>, KnowledgeEdge>,
    result: Seq<ResourceRef>,
    depths: Seq<nat>,
    max_depth: nat,
    access: KnowledgeGraphAccessContext,
) -> bool {
    forall|i: int, t: ResourceRefView|
        0 <= i < result.len() && depths[i] < max_depth && #[trigger] edge_between(edges, result[i]@, t)
            ==> access.allows(result[i]@)
}

/// Once nothing waits, the resources along any path of at most
/// `max_depth` edges from a visited start at depth 0 were all visited.
proof fn lemma_paths_visited(
    edges: Map<Seq<char>, KnowledgeEdge>,
    result: Seq<ResourceRef>,
    depths: Seq<nat>,
    queue: Seq<(ResourceRef, usize)>,
    max_depth: nat,
    path: Seq<ResourceRefView>,
    k: int,
)
    requires
        frontier_closed(edges, result, depths, queue, queue.len() as int, max_depth),
        depths.len() == result.len(),
        1 <= path.len() <= max_depth + 1,
        is_path(edges, path),
        seen_within(result, depths, path[0], 0),
        0 <= k < path.len(),
    ensures
        seen_within(result, depths, path[k], k as nat),
    decreases k,
{
    if k > 0 {
        lemma_paths_visited(edges, result, depths, queue, max_depth, path, k - 1);
        let j = choose|j: int| 0 <= j < result.len() && (#[trigger] result[j])@ == path[k - 1] && depths[j] <= (k - 1) as nat;
        assert(edge_between(edges, path[k - 1], path[k - 1 + 1]));
        assert(edge_between(edges, result[j]@, path[k]));
        if seen_within(result, depths, path[k], depths[j] + 1) {
            let w = choose|w: int| 0 <= w < result.len() && (#[trigger] result[w])@ == path[k] && depths[w] <= depths[j] + 1;
            assert(result[w]@ == path[k] && depths[w] <= k as nat);
        } else {
            assert(!pending_within(queue, queue.len() as int, path[k], depths[j] + 1));
        }
    }
}

/// When nothing waits any more, every resource within `max_depth` edges of
/// the start was visited.
proof fn lemma_traversal_complete(
    edges: Map<Seq<char>, KnowledgeEdge>,
    start: ResourceRefView,
    max_depth: nat,
    result: Seq<ResourceRef>,
    depths: Seq<nat>,
    queue: Seq<(ResourceRef, usize)>,
)
    requires
        frontier_closed(edges, result, depths, queue, queue.len() as int, max_depth),
        depths.len() == result.len(),
        result.len() >= 1,
        result[0]@ == start,
        depths[0] == 0,
    ensures
        forall|x: ResourceRefView|
            #[trigger] reachable_within(edges, start, x, max_depth) ==> exists|i: int|
                0 <= i < result.len() && (#[trigger] result[i])@ == x,
{
    assert forall|x: ResourceRefView| #[trigger]
        reachable_within(edges, start, x, max_depth) implies exists|i: int|
        0 <= i < result.len() && (#[trigger] result[i])@ == x by {
        let path = choose|path: Seq<ResourceRefView>|
            #![trigger is_path(edges, path)]
            1 <= path.len() <= max_depth + 1 && path[0] == start && path.last() == x && is_path(edges, path);
        assert(result[0]@ == path[0] && depths[0] <= 0);
        lemma_paths_visited(edges, result, depths, queue, max_depth, path, path.len() - 1);
        let j = choose|j: int|
            0 <= j < result.len() && (#[trigger] result[j])@ == path[path.len() - 1] && depths[j] <= (path.len() - 1) as nat;
        assert(result[j]@ == x);
    }
}

impl KnowledgeGraph {
    /// Queues the targets of the edges leaving `current` that are not yet
    /// visited, one step deeper; fails if `current` is not permitted.
    fn expand(
        &self,
        current: &ResourceRef,
        depth: usize,
        result: &Vec<ResourceRef>,
        queue: &mut Vec<(ResourceRef, usize)>,
        access: &KnowledgeGraphAccessContext,
        Ghost(start): Ghost<ResourceRefView>,
        Ghost(max_depth): Ghost<nat>,
    ) -> (r: Result<(), &'static str>)
        requires
            self.wf(),
            depth < max_depth,
            max_depth <= usize::MAX,
            reachable_within(self.edge_map(), start, current@, depth as nat),
            traversal_sound(self.edge_map(), target_views(self.edge_seq()), start, max_depth, result@, old(queue)@),
        ensures
            final(queue)@.len() >= old(queue)@.len(),
            forall|j: int| 0 <= j < old(queue)@.len() ==> final(queue)@[j] == old(queue)@[j],
            forall|j: int| old(queue)@.len() <= j < final(queue)@.len() ==> (#[trigger] final(queue)@[j]).1 == depth + 1,
            r is Ok ==> traversal_sound(self.edge_map(), target_views(self.edge_seq()), start, max_depth, result@, final(queue)@),
            r is Ok ==> forall|t: ResourceRefView| #[trigger]
                edge_between(self.edge_map(), current@, t) ==> (exists|j: int|
                    0 <= j < result@.len() && (#[trigger] result@[j])@ == t) || (exists|q: int|
                    old(queue)@.len() <= q < final(queue)@.len() && (#[trigger] final(queue)@[q]).0@ == t
                        && final(queue)@[q].1 == depth + 1),
            r is Err ==> r == Err::<(), &'static str>("knowledge graph traversal crossed an unauthorized source"),
            r is Ok ==> forall|t: ResourceRefView| #[trigger]
                edge_between(self.edge_map(), current@, t) ==> access.allows(current@),
            r is Err ==> !access.allows(current@) && exists|t: ResourceRefView| #[trigger]
                edge_between(self.edge_map(), current@, t),
            r is Ok ==> queue_views(final(queue)@) == queue_views(old(queue)@) + fresh_targets(
                self.edge_seq(),
                current@,
                refs_view(result@),
            ),
    {
        let n = self.edges.len();
        let ghost targets = target_views(self.edge_seq());
        let ghost q_start = queue@.len();
        let mut i: usize = 0;
        proof {
            self.edges.lemma_layout();
        }
        while i < n
            invariant
                self.wf(),
                n == self.edge_seq().len(),
                targets == target_views(self.edge_seq()),
                i <= n,
                depth < max_depth,
                max_depth <= usize::MAX,
                reachable_within(self.edge_map(), start, current@, depth as nat),
                traversal_sound(self.edge_map(), targets, start, max_depth, result@, queue@),
                q_start == old(queue)@.len(),
                queue@.len() >= old(queue)@.len(),
                forall|j: int| 0 <= j < old(queue)@.len() ==> queue@[j] == old(queue)@[j],
                forall|j: int| q_start <= j < queue@.len() ==> (#[trigger] queue@[j]).1 == depth + 1,
                forall|k: int|
                    0 <= k < i && (#[trigger] self.edge_seq()[k]).source@ == current@ ==> (exists|j: int|
                        0 <= j < result@.len() && (#[trigger] result@[j])@ == self.edge_seq()[k].target@) || (exists|q: int|
                        q_start <= q < queue@.len() && (#[trigger] queue@[q]).0@ == self.edge_seq()[k].target@
                            && queue@[q].1 == depth + 1),
            forall|k: int| 0 <= k < i && (#[trigger] self.edge_seq()[k]).source@ == current@ ==> access.allows(current@),
                queue_views(queue@) == queue_views(old(queue)@) + fresh_targets(
                    self.edge_seq().take(i as int),
                    current@,
                    refs_view(result@),
                ),
            decreases n - i,
        {
            let edge = self.edges.value_at(i);
            let ghost before = queue@;
            proof {
                let es = self.edge_seq().take(i + 1);
                assert(es.drop_last() =~= self.edge_seq().take(i as int));
                assert(es.last() == *edge);
                assert(refs_view(result@).contains(edge.target@) <==> exists|j: int|
                    0 <= j < result@.len() && (#[trigger] result@[j])@ == edge.target@) by {
                    if refs_view(result@).contains(edge.target@) {
                        let j = refs_view(result@).index_of(edge.target@);
                        assert(result@[j]@ == edge.target@);
                    }
                    if exists|j: int| 0 <= j < result@.len() && (#[trigger] result@[j])@ == edge.target@ {
                        let j = choose|j: int| 0 <= j < result@.len() && (#[trigger] result@[j])@ == edge.target@;
                        assert(refs_view(result@)[j] == edge.target@);
                    }
                }
            }
            if edge.source.same(current) {
                if !access.permits(&edge.source) {
                    proof {
                        self.edges.lemma_layout();
                        let k = self.edges.key_seq()[i as int];
                        assert(self.edges.map().contains_key(self.edges.key_seq()[i as int]));
                        assert(self.edge_map().contains_key(k) && self.edge_map()[k] == *edge);
                        assert(edge_between(self.edge_map(), current@, edge.target@));
                    }
                    return Err("knowledge graph traversal crossed an unauthorized source");
                }
                if !refs_hold(result, &edge.target) {
                    proof {
                        self.edges.lemma_layout();
                        let k = self.edges.key_seq()[i as int];
                        assert(self.edges.map().contains_key(self.edges.key_seq()[i as int]));
                        assert(self.edges.map()[self.edges.key_seq()[i as int]] == self.edges.value_seq()[i as int]);
                        assert(self.edge_map().contains_key(k) && self.edge_map()[k] == *edge);
                        assert(edge_between(self.edge_map(), current@, edge.target@));
                        lemma_reachable_extend(self.edge_map(), start, current@, edge.target@, depth as nat);
                        assert(targets[i as int] == edge.target@);
                        assert(targets.contains(edge.target@));
                    }
                    queue.push((edge.target.duplicate(), depth + 1));
                    proof {
                        assert forall|j: int| 0 <= j < queue@.len() implies reachable_within(
                            self.edge_map(),
                            start,
                            (#[trigger] queue@[j]).0@,
                            queue@[j].1 as nat,
                        ) by {
                            if j < before.len() {
                                assert(queue@[j] == before[j]);
                            }
                        }
                        assert forall|j: int| 0 <= j < queue@.len() implies (#[trigger] queue@[j]).0@ == start
                            || targets.contains(queue@[j].0@) by {
                            if j < before.len() {
                                assert(queue@[j] == before[j]);
                            }
                        }
                        assert forall|j: int| 0 <= j < queue@.len() implies (#[trigger] queue@[j]).1 <= max_depth by {
                            if j < before.len() {
                                assert(queue@[j] == before[j]);
                            }
                        }
                        assert forall|j: int| q_start <= j < queue@.len() implies (#[trigger] queue@[j]).1 == depth + 1 by {
                            if j < before.len() {
                                assert(queue@[j] == before[j]);
                            }
                        }
                    }
                }
            }
            proof {
                let last = before.len() as int;
                assert forall|k: int|
                    0 <= k < i + 1 && (#[trigger] self.edge_seq()[k]).source@ == current@ implies (exists|j: int|
                        0 <= j < result@.len() && (#[trigger] result@[j])@ == self.edge_seq()[k].target@) || (exists|q: int|
                        q_start <= q < queue@.len() && (#[trigger] queue@[q]).0@ == self.edge_seq()[k].target@
                            && queue@[q].1 == depth + 1) by {
                    if k < i {
                        if !(exists|j: int| 0 <= j < result@.len() && (#[trigger] result@[j])@ == self.edge_seq()[k].target@) {
                            let q = choose|q: int|
                                q_start <= q < before.len() && (#[trigger] before[q]).0@ == self.edge_seq()[k].target@
                                    && before[q].1 == depth + 1;
                            assert(queue@[q] == before[q]);
                        }
                    } else {
                        assert(self.edge_seq()[k] == *edge);
                        if !(exists|j: int| 0 <= j < result@.len() && (#[trigger] result@[j])@ == self.edge_seq()[k].target@) {
                            assert(queue@[last].0@ == edge.target@);
                        }
                    }
                }
            }
            proof {
                let es = self.edge_seq().take(i + 1);
                assert(es.drop_last() =~= self.edge_seq().take(i as int));
                if queue@.len() > before.len() {
                    assert(queue_views(queue@) =~= queue_views(before).push(edge.target@));
                } else {
                    assert(queue_views(queue@) =~= queue_views(before));
                }
                assert(queue_views(queue@) =~= queue_views(old(queue)@) + fresh_targets(es, current@, refs_view(result@)));
            }
            i = i + 1;
        }
        proof {
            self.edges.lemma_layout();
            assert forall|t: ResourceRefView| #[trigger]
                edge_between(self.edge_map(), current@, t) implies (exists|j: int|
                    0 <= j < result@.len() && (#[trigger] result@[j])@ == t) || (exists|q: int|
                    old(queue)@.len() <= q < queue@.len() && (#[trigger] queue@[q]).0@ == t
                        && queue@[q].1 == depth + 1) by {
                let key = choose|key: Seq<char>|
                    #![trigger self.edge_map()[key]]
                    self.edge_map().contains_key(key) && self.edge_map()[key].source@ == current@
                        && self.edge_map()[key].target@ == t;
                assert(self.edges.map().contains_key(key));
                let idx = self.edges.key_seq().index_of(key);
                assert(self.edges.key_seq()[idx] == key);
                assert(self.edge_seq()[idx] == self.edge_map()[key]);
            }
            assert forall|t: ResourceRefView| #[trigger]
                edge_between(self.edge_map(), current@, t) implies access.allows(current@) by {
                let key = choose|key: Seq<char>|
                    #![trigger self.edge_map()[key]]
                    self.edge_map().contains_key(key) && self.edge_map()[key].source@ == current@
                        && self.edge_map()[key].target@ == t;
                assert(self.edges.map().contains_key(key));
                let idx = self.edges.key_seq().index_of(key);
                assert(self.edges.key_seq()[idx] == key);
                assert(self.edge_seq()[idx] == self.edge_map()[key]);
            }
            assert(self.edge_seq().take(n as int) =~= self.edge_seq());
        }
        Ok(())
    }

    /// Breadth-first walk over the stored edges from `start`, down to
    /// `max_depth` edges. Targets without a node (external or unresolved
    /// references) are listed as they are. A walk that completes lists, once
    /// each and the start first, exactly the resources within `max_depth`
    /// edges of the start.
    #[verifier::rlimit(60)]
    pub fn traverse(&self, start: &ResourceRef, max_depth: usize, access: &KnowledgeGraphAccessContext) -> (r: Result<
        Vec<ResourceRef>,
        &'static str,
    >)
        requires
            self.wf(),
        ensures
            !access.allows(start@) ==> r == Err::<Vec<ResourceRef>, &'static str>(
                "knowledge graph traversal is unauthorized",
            ),
            r is Err ==> r == Err::<Vec<ResourceRef>, &'static str>(
                "knowledge graph traversal is unauthorized",
            ) || r == Err::<Vec<ResourceRef>, &'static str>(
                "knowledge graph traversal crossed an unauthorized source",
            ),
            access.allows(start@) ==> (r is Err <==> walk_blocked(self.edge_map(), start@, max_depth as nat, *access)),
            access.allows(start@) && r is Err ==> r == Err::<Vec<ResourceRef>, &'static str>(
                "knowledge graph traversal crossed an unauthorized source",
            ),
            r matches Ok(v) ==> v@.len() >= 1 && v@[0]@ == start@,
            r matches Ok(v) ==> forall|i: int, j: int|
                0 <= i < j < v@.len() ==> (#[trigger] v@[i])@ != (#[trigger] v@[j])@,
            r matches Ok(v) ==> forall|i: int|
                0 <= i < v@.len() ==> reachable_within(self.edge_map(), start@, (#[trigger] v@[i])@, max_depth as nat),
            r matches Ok(v) ==> forall|x: ResourceRefView|
                #[trigger] reachable_within(self.edge_map(), start@, x, max_depth as nat) ==> exists|i: int|
                    0 <= i < v@.len() && (#[trigger] v@[i])@ == x,
            r matches Ok(v) ==> breadth_first(self.edge_map(), start@, v@),
            r matches Ok(v) ==> breadth_first_order(
                self.edge_seq(),
                self.edge_map(),
                start@,
                max_depth as nat,
                refs_view(v@),
            ),
    {
        if !access.permits(start) {
            return Err("knowledge graph traversal is unauthorized");
        }
        let ghost edges = self.edge_map();
        let ghost targets = target_views(self.edge_seq());
        let ghost bound = targets.len() + 1;
        let mut result: Vec<ResourceRef> = Vec::new();
        let mut queue: Vec<(ResourceRef, usize)> = Vec::new();
        queue.push((start.duplicate(), 0));
        let mut head: usize = 0;
        let ghost mut depths: Seq<nat> = Seq::empty();
        let ghost mut level: nat = 0;
        proof {
            lemma_reachable_self(edges, start@, 0);
            reveal(order_kept);
            assert(queue_views(queue@) =~= seq![start@]);
            assert(queue_views(queue@).take(0) =~= Seq::<ResourceRefView>::empty());
            assert(refs_view(result@) =~= Seq::<ResourceRefView>::empty());
        }
        while head < queue.len()
            invariant
                self.wf(),
                edges == self.edge_map(),
                targets == target_views(self.edge_seq()),
                bound == targets.len() + 1,
                access.allows(start@),
                head <= queue@.len(),
                queue@.len() >= 1,
                queue@[0].0@ == start@,
                head == 0 ==> result@.len() == 0,
                head > 0 ==> result@.len() >= 1 && result@[0]@ == start@,
                result@.len() <= bound,
                traversal_sound(edges, targets, start@, max_depth as nat, result@, queue@),
                depths.len() == result@.len(),
                head > 0 ==> depths[0] == 0,
                head == 0 ==> queue@[0].1 == 0,
                forall|i: int| 0 <= i < depths.len() ==> #[trigger] depths[i] <= level,
                forall|q: int| head <= q < queue@.len() ==> level <= (#[trigger] queue@[q]).1 <= level + 1,
                forall|a: int, b: int| head <= a <= b < queue@.len() ==> (#[trigger] queue@[a]).1 <= (#[trigger] queue@[b]).1,
                frontier_closed(edges, result@, depths, queue@, head as int, max_depth as nat),
                expansions_permitted(edges, result@, depths, max_depth as nat, *access),
                forall|i: int, j: int| 0 <= i < j < depths.len() ==> #[trigger] depths[i] <= #[trigger] depths[j],
                forall|i: int| 0 <= i < result@.len() ==> reachable_within(edges, start@, (#[trigger] result@[i])@, depths[i]),
                order_kept(self.edge_seq(), start@, max_depth as nat, result@, depths, queue@, head as int),
            decreases bound - result@.len(), queue@.len() - head,
        {
            let current = queue[head].0.duplicate();
            let depth = queue[head].1;
            let ghost at = head;
            proof {
                level = depth as nat;
            }
            head = head + 1;
            if refs_hold(&result, &current) {
                proof {
                    assert forall|i: int, t: ResourceRefView|
                        0 <= i < result@.len() && depths[i] < max_depth && #[trigger] edge_between(edges, result@[i]@, t)
                        implies seen_within(result@, depths, t, depths[i] + 1) || pending_within(
                        queue@,
                        head as int,
                        t,
                        depths[i] + 1,
                    ) by {
                        if !seen_within(result@, depths, t, depths[i] + 1) {
                            let q = choose|q: int|
                                at <= q < queue@.len() && (#[trigger] queue@[q]).0@ == t && queue@[q].1 <= depths[i] + 1;
                            if q == at {
                                let j = choose|j: int| 0 <= j < result@.len() && (#[trigger] result@[j])@ == current@;
                                assert(depths[j] <= depth);
                                assert(result@[j]@ == t);
                            }
                        }
                    }
                    let j = choose|j: int| 0 <= j < result@.len() && (#[trigger] result@[j])@ == current@;
                    assert(refs_view(result@)[j] == current@);
                    lemma_order_skip(self.edge_seq(), start@, max_depth as nat, result@, depths, queue@, at as int);
                }
                continue;
            }
            proof {
                let vs = result@.map_values(|x: ResourceRef| x@);
                let grown = vs.push(current@);
                assert forall|a: int, b: int| 0 <= a < grown.len() && 0 <= b < grown.len() && a != b implies grown[a]
                    != grown[b] by {
                    if a < vs.len() && b < vs.len() {
                        if a < b {
                            assert(vs[a] == result@[a]@ && vs[b] == result@[b]@);
                        } else {
                            assert(vs[a] == result@[a]@ && vs[b] == result@[b]@);
                        }
                    } else if a < vs.len() {
                        assert(vs[a] == result@[a]@);
                    } else {
                        assert(vs[b] == result@[b]@);
                    }
                }
                assert(grown.no_duplicates());
                // All but the start are edge targets, so at most `bound` are distinct.
                assert(queue@[at as int].0@ == start@ || targets.contains(current@));
                assert forall|x: ResourceRefView| grown.contains(x) && x != start@ implies targets.contains(x) by {
                    let t = grown.index_of(x);
                    if t < vs.len() {
                        assert(vs[t] == result@[t]@);
                    }
                }
                grown.unique_seq_to_set();
                let gs = grown.to_set();
                assert(gs.remove(start@).subset_of(targets.to_set())) by {
                    assert forall|x: ResourceRefView| gs.remove(start@).contains(x) implies targets.to_set().contains(x) by {
                        assert(grown.contains(x));
                    }
                }
                targets.lemma_cardinality_of_set();
                vstd::set_lib::lemma_len_subset(gs.remove(start@), targets.to_set());
                assert(gs.len() <= gs.remove(start@).len() + 1);
            }
            let ghost old_result = result@;
            let ghost old_depths = depths;
            proof {
                assert(!refs_view(result@).contains(current@)) by {
                    if refs_view(result@).contains(current@) {
                        let j = refs_view(result@).index_of(current@);
                        assert(result@[j]@ == current@);
                    }
                }
            }
            result.push(current);
            proof {
                depths = depths.push(depth as nat);
                assert forall|i: int, t: ResourceRefView|
                    0 <= i < result@.len() && depths[i] < max_depth && #[trigger] edge_between(edges, result@[i]@, t)
                    implies seen_within(result@, depths, t, depths[i] + 1) || pending_within(
                    queue@,
                    head as int,
                    t,
                    depths[i] + 1,
                ) || i == result@.len() - 1 by {
                    if i < old_result.len() {
                        assert(result@[i] == old_result[i]);
                        assert(depths[i] == old_depths[i]);
                        if seen_within(old_result, old_depths, t, old_depths[i] + 1) {
                            let j = choose|j: int|
                                0 <= j < old_result.len() && (#[trigger] old_result[j])@ == t && old_depths[j] <= old_depths[i] + 1;
                            assert(result@[j] == old_result[j]);
                        } else {
                            let q = choose|q: int|
                                at <= q < queue@.len() && (#[trigger] queue@[q]).0@ == t && queue@[q].1 <= old_depths[i] + 1;
                            if q == at {
                                assert(result@[result@.len() - 1]@ == t);
                            }
                        }
                    }
                }
                let last = result@.len() - 1;
                assert(result@[last] == queue@[at as int].0);
                lemma_reachable_monotone(edges, start@, result@[last]@, depth as nat, max_depth as nat);
                assert forall|i: int, j: int| 0 <= i < j < result@.len() implies (#[trigger] result@[i])@
                    != (#[trigger] result@[j])@ by {
                    let vs = result@.map_values(|x: ResourceRef| x@);
                    assert(vs[i] == result@[i]@ && vs[j] == result@[j]@);
                }
                assert(result@.map_values(|x: ResourceRef| x@).len() <= bound);
            }
            if depth >= max_depth {
                proof {
                    lemma_order_visit(
                        self.edge_seq(),
                        start@,
                        max_depth as nat,
                        old_result,
                        old_depths,
                        queue@,
                        queue@,
                        at as int,
                        result@[result@.len() - 1],
                        depth as nat,
                    );
                    assert(old_result.push(result@[result@.len() - 1]) =~= result@);
                }
                continue;
            }
            let ghost q0 = queue@;
            match self.expand(&result[result.len() - 1], depth, &result, &mut queue, access, Ghost(start@), Ghost(max_depth as nat)) {
                Ok(()) => {
                    proof {
                        assert(old_result.push(result@[result@.len() - 1]) =~= result@);
                        lemma_order_visit(
                            self.edge_seq(),
                            start@,
                            max_depth as nat,
                            old_result,
                            old_depths,
                            q0,
                            queue@,
                            at as int,
                            result@[result@.len() - 1],
                            depth as nat,
                        );
                    }
                },
                Err(e) => {
                    proof {
                        let last = result@.len() - 1;
                        let t = choose|t: ResourceRefView| #[trigger] edge_between(edges, result@[last]@, t);
                        assert(reachable_within(edges, start@, q0[at as int].0@, q0[at as int].1 as nat));
                        lemma_reachable_monotone(edges, start@, result@[last]@, depth as nat, (max_depth - 1) as nat);
                        assert(reachable_within(edges, start@, result@[last]@, (max_depth - 1) as nat));
                        assert(edge_between(edges, result@[last]@, t));
                    }
                    return Err(e);
                },
            }
            proof {
                let last = result@.len() - 1;
                assert forall|i: int, t: ResourceRefView|
                    0 <= i < result@.len() && depths[i] < max_depth && #[trigger] edge_between(edges, result@[i]@, t)
                    implies seen_within(result@, depths, t, depths[i] + 1) || pending_within(
                    queue@,
                    head as int,
                    t,
                    depths[i] + 1,
                ) by {
                    if i == last {
                        if exists|j: int| 0 <= j < result@.len() && (#[trigger] result@[j])@ == t {
                            let j = choose|j: int| 0 <= j < result@.len() && (#[trigger] result@[j])@ == t;
                            assert(depths[j] <= level);
                        } else {
                            let q = choose|q: int|
                                q0.len() <= q < queue@.len() && (#[trigger] queue@[q]).0@ == t && queue@[q].1 == depth + 1;
                        }
                    } else if !seen_within(result@, depths, t, depths[i] + 1) {
                        let q = choose|q: int|
                            head <= q < q0.len() && (#[trigger] q0[q]).0@ == t && q0[q].1 <= depths[i] + 1;
                        assert(queue@[q] == q0[q]);
                    }
                }
            }
        }
        proof {
            lemma_traversal_complete(edges, start@, max_depth as nat, result@, depths, queue@);
            let vs = refs_view(result@);
            let expands = Seq::new(
                vs.len(),
                |i: int| max_depth > 0 && reachable_within(edges, start@, vs[i], (max_depth - 1) as nat),
            );
            assert forall|i: int| 0 <= i < vs.len() implies #[trigger] expands[i] == depth_flags(depths, max_depth as nat)[i] by {
                assert(vs[i] == result@[i]@);
                if depths[i] < max_depth {
                    lemma_reachable_monotone(edges, start@, result@[i]@, depths[i], (max_depth - 1) as nat);
                }
                if max_depth > 0 && reachable_within(edges, start@, vs[i], (max_depth - 1) as nat) {
                    let path = choose|path: Seq<ResourceRefView>|
                        #![trigger is_path(edges, path)]
                        1 <= path.len() <= (max_depth - 1) as nat + 1 && path[0] == start@ && path.last() == vs[i]
                            && is_path(edges, path);
                    assert(result@[0]@ == path[0] && depths[0] <= 0);
                    lemma_paths_visited(edges, result@, depths, queue@, max_depth as nat, path, path.len() - 1);
                    let w = choose|w: int|
                        0 <= w < result@.len() && (#[trigger] result@[w])@ == path[path.len() - 1] && depths[w] <= (
                        path.len() - 1) as nat;
                    assert(w == i);
                }
            }
            assert(expands =~= depth_flags(depths, max_depth as nat));
            reveal(order_kept);
            assert(queue_views(queue@).take(head as int) =~= queue_views(queue@));
            assert(breadth_first_order(self.edge_seq(), edges, start@, max_depth as nat, vs));
            assert forall|i: int, j: int, n: nat|
                0 <= i < j < result@.len() && #[trigger] reachable_within(edges, start@, result@[j]@, n)
                implies reachable_within(edges, start@, #[trigger] result@[i]@, n) by {
                if n <= max_depth {
                    let path = choose|path: Seq<ResourceRefView>|
                        #![trigger is_path(edges, path)]
                        1 <= path.len() <= n + 1 && path[0] == start@ && path.last() == result@[j]@ && is_path(edges, path);
                    assert(result@[0]@ == path[0] && depths[0] <= 0);
                    lemma_paths_visited(edges, result@, depths, queue@, max_depth as nat, path, path.len() - 1);
                    let w = choose|w: int|
                        0 <= w < result@.len() && (#[trigger] result@[w])@ == path[path.len() - 1] && depths[w] <= (path.len()
                            - 1) as nat;
                    assert(w == j);
                    assert(depths[i] <= depths[j]);
                    lemma_reachable_monotone(edges, start@, result@[i]@, depths[i], n);
                } else {
                    lemma_reachable_monotone(edges, start@, result@[i]@, max_depth as nat, n);
                }
            }
            if walk_blocked(edges, start@, max_depth as nat, *access) {
                let (x, t) = choose|x: ResourceRefView, t: ResourceRefView|
                    max_depth > 0 && #[trigger] reachable_within(edges, start@, x, (max_depth - 1) as nat)
                        && #[trigger] edge_between(edges, x, t) && !access.allows(x);
                let path = choose|path: Seq<ResourceRefView>|
                    #![trigger is_path(edges, path)]
                    1 <= path.len() <= (max_depth - 1) as nat + 1 && path[0] == start@ && path.last() == x && is_path(
                        edges,
                        path,
                    );
                assert(result@[0]@ == path[0] && depths[0] <= 0);
                lemma_paths_visited(edges, result@, depths, queue@, max_depth as nat, path, path.len() - 1);
                let j = choose|j: int|
                    0 <= j < result@.len() && (#[trigger] result@[j])@ == path[path.len() - 1] && depths[j] <= (path.len()
                        - 1) as nat;
                assert(edge_between(edges, result@[j]@, t));
            }
        }
        Ok(result)
    }
}

/// Some canonical field of the edge is empty.
pub open spec fn edge_incomplete(edge: KnowledgeEdge) -> bool {
    edge.edge_id@.len() == 0 || edge.predicate@.len() == 0 || edge.source.id@.len() == 0
        || edge.target.id@.len() == 0 || edge.provenance.id@.len() == 0
}

impl Default for KnowledgeGraph {
    fn default() -> (r: Self)
        ensures
            r.wf(),
            r.node_seq() == Seq::<KnowledgeNode>::empty(),
            r.edge_map() == Map::<Seq<char>, KnowledgeEdge>::empty(),
    {
        KnowledgeGraph::new()
    }
}

} // verus!
