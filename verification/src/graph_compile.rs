//! The compiler: from a finished builder to an executable plan.
//!
//! Compilation runs in phases, in this order: dependency-edge construction,
//! topological ordering (Kahn's algorithm with insertion-order tie-break),
//! specification resolution, lifetime computation, physical aliasing
//! assignment and barrier derivation. Every phase is pinned to a
//! specification-level function of the builder's state, so the whole of
//! `compile` is deterministic: the same built graph always yields the same
//! plan.

use vstd::prelude::*;
use crate::graph_builder::image_usage_in_range;
use crate::graph_builder::RenderGraphBuilder;
use crate::graph_builder::RenderGraphError;
use crate::graph_buffer::RenderGraphBufferConstraint;
use crate::graph_buffer::RenderGraphBufferSpecification;
use crate::graph_image::RenderGraphImageConstraint;
use crate::graph_image::RenderGraphImageSpecification;
use crate::graph_image::RenderGraphImageUser;
use crate::graph_image::RenderGraphNodeId;
use crate::graph_node::RenderGraphDependency;
use crate::graph_plan::RenderGraphImageBarrier;
use crate::graph_plan::RenderGraphPhysicalImage;
use crate::graph_plan::RenderGraphVersionLifetime;

verus! {

/// The dependency edges one read usage contributes: the version's creator
/// must run before the reading node. The terminal output binding is not a
/// node and contributes no edge.
pub open spec fn image_read_edges_at(
    g: RenderGraphBuilder,
    i: int,
    v: int,
    k: int,
) -> Seq<RenderGraphDependency> {
    let info = g.image_resources@[i].versions@[v];
    let u = g.image_usages@[info.read_usages@[k].0 as int];
    match u.user {
        RenderGraphImageUser::Node(nb) => seq![
            RenderGraphDependency { before: info.creator_node, after: nb },
        ],
        RenderGraphImageUser::Output(_) => Seq::empty(),
    }
}

/// The edges of the first `k` read usages of version `v` of image `i`.
pub open spec fn image_version_edges_upto(
    g: RenderGraphBuilder,
    i: int,
    v: int,
    k: int,
) -> Seq<RenderGraphDependency>
    decreases k,
{
    if k <= 0 {
        Seq::empty()
    } else {
        image_version_edges_upto(g, i, v, k - 1) + image_read_edges_at(g, i, v, k - 1)
    }
}

/// The edges of the first `v` versions of image `i`.
pub open spec fn image_resource_edges_upto(
    g: RenderGraphBuilder,
    i: int,
    v: int,
) -> Seq<RenderGraphDependency>
    decreases v,
{
    if v <= 0 {
        Seq::empty()
    } else {
        image_resource_edges_upto(g, i, v - 1) + image_version_edges_upto(
            g,
            i,
            v - 1,
            g.image_resources@[i].versions@[v - 1].read_usages@.len() as int,
        )
    }
}

/// The edges of the first `i` images.
pub open spec fn image_edges_upto(g: RenderGraphBuilder, i: int) -> Seq<RenderGraphDependency>
    decreases i,
{
    if i <= 0 {
        Seq::empty()
    } else {
        image_edges_upto(g, i - 1) + image_resource_edges_upto(
            g,
            i - 1,
            g.image_resources@[i - 1].versions@.len() as int,
        )
    }
}

/// The edge one buffer read usage contributes.
pub open spec fn buffer_read_edges_at(
    g: RenderGraphBuilder,
    i: int,
    v: int,
    k: int,
) -> Seq<RenderGraphDependency> {
    let info = g.buffer_resources@[i].versions@[v];
    let u = g.buffer_usages@[info.read_usages@[k].0 as int];
    seq![RenderGraphDependency { before: info.creator_node, after: u.user }]
}

/// The edges of the first `k` read usages of version `v` of buffer `i`.
pub open spec fn buffer_version_edges_upto(
    g: RenderGraphBuilder,
    i: int,
    v: int,
    k: int,
) -> Seq<RenderGraphDependency>
    decreases k,
{
    if k <= 0 {
        Seq::empty()
    } else {
        buffer_version_edges_upto(g, i, v, k - 1) + buffer_read_edges_at(g, i, v, k - 1)
    }
}

/// The edges of the first `v` versions of buffer `i`.
pub open spec fn buffer_resource_edges_upto(
    g: RenderGraphBuilder,
    i: int,
    v: int,
) -> Seq<RenderGraphDependency>
    decreases v,
{
    if v <= 0 {
        Seq::empty()
    } else {
        buffer_resource_edges_upto(g, i, v - 1) + buffer_version_edges_upto(
            g,
            i,
            v - 1,
            g.buffer_resources@[i].versions@[v - 1].read_usages@.len() as int,
        )
    }
}

/// The edges of the first `i` buffers.
pub open spec fn buffer_edges_upto(g: RenderGraphBuilder, i: int) -> Seq<RenderGraphDependency>
    decreases i,
{
    if i <= 0 {
        Seq::empty()
    } else {
        buffer_edges_upto(g, i - 1) + buffer_resource_edges_upto(
            g,
            i - 1,
            g.buffer_resources@[i - 1].versions@.len() as int,
        )
    }
}

/// Every dependency edge of the graph: for each read usage, an edge from
/// the read version's creator to the reading node; then the explicit
/// render-phase dependencies, in registration order.
pub open spec fn spec_dependency_edges(g: RenderGraphBuilder) -> Seq<RenderGraphDependency> {
    image_edges_upto(g, g.image_resources@.len() as int) + buffer_edges_upto(
        g,
        g.buffer_resources@.len() as int,
    ) + g.explicit_dependencies@
}

/// The first read of the prefix `0..k` of version `v` of image `i` whose
/// reading node is the version's own creator, as the error to report: a
/// node that writes a version and reads it back in the same pass uses one
/// physical image in two exclusive roles at once.
pub open spec fn spec_self_read_in_version(
    g: RenderGraphBuilder,
    i: int,
    v: int,
    k: int,
) -> Option<RenderGraphError>
    decreases k,
{
    if k <= 0 {
        None
    } else {
        match spec_self_read_in_version(g, i, v, k - 1) {
            Some(e) => Some(e),
            None => {
                let info = g.image_resources@[i].versions@[v];
                let r = info.read_usages@[k - 1];
                match g.image_usages@[r.0 as int].user {
                    RenderGraphImageUser::Node(n) => if n == info.creator_node {
                        Some(
                            RenderGraphError::ConflictingSameNodeUsageError {
                                node: info.creator_node,
                                usage_a: info.create_usage.0,
                                usage_b: r.0,
                            },
                        )
                    } else {
                        None
                    },
                    RenderGraphImageUser::Output(_) => None,
                }
            },
        }
    }
}

/// The first self-read among the first `v` versions of image `i`.
pub open spec fn spec_self_read_in_image(g: RenderGraphBuilder, i: int, v: int) -> Option<
    RenderGraphError,
>
    decreases v,
{
    if v <= 0 {
        None
    } else {
        match spec_self_read_in_image(g, i, v - 1) {
            Some(e) => Some(e),
            None => spec_self_read_in_version(
                g,
                i,
                v - 1,
                g.image_resources@[i].versions@[v - 1].read_usages@.len() as int,
            ),
        }
    }
}

/// The first self-read among the first `i` images.
pub open spec fn spec_self_read_upto(g: RenderGraphBuilder, i: int) -> Option<RenderGraphError>
    decreases i,
{
    if i <= 0 {
        None
    } else {
        match spec_self_read_upto(g, i - 1) {
            Some(e) => Some(e),
            None => spec_self_read_in_image(
                g,
                i - 1,
                g.image_resources@[i - 1].versions@.len() as int,
            ),
        }
    }
}

/// The first version of the graph that its own creator reads back, as the
/// error to report, if any.
pub open spec fn spec_self_read_error(g: RenderGraphBuilder) -> Option<RenderGraphError> {
    spec_self_read_upto(g, g.image_resources@.len() as int)
}

impl RenderGraphBuilder {
    /// Find the first version its own creator reads back. Such a usage
    /// pair would otherwise surface as a dependency of the node on
    /// itself; it is reported as the same-node conflict it is.
    pub fn check_self_reads(&self) -> (r: Option<RenderGraphError>)
        requires
            self.wf(),
        ensures
            r == spec_self_read_error(*self),
    {
        let mut found: Option<RenderGraphError> = None;
        let mut i: usize = 0;
        while i < self.image_resources.len()
            invariant
                self.wf(),
                i <= self.image_resources@.len(),
                found == spec_self_read_upto(*self, i as int),
            decreases self.image_resources@.len() - i,
        {
            let mut v: usize = 0;
            while v < self.image_resources[i].versions.len()
                invariant
                    self.wf(),
                    i < self.image_resources@.len(),
                    v <= self.image_resources@[i as int].versions@.len(),
                    found == (match spec_self_read_upto(*self, i as int) {
                        Some(e) => Some(e),
                        None => spec_self_read_in_image(*self, i as int, v as int),
                    }),
                decreases self.image_resources@[i as int].versions@.len() - v,
            {
                let mut k: usize = 0;
                while k < self.image_resources[i].versions[v].read_usages.len()
                    invariant
                        self.wf(),
                        i < self.image_resources@.len(),
                        v < self.image_resources@[i as int].versions@.len(),
                        k <= self.image_resources@[i as int].versions@[
                            v as int
                        ].read_usages@.len(),
                        found == (match spec_self_read_upto(*self, i as int) {
                            Some(e) => Some(e),
                            None => match spec_self_read_in_image(*self, i as int, v as int) {
                                Some(e) => Some(e),
                                None => spec_self_read_in_version(
                                    *self,
                                    i as int,
                                    v as int,
                                    k as int,
                                ),
                            },
                        }),
                    decreases self.image_resources@[i as int].versions@[
                        v as int
                    ].read_usages@.len() - k,
                {
                    let r = self.image_resources[i].versions[v].read_usages[k];
                    let creator = self.image_resources[i].versions[v].creator_node;
                    let create_usage = self.image_resources[i].versions[v].create_usage;
                    if found.is_none() {
                        match self.image_usages[r.0].user {
                            RenderGraphImageUser::Node(n) => {
                                if n == creator {
                                    found = Some(
                                        RenderGraphError::ConflictingSameNodeUsageError {
                                            node: creator,
                                            usage_a: create_usage.0,
                                            usage_b: r.0,
                                        },
                                    );
                                }
                            },
                            RenderGraphImageUser::Output(_) => {},
                        }
                    }
                    k = k + 1;
                }
                v = v + 1;
            }
            i = i + 1;
        }
        found
    }
}

/// Whether node `j` is ready to be scheduled: every edge into `j` starts
/// at an already scheduled node.
pub open spec fn spec_ready(
    edges: Seq<RenderGraphDependency>,
    done: Seq<usize>,
    j: usize,
) -> bool {
    forall|e: int|
        0 <= e < edges.len() ==> ((#[trigger] edges[e]).after.0 == j ==> done.contains(
            edges[e].before.0,
        ))
}

/// The smallest unscheduled ready node with index at least `j`, if any:
/// Kahn's algorithm with insertion-order tie-break always picks this node.
pub open spec fn spec_first_ready_from(
    edges: Seq<RenderGraphDependency>,
    done: Seq<usize>,
    n: int,
    j: int,
) -> Option<usize>
    decreases n - j,
{
    if j < 0 || j >= n {
        None
    } else if !done.contains(j as usize) && spec_ready(edges, done, j as usize) {
        Some(j as usize)
    } else {
        spec_first_ready_from(edges, done, n, j + 1)
    }
}

/// Up to `fuel` further steps of Kahn's algorithm from a given partial
/// order: append the first ready node until none is left.
pub open spec fn spec_topo_iter(
    edges: Seq<RenderGraphDependency>,
    n: int,
    order: Seq<usize>,
    fuel: nat,
) -> Seq<usize>
    decreases fuel,
{
    if fuel == 0 {
        order
    } else {
        match spec_first_ready_from(edges, order, n, 0) {
            None => order,
            Some(j) => spec_topo_iter(edges, n, order.push(j), (fuel - 1) as nat),
        }
    }
}

/// The topological order Kahn's algorithm with insertion-order tie-break
/// produces. Shorter than `n` exactly when the graph has a cycle.
pub open spec fn spec_topo_order(edges: Seq<RenderGraphDependency>, n: int) -> Seq<usize> {
    spec_topo_iter(edges, n, Seq::empty(), n as nat)
}

/// A seq of distinct values below `n`, of length `n`, contains every value
/// below `n`.
proof fn lemma_permutation_covers(order: Seq<usize>, n: int, m: usize)
    requires
        order.no_duplicates(),
        forall|p: int| 0 <= p < order.len() ==> (#[trigger] order[p]) < n,
        order.len() == n,
        0 <= n,
        (m as int) < n,
    ensures
        order.contains(m),
{
    let ints = order.map_values(|x: usize| x as int);
    assert(ints.no_duplicates()) by {
        assert(forall|p: int, q: int|
            0 <= p < ints.len() && 0 <= q < ints.len() && p != q ==> ints[p] != ints[q]);
    }
    ints.unique_seq_to_set();
    vstd::set_lib::lemma_int_range(0, n);
    assert(ints.to_set().subset_of(vstd::set_lib::set_int_range(0, n))) by {
        assert(forall|x: int| ints.to_set().contains(x) ==> ints.contains(x));
        assert(forall|p: int| 0 <= p < ints.len() ==> 0 <= #[trigger] ints[p] < n);
    }
    vstd::set_lib::lemma_len_subset(ints.to_set(), vstd::set_lib::set_int_range(0, n));
    vstd::set_lib::lemma_subset_equality(
        ints.to_set(),
        vstd::set_lib::set_int_range(0, n),
    );
    assert(vstd::set_lib::set_int_range(0, n).contains(m as int));
    assert(ints.to_set().contains(m as int));
    assert(ints.contains(m as int));
    let p = choose|p: int| 0 <= p < ints.len() && ints[p] == m as int;
    assert(order[p] == m);
}

impl RenderGraphBuilder {
    /// Build the list of dependency edges: for every usage that reads a
    /// version, an edge from the version's creator node to the reading
    /// node, followed by the explicit render-phase dependencies.
    pub fn build_dependency_edges(&self) -> (edges: Vec<RenderGraphDependency>)
        requires
            self.wf(),
        ensures
            edges@ == spec_dependency_edges(*self),
            forall|e: int|
                0 <= e < edges@.len() ==> (#[trigger] edges@[e]).before.0 < self.nodes@.len()
                    && edges@[e].after.0 < self.nodes@.len(),
    {
        let mut edges: Vec<RenderGraphDependency> = Vec::new();
        let mut i: usize = 0;
        while i < self.image_resources.len()
            invariant
                self.wf(),
                i <= self.image_resources@.len(),
                edges@ == image_edges_upto(*self, i as int),
                forall|e: int|
                    0 <= e < edges@.len() ==> (#[trigger] edges@[e]).before.0
                        < self.nodes@.len() && edges@[e].after.0 < self.nodes@.len(),
            decreases self.image_resources@.len() - i,
        {
            let mut v: usize = 0;
            while v < self.image_resources[i].versions.len()
                invariant
                    self.wf(),
                    i < self.image_resources@.len(),
                    v <= self.image_resources@[i as int].versions@.len(),
                    edges@ == image_edges_upto(*self, i as int) + image_resource_edges_upto(
                        *self,
                        i as int,
                        v as int,
                    ),
                    forall|e: int|
                        0 <= e < edges@.len() ==> (#[trigger] edges@[e]).before.0
                            < self.nodes@.len() && edges@[e].after.0 < self.nodes@.len(),
                decreases self.image_resources@[i as int].versions@.len() - v,
            {
                let mut k: usize = 0;
                while k < self.image_resources[i].versions[v].read_usages.len()
                    invariant
                        self.wf(),
                        i < self.image_resources@.len(),
                        v < self.image_resources@[i as int].versions@.len(),
                        k <= self.image_resources@[i as int].versions@[v as int].read_usages@.len(),
                        edges@ == image_edges_upto(*self, i as int) + image_resource_edges_upto(
                            *self,
                            i as int,
                            v as int,
                        ) + image_version_edges_upto(*self, i as int, v as int, k as int),
                        forall|e: int|
                            0 <= e < edges@.len() ==> (#[trigger] edges@[e]).before.0
                                < self.nodes@.len() && edges@[e].after.0 < self.nodes@.len(),
                    decreases self.image_resources@[i as int].versions@[
                        v as int
                    ].read_usages@.len() - k,
                {
                    let read_usage = self.image_resources[i].versions[v].read_usages[k];
                    let creator = self.image_resources[i].versions[v].creator_node;
                    match self.image_usages[read_usage.0].user {
                        RenderGraphImageUser::Node(nb) => {
                            edges.push(RenderGraphDependency { before: creator, after: nb });
                        },
                        RenderGraphImageUser::Output(_) => {},
                    }
                    k = k + 1;
                    proof {
                        assert(edges@ =~= image_edges_upto(*self, i as int)
                            + image_resource_edges_upto(*self, i as int, v as int)
                            + image_version_edges_upto(*self, i as int, v as int, k as int));
                    }
                }
                v = v + 1;
                proof {
                    assert(edges@ =~= image_edges_upto(*self, i as int)
                        + image_resource_edges_upto(*self, i as int, v as int));
                }
            }
            i = i + 1;
            proof {
                assert(edges@ =~= image_edges_upto(*self, i as int));
            }
        }
        let ghost all_image_edges = edges@;
        let mut i: usize = 0;
        while i < self.buffer_resources.len()
            invariant
                self.wf(),
                i <= self.buffer_resources@.len(),
                all_image_edges == image_edges_upto(
                    *self,
                    self.image_resources@.len() as int,
                ),
                edges@ == all_image_edges + buffer_edges_upto(*self, i as int),
                forall|e: int|
                    0 <= e < edges@.len() ==> (#[trigger] edges@[e]).before.0
                        < self.nodes@.len() && edges@[e].after.0 < self.nodes@.len(),
            decreases self.buffer_resources@.len() - i,
        {
            let mut v: usize = 0;
            while v < self.buffer_resources[i].versions.len()
                invariant
                    self.wf(),
                    i < self.buffer_resources@.len(),
                    v <= self.buffer_resources@[i as int].versions@.len(),
                    all_image_edges == image_edges_upto(
                        *self,
                        self.image_resources@.len() as int,
                    ),
                    edges@ == all_image_edges + buffer_edges_upto(*self, i as int)
                        + buffer_resource_edges_upto(*self, i as int, v as int),
                    forall|e: int|
                        0 <= e < edges@.len() ==> (#[trigger] edges@[e]).before.0
                            < self.nodes@.len() && edges@[e].after.0 < self.nodes@.len(),
                decreases self.buffer_resources@[i as int].versions@.len() - v,
            {
                let mut k: usize = 0;
                while k < self.buffer_resources[i].versions[v].read_usages.len()
                    invariant
                        self.wf(),
                        i < self.buffer_resources@.len(),
                        v < self.buffer_resources@[i as int].versions@.len(),
                        k <= self.buffer_resources@[i as int].versions@[
                            v as int
                        ].read_usages@.len(),
                        all_image_edges == image_edges_upto(
                            *self,
                            self.image_resources@.len() as int,
                        ),
                        edges@ == all_image_edges + buffer_edges_upto(*self, i as int)
                            + buffer_resource_edges_upto(*self, i as int, v as int)
                            + buffer_version_edges_upto(*self, i as int, v as int, k as int),
                        forall|e: int|
                            0 <= e < edges@.len() ==> (#[trigger] edges@[e]).before.0
                                < self.nodes@.len() && edges@[e].after.0 < self.nodes@.len(),
                    decreases self.buffer_resources@[i as int].versions@[
                        v as int
                    ].read_usages@.len() - k,
                {
                    let read_usage = self.buffer_resources[i].versions[v].read_usages[k];
                    let creator = self.buffer_resources[i].versions[v].creator_node;
                    let user = self.buffer_usages[read_usage.0].user;
                    edges.push(RenderGraphDependency { before: creator, after: user });
                    k = k + 1;
                    proof {
                        assert(edges@ =~= all_image_edges + buffer_edges_upto(*self, i as int)
                            + buffer_resource_edges_upto(*self, i as int, v as int)
                            + buffer_version_edges_upto(*self, i as int, v as int, k as int));
                    }
                }
                v = v + 1;
                proof {
                    assert(edges@ =~= all_image_edges + buffer_edges_upto(*self, i as int)
                        + buffer_resource_edges_upto(*self, i as int, v as int));
                }
            }
            i = i + 1;
            proof {
                assert(edges@ =~= all_image_edges + buffer_edges_upto(*self, i as int));
            }
        }
        let ghost resource_edges = edges@;
        let mut d: usize = 0;
        while d < self.explicit_dependencies.len()
            invariant
                self.wf(),
                d <= self.explicit_dependencies@.len(),
                resource_edges == image_edges_upto(*self, self.image_resources@.len() as int)
                    + buffer_edges_upto(*self, self.buffer_resources@.len() as int),
                edges@ == resource_edges + self.explicit_dependencies@.take(d as int),
                forall|e: int|
                    0 <= e < edges@.len() ==> (#[trigger] edges@[e]).before.0
                        < self.nodes@.len() && edges@[e].after.0 < self.nodes@.len(),
            decreases self.explicit_dependencies@.len() - d,
        {
            let dep = self.explicit_dependencies[d];
            edges.push(dep);
            d = d + 1;
            proof {
                assert(edges@ =~= resource_edges + self.explicit_dependencies@.take(d as int));
            }
        }
        proof {
            assert(self.explicit_dependencies@.take(self.explicit_dependencies@.len() as int)
                =~= self.explicit_dependencies@);
        }
        edges
    }
}

/// The constraint of the usage that created version `v` of image `i`.
pub open spec fn image_create_constraint(
    g: RenderGraphBuilder,
    i: int,
    v: int,
) -> RenderGraphImageConstraint {
    g.image_usages@[g.image_resources@[i].versions@[v].create_usage.0 as int].constraint
}

/// The constraint of the `k`-th read usage of version `v` of image `i`.
pub open spec fn image_read_constraint(
    g: RenderGraphBuilder,
    i: int,
    v: int,
    k: int,
) -> RenderGraphImageConstraint {
    g.image_usages@[g.image_resources@[i].versions@[v].read_usages@[k].0 as int].constraint
}

/// The merge of the create constraint of version `v` of image `i` with its
/// first `k` read constraints, in order; `Err` carries the index of the
/// first read whose constraint conflicts with everything merged so far.
pub open spec fn spec_image_merge_upto(g: RenderGraphBuilder, i: int, v: int, k: int) -> Result<
    RenderGraphImageConstraint,
    int,
>
    decreases k,
{
    if k <= 0 {
        Ok(image_create_constraint(g, i, v))
    } else {
        match spec_image_merge_upto(g, i, v, k - 1) {
            Err(e) => Err(e),
            Ok(acc) => if acc.spec_can_merge(image_read_constraint(g, i, v, k - 1)) {
                Ok(acc.spec_merged(image_read_constraint(g, i, v, k - 1)))
            } else {
                Err(k - 1)
            },
        }
    }
}

/// The first of the reads `j..k` of version `v` of image `i` whose
/// constraint conflicts pairwise with read `k`'s, as a usage id; the
/// create usage when none does.
pub open spec fn spec_image_conflict_partner_from(
    g: RenderGraphBuilder,
    i: int,
    v: int,
    k: int,
    j: int,
) -> usize
    decreases k - j,
{
    if j < 0 || j >= k {
        g.image_resources@[i].versions@[v].create_usage.0
    } else if !image_read_constraint(g, i, v, j).spec_can_merge(
        image_read_constraint(g, i, v, k),
    ) {
        g.image_resources@[i].versions@[v].read_usages@[j].0
    } else {
        spec_image_conflict_partner_from(g, i, v, k, j + 1)
    }
}

/// The usage reported together with read `k` in a constraint conflict: the
/// first earlier usage of the version whose constraint conflicts pairwise
/// with read `k`'s.
pub open spec fn spec_image_conflict_partner(
    g: RenderGraphBuilder,
    i: int,
    v: int,
    k: int,
) -> usize {
    if !image_create_constraint(g, i, v).spec_can_merge(image_read_constraint(g, i, v, k)) {
        g.image_resources@[i].versions@[v].create_usage.0
    } else {
        spec_image_conflict_partner_from(g, i, v, k, 0)
    }
}

/// The resolved specification of version `v` of image `i`: the merge of
/// all of its usages' constraints, converted to a full specification. A
/// merge conflict is a `ConstraintConflictError` naming the image and the
/// two conflicting usages; a still-unset format after the merge is an
/// `UnderconstrainedResourceError`.
pub open spec fn spec_resolve_image_version(g: RenderGraphBuilder, i: int, v: int) -> Result<
    RenderGraphImageSpecification,
    RenderGraphError,
> {
    let reads = g.image_resources@[i].versions@[v].read_usages@;
    match spec_image_merge_upto(g, i, v, reads.len() as int) {
        Err(k) => Err(
            RenderGraphError::ConstraintConflictError {
                kind: crate::graph_builder::RenderGraphResourceKind::Image,
                resource: i as usize,
                usage_a: spec_image_conflict_partner(g, i, v, k),
                usage_b: reads[k].0,
            },
        ),
        Ok(c) => match c.spec_to_specification() {
            None => Err(
                RenderGraphError::UnderconstrainedResourceError {
                    kind: crate::graph_builder::RenderGraphResourceKind::Image,
                    resource: i as usize,
                },
            ),
            Some(s) => Ok(s),
        },
    }
}

/// The resolved specifications of the first `v` versions of image `i`,
/// stopping at the first failing version.
pub open spec fn spec_resolve_image_upto(g: RenderGraphBuilder, i: int, v: int) -> Result<
    Seq<RenderGraphImageSpecification>,
    RenderGraphError,
>
    decreases v,
{
    if v <= 0 {
        Ok(Seq::empty())
    } else {
        match spec_resolve_image_upto(g, i, v - 1) {
            Err(e) => Err(e),
            Ok(t) => match spec_resolve_image_version(g, i, v - 1) {
                Err(e) => Err(e),
                Ok(s) => Ok(t.push(s)),
            },
        }
    }
}

/// The resolved specifications of every version of the first `i` images,
/// stopping at the first failing image.
pub open spec fn spec_resolve_images_upto(g: RenderGraphBuilder, i: int) -> Result<
    Seq<Seq<RenderGraphImageSpecification>>,
    RenderGraphError,
>
    decreases i,
{
    if i <= 0 {
        Ok(Seq::empty())
    } else {
        match spec_resolve_images_upto(g, i - 1) {
            Err(e) => Err(e),
            Ok(t) => match spec_resolve_image_upto(
                g,
                i - 1,
                g.image_resources@[i - 1].versions@.len() as int,
            ) {
                Err(e) => Err(e),
                Ok(row) => Ok(t.push(row)),
            },
        }
    }
}

/// The resolved specification of every image version, or the first error.
pub open spec fn spec_image_specifications(g: RenderGraphBuilder) -> Result<
    Seq<Seq<RenderGraphImageSpecification>>,
    RenderGraphError,
> {
    spec_resolve_images_upto(g, g.image_resources@.len() as int)
}

/// A merge that failed at some read stays failed however many more reads
/// are merged after it.
proof fn lemma_image_merge_err_stable(g: RenderGraphBuilder, i: int, v: int, k1: int, k2: int)
    requires
        0 <= k1 <= k2,
        spec_image_merge_upto(g, i, v, k1) is Err,
    ensures
        spec_image_merge_upto(g, i, v, k2) == spec_image_merge_upto(g, i, v, k1),
    decreases k2 - k1,
{
    if k2 > k1 {
        lemma_image_merge_err_stable(g, i, v, k1, k2 - 1);
    }
}

/// A failed version keeps the whole image failed, whatever comes after.
proof fn lemma_image_err_stable(g: RenderGraphBuilder, i: int, v1: int, v2: int)
    requires
        0 <= v1 <= v2,
        spec_resolve_image_upto(g, i, v1) is Err,
    ensures
        spec_resolve_image_upto(g, i, v2) == spec_resolve_image_upto(g, i, v1),
    decreases v2 - v1,
{
    if v2 > v1 {
        lemma_image_err_stable(g, i, v1, v2 - 1);
    }
}

/// A failed image keeps the whole table failed, whatever comes after.
proof fn lemma_images_err_stable(g: RenderGraphBuilder, i1: int, i2: int)
    requires
        0 <= i1 <= i2,
        spec_resolve_images_upto(g, i1) is Err,
    ensures
        spec_resolve_images_upto(g, i2) == spec_resolve_images_upto(g, i1),
    decreases i2 - i1,
{
    if i2 > i1 {
        lemma_images_err_stable(g, i1, i2 - 1);
    }
}

/// The view of a resolved-specification table, row by row.
pub open spec fn image_spec_table_view(
    t: Vec<Vec<RenderGraphImageSpecification>>,
) -> Seq<Seq<RenderGraphImageSpecification>> {
    t@.map_values(|row: Vec<RenderGraphImageSpecification>| row@)
}

impl RenderGraphBuilder {
    /// Resolve the specification of every image version by merging, in
    /// registration order, the creating usage's constraint with the
    /// constraint of every usage that reads the version. A conflict or a
    /// still-unset format aborts resolution with the first error.
    pub fn resolve_image_specifications(&self) -> (r: Result<
        Vec<Vec<RenderGraphImageSpecification>>,
        RenderGraphError,
    >)
        requires
            self.wf(),
        ensures
            r is Ok <==> spec_image_specifications(*self) is Ok,
            r matches Err(e) ==> spec_image_specifications(*self) == Err::<
                Seq<Seq<RenderGraphImageSpecification>>,
                RenderGraphError,
            >(e),
            r matches Ok(t) ==> Ok::<_, RenderGraphError>(image_spec_table_view(t))
                == spec_image_specifications(*self),
    {
        let mut table: Vec<Vec<RenderGraphImageSpecification>> = Vec::new();
        let mut i: usize = 0;
        proof {
            assert(image_spec_table_view(table) =~= Seq::<
                Seq<RenderGraphImageSpecification>,
            >::empty());
        }
        while i < self.image_resources.len()
            invariant
                self.wf(),
                i <= self.image_resources@.len(),
                spec_resolve_images_upto(*self, i as int) == Ok::<_, RenderGraphError>(
                    image_spec_table_view(table),
                ),
                table@.len() == i,
            decreases self.image_resources@.len() - i,
        {
            let mut row: Vec<RenderGraphImageSpecification> = Vec::new();
            let mut v: usize = 0;
            while v < self.image_resources[i].versions.len()
                invariant
                    self.wf(),
                    i < self.image_resources@.len(),
                    v <= self.image_resources@[i as int].versions@.len(),
                    spec_resolve_images_upto(*self, i as int) == Ok::<_, RenderGraphError>(
                        image_spec_table_view(table),
                    ),
                    table@.len() == i,
                    spec_resolve_image_upto(*self, i as int, v as int) == Ok::<
                        _,
                        RenderGraphError,
                    >(row@),
                    row@.len() == v,
                decreases self.image_resources@[i as int].versions@.len() - v,
            {
                match self.resolve_one_image_version(i, v) {
                    Ok(s) => {
                        row.push(s);
                    },
                    Err(e) => {
                        proof {
                            assert(spec_resolve_image_upto(*self, i as int, v as int + 1)
                                == Err::<Seq<RenderGraphImageSpecification>, RenderGraphError>(
                                e,
                            ));
                            lemma_image_err_stable(
                                *self,
                                i as int,
                                v as int + 1,
                                self.image_resources@[i as int].versions@.len() as int,
                            );
                            assert(spec_resolve_images_upto(*self, i as int + 1) == Err::<
                                Seq<Seq<RenderGraphImageSpecification>>,
                                RenderGraphError,
                            >(e));
                            lemma_images_err_stable(
                                *self,
                                i as int + 1,
                                self.image_resources@.len() as int,
                            );
                        }
                        return Err(e);
                    },
                }
                v = v + 1;
            }
            let ghost prev_view = image_spec_table_view(table);
            table.push(row);
            i = i + 1;
            proof {
                assert(image_spec_table_view(table) =~= prev_view.push(row@));
            }
        }
        Ok(table)
    }

    /// Resolve one image version: fold `try_merge` over its usages'
    /// constraints and convert the result.
    fn resolve_one_image_version(&self, i: usize, v: usize) -> (r: Result<
        RenderGraphImageSpecification,
        RenderGraphError,
    >)
        requires
            self.wf(),
            i < self.image_resources@.len(),
            v < self.image_resources@[i as int].versions@.len(),
        ensures
            r == spec_resolve_image_version(*self, i as int, v as int),
    {
        let create_usage = self.image_resources[i].versions[v].create_usage;
        let mut merged = self.image_usages[create_usage.0].constraint;
        let mut k: usize = 0;
        while k < self.image_resources[i].versions[v].read_usages.len()
            invariant
                self.wf(),
                i < self.image_resources@.len(),
                v < self.image_resources@[i as int].versions@.len(),
                k <= self.image_resources@[i as int].versions@[v as int].read_usages@.len(),
                create_usage == self.image_resources@[i as int].versions@[
                    v as int
                ].create_usage,
                spec_image_merge_upto(*self, i as int, v as int, k as int) == Ok::<
                    _,
                    int,
                >(merged),
            decreases self.image_resources@[i as int].versions@[v as int].read_usages@.len()
                - k,
        {
            let read_usage = self.image_resources[i].versions[v].read_usages[k];
            let constraint = self.image_usages[read_usage.0].constraint;
            if !merged.try_merge(&constraint) {
                // Find the first earlier usage of this version whose own
                // constraint conflicts with the offending read's, so the
                // error names a concrete pair.
                let partner = self.find_image_conflict_partner(i, v, k);
                proof {
                    assert(spec_image_merge_upto(*self, i as int, v as int, k as int + 1)
                        == Err::<RenderGraphImageConstraint, int>(k as int));
                    lemma_image_merge_err_stable(
                        *self,
                        i as int,
                        v as int,
                        k as int + 1,
                        self.image_resources@[i as int].versions@[
                            v as int
                        ].read_usages@.len() as int,
                    );
                }
                return Err(
                    RenderGraphError::ConstraintConflictError {
                        kind: crate::graph_builder::RenderGraphResourceKind::Image,
                        resource: i,
                        usage_a: partner,
                        usage_b: read_usage.0,
                    },
                );
            }
            k = k + 1;
        }
        match merged.try_convert_to_specification() {
            None => Err(
                RenderGraphError::UnderconstrainedResourceError {
                    kind: crate::graph_builder::RenderGraphResourceKind::Image,
                    resource: i,
                },
            ),
            Some(s) => Ok(s),
        }
    }

    /// The first usage of version `v` of image `i` whose constraint
    /// conflicts pairwise with read `k`'s constraint.
    fn find_image_conflict_partner(&self, i: usize, v: usize, k: usize) -> (r: usize)
        requires
            self.wf(),
            i < self.image_resources@.len(),
            v < self.image_resources@[i as int].versions@.len(),
            k < self.image_resources@[i as int].versions@[v as int].read_usages@.len(),
        ensures
            r == spec_image_conflict_partner(*self, i as int, v as int, k as int),
    {
        let reads_k = self.image_resources[i].versions[v].read_usages[k];
        let ck = self.image_usages[reads_k.0].constraint;
        let create_usage = self.image_resources[i].versions[v].create_usage;
        let create_constraint = self.image_usages[create_usage.0].constraint;
        if !create_constraint.can_merge(&ck) {
            return create_usage.0;
        }
        let mut j: usize = 0;
        while j < k
            invariant
                self.wf(),
                i < self.image_resources@.len(),
                v < self.image_resources@[i as int].versions@.len(),
                k < self.image_resources@[i as int].versions@[v as int].read_usages@.len(),
                j <= k,
                ck == image_read_constraint(*self, i as int, v as int, k as int),
                create_usage == self.image_resources@[i as int].versions@[
                    v as int
                ].create_usage,
                image_create_constraint(*self, i as int, v as int).spec_can_merge(ck),
                spec_image_conflict_partner_from(*self, i as int, v as int, k as int, 0)
                    == spec_image_conflict_partner_from(
                    *self,
                    i as int,
                    v as int,
                    k as int,
                    j as int,
                ),
            decreases k - j,
        {
            let reads_j = self.image_resources[i].versions[v].read_usages[j];
            let cj = self.image_usages[reads_j.0].constraint;
            if !cj.can_merge(&ck) {
                proof {
                    assert(spec_image_conflict_partner_from(
                        *self,
                        i as int,
                        v as int,
                        k as int,
                        j as int,
                    ) == reads_j.0);
                }
                return reads_j.0;
            }
            j = j + 1;
        }
        create_usage.0
    }

    /// Resolve the specification of every buffer version by merging, in
    /// registration order, the creating usage's constraint with the
    /// constraint of every usage that reads the version. A conflict or a
    /// still-unset size aborts resolution with the first error.
    pub fn resolve_buffer_specifications(&self) -> (r: Result<
        Vec<Vec<RenderGraphBufferSpecification>>,
        RenderGraphError,
    >)
        requires
            self.wf(),
        ensures
            r is Ok <==> spec_buffer_specifications(*self) is Ok,
            r matches Err(e) ==> spec_buffer_specifications(*self) == Err::<
                Seq<Seq<RenderGraphBufferSpecification>>,
                RenderGraphError,
            >(e),
            r matches Ok(t) ==> Ok::<_, RenderGraphError>(buffer_spec_table_view(t))
                == spec_buffer_specifications(*self),
    {
        let mut table: Vec<Vec<RenderGraphBufferSpecification>> = Vec::new();
        let mut i: usize = 0;
        proof {
            assert(buffer_spec_table_view(table) =~= Seq::<
                Seq<RenderGraphBufferSpecification>,
            >::empty());
        }
        while i < self.buffer_resources.len()
            invariant
                self.wf(),
                i <= self.buffer_resources@.len(),
                spec_resolve_buffers_upto(*self, i as int) == Ok::<_, RenderGraphError>(
                    buffer_spec_table_view(table),
                ),
                table@.len() == i,
            decreases self.buffer_resources@.len() - i,
        {
            let mut row: Vec<RenderGraphBufferSpecification> = Vec::new();
            let mut v: usize = 0;
            while v < self.buffer_resources[i].versions.len()
                invariant
                    self.wf(),
                    i < self.buffer_resources@.len(),
                    v <= self.buffer_resources@[i as int].versions@.len(),
                    spec_resolve_buffers_upto(*self, i as int) == Ok::<_, RenderGraphError>(
                        buffer_spec_table_view(table),
                    ),
                    table@.len() == i,
                    spec_resolve_buffer_upto(*self, i as int, v as int) == Ok::<
                        _,
                        RenderGraphError,
                    >(row@),
                    row@.len() == v,
                decreases self.buffer_resources@[i as int].versions@.len() - v,
            {
                match self.resolve_one_buffer_version(i, v) {
                    Ok(s) => {
                        row.push(s);
                    },
                    Err(e) => {
                        proof {
                            assert(spec_resolve_buffer_upto(*self, i as int, v as int + 1)
                                == Err::<Seq<RenderGraphBufferSpecification>, RenderGraphError>(
                                e,
                            ));
                            lemma_buffer_err_stable(
                                *self,
                                i as int,
                                v as int + 1,
                                self.buffer_resources@[i as int].versions@.len() as int,
                            );
                            assert(spec_resolve_buffers_upto(*self, i as int + 1) == Err::<
                                Seq<Seq<RenderGraphBufferSpecification>>,
                                RenderGraphError,
                            >(e));
                            lemma_buffers_err_stable(
                                *self,
                                i as int + 1,
                                self.buffer_resources@.len() as int,
                            );
                        }
                        return Err(e);
                    },
                }
                v = v + 1;
            }
            let ghost prev_view = buffer_spec_table_view(table);
            table.push(row);
            i = i + 1;
            proof {
                assert(buffer_spec_table_view(table) =~= prev_view.push(row@));
            }
        }
        Ok(table)
    }

    /// Resolve one buffer version: fold `try_merge` over its usages'
    /// constraints and convert the result.
    fn resolve_one_buffer_version(&self, i: usize, v: usize) -> (r: Result<
        RenderGraphBufferSpecification,
        RenderGraphError,
    >)
        requires
            self.wf(),
            i < self.buffer_resources@.len(),
            v < self.buffer_resources@[i as int].versions@.len(),
        ensures
            r == spec_resolve_buffer_version(*self, i as int, v as int),
    {
        let create_usage = self.buffer_resources[i].versions[v].create_usage;
        let mut merged = self.buffer_usages[create_usage.0].constraint;
        let mut k: usize = 0;
        while k < self.buffer_resources[i].versions[v].read_usages.len()
            invariant
                self.wf(),
                i < self.buffer_resources@.len(),
                v < self.buffer_resources@[i as int].versions@.len(),
                k <= self.buffer_resources@[i as int].versions@[v as int].read_usages@.len(),
                create_usage == self.buffer_resources@[i as int].versions@[
                    v as int
                ].create_usage,
                spec_buffer_merge_upto(*self, i as int, v as int, k as int) == Ok::<
                    _,
                    int,
                >(merged),
            decreases self.buffer_resources@[i as int].versions@[v as int].read_usages@.len()
                - k,
        {
            let read_usage = self.buffer_resources[i].versions[v].read_usages[k];
            let constraint = self.buffer_usages[read_usage.0].constraint;
            if !merged.try_merge(&constraint) {
                let partner = self.find_buffer_conflict_partner(i, v, k);
                proof {
                    assert(spec_buffer_merge_upto(*self, i as int, v as int, k as int + 1)
                        == Err::<RenderGraphBufferConstraint, int>(k as int));
                    lemma_buffer_merge_err_stable(
                        *self,
                        i as int,
                        v as int,
                        k as int + 1,
                        self.buffer_resources@[i as int].versions@[
                            v as int
                        ].read_usages@.len() as int,
                    );
                }
                return Err(
                    RenderGraphError::ConstraintConflictError {
                        kind: crate::graph_builder::RenderGraphResourceKind::Buffer,
                        resource: i,
                        usage_a: partner,
                        usage_b: read_usage.0,
                    },
                );
            }
            k = k + 1;
        }
        match merged.try_convert_to_specification() {
            None => Err(
                RenderGraphError::UnderconstrainedResourceError {
                    kind: crate::graph_builder::RenderGraphResourceKind::Buffer,
                    resource: i,
                },
            ),
            Some(s) => Ok(s),
        }
    }

    /// The first usage of version `v` of buffer `i` whose constraint
    /// conflicts pairwise with read `k`'s constraint.
    fn find_buffer_conflict_partner(&self, i: usize, v: usize, k: usize) -> (r: usize)
        requires
            self.wf(),
            i < self.buffer_resources@.len(),
            v < self.buffer_resources@[i as int].versions@.len(),
            k < self.buffer_resources@[i as int].versions@[v as int].read_usages@.len(),
        ensures
            r == spec_buffer_conflict_partner(*self, i as int, v as int, k as int),
    {
        let reads_k = self.buffer_resources[i].versions[v].read_usages[k];
        let ck = self.buffer_usages[reads_k.0].constraint;
        let create_usage = self.buffer_resources[i].versions[v].create_usage;
        let create_constraint = self.buffer_usages[create_usage.0].constraint;
        if !create_constraint.can_merge(&ck) {
            return create_usage.0;
        }
        let mut j: usize = 0;
        while j < k
            invariant
                self.wf(),
                i < self.buffer_resources@.len(),
                v < self.buffer_resources@[i as int].versions@.len(),
                k < self.buffer_resources@[i as int].versions@[v as int].read_usages@.len(),
                j <= k,
                ck == buffer_read_constraint(*self, i as int, v as int, k as int),
                create_usage == self.buffer_resources@[i as int].versions@[
                    v as int
                ].create_usage,
                buffer_create_constraint(*self, i as int, v as int).spec_can_merge(ck),
                spec_buffer_conflict_partner_from(*self, i as int, v as int, k as int, 0)
                    == spec_buffer_conflict_partner_from(
                    *self,
                    i as int,
                    v as int,
                    k as int,
                    j as int,
                ),
            decreases k - j,
        {
            let reads_j = self.buffer_resources[i].versions[v].read_usages[j];
            let cj = self.buffer_usages[reads_j.0].constraint;
            if !cj.can_merge(&ck) {
                proof {
                    assert(spec_buffer_conflict_partner_from(
                        *self,
                        i as int,
                        v as int,
                        k as int,
                        j as int,
                    ) == reads_j.0);
                }
                return reads_j.0;
            }
            j = j + 1;
        }
        create_usage.0
    }
}

/// The constraint of the usage that created version `v` of buffer `i`.
pub open spec fn buffer_create_constraint(
    g: RenderGraphBuilder,
    i: int,
    v: int,
) -> RenderGraphBufferConstraint {
    g.buffer_usages@[g.buffer_resources@[i].versions@[v].create_usage.0 as int].constraint
}

/// The constraint of the `k`-th read usage of version `v` of buffer `i`.
pub open spec fn buffer_read_constraint(
    g: RenderGraphBuilder,
    i: int,
    v: int,
    k: int,
) -> RenderGraphBufferConstraint {
    g.buffer_usages@[g.buffer_resources@[i].versions@[v].read_usages@[k].0 as int].constraint
}

/// The merge of the create constraint of version `v` of buffer `i` with
/// its first `k` read constraints, in order.
pub open spec fn spec_buffer_merge_upto(g: RenderGraphBuilder, i: int, v: int, k: int) -> Result<
    RenderGraphBufferConstraint,
    int,
>
    decreases k,
{
    if k <= 0 {
        Ok(buffer_create_constraint(g, i, v))
    } else {
        match spec_buffer_merge_upto(g, i, v, k - 1) {
            Err(e) => Err(e),
            Ok(acc) => if acc.spec_can_merge(buffer_read_constraint(g, i, v, k - 1)) {
                Ok(acc.spec_merged(buffer_read_constraint(g, i, v, k - 1)))
            } else {
                Err(k - 1)
            },
        }
    }
}

/// The first of the reads `j..k` of version `v` of buffer `i` whose
/// constraint conflicts pairwise with read `k`'s, as a usage id; the
/// create usage when none does.
pub open spec fn spec_buffer_conflict_partner_from(
    g: RenderGraphBuilder,
    i: int,
    v: int,
    k: int,
    j: int,
) -> usize
    decreases k - j,
{
    if j < 0 || j >= k {
        g.buffer_resources@[i].versions@[v].create_usage.0
    } else if !buffer_read_constraint(g, i, v, j).spec_can_merge(
        buffer_read_constraint(g, i, v, k),
    ) {
        g.buffer_resources@[i].versions@[v].read_usages@[j].0
    } else {
        spec_buffer_conflict_partner_from(g, i, v, k, j + 1)
    }
}

/// The usage reported together with read `k` in a buffer constraint
/// conflict.
pub open spec fn spec_buffer_conflict_partner(
    g: RenderGraphBuilder,
    i: int,
    v: int,
    k: int,
) -> usize {
    if !buffer_create_constraint(g, i, v).spec_can_merge(buffer_read_constraint(g, i, v, k)) {
        g.buffer_resources@[i].versions@[v].create_usage.0
    } else {
        spec_buffer_conflict_partner_from(g, i, v, k, 0)
    }
}

/// The resolved specification of version `v` of buffer `i`.
pub open spec fn spec_resolve_buffer_version(g: RenderGraphBuilder, i: int, v: int) -> Result<
    RenderGraphBufferSpecification,
    RenderGraphError,
> {
    let reads = g.buffer_resources@[i].versions@[v].read_usages@;
    match spec_buffer_merge_upto(g, i, v, reads.len() as int) {
        Err(k) => Err(
            RenderGraphError::ConstraintConflictError {
                kind: crate::graph_builder::RenderGraphResourceKind::Buffer,
                resource: i as usize,
                usage_a: spec_buffer_conflict_partner(g, i, v, k),
                usage_b: reads[k].0,
            },
        ),
        Ok(c) => match c.spec_to_specification() {
            None => Err(
                RenderGraphError::UnderconstrainedResourceError {
                    kind: crate::graph_builder::RenderGraphResourceKind::Buffer,
                    resource: i as usize,
                },
            ),
            Some(s) => Ok(s),
        },
    }
}

/// The resolved specifications of the first `v` versions of buffer `i`.
pub open spec fn spec_resolve_buffer_upto(g: RenderGraphBuilder, i: int, v: int) -> Result<
    Seq<RenderGraphBufferSpecification>,
    RenderGraphError,
>
    decreases v,
{
    if v <= 0 {
        Ok(Seq::empty())
    } else {
        match spec_resolve_buffer_upto(g, i, v - 1) {
            Err(e) => Err(e),
            Ok(t) => match spec_resolve_buffer_version(g, i, v - 1) {
                Err(e) => Err(e),
                Ok(s) => Ok(t.push(s)),
            },
        }
    }
}

/// The resolved specifications of every version of the first `i` buffers.
pub open spec fn spec_resolve_buffers_upto(g: RenderGraphBuilder, i: int) -> Result<
    Seq<Seq<RenderGraphBufferSpecification>>,
    RenderGraphError,
>
    decreases i,
{
    if i <= 0 {
        Ok(Seq::empty())
    } else {
        match spec_resolve_buffers_upto(g, i - 1) {
            Err(e) => Err(e),
            Ok(t) => match spec_resolve_buffer_upto(
                g,
                i - 1,
                g.buffer_resources@[i - 1].versions@.len() as int,
            ) {
                Err(e) => Err(e),
                Ok(row) => Ok(t.push(row)),
            },
        }
    }
}

/// The resolved specification of every buffer version, or the first error.
pub open spec fn spec_buffer_specifications(g: RenderGraphBuilder) -> Result<
    Seq<Seq<RenderGraphBufferSpecification>>,
    RenderGraphError,
> {
    spec_resolve_buffers_upto(g, g.buffer_resources@.len() as int)
}

/// A merge that failed at some read stays failed however many more reads
/// are merged after it.
proof fn lemma_buffer_merge_err_stable(g: RenderGraphBuilder, i: int, v: int, k1: int, k2: int)
    requires
        0 <= k1 <= k2,
        spec_buffer_merge_upto(g, i, v, k1) is Err,
    ensures
        spec_buffer_merge_upto(g, i, v, k2) == spec_buffer_merge_upto(g, i, v, k1),
    decreases k2 - k1,
{
    if k2 > k1 {
        lemma_buffer_merge_err_stable(g, i, v, k1, k2 - 1);
    }
}

/// A failed version keeps the whole buffer failed, whatever comes after.
proof fn lemma_buffer_err_stable(g: RenderGraphBuilder, i: int, v1: int, v2: int)
    requires
        0 <= v1 <= v2,
        spec_resolve_buffer_upto(g, i, v1) is Err,
    ensures
        spec_resolve_buffer_upto(g, i, v2) == spec_resolve_buffer_upto(g, i, v1),
    decreases v2 - v1,
{
    if v2 > v1 {
        lemma_buffer_err_stable(g, i, v1, v2 - 1);
    }
}

/// A failed buffer keeps the whole table failed, whatever comes after.
proof fn lemma_buffers_err_stable(g: RenderGraphBuilder, i1: int, i2: int)
    requires
        0 <= i1 <= i2,
        spec_resolve_buffers_upto(g, i1) is Err,
    ensures
        spec_resolve_buffers_upto(g, i2) == spec_resolve_buffers_upto(g, i1),
    decreases i2 - i1,
{
    if i2 > i1 {
        lemma_buffers_err_stable(g, i1, i2 - 1);
    }
}

/// The view of a resolved buffer-specification table, row by row.
pub open spec fn buffer_spec_table_view(
    t: Vec<Vec<RenderGraphBufferSpecification>>,
) -> Seq<Seq<RenderGraphBufferSpecification>> {
    t@.map_values(|row: Vec<RenderGraphBufferSpecification>| row@)
}

/// Kahn's algorithm with insertion-order tie-break: whenever several nodes
/// are ready, the one registered first is scheduled next. Returns the
/// execution order together with each node's position in it, or
/// `CyclicGraphError` when no complete order exists.
pub fn topo_sort(n: usize, edges: &Vec<RenderGraphDependency>) -> (r: Result<
    (Vec<RenderGraphNodeId>, Vec<usize>),
    RenderGraphError,
>)
    requires
        forall|e: int|
            0 <= e < edges@.len() ==> (#[trigger] edges@[e]).before.0 < n && edges@[e].after.0
                < n,
    ensures
        spec_topo_order(edges@, n as int).len() == n <==> r is Ok,
        spec_topo_order(edges@, n as int).len() < n ==> r == Err::<
            (Vec<RenderGraphNodeId>, Vec<usize>),
            RenderGraphError,
        >(RenderGraphError::CyclicGraphError),
        r matches Ok(ok) ==> {
            &&& ok.0@.map_values(|x: RenderGraphNodeId| x.0) == spec_topo_order(
                edges@,
                n as int,
            )
            &&& ok.0@.len() == n
            &&& ok.1@.len() == n
            &&& forall|p: int| 0 <= p < n ==> (#[trigger] ok.0@[p]).0 < n
            &&& forall|m: int| 0 <= m < n ==> (#[trigger] ok.1@[m]) < n
            &&& forall|p: int|
                0 <= p < n ==> ok.1@[(#[trigger] ok.0@[p]).0 as int] == p
            &&& forall|m: int|
                0 <= m < n ==> (#[trigger] ok.0@[ok.1@[m] as int]).0 == m
            &&& forall|e: int|
                0 <= e < edges@.len() ==> ok.1@[(#[trigger] edges@[e]).before.0 as int] < ok.1@[
                    edges@[e].after.0 as int
                ]
        },
{
    let ghost es = edges@;
    let mut order: Vec<RenderGraphNodeId> = Vec::new();
    let mut positions: Vec<usize> = Vec::new();
    let mut scheduled: Vec<bool> = Vec::new();
    let mut m: usize = 0;
    while m < n
        invariant
            positions@.len() == m,
            scheduled@.len() == m,
            m <= n,
            forall|q: int| 0 <= q < m ==> !(#[trigger] scheduled@[q]),
            forall|q: int| 0 <= q < m ==> (#[trigger] positions@[q]) == n,
            order@.len() == 0,
        decreases n - m,
    {
        positions.push(n);
        scheduled.push(false);
        m = m + 1;
    }
    proof {
        assert(order@.map_values(|x: RenderGraphNodeId| x.0) =~= Seq::<usize>::empty());
    }
    while order.len() < n
        invariant
            es == edges@,
            forall|e: int|
                0 <= e < es.len() ==> (#[trigger] es[e]).before.0 < n && es[e].after.0 < n,
            order@.len() <= n,
            positions@.len() == n,
            scheduled@.len() == n,
            order@.map_values(|x: RenderGraphNodeId| x.0).no_duplicates(),
            forall|p: int| 0 <= p < order@.len() ==> (#[trigger] order@[p]).0 < n,
            forall|m2: int|
                0 <= m2 < n ==> ((#[trigger] scheduled@[m2]) <==> order@.map_values(
                    |x: RenderGraphNodeId| x.0,
                ).contains(m2 as usize)),
            forall|m2: int|
                0 <= m2 < n && scheduled@[m2] ==> (#[trigger] positions@[m2]) < order@.len()
                    && order@[positions@[m2] as int].0 == m2,
            forall|m2: int|
                0 <= m2 < n && !scheduled@[m2] ==> (#[trigger] positions@[m2]) == n,
            forall|p: int|
                0 <= p < order@.len() ==> (#[trigger] positions@[order@[p].0 as int]) == p,
            forall|e: int|
                0 <= e < es.len() && scheduled@[(#[trigger] es[e]).after.0 as int] ==> {
                    &&& scheduled@[es[e].before.0 as int]
                    &&& positions@[es[e].before.0 as int] < positions@[es[e].after.0 as int]
                },
            spec_topo_order(es, n as int) == spec_topo_iter(
                es,
                n as int,
                order@.map_values(|x: RenderGraphNodeId| x.0),
                (n - order@.len()) as nat,
            ),
        decreases n - order@.len(),
    {
        let ghost done = order@.map_values(|x: RenderGraphNodeId| x.0);
        // Find the first unscheduled node whose predecessors are all
        // scheduled; insertion order is the tie-break.
        let mut found: Option<usize> = None;
        let mut j: usize = 0;
        while j < n
            invariant
                es == edges@,
                forall|e: int|
                    0 <= e < es.len() ==> (#[trigger] es[e]).before.0 < n && es[e].after.0 < n,
                scheduled@.len() == n,
                forall|m2: int|
                    0 <= m2 < n ==> ((#[trigger] scheduled@[m2]) <==> done.contains(
                        m2 as usize,
                    )),
                j <= n,
                found is None ==> spec_first_ready_from(es, done, n as int, 0)
                    == spec_first_ready_from(es, done, n as int, j as int),
                found matches Some(f) ==> f < n && !done.contains(f) && spec_ready(es, done, f)
                    && spec_first_ready_from(es, done, n as int, 0) == Some(f) && j == n,
            decreases n - j,
        {
            if !scheduled[j] {
                let mut ready = true;
                let mut e: usize = 0;
                while e < edges.len()
                    invariant
                        es == edges@,
                        forall|e2: int|
                            0 <= e2 < es.len() ==> (#[trigger] es[e2]).before.0 < n
                                && es[e2].after.0 < n,
                        scheduled@.len() == n,
                        forall|m2: int|
                            0 <= m2 < n ==> ((#[trigger] scheduled@[m2]) <==> done.contains(
                                m2 as usize,
                            )),
                        j < n,
                        e <= es.len(),
                        ready ==> forall|e2: int|
                            0 <= e2 < e ==> ((#[trigger] es[e2]).after.0 == j ==> done.contains(
                                es[e2].before.0,
                            )),
                        !ready ==> !spec_ready(es, done, j),
                    decreases es.len() - e,
                {
                    if edges[e].after.0 == j && !scheduled[edges[e].before.0] {
                        proof {
                            assert(!done.contains(es[e as int].before.0));
                        }
                        ready = false;
                    }
                    e = e + 1;
                }
                if ready {
                    found = Some(j);
                    proof {
                        assert(spec_ready(es, done, j));
                        assert(!done.contains(j));
                        assert(spec_first_ready_from(es, done, n as int, j as int) == Some(j));
                    }
                    j = n;
                } else {
                    j = j + 1;
                }
            } else {
                proof {
                    assert(done.contains(j));
                }
                j = j + 1;
            }
        }
        match found {
            None => {
                proof {
                    assert(spec_first_ready_from(es, done, n as int, 0) is None);
                    assert(spec_topo_iter(es, n as int, done, (n - order@.len()) as nat)
                        == done);
                    assert(spec_topo_order(es, n as int).len() == order@.len() < n);
                }
                return Err(RenderGraphError::CyclicGraphError);
            },
            Some(j) => {
                let p = order.len();
                proof {
                    assert forall|e: int|
                        0 <= e < es.len() && (#[trigger] es[e]).after.0 == j implies done.contains(
                        es[e].before.0,
                    ) && es[e].before.0 != j by {
                        assert(spec_ready(es, done, j));
                        if es[e].before.0 == j {
                            assert(done.contains(j));
                        }
                    }
                }
                order.push(RenderGraphNodeId(j));
                positions[j] = p;
                scheduled[j] = true;
                proof {
                    let done2 = order@.map_values(|x: RenderGraphNodeId| x.0);
                    assert(done2 =~= done.push(j));
                    assert(done2[done.len() as int] == j);
                    assert(done2.no_duplicates()) by {
                        assert forall|p1: int, q1: int|
                            0 <= p1 < done2.len() && 0 <= q1 < done2.len() && p1
                                != q1 implies done2[p1] != done2[q1] by {
                            if p1 < done.len() && q1 < done.len() {
                                assert(done2[p1] == done[p1] && done2[q1] == done[q1]);
                            } else if p1 == done.len() && q1 < done.len() {
                                if done2[q1] == j {
                                    assert(done[q1] == j);
                                    assert(done.contains(j));
                                }
                            } else if q1 == done.len() && p1 < done.len() {
                                if done2[p1] == j {
                                    assert(done[p1] == j);
                                    assert(done.contains(j));
                                }
                            }
                        }
                    }
                    assert forall|m2: int|
                        0 <= m2 < n implies (scheduled@[m2] <==> done2.contains(
                        m2 as usize,
                    )) by {
                        if m2 == j {
                            assert(done2.contains(j));
                        } else {
                            if done2.contains(m2 as usize) {
                                let w = choose|w: int|
                                    0 <= w < done2.len() && done2[w] == m2 as usize;
                                assert(w < done.len());
                                assert(done[w] == m2 as usize);
                                assert(done.contains(m2 as usize));
                            }
                            if done.contains(m2 as usize) {
                                let w = choose|w: int|
                                    0 <= w < done.len() && done[w] == m2 as usize;
                                assert(done2[w] == m2 as usize);
                                assert(done2.contains(m2 as usize));
                            }
                        }
                    }
                    assert(spec_topo_iter(es, n as int, done, (n - done.len()) as nat)
                        == spec_topo_iter(es, n as int, done2, (n - done2.len()) as nat));
                }
            },
        }
    }
    proof {
        let done = order@.map_values(|x: RenderGraphNodeId| x.0);
        assert(spec_topo_iter(es, n as int, done, 0) == done);
        assert(spec_topo_order(es, n as int) == done);
        assert forall|m2: int| 0 <= m2 < n implies #[trigger] scheduled@[m2] by {
            lemma_permutation_covers(done, n as int, m2 as usize);
        }
    }
    Ok((order, positions))
}

/// The position of the node that created version `v` of image `i`: where
/// the version's lifetime begins.
pub open spec fn spec_version_begin(
    g: RenderGraphBuilder,
    i: int,
    v: int,
    positions: Seq<usize>,
) -> int {
    positions[g.image_resources@[i].versions@[v].creator_node.0 as int] as int
}

/// The position contributed by the `k`-th read of version `v` of image
/// `i`: the reading node's position, or the last position of the whole
/// graph for the terminal output binding.
pub open spec fn spec_read_position(
    g: RenderGraphBuilder,
    i: int,
    v: int,
    k: int,
    positions: Seq<usize>,
    n: int,
) -> int {
    let u = g.image_usages@[g.image_resources@[i].versions@[v].read_usages@[k].0 as int];
    match u.user {
        RenderGraphImageUser::Node(nb) => positions[nb.0 as int] as int,
        RenderGraphImageUser::Output(_) => n - 1,
    }
}

/// The end of version `v`'s lifetime after its first `k` reads: the
/// largest position among the creator and those readers.
pub open spec fn spec_version_end_upto(
    g: RenderGraphBuilder,
    i: int,
    v: int,
    k: int,
    positions: Seq<usize>,
    n: int,
) -> int
    decreases k,
{
    if k <= 0 {
        spec_version_begin(g, i, v, positions)
    } else {
        let prev = spec_version_end_upto(g, i, v, k - 1, positions, n);
        let c = spec_read_position(g, i, v, k - 1, positions, n);
        if c > prev {
            c
        } else {
            prev
        }
    }
}

/// The lifetime of version `v` of image `i`: from its creator's position
/// through the position of its last reader; a version nothing reads dies
/// at its creator.
pub open spec fn spec_version_lifetime(
    g: RenderGraphBuilder,
    i: int,
    v: int,
    positions: Seq<usize>,
    n: int,
) -> RenderGraphVersionLifetime {
    RenderGraphVersionLifetime {
        begin: spec_version_begin(g, i, v, positions) as usize,
        end: spec_version_end_upto(
            g,
            i,
            v,
            g.image_resources@[i].versions@[v].read_usages@.len() as int,
            positions,
            n,
        ) as usize,
    }
}

/// The lifetimes of every version of every image.
pub open spec fn spec_image_lifetimes(
    g: RenderGraphBuilder,
    positions: Seq<usize>,
    n: int,
) -> Seq<Seq<RenderGraphVersionLifetime>> {
    Seq::new(
        g.image_resources@.len(),
        |i: int|
            Seq::new(
                g.image_resources@[i].versions@.len(),
                |v: int| spec_version_lifetime(g, i, v, positions, n),
            ),
    )
}

/// The view of a lifetime table, row by row.
pub open spec fn lifetime_table_view(
    t: Vec<Vec<RenderGraphVersionLifetime>>,
) -> Seq<Seq<RenderGraphVersionLifetime>> {
    t@.map_values(|row: Vec<RenderGraphVersionLifetime>| row@)
}

impl RenderGraphBuilder {
    /// Compute the lifetime of every image version from the node positions
    /// of the execution order: a version exists from its creator's
    /// position through its last reader's.
    pub fn compute_image_lifetimes(&self, positions: &Vec<usize>) -> (r: Vec<
        Vec<RenderGraphVersionLifetime>,
    >)
        requires
            self.wf(),
            positions@.len() == self.nodes@.len(),
            forall|m: int|
                0 <= m < positions@.len() ==> (#[trigger] positions@[m]) < self.nodes@.len(),
        ensures
            lifetime_table_view(r) == spec_image_lifetimes(
                *self,
                positions@,
                self.nodes@.len() as int,
            ),
    {
        let n = self.nodes.len();
        let mut table: Vec<Vec<RenderGraphVersionLifetime>> = Vec::new();
        let mut i: usize = 0;
        while i < self.image_resources.len()
            invariant
                self.wf(),
                n == self.nodes@.len(),
                positions@.len() == n,
                forall|m: int| 0 <= m < positions@.len() ==> (#[trigger] positions@[m]) < n,
                i <= self.image_resources@.len(),
                table@.len() == i,
                forall|i2: int|
                    0 <= i2 < i ==> (#[trigger] table@[i2])@ == spec_image_lifetimes(
                        *self,
                        positions@,
                        n as int,
                    )[i2],
            decreases self.image_resources@.len() - i,
        {
            let mut row: Vec<RenderGraphVersionLifetime> = Vec::new();
            let mut v: usize = 0;
            while v < self.image_resources[i].versions.len()
                invariant
                    self.wf(),
                    n == self.nodes@.len(),
                    positions@.len() == n,
                    forall|m: int|
                        0 <= m < positions@.len() ==> (#[trigger] positions@[m]) < n,
                    i < self.image_resources@.len(),
                    v <= self.image_resources@[i as int].versions@.len(),
                    row@.len() == v,
                    forall|v2: int|
                        0 <= v2 < v ==> (#[trigger] row@[v2]) == spec_version_lifetime(
                            *self,
                            i as int,
                            v2,
                            positions@,
                            n as int,
                        ),
                decreases self.image_resources@[i as int].versions@.len() - v,
            {
                let creator = self.image_resources[i].versions[v].creator_node;
                let begin = positions[creator.0];
                let mut end = begin;
                let mut k: usize = 0;
                while k < self.image_resources[i].versions[v].read_usages.len()
                    invariant
                        self.wf(),
                        n == self.nodes@.len(),
                        positions@.len() == n,
                        forall|m: int|
                            0 <= m < positions@.len() ==> (#[trigger] positions@[m]) < n,
                        i < self.image_resources@.len(),
                        v < self.image_resources@[i as int].versions@.len(),
                        k <= self.image_resources@[i as int].versions@[
                            v as int
                        ].read_usages@.len(),
                        begin == spec_version_begin(*self, i as int, v as int, positions@),
                        end as int == spec_version_end_upto(
                            *self,
                            i as int,
                            v as int,
                            k as int,
                            positions@,
                            n as int,
                        ),
                        end < n,
                    decreases self.image_resources@[i as int].versions@[
                        v as int
                    ].read_usages@.len() - k,
                {
                    let read_usage = self.image_resources[i].versions[v].read_usages[k];
                    match self.image_usages[read_usage.0].user {
                        RenderGraphImageUser::Node(nb) => {
                            let p = positions[nb.0];
                            if p > end {
                                end = p;
                            }
                        },
                        RenderGraphImageUser::Output(_) => {
                            let p = n - 1;
                            if p > end {
                                end = p;
                            }
                        },
                    }
                    k = k + 1;
                }
                row.push(
                    RenderGraphVersionLifetime { begin, end },
                );
                v = v + 1;
            }
            table.push(row);
            i = i + 1;
        }
        proof {
            assert(lifetime_table_view(table) =~= spec_image_lifetimes(
                *self,
                positions@,
                n as int,
            )) by {
                assert forall|i2: int|
                    0 <= i2 < self.image_resources@.len() implies lifetime_table_view(table)[i2]
                    =~= spec_image_lifetimes(*self, positions@, n as int)[i2] by {
                }
            }
        }
        table
    }
}

/// The aliasing state: the physical images made so far, and for every
/// image version either the physical index it maps to or `usize::MAX`
/// while it is still unassigned.
pub type AliasState = (Seq<RenderGraphPhysicalImage>, Seq<Seq<usize>>);

/// Whether version `v` of image `i` is the one consumed by the output
/// binding.
pub open spec fn is_output_version(g: RenderGraphBuilder, i: int, v: int) -> bool {
    match g.output_image {
        Some(o) => o.version.index == i && o.version.version == v,
        None => false,
    }
}

/// The first reusable physical image at index `q` or later: not the
/// pinned output image, its last use strictly before `begin`, and its
/// specification mergeable with the candidate's. The greedy allocator
/// always reuses the first such image.
pub open spec fn spec_first_free(
    phys: Seq<RenderGraphPhysicalImage>,
    begin: int,
    c: RenderGraphImageSpecification,
    q: int,
) -> Option<int>
    decreases phys.len() - q,
{
    if q < 0 || q >= phys.len() {
        None
    } else if !phys[q].is_output && (phys[q].end as int) < begin
        && phys[q].specification.spec_can_merge(c) {
        Some(q)
    } else {
        spec_first_free(phys, begin, c, q + 1)
    }
}

/// One step of the greedy interval allocator: when version `v` of image
/// `i` starts at position `p`, map it to the first compatible free
/// physical image (merging specifications and extending the end), or to a
/// fresh one; the output version is always pinned to a fresh physical
/// image that is never offered for reuse.
pub open spec fn spec_alias_step(
    st: AliasState,
    g: RenderGraphBuilder,
    lifetimes: Seq<Seq<RenderGraphVersionLifetime>>,
    specs: Seq<Seq<RenderGraphImageSpecification>>,
    p: int,
    i: int,
    v: int,
) -> AliasState {
    let lt = lifetimes[i][v];
    let c = specs[i][v];
    if lt.begin != p {
        st
    } else if is_output_version(g, i, v) {
        (
            st.0.push(
                RenderGraphPhysicalImage { specification: c, end: lt.end, is_output: true },
            ),
            st.1.update(i, st.1[i].update(v, st.0.len() as usize)),
        )
    } else {
        match spec_first_free(st.0, lt.begin as int, c, 0) {
            Some(q) => (
                st.0.update(
                    q,
                    RenderGraphPhysicalImage {
                        specification: st.0[q].specification.spec_merged(c),
                        end: lt.end,
                        is_output: false,
                    },
                ),
                st.1.update(i, st.1[i].update(v, q as usize)),
            ),
            None => (
                st.0.push(
                    RenderGraphPhysicalImage { specification: c, end: lt.end, is_output: false },
                ),
                st.1.update(i, st.1[i].update(v, st.0.len() as usize)),
            ),
        }
    }
}

/// The allocator applied to the first `v` versions of image `i` for
/// start position `p`.
pub open spec fn spec_alias_versions_upto(
    st: AliasState,
    g: RenderGraphBuilder,
    lifetimes: Seq<Seq<RenderGraphVersionLifetime>>,
    specs: Seq<Seq<RenderGraphImageSpecification>>,
    p: int,
    i: int,
    v: int,
) -> AliasState
    decreases v,
{
    if v <= 0 {
        st
    } else {
        spec_alias_step(
            spec_alias_versions_upto(st, g, lifetimes, specs, p, i, v - 1),
            g,
            lifetimes,
            specs,
            p,
            i,
            v - 1,
        )
    }
}

/// The allocator applied to the first `i` images for start position `p`.
pub open spec fn spec_alias_images_upto(
    st: AliasState,
    g: RenderGraphBuilder,
    lifetimes: Seq<Seq<RenderGraphVersionLifetime>>,
    specs: Seq<Seq<RenderGraphImageSpecification>>,
    p: int,
    i: int,
) -> AliasState
    decreases i,
{
    if i <= 0 {
        st
    } else {
        spec_alias_versions_upto(
            spec_alias_images_upto(st, g, lifetimes, specs, p, i - 1),
            g,
            lifetimes,
            specs,
            p,
            i - 1,
            lifetimes[i - 1].len() as int,
        )
    }
}

/// The state before any version was assigned: no physical images, every
/// version unassigned.
pub open spec fn spec_alias_init(
    lifetimes: Seq<Seq<RenderGraphVersionLifetime>>,
) -> AliasState {
    (
        Seq::empty(),
        Seq::new(lifetimes.len(), |i: int| Seq::new(lifetimes[i].len(), |v: int| usize::MAX)),
    )
}

/// The allocator run over start positions `0..p`, in increasing order:
/// versions are assigned in increasing lifetime-start order, ties broken
/// by image then version index.
pub open spec fn spec_alias_upto(
    g: RenderGraphBuilder,
    lifetimes: Seq<Seq<RenderGraphVersionLifetime>>,
    specs: Seq<Seq<RenderGraphImageSpecification>>,
    p: int,
) -> AliasState
    decreases p,
{
    if p <= 0 {
        spec_alias_init(lifetimes)
    } else {
        spec_alias_images_upto(
            spec_alias_upto(g, lifetimes, specs, p - 1),
            g,
            lifetimes,
            specs,
            p - 1,
            lifetimes.len() as int,
        )
    }
}

/// Whether the version `(i, v)` has already been handled when the
/// allocator stands at position `p`, image `ic`, version `vc`.
pub open spec fn alias_processed(
    lifetimes: Seq<Seq<RenderGraphVersionLifetime>>,
    p: int,
    ic: int,
    vc: int,
    i: int,
    v: int,
) -> bool {
    let b = lifetimes[i][v].begin as int;
    b < p || (b == p && (i < ic || (i == ic && v < vc)))
}

/// The view of an assignment table, row by row.
pub open spec fn assign_table_view(t: Vec<Vec<usize>>) -> Seq<Seq<usize>> {
    t@.map_values(|row: Vec<usize>| row@)
}

/// Whether two lifetimes do not overlap: one ends strictly before the
/// other begins.
pub open spec fn lifetimes_disjoint(
    a: RenderGraphVersionLifetime,
    b: RenderGraphVersionLifetime,
) -> bool {
    a.end < b.begin || b.end < a.begin
}

/// Everything the allocator keeps true while it runs, with the cursor at
/// position `p`, image `ic`, version `vc`: processed versions are exactly
/// the assigned ones; assignments land on existing physical images whose
/// recorded end covers them; versions sharing a physical image have
/// disjoint lifetimes; and only the output version sits on the pinned
/// output image.
pub open spec fn alias_state_ok(
    st: AliasState,
    g: RenderGraphBuilder,
    lifetimes: Seq<Seq<RenderGraphVersionLifetime>>,
    p: int,
    ic: int,
    vc: int,
) -> bool {
    &&& st.1.len() == lifetimes.len()
    &&& forall|i: int|
        0 <= i < lifetimes.len() ==> (#[trigger] st.1[i]).len() == lifetimes[i].len()
    &&& forall|i: int, v: int|
        0 <= i < lifetimes.len() && 0 <= v < lifetimes[i].len() ==> (alias_processed(
            lifetimes,
            p,
            ic,
            vc,
            i,
            v,
        ) <==> (#[trigger] st.1[i][v]) != usize::MAX)
    &&& forall|i: int, v: int|
        0 <= i < lifetimes.len() && 0 <= v < lifetimes[i].len() && alias_processed(
            lifetimes,
            p,
            ic,
            vc,
            i,
            v,
        ) ==> (#[trigger] st.1[i][v]) < st.0.len() && lifetimes[i][v].end
            <= st.0[st.1[i][v] as int].end
    &&& forall|i1: int, v1: int, i2: int, v2: int|
        0 <= i1 < lifetimes.len() && 0 <= v1 < lifetimes[i1].len() && 0 <= i2
            < lifetimes.len() && 0 <= v2 < lifetimes[i2].len() && !(i1 == i2 && v1 == v2)
            && alias_processed(lifetimes, p, ic, vc, i1, v1) && alias_processed(
            lifetimes,
            p,
            ic,
            vc,
            i2,
            v2,
        ) && (#[trigger] st.1[i1][v1]) == (#[trigger] st.1[i2][v2]) ==> lifetimes_disjoint(
            lifetimes[i1][v1],
            lifetimes[i2][v2],
        )
    &&& forall|i: int, v: int|
        0 <= i < lifetimes.len() && 0 <= v < lifetimes[i].len() && alias_processed(
            lifetimes,
            p,
            ic,
            vc,
            i,
            v,
        ) && !is_output_version(g, i, v) ==> !st.0[(#[trigger] st.1[i][v]) as int].is_output
    &&& forall|i: int, v: int|
        0 <= i < lifetimes.len() && 0 <= v < lifetimes[i].len() && alias_processed(
            lifetimes,
            p,
            ic,
            vc,
            i,
            v,
        ) && is_output_version(g, i, v) ==> st.0[(#[trigger] st.1[i][v]) as int].is_output
}

/// One assignment keeps the allocator's bookkeeping intact: mapping the
/// version starting at `p` onto a fresh physical image, or onto a reused
/// one whose last use ended strictly before `p`, preserves
/// `alias_state_ok` with the cursor moved past the version.
proof fn lemma_alias_assign_ok(
    st0: AliasState,
    g: RenderGraphBuilder,
    lt: Seq<Seq<RenderGraphVersionLifetime>>,
    p: int,
    i: int,
    v: int,
    q: usize,
    np: RenderGraphPhysicalImage,
    fresh: bool,
)
    requires
        alias_state_ok(st0, g, lt, p, i, v),
        0 <= i < lt.len(),
        0 <= v < lt[i].len(),
        lt[i][v].begin == p,
        lt[i][v].begin <= lt[i][v].end,
        np.end == lt[i][v].end,
        q < usize::MAX,
        fresh ==> q == st0.0.len(),
        fresh ==> (np.is_output <==> is_output_version(g, i, v)),
        !fresh ==> q < st0.0.len() && !st0.0[q as int].is_output && (st0.0[q as int].end as int)
            < p && !np.is_output && !is_output_version(g, i, v),
    ensures
        alias_state_ok(
            (
                if fresh {
                    st0.0.push(np)
                } else {
                    st0.0.update(q as int, np)
                },
                st0.1.update(i, st0.1[i].update(v, q)),
            ),
            g,
            lt,
            p,
            i,
            v + 1,
        ),
{
    let nphys = if fresh {
        st0.0.push(np)
    } else {
        st0.0.update(q as int, np)
    };
    let na = st0.1.update(i, st0.1[i].update(v, q));
    let st1 = (nphys, na);
    assert forall|i2: int, v2: int|
        0 <= i2 < lt.len() && 0 <= v2 < lt[i2].len() && !(i2 == i && v2 == v) implies (
    #[trigger] na[i2][v2]) == st0.1[i2][v2] && (alias_processed(lt, p, i, v + 1, i2, v2)
        == alias_processed(lt, p, i, v, i2, v2)) by {
        if i2 == i {
            assert(na[i2] == st0.1[i].update(v, q));
        }
    }
    assert(na[i][v] == q);
    assert(alias_processed(lt, p, i, v + 1, i, v));
    // Every processed version sits on an existing physical image whose
    // recorded end covers it.
    assert forall|i2: int, v2: int|
        0 <= i2 < lt.len() && 0 <= v2 < lt[i2].len() && alias_processed(
            lt,
            p,
            i,
            v + 1,
            i2,
            v2,
        ) implies (#[trigger] na[i2][v2]) < nphys.len() && lt[i2][v2].end
        <= nphys[na[i2][v2] as int].end by {
        if i2 == i && v2 == v {
            assert(nphys[q as int] == np);
        } else {
            assert(st0.1[i2][v2] < st0.0.len());
            if !fresh && st0.1[i2][v2] == q {
                assert(lt[i2][v2].end <= st0.0[q as int].end);
            }
        }
    }
    // Versions sharing a physical image have disjoint lifetimes.
    assert forall|i1: int, v1: int, i2: int, v2: int|
        0 <= i1 < lt.len() && 0 <= v1 < lt[i1].len() && 0 <= i2 < lt.len() && 0 <= v2
            < lt[i2].len() && !(i1 == i2 && v1 == v2) && alias_processed(
            lt,
            p,
            i,
            v + 1,
            i1,
            v1,
        ) && alias_processed(lt, p, i, v + 1, i2, v2) && (#[trigger] na[i1][v1]) == (
    #[trigger] na[i2][v2]) implies lifetimes_disjoint(lt[i1][v1], lt[i2][v2]) by {
        if i1 == i && v1 == v {
            if !(i2 == i && v2 == v) {
                assert(st0.1[i2][v2] == na[i2][v2] == q);
                assert(!fresh) by {
                    if fresh {
                        assert(st0.1[i2][v2] < st0.0.len());
                    }
                }
                assert(lt[i2][v2].end <= st0.0[q as int].end);
                assert((lt[i2][v2].end as int) < p == lt[i][v].begin);
            }
        } else if i2 == i && v2 == v {
            assert(st0.1[i1][v1] == na[i1][v1] == q);
            assert(!fresh) by {
                if fresh {
                    assert(st0.1[i1][v1] < st0.0.len());
                }
            }
            assert(lt[i1][v1].end <= st0.0[q as int].end);
            assert((lt[i1][v1].end as int) < p == lt[i][v].begin);
        } else {
            assert(st0.1[i1][v1] == na[i1][v1] && st0.1[i2][v2] == na[i2][v2]);
        }
    }
    // Only the output version sits on a pinned output image.
    assert forall|i2: int, v2: int|
        0 <= i2 < lt.len() && 0 <= v2 < lt[i2].len() && alias_processed(
            lt,
            p,
            i,
            v + 1,
            i2,
            v2,
        ) && !is_output_version(g, i2, v2) implies !nphys[(#[trigger] na[i2][v2]) as int].is_output by {
        if i2 == i && v2 == v {
            assert(nphys[q as int] == np);
        } else {
            if !fresh && st0.1[i2][v2] == q {
                assert(nphys[q as int] == np);
            } else {
                assert(nphys[st0.1[i2][v2] as int] == st0.0[st0.1[i2][v2] as int]);
            }
        }
    }
    assert forall|i2: int, v2: int|
        0 <= i2 < lt.len() && 0 <= v2 < lt[i2].len() && alias_processed(
            lt,
            p,
            i,
            v + 1,
            i2,
            v2,
        ) && is_output_version(g, i2, v2) implies nphys[(#[trigger] na[i2][v2]) as int].is_output by {
        if i2 == i && v2 == v {
            assert(nphys[q as int] == np);
        } else {
            assert(st0.0[st0.1[i2][v2] as int].is_output);
            if !fresh && st0.1[i2][v2] == q {
                assert(!st0.0[q as int].is_output);
            } else {
                assert(nphys[st0.1[i2][v2] as int] == st0.0[st0.1[i2][v2] as int]);
            }
        }
    }
    assert(alias_state_ok(st1, g, lt, p, i, v + 1));
}

impl RenderGraphBuilder {
    /// Assign every image version a physical image by greedy interval
    /// coloring: versions are processed in increasing lifetime-start
    /// order (insertion order breaking ties); each reuses the first
    /// compatible physical image whose last use ended strictly before the
    /// version begins, merging specifications so the one allocation
    /// satisfies every version that ever aliases it, and a fresh physical
    /// image is made when none fits. The externally bound output version
    /// is pinned to a dedicated physical image that is excluded from
    /// reuse. Two versions sharing a physical image never have
    /// overlapping lifetimes.
    pub fn assign_physical_images(
        &self,
        lifetimes: &Vec<Vec<RenderGraphVersionLifetime>>,
        specs: &Vec<Vec<RenderGraphImageSpecification>>,
    ) -> (r: (Vec<RenderGraphPhysicalImage>, Vec<Vec<usize>>))
        requires
            self.wf(),
            lifetimes@.len() == self.image_resources@.len(),
            specs@.len() == self.image_resources@.len(),
            forall|i: int|
                0 <= i < lifetimes@.len() ==> (#[trigger] lifetimes@[i])@.len()
                    == self.image_resources@[i].versions@.len(),
            forall|i: int|
                0 <= i < specs@.len() ==> (#[trigger] specs@[i])@.len()
                    == self.image_resources@[i].versions@.len(),
            forall|i: int, v: int|
                0 <= i < lifetimes@.len() && 0 <= v < lifetimes@[i]@.len() ==> {
                    &&& (#[trigger] lifetimes@[i]@[v]).begin <= lifetimes@[i]@[v].end
                    &&& lifetimes@[i]@[v].end < self.nodes@.len()
                },
        ensures
            ({
                let lt = lifetime_table_view(*lifetimes);
                let sp = image_spec_table_view(*specs);
                &&& (r.0@, assign_table_view(r.1)) == spec_alias_upto(
                    *self,
                    lt,
                    sp,
                    self.nodes@.len() as int,
                )
                &&& assign_table_view(r.1).len() == lt.len()
                &&& forall|i: int|
                    0 <= i < lt.len() ==> (#[trigger] assign_table_view(r.1)[i]).len()
                        == lt[i].len()
                &&& forall|i: int, v: int|
                    0 <= i < lt.len() && 0 <= v < lt[i].len()
                        ==> (#[trigger] assign_table_view(r.1)[i][v]) < r.0@.len()
                &&& forall|i1: int, v1: int, i2: int, v2: int|
                    0 <= i1 < lt.len() && 0 <= v1 < lt[i1].len() && 0 <= i2 < lt.len() && 0
                        <= v2 < lt[i2].len() && !(i1 == i2 && v1 == v2) && (#[trigger] assign_table_view(
                        r.1,
                    )[i1][v1]) == (#[trigger] assign_table_view(r.1)[i2][v2])
                        ==> lifetimes_disjoint(lt[i1][v1], lt[i2][v2])
                &&& forall|i: int, v: int|
                    0 <= i < lt.len() && 0 <= v < lt[i].len() && !is_output_version(
                        *self,
                        i,
                        v,
                    ) ==> !r.0@[(#[trigger] assign_table_view(r.1)[i][v]) as int].is_output
                &&& forall|i: int, v: int|
                    0 <= i < lt.len() && 0 <= v < lt[i].len() && is_output_version(*self, i, v)
                        ==> r.0@[(#[trigger] assign_table_view(r.1)[i][v]) as int].is_output
            }),
    {
        let n = self.nodes.len();
        let ghost lt = lifetime_table_view(*lifetimes);
        let ghost sp = image_spec_table_view(*specs);
        let mut phys: Vec<RenderGraphPhysicalImage> = Vec::new();
        let mut assign: Vec<Vec<usize>> = Vec::new();
        let mut i0: usize = 0;
        while i0 < lifetimes.len()
            invariant
                lt == lifetime_table_view(*lifetimes),
                i0 <= lifetimes@.len(),
                assign@.len() == i0,
                forall|i: int|
                    0 <= i < i0 ==> (#[trigger] assign@[i])@.len() == lifetimes@[i]@.len(),
                forall|i: int, v: int|
                    0 <= i < i0 && 0 <= v < assign@[i]@.len() ==> (#[trigger] assign@[i]@[v])
                        == usize::MAX,
            decreases lifetimes@.len() - i0,
        {
            let mut row: Vec<usize> = Vec::new();
            let mut v0: usize = 0;
            while v0 < lifetimes[i0].len()
                invariant
                    i0 < lifetimes@.len(),
                    v0 <= lifetimes@[i0 as int]@.len(),
                    row@.len() == v0,
                    forall|v: int| 0 <= v < v0 ==> (#[trigger] row@[v]) == usize::MAX,
                decreases lifetimes@[i0 as int]@.len() - v0,
            {
                row.push(usize::MAX);
                v0 = v0 + 1;
            }
            assign.push(row);
            i0 = i0 + 1;
        }
        proof {
            assert((phys@, assign_table_view(assign)) =~~= spec_alias_init(lt)) by {
                assert(assign_table_view(assign) =~~= spec_alias_init(lt).1);
                assert(phys@ =~= spec_alias_init(lt).0);
            }
            assert(alias_state_ok((phys@, assign_table_view(assign)), *self, lt, 0, 0, 0));
        }
        let mut p: usize = 0;
        while p < n
            invariant
                self.wf(),
                n == self.nodes@.len(),
                lt == lifetime_table_view(*lifetimes),
                sp == image_spec_table_view(*specs),
                lifetimes@.len() == self.image_resources@.len(),
                specs@.len() == self.image_resources@.len(),
                forall|i: int|
                    0 <= i < lifetimes@.len() ==> (#[trigger] lifetimes@[i])@.len()
                        == self.image_resources@[i].versions@.len(),
                forall|i: int|
                    0 <= i < specs@.len() ==> (#[trigger] specs@[i])@.len()
                        == self.image_resources@[i].versions@.len(),
                forall|i: int, v: int|
                    0 <= i < lifetimes@.len() && 0 <= v < lifetimes@[i]@.len() ==> {
                        &&& (#[trigger] lifetimes@[i]@[v]).begin <= lifetimes@[i]@[v].end
                        &&& lifetimes@[i]@[v].end < n
                    },
                p <= n,
                (phys@, assign_table_view(assign)) == spec_alias_upto(*self, lt, sp, p as int),
                alias_state_ok((phys@, assign_table_view(assign)), *self, lt, p as int, 0, 0),
            decreases n - p,
        {
            let mut i: usize = 0;
            while i < lifetimes.len()
                invariant
                    self.wf(),
                    n == self.nodes@.len(),
                    lt == lifetime_table_view(*lifetimes),
                    sp == image_spec_table_view(*specs),
                    lifetimes@.len() == self.image_resources@.len(),
                    specs@.len() == self.image_resources@.len(),
                    forall|i2: int|
                        0 <= i2 < lifetimes@.len() ==> (#[trigger] lifetimes@[i2])@.len()
                            == self.image_resources@[i2].versions@.len(),
                    forall|i2: int|
                        0 <= i2 < specs@.len() ==> (#[trigger] specs@[i2])@.len()
                            == self.image_resources@[i2].versions@.len(),
                    forall|i2: int, v2: int|
                        0 <= i2 < lifetimes@.len() && 0 <= v2 < lifetimes@[i2]@.len() ==> {
                            &&& (#[trigger] lifetimes@[i2]@[v2]).begin <= lifetimes@[i2]@[v2].end
                            &&& lifetimes@[i2]@[v2].end < n
                        },
                    p < n,
                    i <= lifetimes@.len(),
                    (phys@, assign_table_view(assign)) == spec_alias_images_upto(
                        spec_alias_upto(*self, lt, sp, p as int),
                        *self,
                        lt,
                        sp,
                        p as int,
                        i as int,
                    ),
                    alias_state_ok(
                        (phys@, assign_table_view(assign)),
                        *self,
                        lt,
                        p as int,
                        i as int,
                        0,
                    ),
                decreases lifetimes@.len() - i,
            {
                let mut v: usize = 0;
                while v < lifetimes[i].len()
                    invariant
                        self.wf(),
                        n == self.nodes@.len(),
                        lt == lifetime_table_view(*lifetimes),
                        sp == image_spec_table_view(*specs),
                        lifetimes@.len() == self.image_resources@.len(),
                        specs@.len() == self.image_resources@.len(),
                        forall|i2: int|
                            0 <= i2 < lifetimes@.len() ==> (#[trigger] lifetimes@[i2])@.len()
                                == self.image_resources@[i2].versions@.len(),
                        forall|i2: int|
                            0 <= i2 < specs@.len() ==> (#[trigger] specs@[i2])@.len()
                                == self.image_resources@[i2].versions@.len(),
                        forall|i2: int, v2: int|
                            0 <= i2 < lifetimes@.len() && 0 <= v2 < lifetimes@[i2]@.len() ==> {
                                &&& (#[trigger] lifetimes@[i2]@[v2]).begin
                                    <= lifetimes@[i2]@[v2].end
                                &&& lifetimes@[i2]@[v2].end < n
                            },
                        p < n,
                        i < lifetimes@.len(),
                        v <= lifetimes@[i as int]@.len(),
                        (phys@, assign_table_view(assign)) == spec_alias_versions_upto(
                            spec_alias_images_upto(
                                spec_alias_upto(*self, lt, sp, p as int),
                                *self,
                                lt,
                                sp,
                                p as int,
                                i as int,
                            ),
                            *self,
                            lt,
                            sp,
                            p as int,
                            i as int,
                            v as int,
                        ),
                        alias_state_ok(
                            (phys@, assign_table_view(assign)),
                            *self,
                            lt,
                            p as int,
                            i as int,
                            v as int,
                        ),
                    decreases lifetimes@[i as int]@.len() - v,
                {
                    let lt_iv = lifetimes[i][v];
                    if lt_iv.begin == p {
                        let ghost st0 = (phys@, assign_table_view(assign));
                        proof {
                            assert(assign_table_view(assign)[i as int] == assign@[i as int]@);
                            assert(lt[i as int] == lifetimes@[i as int]@);
                            assert(assign@.len() == st0.1.len());
                            assert(assign@[i as int]@.len() == lt[i as int].len());
                        }
                        let c = specs[i][v];
                        let is_out = match &self.output_image {
                            Some(o) => o.version.index == i && o.version.version == v,
                            None => false,
                        };
                        proof {
                            assert(lt[i as int][v as int] == lt_iv);
                            assert(sp[i as int][v as int] == c);
                        }
                        if is_out {
                            let q = phys.len();
                            let np = RenderGraphPhysicalImage {
                                specification: c,
                                end: lt_iv.end,
                                is_output: true,
                            };
                            phys.push(np);
                            let nl = phys.len();
                            assign[i][v] = q;
                            proof {
                                assert(nl == st0.0.len() + 1);
                                assert(q < usize::MAX);
                                assert(assign_table_view(assign) =~= st0.1.update(
                                    i as int,
                                    st0.1[i as int].update(v as int, q),
                                ));
                                assert(is_output_version(*self, i as int, v as int));
                                lemma_alias_assign_ok(
                                    st0,
                                    *self,
                                    lt,
                                    p as int,
                                    i as int,
                                    v as int,
                                    q,
                                    np,
                                    true,
                                );
                                assert((phys@, assign_table_view(assign)) == spec_alias_step(
                                    st0,
                                    *self,
                                    lt,
                                    sp,
                                    p as int,
                                    i as int,
                                    v as int,
                                ));
                            }
                        } else {
                            let mut found: Option<usize> = None;
                            let mut q: usize = 0;
                            while q < phys.len()
                                invariant
                                    q <= phys@.len(),
                                    found is None ==> spec_first_free(
                                        phys@,
                                        lt_iv.begin as int,
                                        c,
                                        0,
                                    ) == spec_first_free(phys@, lt_iv.begin as int, c, q as int),
                                    found matches Some(f) ==> f < phys@.len() && !phys@[
                                        f as int
                                    ].is_output && (phys@[f as int].end as int) < lt_iv.begin
                                        && phys@[f as int].specification.spec_can_merge(c)
                                        && spec_first_free(phys@, lt_iv.begin as int, c, 0)
                                        == Some(f as int) && q == phys@.len(),
                                decreases phys@.len() - q,
                            {
                                let cand = phys[q];
                                if !cand.is_output && cand.end < lt_iv.begin
                                    && cand.specification.can_merge(&c) {
                                    found = Some(q);
                                    q = phys.len();
                                } else {
                                    q = q + 1;
                                }
                            }
                            let pl = phys.len();
                            match found {
                                Some(q) => {
                                    let mut merged = phys[q].specification;
                                    let merge_ok = merged.try_merge(&c);
                                    let np = RenderGraphPhysicalImage {
                                        specification: merged,
                                        end: lt_iv.end,
                                        is_output: false,
                                    };
                                    phys[q] = np;
                                    assign[i][v] = q;
                                    proof {
                                        assert(merge_ok);
                                        assert(pl == st0.0.len() && pl <= usize::MAX);
                                        assert(q < usize::MAX);
                                        assert(assign_table_view(assign) =~= st0.1.update(
                                            i as int,
                                            st0.1[i as int].update(v as int, q),
                                        ));
                                        assert(!is_output_version(*self, i as int, v as int));
                                        lemma_alias_assign_ok(
                                            st0,
                                            *self,
                                            lt,
                                            p as int,
                                            i as int,
                                            v as int,
                                            q,
                                            np,
                                            false,
                                        );
                                        assert((phys@, assign_table_view(assign))
                                            == spec_alias_step(
                                            st0,
                                            *self,
                                            lt,
                                            sp,
                                            p as int,
                                            i as int,
                                            v as int,
                                        ));
                                    }
                                },
                                None => {
                                    let q = phys.len();
                                    let np = RenderGraphPhysicalImage {
                                        specification: c,
                                        end: lt_iv.end,
                                        is_output: false,
                                    };
                                    phys.push(np);
                                    let nl = phys.len();
                                    assign[i][v] = q;
                                    proof {
                                        assert(nl == st0.0.len() + 1);
                                        assert(q < usize::MAX);
                                        assert(assign_table_view(assign) =~= st0.1.update(
                                            i as int,
                                            st0.1[i as int].update(v as int, q),
                                        ));
                                        assert(!is_output_version(*self, i as int, v as int));
                                        lemma_alias_assign_ok(
                                            st0,
                                            *self,
                                            lt,
                                            p as int,
                                            i as int,
                                            v as int,
                                            q,
                                            np,
                                            true,
                                        );
                                        assert((phys@, assign_table_view(assign))
                                            == spec_alias_step(
                                            st0,
                                            *self,
                                            lt,
                                            sp,
                                            p as int,
                                            i as int,
                                            v as int,
                                        ));
                                    }
                                },
                            }
                        }
                    }
                    v = v + 1;
                }
                i = i + 1;
            }
            p = p + 1;
        }
        proof {
            let st = (phys@, assign_table_view(assign));
            assert(alias_state_ok(st, *self, lt, n as int, 0, 0));
            assert forall|i: int, v: int|
                0 <= i < lt.len() && 0 <= v < lt[i].len() implies alias_processed(
                lt,
                n as int,
                0,
                0,
                i,
                v,
            ) by {
                assert(lt[i][v].end < n);
                assert(lt[i][v].begin <= lt[i][v].end);
            }
        }
        (phys, assign)
    }
}

/// The image usage id at slot `t` of node `node`'s usage list.
pub open spec fn node_usage_id(g: RenderGraphBuilder, node: int, t: int) -> int {
    g.nodes@[node].image_usages@[t].0 as int
}

/// The physical image the usage at slot `t` of node `node` maps to.
pub open spec fn node_usage_phys(
    g: RenderGraphBuilder,
    assign: Seq<Seq<usize>>,
    node: int,
    t: int,
) -> int {
    let u = g.image_usages@[node_usage_id(g, node, t)];
    assign[u.version.index as int][u.version.version as int] as int
}

/// Whether the usages at slots `t1` and `t2` of one node clash: they hit
/// the same physical image, and are not both plain reads asking for the
/// same layout. Such a pair cannot be given one correct transition.
pub open spec fn node_usages_conflict(
    g: RenderGraphBuilder,
    assign: Seq<Seq<usize>>,
    node: int,
    t1: int,
    t2: int,
) -> bool {
    let u1 = g.image_usages@[node_usage_id(g, node, t1)];
    let u2 = g.image_usages@[node_usage_id(g, node, t2)];
    &&& node_usage_phys(g, assign, node, t1) == node_usage_phys(g, assign, node, t2)
    &&& !(u1.usage_type.spec_is_read_only() && u2.usage_type.spec_is_read_only()
        && u1.preferred_layout == u2.preferred_layout)
}

/// The first slot in `j..t` that clashes with slot `t`, if any.
pub open spec fn spec_conflict_before(
    g: RenderGraphBuilder,
    assign: Seq<Seq<usize>>,
    node: int,
    t: int,
    j: int,
) -> Option<int>
    decreases t - j,
{
    if j < 0 || j >= t {
        None
    } else if node_usages_conflict(g, assign, node, j, t) {
        Some(j)
    } else {
        spec_conflict_before(g, assign, node, t, j + 1)
    }
}

/// Layout tracking and emitted transitions after the first `t` usages of
/// node `node` ran against layout state `layouts`: each usage whose
/// required layout differs from the one last recorded for its physical
/// image emits one transition and updates the record. A clashing pair of
/// usages is a `ConflictingSameNodeUsageError` naming the node and pair.
pub open spec fn spec_barrier_node_upto(
    g: RenderGraphBuilder,
    assign: Seq<Seq<usize>>,
    node: int,
    t: int,
    layouts: Seq<u32>,
) -> Result<(Seq<u32>, Seq<RenderGraphImageBarrier>), RenderGraphError>
    decreases t,
{
    if t <= 0 {
        Ok((layouts, Seq::empty()))
    } else {
        match spec_barrier_node_upto(g, assign, node, t - 1, layouts) {
            Err(e) => Err(e),
            Ok((lay, acc)) => match spec_conflict_before(g, assign, node, t - 1, 0) {
                Some(j) => Err(
                    RenderGraphError::ConflictingSameNodeUsageError {
                        node: RenderGraphNodeId(node as usize),
                        usage_a: node_usage_id(g, node, j) as usize,
                        usage_b: node_usage_id(g, node, t - 1) as usize,
                    },
                ),
                None => {
                    let ph = node_usage_phys(g, assign, node, t - 1);
                    let required = g.image_usages@[node_usage_id(g, node, t - 1)].preferred_layout;
                    if lay[ph] != required {
                        Ok(
                            (
                                lay.update(ph, required),
                                acc.push(
                                    RenderGraphImageBarrier {
                                        physical_image: crate::graph_image::PhysicalImageId(
                                            ph as usize,
                                        ),
                                        old_layout: lay[ph],
                                        new_layout: required,
                                    },
                                ),
                            ),
                        )
                    } else {
                        Ok((lay, acc))
                    }
                },
            },
        }
    }
}

/// Layout tracking and per-position transitions after the first `k` nodes
/// of the execution order ran. Every physical image starts in the
/// undefined layout.
pub open spec fn spec_barriers_upto(
    g: RenderGraphBuilder,
    assign: Seq<Seq<usize>>,
    order: Seq<usize>,
    k: int,
    nphys: nat,
) -> Result<(Seq<u32>, Seq<Seq<RenderGraphImageBarrier>>), RenderGraphError>
    decreases k,
{
    if k <= 0 {
        Ok((Seq::new(nphys, |q: int| crate::graph_image::LAYOUT_UNDEFINED), Seq::empty()))
    } else {
        match spec_barriers_upto(g, assign, order, k - 1, nphys) {
            Err(e) => Err(e),
            Ok((lay, outs)) => match spec_barrier_node_upto(
                g,
                assign,
                order[k - 1] as int,
                g.nodes@[order[k - 1] as int].image_usages@.len() as int,
                lay,
            ) {
                Err(e) => Err(e),
                Ok((lay2, bs)) => Ok((lay2, outs.push(bs))),
            },
        }
    }
}

/// A failed node keeps the whole walk failed, whatever comes after.
proof fn lemma_barrier_node_err_stable(
    g: RenderGraphBuilder,
    assign: Seq<Seq<usize>>,
    node: int,
    t1: int,
    t2: int,
    layouts: Seq<u32>,
)
    requires
        0 <= t1 <= t2,
        spec_barrier_node_upto(g, assign, node, t1, layouts) is Err,
    ensures
        spec_barrier_node_upto(g, assign, node, t2, layouts) == spec_barrier_node_upto(
            g,
            assign,
            node,
            t1,
            layouts,
        ),
    decreases t2 - t1,
{
    if t2 > t1 {
        lemma_barrier_node_err_stable(g, assign, node, t1, t2 - 1, layouts);
    }
}

/// A failed position keeps the whole walk failed, whatever comes after.
proof fn lemma_barriers_err_stable(
    g: RenderGraphBuilder,
    assign: Seq<Seq<usize>>,
    order: Seq<usize>,
    k1: int,
    k2: int,
    nphys: nat,
)
    requires
        0 <= k1 <= k2,
        spec_barriers_upto(g, assign, order, k1, nphys) is Err,
    ensures
        spec_barriers_upto(g, assign, order, k2, nphys) == spec_barriers_upto(
            g,
            assign,
            order,
            k1,
            nphys,
        ),
    decreases k2 - k1,
{
    if k2 > k1 {
        lemma_barriers_err_stable(g, assign, order, k1, k2 - 1, nphys);
    }
}

/// The view of a barrier table, row by row.
pub open spec fn barrier_table_view(
    t: Vec<Vec<RenderGraphImageBarrier>>,
) -> Seq<Seq<RenderGraphImageBarrier>> {
    t@.map_values(|row: Vec<RenderGraphImageBarrier>| row@)
}

impl RenderGraphBuilder {
    /// Walk the execution order and derive, for each node, the image
    /// layout transitions to issue immediately before it runs: one
    /// transition whenever the layout a usage needs differs from the
    /// layout last recorded for its physical image. A node that uses one
    /// physical image in two mutually exclusive roles at once is reported
    /// as `ConflictingSameNodeUsageError` rather than given an incorrect
    /// dual-purpose transition.
    pub fn derive_barriers(
        &self,
        order: &Vec<RenderGraphNodeId>,
        assign: &Vec<Vec<usize>>,
        nphys: usize,
    ) -> (r: Result<Vec<Vec<RenderGraphImageBarrier>>, RenderGraphError>)
        requires
            self.wf(),
            forall|p: int| 0 <= p < order@.len() ==> (#[trigger] order@[p]).0 < self.nodes@.len(),
            assign_table_view(*assign).len() == self.image_resources@.len(),
            forall|i: int|
                0 <= i < self.image_resources@.len() ==> (#[trigger] assign_table_view(
                    *assign,
                )[i]).len() == self.image_resources@[i].versions@.len(),
            forall|i: int, v: int|
                0 <= i < self.image_resources@.len() && 0 <= v
                    < self.image_resources@[i].versions@.len() ==> (#[trigger] assign_table_view(
                    *assign,
                )[i][v]) < nphys,
        ensures
            ({
                let ord = order@.map_values(|x: RenderGraphNodeId| x.0);
                let asn = assign_table_view(*assign);
                let full = spec_barriers_upto(*self, asn, ord, ord.len() as int, nphys as nat);
                &&& (r is Ok <==> full is Ok)
                &&& (r matches Err(e) ==> full == Err::<
                    (Seq<u32>, Seq<Seq<RenderGraphImageBarrier>>),
                    RenderGraphError,
                >(e))
                &&& (r matches Ok(t) ==> full matches Ok(f) && barrier_table_view(t) == f.1)
            }),
    {
        let ghost ord = order@.map_values(|x: RenderGraphNodeId| x.0);
        let ghost asn = assign_table_view(*assign);
        let mut layouts: Vec<u32> = Vec::new();
        let mut q0: usize = 0;
        while q0 < nphys
            invariant
                q0 <= nphys,
                layouts@.len() == q0,
                forall|q: int|
                    0 <= q < q0 ==> (#[trigger] layouts@[q])
                        == crate::graph_image::LAYOUT_UNDEFINED,
            decreases nphys - q0,
        {
            layouts.push(crate::graph_image::LAYOUT_UNDEFINED);
            q0 = q0 + 1;
        }
        proof {
            assert(layouts@ =~= Seq::new(
                nphys as nat,
                |q: int| crate::graph_image::LAYOUT_UNDEFINED,
            ));
        }
        let mut barriers: Vec<Vec<RenderGraphImageBarrier>> = Vec::new();
        proof {
            assert(barrier_table_view(barriers) =~= Seq::<Seq<RenderGraphImageBarrier>>::empty());
        }
        let mut k: usize = 0;
        while k < order.len()
            invariant
                self.wf(),
                ord == order@.map_values(|x: RenderGraphNodeId| x.0),
                asn == assign_table_view(*assign),
                forall|p: int|
                    0 <= p < order@.len() ==> (#[trigger] order@[p]).0 < self.nodes@.len(),
                asn.len() == self.image_resources@.len(),
                forall|i: int|
                    0 <= i < self.image_resources@.len() ==> (#[trigger] asn[i]).len()
                        == self.image_resources@[i].versions@.len(),
                forall|i: int, v: int|
                    0 <= i < self.image_resources@.len() && 0 <= v
                        < self.image_resources@[i].versions@.len() ==> (#[trigger] asn[i][v])
                        < nphys,
                k <= order@.len(),
                barriers@.len() == k,
                layouts@.len() == nphys,
                spec_barriers_upto(*self, asn, ord, k as int, nphys as nat) == Ok::<
                    _,
                    RenderGraphError,
                >((layouts@, barrier_table_view(barriers))),
            decreases order@.len() - k,
        {
            let node = order[k].0;
            let mut node_barriers: Vec<RenderGraphImageBarrier> = Vec::new();
            let mut t: usize = 0;
            let ghost lay_in = layouts@;
            proof {
                assert(barrier_table_view(barriers).len() == k);
            }
            while t < self.nodes[node].image_usages.len()
                invariant
                    self.wf(),
                    asn == assign_table_view(*assign),
                    asn.len() == self.image_resources@.len(),
                    forall|i: int|
                        0 <= i < self.image_resources@.len() ==> (#[trigger] asn[i]).len()
                            == self.image_resources@[i].versions@.len(),
                    forall|i: int, v: int|
                        0 <= i < self.image_resources@.len() && 0 <= v
                            < self.image_resources@[i].versions@.len() ==> (#[trigger] asn[i][v])
                            < nphys,
                    node < self.nodes@.len(),
                    t <= self.nodes@[node as int].image_usages@.len(),
                    layouts@.len() == nphys,
                    ord == order@.map_values(|x: RenderGraphNodeId| x.0),
                    k < ord.len(),
                    ord[k as int] == node,
                    barriers@.len() == k,
                    spec_barriers_upto(*self, asn, ord, k as int, nphys as nat) == Ok::<
                        _,
                        RenderGraphError,
                    >((lay_in, barrier_table_view(barriers))),
                    spec_barrier_node_upto(*self, asn, node as int, t as int, lay_in) == Ok::<
                        _,
                        RenderGraphError,
                    >((layouts@, node_barriers@)),
                decreases self.nodes@[node as int].image_usages@.len() - t,
            {
                let usage_id = self.nodes[node].image_usages[t];
                let u_version = self.image_usages[usage_id.0].version;
                let u_layout = self.image_usages[usage_id.0].preferred_layout;
                let u_read_only = self.image_usages[usage_id.0].usage_type.is_read_only();
                let ph = assign[u_version.index][u_version.version];
                proof {
                    assert(asn[u_version.index as int] == assign@[u_version.index as int]@);
                    assert(ph == asn[u_version.index as int][u_version.version as int]);
                    assert(ph == node_usage_phys(*self, asn, node as int, t as int));
                }
                // Check this usage against the node's earlier usages: the
                // same physical image may appear twice only as a plain
                // read in one layout.
                let mut j: usize = 0;
                let mut clash: Option<usize> = None;
                while j < t
                    invariant
                        self.wf(),
                        asn == assign_table_view(*assign),
                        asn.len() == self.image_resources@.len(),
                        forall|i: int|
                            0 <= i < self.image_resources@.len() ==> (#[trigger] asn[i]).len()
                                == self.image_resources@[i].versions@.len(),
                        node < self.nodes@.len(),
                        t < self.nodes@[node as int].image_usages@.len(),
                        j <= t,
                        usage_id == self.nodes@[node as int].image_usages@[t as int],
                        ph == node_usage_phys(*self, asn, node as int, t as int),
                        u_layout == self.image_usages@[node_usage_id(
                            *self,
                            node as int,
                            t as int,
                        )].preferred_layout,
                        u_read_only == self.image_usages@[node_usage_id(
                            *self,
                            node as int,
                            t as int,
                        )].usage_type.spec_is_read_only(),
                        clash is None ==> spec_conflict_before(
                            *self,
                            asn,
                            node as int,
                            t as int,
                            0,
                        ) == spec_conflict_before(*self, asn, node as int, t as int, j as int),
                        clash matches Some(c) ==> c < t && spec_conflict_before(
                            *self,
                            asn,
                            node as int,
                            t as int,
                            0,
                        ) == Some(c as int) && j == t,
                    decreases t - j,
                {
                    let other_id = self.nodes[node].image_usages[j];
                    let o_version = self.image_usages[other_id.0].version;
                    let o_layout = self.image_usages[other_id.0].preferred_layout;
                    let o_read_only = self.image_usages[other_id.0].usage_type.is_read_only();
                    let o_ph = assign[o_version.index][o_version.version];
                    proof {
                        assert(asn[o_version.index as int] == assign@[o_version.index as int]@);
                        assert(o_ph == node_usage_phys(*self, asn, node as int, j as int));
                    }
                    if o_ph == ph && !(o_read_only && u_read_only && o_layout == u_layout) {
                        clash = Some(j);
                        j = t;
                    } else {
                        j = j + 1;
                    }
                }
                match clash {
                    Some(j) => {
                        let other_id = self.nodes[node].image_usages[j];
                        proof {
                            assert(spec_barrier_node_upto(
                                *self,
                                asn,
                                node as int,
                                t as int + 1,
                                lay_in,
                            ) is Err);
                            lemma_barrier_node_err_stable(
                                *self,
                                asn,
                                node as int,
                                t as int + 1,
                                self.nodes@[node as int].image_usages@.len() as int,
                                lay_in,
                            );
                            lemma_barriers_err_stable(
                                *self,
                                asn,
                                ord,
                                k as int + 1,
                                ord.len() as int,
                                nphys as nat,
                            );
                        }
                        return Err(
                            RenderGraphError::ConflictingSameNodeUsageError {
                                node: RenderGraphNodeId(node),
                                usage_a: other_id.0,
                                usage_b: usage_id.0,
                            },
                        );
                    },
                    None => {},
                }
                let tracked_layout = layouts[ph];
                if tracked_layout != u_layout {
                    node_barriers.push(
                        RenderGraphImageBarrier {
                            physical_image: crate::graph_image::PhysicalImageId(ph),
                            old_layout: tracked_layout,
                            new_layout: u_layout,
                        },
                    );
                    layouts[ph] = u_layout;
                }
                t = t + 1;
            }
            let ghost prev_view = barrier_table_view(barriers);
            barriers.push(node_barriers);
            k = k + 1;
            proof {
                assert(barrier_table_view(barriers) =~= prev_view.push(node_barriers@));
                assert(ord[k - 1 as int] == node);
            }
        }
        Ok(barriers)
    }
}

/// Kahn's algorithm never schedules more nodes than its fuel allows.
proof fn lemma_topo_iter_len(
    edges: Seq<RenderGraphDependency>,
    n: int,
    order: Seq<usize>,
    fuel: nat,
)
    ensures
        spec_topo_iter(edges, n, order, fuel).len() <= order.len() + fuel,
    decreases fuel,
{
    if fuel > 0 {
        match spec_first_ready_from(edges, order, n, 0) {
            None => {},
            Some(j) => {
                lemma_topo_iter_len(edges, n, order.push(j), (fuel - 1) as nat);
            },
        }
    }
}

/// An element of a sequence stays in it under concatenation on the right.
proof fn lemma_concat_contains_left<T>(a: Seq<T>, b: Seq<T>, e: T)
    requires
        a.contains(e),
    ensures
        (a + b).contains(e),
{
    let w = choose|w: int| 0 <= w < a.len() && a[w] == e;
    assert((a + b)[w] == e);
}

/// An element of a sequence stays in it under concatenation on the left.
proof fn lemma_concat_contains_right<T>(a: Seq<T>, b: Seq<T>, e: T)
    requires
        b.contains(e),
    ensures
        (a + b).contains(e),
{
    let w = choose|w: int| 0 <= w < b.len() && b[w] == e;
    assert((a + b)[a.len() + w] == e);
}

/// The edge of a node-read usage is among the edges of its version.
proof fn lemma_edge_in_version(g: RenderGraphBuilder, i: int, v: int, k: int, kcap: int)
    requires
        0 <= k < kcap,
        g.image_usages@[g.image_resources@[i].versions@[v].read_usages@[k].0 as int].user
            is Node,
    ensures
        image_version_edges_upto(g, i, v, kcap).contains(
            RenderGraphDependency {
                before: g.image_resources@[i].versions@[v].creator_node,
                after: g.image_usages@[g.image_resources@[i].versions@[v].read_usages@[
                    k
                ].0 as int].user->Node_0,
            },
        ),
    decreases kcap,
{
    let dep = RenderGraphDependency {
        before: g.image_resources@[i].versions@[v].creator_node,
        after: g.image_usages@[g.image_resources@[i].versions@[v].read_usages@[
            k
        ].0 as int].user->Node_0,
    };
    if kcap == k + 1 {
        assert(image_read_edges_at(g, i, v, k) == seq![dep]);
        assert(seq![dep][0] == dep);
        assert(seq![dep].contains(dep));
        lemma_concat_contains_right(image_version_edges_upto(g, i, v, k), seq![dep], dep);
    } else {
        lemma_edge_in_version(g, i, v, k, kcap - 1);
        lemma_concat_contains_left(
            image_version_edges_upto(g, i, v, kcap - 1),
            image_read_edges_at(g, i, v, kcap - 1),
            dep,
        );
    }
}

/// An edge of a version is among the edges of its image.
proof fn lemma_edge_in_resource(
    g: RenderGraphBuilder,
    i: int,
    v: int,
    vcap: int,
    e: RenderGraphDependency,
)
    requires
        0 <= v < vcap,
        image_version_edges_upto(
            g,
            i,
            v,
            g.image_resources@[i].versions@[v].read_usages@.len() as int,
        ).contains(e),
    ensures
        image_resource_edges_upto(g, i, vcap).contains(e),
    decreases vcap,
{
    if vcap == v + 1 {
        lemma_concat_contains_right(
            image_resource_edges_upto(g, i, v),
            image_version_edges_upto(
                g,
                i,
                v,
                g.image_resources@[i].versions@[v].read_usages@.len() as int,
            ),
            e,
        );
    } else {
        lemma_edge_in_resource(g, i, v, vcap - 1, e);
        lemma_concat_contains_left(
            image_resource_edges_upto(g, i, vcap - 1),
            image_version_edges_upto(
                g,
                i,
                vcap - 1,
                g.image_resources@[i].versions@[vcap - 1].read_usages@.len() as int,
            ),
            e,
        );
    }
}

/// An edge of an image is among the dependency edges of the whole graph.
proof fn lemma_edge_in_graph(g: RenderGraphBuilder, i: int, icap: int, e: RenderGraphDependency)
    requires
        0 <= i < icap <= g.image_resources@.len(),
        image_resource_edges_upto(
            g,
            i,
            g.image_resources@[i].versions@.len() as int,
        ).contains(e),
    ensures
        image_edges_upto(g, icap).contains(e),
    decreases icap,
{
    if icap == i + 1 {
        lemma_concat_contains_right(
            image_edges_upto(g, i),
            image_resource_edges_upto(g, i, g.image_resources@[i].versions@.len() as int),
            e,
        );
    } else {
        lemma_edge_in_graph(g, i, icap - 1, e);
        lemma_concat_contains_left(
            image_edges_upto(g, icap - 1),
            image_resource_edges_upto(
                g,
                icap - 1,
                g.image_resources@[icap - 1].versions@.len() as int,
            ),
            e,
        );
    }
}

/// The dependency edge of every node-read usage of every image version is
/// in the graph's edge list.
proof fn lemma_read_edge_in_dependency_edges(g: RenderGraphBuilder, i: int, v: int, k: int)
    requires
        0 <= i < g.image_resources@.len(),
        0 <= v < g.image_resources@[i].versions@.len(),
        0 <= k < g.image_resources@[i].versions@[v].read_usages@.len(),
        g.image_usages@[g.image_resources@[i].versions@[v].read_usages@[k].0 as int].user
            is Node,
    ensures
        spec_dependency_edges(g).contains(
            RenderGraphDependency {
                before: g.image_resources@[i].versions@[v].creator_node,
                after: g.image_usages@[g.image_resources@[i].versions@[v].read_usages@[
                    k
                ].0 as int].user->Node_0,
            },
        ),
{
    let dep = RenderGraphDependency {
        before: g.image_resources@[i].versions@[v].creator_node,
        after: g.image_usages@[g.image_resources@[i].versions@[v].read_usages@[
            k
        ].0 as int].user->Node_0,
    };
    lemma_edge_in_version(
        g,
        i,
        v,
        k,
        g.image_resources@[i].versions@[v].read_usages@.len() as int,
    );
    lemma_edge_in_resource(g, i, v, g.image_resources@[i].versions@.len() as int, dep);
    lemma_edge_in_graph(g, i, g.image_resources@.len() as int, dep);
    lemma_concat_contains_left(
        image_edges_upto(g, g.image_resources@.len() as int),
        buffer_edges_upto(g, g.buffer_resources@.len() as int),
        dep,
    );
    lemma_concat_contains_left(
        image_edges_upto(g, g.image_resources@.len() as int) + buffer_edges_upto(
            g,
            g.buffer_resources@.len() as int,
        ),
        g.explicit_dependencies@,
        dep,
    );
}

/// A successfully resolved image has one specification per version.
proof fn lemma_resolve_image_dims(g: RenderGraphBuilder, i: int, v: int)
    requires
        v >= 0,
        spec_resolve_image_upto(g, i, v) is Ok,
    ensures
        spec_resolve_image_upto(g, i, v)->Ok_0.len() == v,
    decreases v,
{
    if v > 0 {
        lemma_resolve_image_dims(g, i, v - 1);
    }
}

/// A successfully resolved image table has one row per image and one
/// specification per version.
proof fn lemma_resolve_images_dims(g: RenderGraphBuilder, icap: int)
    requires
        icap >= 0,
        spec_resolve_images_upto(g, icap) is Ok,
    ensures
        spec_resolve_images_upto(g, icap)->Ok_0.len() == icap,
        forall|i: int|
            0 <= i < icap ==> (#[trigger] spec_resolve_images_upto(g, icap)->Ok_0[i]).len()
                == g.image_resources@[i].versions@.len(),
    decreases icap,
{
    if icap > 0 {
        lemma_resolve_images_dims(g, icap - 1);
        lemma_resolve_image_dims(g, icap - 1, g.image_resources@[icap - 1].versions@.len() as int);
        assert forall|i: int|
            0 <= i < icap implies (#[trigger] spec_resolve_images_upto(g, icap)->Ok_0[i]).len()
            == g.image_resources@[i].versions@.len() by {
            if i < icap - 1 {
                assert(spec_resolve_images_upto(g, icap)->Ok_0[i] == spec_resolve_images_upto(
                    g,
                    icap - 1,
                )->Ok_0[i]);
            }
        }
    }
}

/// Every lifetime of a well-formed graph begins no later than it ends,
/// and ends before the number of nodes.
proof fn lemma_lifetime_bounds(
    g: RenderGraphBuilder,
    i: int,
    v: int,
    k: int,
    positions: Seq<usize>,
)
    requires
        g.wf(),
        positions.len() == g.nodes@.len(),
        forall|m: int| 0 <= m < positions.len() ==> (#[trigger] positions[m]) < g.nodes@.len(),
        0 <= i < g.image_resources@.len(),
        0 <= v < g.image_resources@[i].versions@.len(),
        0 <= k <= g.image_resources@[i].versions@[v].read_usages@.len(),
    ensures
        spec_version_begin(g, i, v, positions) <= spec_version_end_upto(
            g,
            i,
            v,
            k,
            positions,
            g.nodes@.len() as int,
        ) < g.nodes@.len(),
    decreases k,
{
    let n = g.nodes@.len() as int;
    if k == 0 {
        assert(g.image_resources@[i].versions@[v].creator_node.0 < g.nodes@.len());
    } else {
        lemma_lifetime_bounds(g, i, v, k - 1, positions);
        let r = g.image_resources@[i].versions@[v].read_usages@[k - 1];
        assert(image_usage_in_range(
            g.image_usages@[r.0 as int],
            g.nodes@.len() as int,
            g.image_version_counts(),
        ));
        match g.image_usages@[r.0 as int].user {
            RenderGraphImageUser::Node(nb) => {
                assert(positions[nb.0 as int] < g.nodes@.len());
            },
            RenderGraphImageUser::Output(_) => {},
        }
    }
}

/// The position of every node in the execution order: the inverse of the
/// order, viewed as a permutation. Nodes outside the order (only possible
/// for a cyclic graph) are mapped to the order's length.
pub open spec fn spec_node_positions(order: Seq<usize>, n: nat) -> Seq<usize> {
    Seq::new(
        n,
        |m: int| match order.index_of_first(m as usize) {
            Some(p) => p as usize,
            None => order.len() as usize,
        },
    )
}

/// The view of a physical-id table, row by row, as raw indexes.
pub open spec fn phys_id_table_view(
    t: Vec<Vec<crate::graph_image::PhysicalImageId>>,
) -> Seq<Seq<usize>> {
    t@.map_values(
        |row: Vec<crate::graph_image::PhysicalImageId>| row@.map_values(
            |x: crate::graph_image::PhysicalImageId| x.0,
        ),
    )
}

/// The first error compilation runs into, tried in phase order: a cycle,
/// an image constraint conflict or an underconstrained image, the same
/// for buffers, then a same-node usage clash; `None` when the graph
/// compiles.
pub open spec fn spec_compile_error(g: RenderGraphBuilder) -> Option<RenderGraphError> {
    let edges = spec_dependency_edges(g);
    let n = g.nodes@.len() as int;
    let order = spec_topo_order(edges, n);
    if spec_self_read_error(g) is Some {
        spec_self_read_error(g)
    } else if order.len() < n {
        Some(RenderGraphError::CyclicGraphError)
    } else {
        match spec_image_specifications(g) {
            Err(e) => Some(e),
            Ok(ispecs) => match spec_buffer_specifications(g) {
                Err(e) => Some(e),
                Ok(_) => {
                    let positions = spec_node_positions(order, g.nodes@.len());
                    let lts = spec_image_lifetimes(g, positions, n);
                    let st = spec_alias_upto(g, lts, ispecs, n);
                    match spec_barriers_upto(g, st.1, order, n, st.0.len()) {
                        Err(e) => Some(e),
                        Ok(_) => None,
                    }
                },
            },
        }
    }
}

/// What a successful compilation returns: every field of the plan equals
/// the corresponding specification-level function of the builder's state.
/// Two plans that both match one builder are therefore equal, field view
/// by field view: compilation is deterministic.
pub open spec fn plan_matches(g: RenderGraphBuilder, plan: crate::graph_plan::RenderGraphPlan) -> bool {
    let edges = spec_dependency_edges(g);
    let n = g.nodes@.len() as int;
    let order = spec_topo_order(edges, n);
    let positions = spec_node_positions(order, g.nodes@.len());
    let lts = spec_image_lifetimes(g, positions, n);
    let st = spec_alias_upto(g, lts, spec_image_specifications(g)->Ok_0, n);
    &&& plan.node_execution_order@.map_values(|x: RenderGraphNodeId| x.0) == order
    &&& plan.node_positions@ == positions
    &&& image_spec_table_view(plan.image_specifications) == spec_image_specifications(g)->Ok_0
    &&& buffer_spec_table_view(plan.buffer_specifications) == spec_buffer_specifications(
        g,
    )->Ok_0
    &&& lifetime_table_view(plan.image_lifetimes) == lts
    &&& plan.physical_images@ == st.0
    &&& phys_id_table_view(plan.image_physical_ids) == st.1
    &&& plan.output_physical_image == (match g.output_image {
        Some(o) => Some(
            crate::graph_image::PhysicalImageId(
                st.1[o.version.index as int][o.version.version as int],
            ),
        ),
        None => None,
    })
    &&& plan.output_image == g.output_image
    &&& barrier_table_view(plan.image_barriers) == spec_barriers_upto(
        g,
        st.1,
        order,
        n,
        st.0.len(),
    )->Ok_0.1
}

impl RenderGraphBuilder {
    /// Compile the built graph into an executable plan: order the nodes
    /// topologically (insertion order breaking ties), resolve every
    /// resource version's specification, compute lifetimes, assign
    /// physical images so that versions with disjoint lifetimes may share
    /// an allocation, and derive per-node layout transitions. Any error
    /// aborts the whole compile: no partial plan is ever returned. The
    /// plan is a function of the built graph alone, so compiling the same
    /// graph twice yields the same plan.
    pub fn compile(&self) -> (r: Result<crate::graph_plan::RenderGraphPlan, RenderGraphError>)
        requires
            self.wf(),
        ensures
            r is Ok <==> spec_compile_error(*self) is None,
            r matches Err(e) ==> spec_compile_error(*self) == Some(e),
            r matches Ok(plan) ==> plan_matches(*self, plan),
            r matches Ok(plan) ==> plan_topologically_sound(*self, plan),
            r matches Ok(plan) ==> plan_aliasing_disjoint(plan),
            r matches Ok(plan) ==> plan_output_pinned(*self, plan),
    {
        let n = self.nodes.len();
        let ghost g = *self;
        let ghost spec_edges = spec_dependency_edges(g);
        let ghost spec_order = spec_topo_order(spec_edges, n as int);
        match self.check_self_reads() {
            Some(e) => {
                return Err(e);
            },
            None => {},
        }
        let edges = self.build_dependency_edges();
        proof {
            lemma_topo_iter_len(spec_edges, n as int, Seq::empty(), n as nat);
        }
        let (order, positions) = match topo_sort(n, &edges) {
            Ok(ok) => ok,
            Err(e) => {
                return Err(e);
            },
        };
        let ghost ord = order@.map_values(|x: RenderGraphNodeId| x.0);
        proof {
            assert(ord == spec_order);
            // The computed inverse is the specification-level inverse.
            assert(positions@ =~= spec_node_positions(spec_order, n as nat)) by {
                assert forall|m: int| 0 <= m < n implies positions@[m] == spec_node_positions(
                    spec_order,
                    n as nat,
                )[m] by {
                    ord.index_of_first_ensures(m as usize);
                    assert(ord[positions@[m] as int] == m as usize);
                    assert(ord.contains(m as usize));
                    match ord.index_of_first(m as usize) {
                        Some(p) => {
                            assert(ord[p] == m as usize);
                            assert(positions@[ord[p] as int] == p);
                        },
                        None => {},
                    }
                }
            }
        }
        let image_specs = match self.resolve_image_specifications() {
            Ok(t) => t,
            Err(e) => {
                return Err(e);
            },
        };
        let buffer_specs = match self.resolve_buffer_specifications() {
            Ok(t) => t,
            Err(e) => {
                return Err(e);
            },
        };
        let lifetimes = self.compute_image_lifetimes(&positions);
        proof {
            lemma_resolve_images_dims(g, g.image_resources@.len() as int);
            assert(lifetimes@.len() == g.image_resources@.len());
            assert(image_specs@.len() == g.image_resources@.len());
            assert forall|i: int|
                0 <= i < lifetimes@.len() implies (#[trigger] lifetimes@[i])@.len()
                == g.image_resources@[i].versions@.len() by {
                assert(lifetime_table_view(lifetimes)[i] == lifetimes@[i]@);
            }
            assert forall|i: int|
                0 <= i < image_specs@.len() implies (#[trigger] image_specs@[i])@.len()
                == g.image_resources@[i].versions@.len() by {
                assert(image_spec_table_view(image_specs)[i] == image_specs@[i]@);
            }
            assert forall|i: int, v: int|
                0 <= i < lifetimes@.len() && 0 <= v < lifetimes@[i]@.len() implies {
                &&& (#[trigger] lifetimes@[i]@[v]).begin <= lifetimes@[i]@[v].end
                &&& lifetimes@[i]@[v].end < n
            } by {
                assert(lifetime_table_view(lifetimes)[i] == lifetimes@[i]@);
                assert(lifetimes@[i]@[v] == spec_version_lifetime(
                    g,
                    i,
                    v,
                    positions@,
                    n as int,
                ));
                lemma_lifetime_bounds(
                    g,
                    i,
                    v,
                    g.image_resources@[i].versions@[v].read_usages@.len() as int,
                    positions@,
                );
            }
        }
        let (physical_images, assign) = self.assign_physical_images(&lifetimes, &image_specs);
        proof {
            assert(assign@.len() == g.image_resources@.len()) by {
                assert(assign_table_view(assign).len() == assign@.len());
            }
            assert forall|i: int|
                0 <= i < assign@.len() implies (#[trigger] assign@[i])@.len()
                == g.image_resources@[i].versions@.len() by {
                assert(assign_table_view(assign)[i] == assign@[i]@);
            }
        }
        let barriers = match self.derive_barriers(&order, &assign, physical_images.len()) {
            Ok(t) => t,
            Err(e) => {
                return Err(e);
            },
        };
        // Wrap the raw physical indexes as ids.
        let mut image_physical_ids: Vec<Vec<crate::graph_image::PhysicalImageId>> = Vec::new();
        let mut i: usize = 0;
        while i < assign.len()
            invariant
                i <= assign@.len(),
                image_physical_ids@.len() == i,
                forall|i2: int|
                    0 <= i2 < i ==> (#[trigger] phys_id_table_view(image_physical_ids)[i2])
                        == assign_table_view(assign)[i2],
            decreases assign@.len() - i,
        {
            let mut row: Vec<crate::graph_image::PhysicalImageId> = Vec::new();
            let mut v: usize = 0;
            while v < assign[i].len()
                invariant
                    i < assign@.len(),
                    v <= assign@[i as int]@.len(),
                    row@.len() == v,
                    forall|v2: int|
                        0 <= v2 < v ==> (#[trigger] row@[v2]).0 == assign@[i as int]@[v2],
                decreases assign@[i as int]@.len() - v,
            {
                row.push(crate::graph_image::PhysicalImageId(assign[i][v]));
                v = v + 1;
            }
            let ghost prev_view = phys_id_table_view(image_physical_ids);
            image_physical_ids.push(row);
            i = i + 1;
            proof {
                assert(phys_id_table_view(image_physical_ids) =~= prev_view.push(
                    row@.map_values(|x: crate::graph_image::PhysicalImageId| x.0),
                ));
                assert(row@.map_values(|x: crate::graph_image::PhysicalImageId| x.0)
                    =~= assign@[i - 1 as int]@);
                assert forall|i2: int|
                    0 <= i2 < i implies (#[trigger] phys_id_table_view(image_physical_ids)[i2])
                    == assign_table_view(assign)[i2] by {
                    if i2 == i - 1 {
                        assert(phys_id_table_view(image_physical_ids)[i2] == row@.map_values(
                            |x: crate::graph_image::PhysicalImageId| x.0,
                        ));
                    } else {
                        assert(phys_id_table_view(image_physical_ids)[i2] == prev_view[i2]);
                    }
                }
            }
        }
        proof {
            assert(phys_id_table_view(image_physical_ids) =~= assign_table_view(assign));
        }
        let output_physical_image = match &self.output_image {
            Some(o) => Some(
                crate::graph_image::PhysicalImageId(
                    assign[o.version.index][o.version.version],
                ),
            ),
            None => None,
        };
        let plan = crate::graph_plan::RenderGraphPlan {
            node_execution_order: order,
            node_positions: positions,
            image_specifications: image_specs,
            buffer_specifications: buffer_specs,
            image_lifetimes: lifetimes,
            image_physical_ids,
            physical_images,
            output_physical_image,
            output_image: self.output_image,
            image_barriers: barriers,
        };
        proof {
            assert(plan_matches(g, plan));
            // Topological soundness: the edge of every node-read usage is
            // in the edge list, and the order respects every edge.
            assert forall|i2: int, v2: int, k2: int|
                0 <= i2 < g.image_resources@.len() && 0 <= v2
                    < g.image_resources@[i2].versions@.len() && 0 <= k2
                    < g.image_resources@[i2].versions@[v2].read_usages@.len()
                    && g.image_usages@[(#[trigger] g.image_resources@[i2].versions@[
                    v2
                ].read_usages@[k2]).0 as int].user is Node implies plan.node_positions@[g.image_resources@[i2].versions@[v2].creator_node.0 as int]
                < plan.node_positions@[g.image_usages@[g.image_resources@[i2].versions@[
                v2
            ].read_usages@[k2].0 as int].user->Node_0.0 as int] by {
                lemma_read_edge_in_dependency_edges(g, i2, v2, k2);
                let dep = RenderGraphDependency {
                    before: g.image_resources@[i2].versions@[v2].creator_node,
                    after: g.image_usages@[g.image_resources@[i2].versions@[v2].read_usages@[
                        k2
                    ].0 as int].user->Node_0,
                };
                let w = choose|w: int|
                    0 <= w < edges@.len() && edges@[w] == dep;
                assert(edges@[w] == dep);
            }
            assert(plan_topologically_sound(g, plan));
            // No-overlap aliasing and the pinned output, carried over from
            // the allocator.
            assert(plan_aliasing_disjoint(plan));
            assert(plan_output_pinned(g, plan));
        }
        Ok(plan)
    }
}

/// Determinism of compilation: every field of the plan is pinned, by
/// `compile`'s contract, to a specification-level function of the
/// builder's state alone, so two plans compiled from the same built graph
/// are identical — same node order, same positions, same resolved
/// specifications, same lifetimes, same physical assignment and same
/// barrier lists.
pub proof fn lemma_compile_deterministic(
    g: RenderGraphBuilder,
    p1: crate::graph_plan::RenderGraphPlan,
    p2: crate::graph_plan::RenderGraphPlan,
)
    requires
        plan_matches(g, p1),
        plan_matches(g, p2),
    ensures
        p1.node_execution_order@ == p2.node_execution_order@,
        p1.node_positions@ == p2.node_positions@,
        image_spec_table_view(p1.image_specifications) == image_spec_table_view(
            p2.image_specifications,
        ),
        buffer_spec_table_view(p1.buffer_specifications) == buffer_spec_table_view(
            p2.buffer_specifications,
        ),
        lifetime_table_view(p1.image_lifetimes) == lifetime_table_view(p2.image_lifetimes),
        p1.physical_images@ == p2.physical_images@,
        phys_id_table_view(p1.image_physical_ids) == phys_id_table_view(p2.image_physical_ids),
        p1.output_physical_image == p2.output_physical_image,
        p1.output_image == p2.output_image,
        barrier_table_view(p1.image_barriers) == barrier_table_view(p2.image_barriers),
{
    let o1 = p1.node_execution_order@.map_values(|x: RenderGraphNodeId| x.0);
    let o2 = p2.node_execution_order@.map_values(|x: RenderGraphNodeId| x.0);
    assert(o1 == o2);
    assert(p1.node_execution_order@ =~= p2.node_execution_order@) by {
        assert forall|k: int|
            0 <= k < p1.node_execution_order@.len() implies p1.node_execution_order@[k]
            == p2.node_execution_order@[k] by {
            assert(o1[k] == o2[k]);
        }
    }
}

/// Topological soundness: for every read usage performed by a node, the
/// reading node's position in the compiled order is strictly greater than
/// the position of the node that created the version being read.
pub open spec fn plan_topologically_sound(
    g: RenderGraphBuilder,
    plan: crate::graph_plan::RenderGraphPlan,
) -> bool {
    forall|i: int, v: int, k: int|
        0 <= i < g.image_resources@.len() && 0 <= v < g.image_resources@[i].versions@.len() && 0
            <= k < g.image_resources@[i].versions@[v].read_usages@.len()
            && g.image_usages@[(#[trigger] g.image_resources@[i].versions@[v].read_usages@[k]).0 as int].user is Node
            ==> plan.node_positions@[g.image_resources@[i].versions@[v].creator_node.0 as int]
            < plan.node_positions@[g.image_usages@[g.image_resources@[i].versions@[v].read_usages@[k].0 as int].user->Node_0.0 as int]
}

/// The no-overlap aliasing invariant: any two distinct versions assigned
/// the same physical image have disjoint lifetimes.
pub open spec fn plan_aliasing_disjoint(plan: crate::graph_plan::RenderGraphPlan) -> bool {
    let ids = phys_id_table_view(plan.image_physical_ids);
    let lts = lifetime_table_view(plan.image_lifetimes);
    forall|i1: int, v1: int, i2: int, v2: int|
        0 <= i1 < ids.len() && 0 <= v1 < ids[i1].len() && 0 <= i2 < ids.len() && 0 <= v2
            < ids[i2].len() && !(i1 == i2 && v1 == v2) && (#[trigger] ids[i1][v1]) == (
        #[trigger] ids[i2][v2]) ==> lifetimes_disjoint(lts[i1][v1], lts[i2][v2])
}

/// The output image stays pinned: when an output is bound, its version's
/// physical image is the designated output allocation, and no other
/// version ever aliases it.
pub open spec fn plan_output_pinned(
    g: RenderGraphBuilder,
    plan: crate::graph_plan::RenderGraphPlan,
) -> bool {
    let ids = phys_id_table_view(plan.image_physical_ids);
    match g.output_image {
        Some(o) => {
            let oid = ids[o.version.index as int][o.version.version as int];
            &&& plan.output_physical_image == Some(crate::graph_image::PhysicalImageId(oid))
            &&& oid < plan.physical_images@.len()
            &&& plan.physical_images@[oid as int].is_output
            &&& forall|i: int, v: int|
                0 <= i < ids.len() && 0 <= v < ids[i].len() && !(i == o.version.index && v
                    == o.version.version) ==> (#[trigger] ids[i][v]) != oid
        },
        None => plan.output_physical_image is None,
    }
}

} // verus!
