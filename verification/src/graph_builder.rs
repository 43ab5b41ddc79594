//! The render graph builder: the declarative surface used to register nodes,
//! resource usages, attachment bindings and the designated output image.
//!
//! The builder owns dense stores of nodes, resources and usages; every
//! cross-reference is a small integer id. All registration calls validate
//! the ids they are handed and report stale ones as errors, so a fully
//! registered graph is well formed (`wf`) and the compiler may index it
//! freely.

use vstd::prelude::*;
use crate::graph_buffer::RenderGraphBufferConstraint;
use crate::graph_buffer::RenderGraphBufferResource;
use crate::graph_buffer::RenderGraphBufferResourceVersionInfo;
use crate::graph_buffer::RenderGraphBufferUsage;
use crate::graph_buffer::RenderGraphBufferUsageId;
use crate::graph_buffer::RenderGraphBufferUsageType;
use crate::graph_buffer::RenderGraphBufferVersionId;
use crate::graph_buffer::BUFFER_USAGE_STORAGE;
use crate::graph_image::ImageLayout;
use crate::graph_image::ImageSubresourceRange;
use crate::graph_image::RenderGraphImageConstraint;
use crate::graph_image::RenderGraphImageResource;
use crate::graph_image::RenderGraphImageResourceVersionInfo;
use crate::graph_image::RenderGraphImageSpecification;
use crate::graph_image::RenderGraphImageUsage;
use crate::graph_image::RenderGraphImageUsageId;
use crate::graph_image::RenderGraphImageUsageType;
use crate::graph_image::RenderGraphImageUser;
use crate::graph_image::RenderGraphImageVersionId;
use crate::graph_image::RenderGraphNodeId;
use crate::graph_image::RenderGraphResourceName;
use crate::graph_image::RenderGraphOutputImageId;
use crate::graph_image::VirtualImageId;
use crate::graph_image::ASPECT_COLOR;
use crate::graph_image::ASPECT_DEPTH;
use crate::graph_image::LAYOUT_COLOR_ATTACHMENT;
use crate::graph_image::LAYOUT_DEPTH_STENCIL_ATTACHMENT;
use crate::graph_image::LAYOUT_DEPTH_STENCIL_READ_ONLY;
use crate::graph_image::LAYOUT_SHADER_READ_ONLY;
use crate::graph_image::USAGE_COLOR_ATTACHMENT;
use crate::graph_image::USAGE_DEPTH_STENCIL_ATTACHMENT;
use crate::graph_image::USAGE_SAMPLED;
use crate::graph_node::RenderGraphDependency;
use crate::graph_node::RenderGraphNode;
use crate::graph_node::RenderGraphNodeName;
use crate::graph_node::RenderGraphQueue;

verus! {

/// Which kind of resource an error concerns.
#[derive(Debug, Clone, Copy, PartialEq, Eq, Structural)]
pub enum RenderGraphResourceKind {
    Image,
    Buffer,
}

/// Everything that can go wrong while building or compiling a graph. Every
/// error aborts the whole compile: no partial plan is ever produced.
#[derive(Debug, Clone, Copy, PartialEq, Eq, Structural)]
pub enum RenderGraphError {
    /// A caller referenced a stale or foreign resource/usage id.
    UnknownResource { kind: RenderGraphResourceKind, id: usize },
    /// A caller referenced a stale or foreign node id.
    UnknownNode { id: usize },
    /// A node received two renderpass callbacks.
    DuplicateCallbackError { node: RenderGraphNodeId },
    /// The topological sort could not complete: the graph has a cycle.
    CyclicGraphError,
    /// Two usages of one resource version impose incompatible scalar
    /// constraints.
    ConstraintConflictError {
        kind: RenderGraphResourceKind,
        resource: usize,
        usage_a: usize,
        usage_b: usize,
    },
    /// A mandatory field (an image's format, a buffer's size) never
    /// resolved; the graph does not guess defaults.
    UnderconstrainedResourceError { kind: RenderGraphResourceKind, resource: usize },
    /// One node uses the same physical resource in two mutually exclusive
    /// roles at once.
    ConflictingSameNodeUsageError { node: RenderGraphNodeId, usage_a: usize, usage_b: usize },
    /// An attempt to bind (and thereby alias) the pinned output image a
    /// second time.
    ExternalAliasingError,
}

/// A color clear value. The four channel words are opaque bit patterns
/// carried through to the backend; the graph never interprets them.
#[derive(Debug, Clone, Copy, PartialEq, Eq, Structural)]
pub struct ColorClearValue {
    pub red: u32,
    pub green: u32,
    pub blue: u32,
    pub alpha: u32,
}

/// A depth/stencil clear value. The depth word is an opaque bit pattern
/// carried through to the backend.
#[derive(Debug, Clone, Copy, PartialEq, Eq, Structural)]
pub struct DepthStencilClearValue {
    pub depth: u32,
    pub stencil: u32,
}

/// What kind of attachment a binding is.
#[derive(Debug, Clone, Copy, PartialEq, Eq, Structural)]
pub enum RenderGraphAttachmentKind {
    Color,
    Depth,
}

/// An attachment binding: executor metadata recording which usage is bound
/// to which attachment slot of its node, and how it is cleared.
#[derive(Debug, Clone, Copy, PartialEq, Eq, Structural)]
pub struct RenderGraphAttachment {
    /// The node the attachment belongs to.
    pub node: RenderGraphNodeId,
    /// The usage bound to the slot.
    pub usage: RenderGraphImageUsageId,
    /// Color attachment slot index; 0 for the depth attachment.
    pub index: usize,
    /// Color or depth.
    pub kind: RenderGraphAttachmentKind,
    /// Clear color, for color attachments that are cleared on load.
    pub clear_color: Option<ColorClearValue>,
    /// Clear value, for depth attachments that are cleared on load.
    pub clear_depth_stencil: Option<DepthStencilClearValue>,
}

/// The designated output image: an externally owned image (for example a
/// swapchain image) registered as the terminal consumer of one usage. Its
/// externally fixed specification pins the final version's resolved fields,
/// and its physical allocation is the external image itself, never an
/// aliasable internal one.
#[derive(Debug, Clone, Copy, PartialEq, Eq, Structural)]
pub struct RenderGraphOutputImage {
    /// Id handed back to the caller.
    pub output_image_id: RenderGraphOutputImageId,
    /// The terminal read usage this binding added to the final version.
    pub usage: RenderGraphImageUsageId,
    /// The usage whose version the output consumes.
    pub source_usage: RenderGraphImageUsageId,
    /// The image version the output consumes.
    pub version: RenderGraphImageVersionId,
    /// The externally fixed specification of the external image.
    pub specification: RenderGraphImageSpecification,
    /// Opaque handle of the externally supplied image.
    pub external_image: u32,
    /// Clear color applied when the output is written, if any.
    pub clear_color: Option<ColorClearValue>,
    /// The layout the external image must be left in after the graph ran.
    pub final_layout: ImageLayout,
}

/// The render graph builder. See the module documentation.
#[derive(Debug, Clone)]
pub struct RenderGraphBuilder {
    /// All nodes, in insertion order; a node's id is its index here.
    pub nodes: Vec<RenderGraphNode>,
    /// All virtual images; an image's index is its id.
    pub image_resources: Vec<RenderGraphImageResource>,
    /// All image usages; a usage's id is its index here.
    pub image_usages: Vec<RenderGraphImageUsage>,
    /// All virtual buffers.
    pub buffer_resources: Vec<RenderGraphBufferResource>,
    /// All buffer usages.
    pub buffer_usages: Vec<RenderGraphBufferUsage>,
    /// Attachment bindings, for the executor.
    pub attachments: Vec<RenderGraphAttachment>,
    /// Nodes registered as submitting work into a render phase, as
    /// (phase index, node) pairs in registration order.
    pub phase_submissions: Vec<(u32, RenderGraphNodeId)>,
    /// Cross-cutting dependencies not expressible through resource usages:
    /// explicit before/after pairs of nodes.
    pub explicit_dependencies: Vec<RenderGraphDependency>,
    /// The output image binding, once one was registered.
    pub output_image: Option<RenderGraphOutputImage>,
}

/// Whether one image usage's references stay inside stores of the given
/// sizes: the graph of `n_nodes` nodes and the image version table
/// `image_versions` (version counts per image).
pub open spec fn image_usage_in_range(
    u: RenderGraphImageUsage,
    n_nodes: int,
    image_versions: Seq<int>,
) -> bool {
    &&& u.version.index < image_versions.len()
    &&& u.version.version < image_versions[u.version.index as int]
    &&& (u.user matches RenderGraphImageUser::Node(n) ==> n.0 < n_nodes)
}

/// Whether one buffer usage's references stay inside stores of the given
/// sizes.
pub open spec fn buffer_usage_in_range(
    u: RenderGraphBufferUsage,
    n_nodes: int,
    buffer_versions: Seq<int>,
) -> bool {
    &&& u.version.index < buffer_versions.len()
    &&& u.version.version < buffer_versions[u.version.index as int]
    &&& u.user.0 < n_nodes
}

impl RenderGraphBuilder {
    /// The number of versions of each image, by image index.
    pub open spec fn image_version_counts(self) -> Seq<int> {
        self.image_resources@.map_values(|r: RenderGraphImageResource| r.versions@.len() as int)
    }

    /// The number of versions of each buffer, by buffer index.
    pub open spec fn buffer_version_counts(self) -> Seq<int> {
        self.buffer_resources@.map_values(|r: RenderGraphBufferResource| r.versions@.len() as int)
    }

    /// Well-formedness of the whole builder: every stored id is in range
    /// and version bookkeeping is coherent. Established by `new`, preserved
    /// by every registration call, and required by `compile`.
    pub open spec fn wf(self) -> bool {
        &&& forall|u: int|
            0 <= u < self.image_usages@.len() ==> image_usage_in_range(
                #[trigger] self.image_usages@[u],
                self.nodes@.len() as int,
                self.image_version_counts(),
            )
        &&& forall|u: int|
            0 <= u < self.buffer_usages@.len() ==> buffer_usage_in_range(
                #[trigger] self.buffer_usages@[u],
                self.nodes@.len() as int,
                self.buffer_version_counts(),
            )
        &&& forall|i: int, v: int|
            0 <= i < self.image_resources@.len() && 0 <= v
                < self.image_resources@[i].versions@.len() ==> {
                let info = #[trigger] self.image_resources@[i].versions@[v];
                &&& info.creator_node.0 < self.nodes@.len()
                &&& info.create_usage.0 < self.image_usages@.len()
                &&& self.image_usages@[info.create_usage.0 as int].version
                    == (RenderGraphImageVersionId { index: i as usize, version: v as usize })
                &&& self.image_usages@[info.create_usage.0 as int].user
                    == RenderGraphImageUser::Node(info.creator_node)
            }
        &&& forall|i: int, v: int, k: int|
            0 <= i < self.image_resources@.len() && 0 <= v
                < self.image_resources@[i].versions@.len() && 0 <= k
                < self.image_resources@[i].versions@[v].read_usages@.len() ==> {
                let r = #[trigger] self.image_resources@[i].versions@[v].read_usages@[k];
                &&& r.0 < self.image_usages@.len()
                &&& self.image_usages@[r.0 as int].version == (RenderGraphImageVersionId {
                    index: i as usize,
                    version: v as usize,
                })
            }
        &&& forall|i: int, v: int|
            0 <= i < self.buffer_resources@.len() && 0 <= v
                < self.buffer_resources@[i].versions@.len() ==> {
                let info = #[trigger] self.buffer_resources@[i].versions@[v];
                &&& info.creator_node.0 < self.nodes@.len()
                &&& info.create_usage.0 < self.buffer_usages@.len()
                &&& self.buffer_usages@[info.create_usage.0 as int].version
                    == (RenderGraphBufferVersionId { index: i as usize, version: v as usize })
                &&& self.buffer_usages@[info.create_usage.0 as int].user == info.creator_node
            }
        &&& forall|i: int, v: int, k: int|
            0 <= i < self.buffer_resources@.len() && 0 <= v
                < self.buffer_resources@[i].versions@.len() && 0 <= k
                < self.buffer_resources@[i].versions@[v].read_usages@.len() ==> {
                let r = #[trigger] self.buffer_resources@[i].versions@[v].read_usages@[k];
                &&& r.0 < self.buffer_usages@.len()
                &&& self.buffer_usages@[r.0 as int].version == (RenderGraphBufferVersionId {
                    index: i as usize,
                    version: v as usize,
                })
            }
        &&& forall|n: int, k: int|
            0 <= n < self.nodes@.len() && 0 <= k < self.nodes@[n].image_usages@.len()
                ==> (#[trigger] self.nodes@[n].image_usages@[k]).0 < self.image_usages@.len()
        &&& forall|n: int, k: int|
            0 <= n < self.nodes@.len() && 0 <= k < self.nodes@[n].buffer_usages@.len()
                ==> (#[trigger] self.nodes@[n].buffer_usages@[k]).0 < self.buffer_usages@.len()
        &&& forall|d: int|
            0 <= d < self.explicit_dependencies@.len() ==> {
                &&& (#[trigger] self.explicit_dependencies@[d]).before.0 < self.nodes@.len()
                &&& self.explicit_dependencies@[d].after.0 < self.nodes@.len()
            }
        &&& forall|p: int|
            0 <= p < self.phase_submissions@.len() ==> (#[trigger] self.phase_submissions@[p]).1.0
                < self.nodes@.len()
        &&& (self.output_image matches Some(o) ==> {
            &&& o.usage.0 < self.image_usages@.len()
            &&& o.source_usage.0 < self.image_usages@.len()
            &&& o.version.index < self.image_resources@.len()
            &&& o.version.version
                < self.image_resources@[o.version.index as int].versions@.len()
        })
    }

    /// An empty graph: no nodes, no resources, no output binding.
    pub fn new() -> (r: Self)
        ensures
            r.nodes@ == Seq::<RenderGraphNode>::empty(),
            r.image_resources@ == Seq::<RenderGraphImageResource>::empty(),
            r.image_usages@ == Seq::<RenderGraphImageUsage>::empty(),
            r.buffer_resources@ == Seq::<RenderGraphBufferResource>::empty(),
            r.buffer_usages@ == Seq::<RenderGraphBufferUsage>::empty(),
            r.attachments@ == Seq::<RenderGraphAttachment>::empty(),
            r.phase_submissions@ == Seq::<(u32, RenderGraphNodeId)>::empty(),
            r.explicit_dependencies@ == Seq::<RenderGraphDependency>::empty(),
            r.output_image is None,
            r.wf(),
    {
        RenderGraphBuilder {
            nodes: Vec::new(),
            image_resources: Vec::new(),
            image_usages: Vec::new(),
            buffer_resources: Vec::new(),
            buffer_usages: Vec::new(),
            attachments: Vec::new(),
            phase_submissions: Vec::new(),
            explicit_dependencies: Vec::new(),
            output_image: None,
        }
    }

    /// Register a new node. Nodes execute in an order that respects their
    /// data dependencies; among unrelated nodes, registration order is
    /// preserved.
    pub fn add_node(&mut self, name: RenderGraphNodeName, queue: RenderGraphQueue) -> (r:
        RenderGraphNodeId)
        requires
            old(self).wf(),
        ensures
            final(self).wf(),
            r.0 == old(self).nodes@.len(),
            final(self).nodes@.len() == old(self).nodes@.len() + 1,
            final(self).nodes@.last().name == name,
            final(self).nodes@.last().queue == queue,
            final(self).nodes@.last().image_usages@
                == Seq::<RenderGraphImageUsageId>::empty(),
            final(self).nodes@.last().buffer_usages@
                == Seq::<RenderGraphBufferUsageId>::empty(),
            !final(self).nodes@.last().has_callback,
            final(self).nodes@.subrange(0, old(self).nodes@.len() as int) == old(self).nodes@,
            final(self).image_resources@ == old(self).image_resources@,
            final(self).image_usages@ == old(self).image_usages@,
            final(self).buffer_resources@ == old(self).buffer_resources@,
            final(self).buffer_usages@ == old(self).buffer_usages@,
            final(self).attachments@ == old(self).attachments@,
            final(self).phase_submissions@ == old(self).phase_submissions@,
            final(self).explicit_dependencies@ == old(self).explicit_dependencies@,
            final(self).output_image == old(self).output_image,
    {
        let id = RenderGraphNodeId(self.nodes.len());
        self.nodes.push(RenderGraphNode::new(name, queue));
        proof {
            assert(final(self).nodes@.subrange(0, old(self).nodes@.len() as int) =~= old(
                self,
            ).nodes@);
        }
        id
    }

    /// Record that a node has received its renderpass callback. The closure
    /// itself lives with the executor outside this crate; the builder
    /// enforces that each node receives exactly one, and reports a second
    /// registration as `DuplicateCallbackError` instead of silently
    /// overwriting the first.
    pub fn set_renderpass_callback(&mut self, node: RenderGraphNodeId) -> (r: Result<
        (),
        RenderGraphError,
    >)
        requires
            old(self).wf(),
        ensures
            final(self).wf(),
            node.0 >= old(self).nodes@.len() ==> r == Err::<(), RenderGraphError>(
                RenderGraphError::UnknownNode { id: node.0 },
            ) && *final(self) == *old(self),
            node.0 < old(self).nodes@.len() && old(self).nodes@[node.0 as int].has_callback ==> r
                == Err::<(), RenderGraphError>(
                RenderGraphError::DuplicateCallbackError { node },
            ) && *final(self) == *old(self),
            node.0 < old(self).nodes@.len() && !old(self).nodes@[node.0 as int].has_callback
                ==> {
                &&& r is Ok
                &&& final(self).nodes@[node.0 as int].has_callback
                &&& final(self).nodes@[node.0 as int].name == old(self).nodes@[node.0 as int].name
                &&& final(self).nodes@[node.0 as int].queue == old(
                    self,
                ).nodes@[node.0 as int].queue
                &&& final(self).nodes@[node.0 as int].image_usages@ == old(
                    self,
                ).nodes@[node.0 as int].image_usages@
                &&& final(self).nodes@[node.0 as int].buffer_usages@ == old(
                    self,
                ).nodes@[node.0 as int].buffer_usages@
                &&& forall|m: int|
                    0 <= m < old(self).nodes@.len() && m != node.0
                        ==> final(self).nodes@[m] == old(self).nodes@[m]
                &&& final(self).nodes@.len() == old(self).nodes@.len()
                &&& final(self).image_resources@ == old(self).image_resources@
                &&& final(self).image_usages@ == old(self).image_usages@
                &&& final(self).buffer_resources@ == old(self).buffer_resources@
                &&& final(self).buffer_usages@ == old(self).buffer_usages@
                &&& final(self).attachments@ == old(self).attachments@
                &&& final(self).phase_submissions@ == old(self).phase_submissions@
                &&& final(self).explicit_dependencies@ == old(self).explicit_dependencies@
                &&& final(self).output_image == old(self).output_image
            },
    {
        if node.0 >= self.nodes.len() {
            return Err(RenderGraphError::UnknownNode { id: node.0 });
        }
        if self.nodes[node.0].has_callback {
            return Err(RenderGraphError::DuplicateCallbackError { node });
        }
        self.nodes[node.0].has_callback = true;
        Ok(())
    }

    /// Record that a node submits work into a render phase, so that later
    /// `add_render_phase_dependency` calls order dependents after it.
    pub fn add_phase_submission(&mut self, node: RenderGraphNodeId, phase: u32) -> (r: Result<
        (),
        RenderGraphError,
    >)
        requires
            old(self).wf(),
        ensures
            final(self).wf(),
            node.0 >= old(self).nodes@.len() ==> r == Err::<(), RenderGraphError>(
                RenderGraphError::UnknownNode { id: node.0 },
            ) && *final(self) == *old(self),
            node.0 < old(self).nodes@.len() ==> {
                &&& r is Ok
                &&& final(self).phase_submissions@ == old(self).phase_submissions@.push(
                    (phase, node),
                )
                &&& final(self).nodes@ == old(self).nodes@
                &&& final(self).image_resources@ == old(self).image_resources@
                &&& final(self).image_usages@ == old(self).image_usages@
                &&& final(self).buffer_resources@ == old(self).buffer_resources@
                &&& final(self).buffer_usages@ == old(self).buffer_usages@
                &&& final(self).attachments@ == old(self).attachments@
                &&& final(self).explicit_dependencies@ == old(self).explicit_dependencies@
                &&& final(self).output_image == old(self).output_image
            },
    {
        if node.0 >= self.nodes.len() {
            return Err(RenderGraphError::UnknownNode { id: node.0 });
        }
        self.phase_submissions.push((phase, node));
        Ok(())
    }

    /// Record that a node must execute after every node registered — up to
    /// this point — as submitting into the given phase. This is a
    /// cross-cutting dependency not expressible through resource usages.
    pub fn add_render_phase_dependency(&mut self, node: RenderGraphNodeId, phase: u32) -> (r:
        Result<(), RenderGraphError>)
        requires
            old(self).wf(),
        ensures
            final(self).wf(),
            node.0 >= old(self).nodes@.len() ==> r == Err::<(), RenderGraphError>(
                RenderGraphError::UnknownNode { id: node.0 },
            ) && *final(self) == *old(self),
            node.0 < old(self).nodes@.len() ==> {
                &&& r is Ok
                &&& final(self).explicit_dependencies@ == old(self).explicit_dependencies@
                    + old(self).phase_submissions@.filter(
                    |s: (u32, RenderGraphNodeId)| s.0 == phase,
                ).map_values(
                    |s: (u32, RenderGraphNodeId)|
                        RenderGraphDependency { before: s.1, after: node },
                )
                &&& final(self).nodes@ == old(self).nodes@
                &&& final(self).image_resources@ == old(self).image_resources@
                &&& final(self).image_usages@ == old(self).image_usages@
                &&& final(self).buffer_resources@ == old(self).buffer_resources@
                &&& final(self).buffer_usages@ == old(self).buffer_usages@
                &&& final(self).attachments@ == old(self).attachments@
                &&& final(self).phase_submissions@ == old(self).phase_submissions@
                &&& final(self).output_image == old(self).output_image
            },
    {
        if node.0 >= self.nodes.len() {
            return Err(RenderGraphError::UnknownNode { id: node.0 });
        }
        let ghost submissions = self.phase_submissions@;
        let mut k: usize = 0;
        while k < self.phase_submissions.len()
            invariant
                old(self).wf(),
                k <= submissions.len(),
                node.0 < self.nodes@.len(),
                submissions == old(self).phase_submissions@,
                self.phase_submissions@ == submissions,
                self.nodes@ == old(self).nodes@,
                self.image_resources@ == old(self).image_resources@,
                self.image_usages@ == old(self).image_usages@,
                self.buffer_resources@ == old(self).buffer_resources@,
                self.buffer_usages@ == old(self).buffer_usages@,
                self.attachments@ == old(self).attachments@,
                self.output_image == old(self).output_image,
                forall|d: int|
                    0 <= d < self.explicit_dependencies@.len() ==> {
                        &&& (#[trigger] self.explicit_dependencies@[d]).before.0
                            < self.nodes@.len()
                        &&& self.explicit_dependencies@[d].after.0 < self.nodes@.len()
                    },
                self.explicit_dependencies@ == old(self).explicit_dependencies@
                    + submissions.take(k as int).filter(
                    |s: (u32, RenderGraphNodeId)| s.0 == phase,
                ).map_values(
                    |s: (u32, RenderGraphNodeId)|
                        RenderGraphDependency { before: s.1, after: node },
                ),
            decreases submissions.len() - k,
        {
            let (submit_phase, submitter) = self.phase_submissions[k];
            proof {
                assert(submissions.take(k + 1 as int).drop_last() =~= submissions.take(k as int));
                reveal_with_fuel(Seq::filter, 2);
            }
            if submit_phase == phase {
                proof {
                    assert(old(self).phase_submissions@[k as int].1.0 < old(
                        self,
                    ).nodes@.len());
                    assert(submitter.0 < self.nodes@.len());
                }
                self.explicit_dependencies.push(
                    RenderGraphDependency { before: submitter, after: node },
                );
            }
            k = k + 1;
            proof {
                let f = |s: (u32, RenderGraphNodeId)| s.0 == phase;
                let m = |s: (u32, RenderGraphNodeId)|
                    RenderGraphDependency { before: s.1, after: node };
                let prefix = submissions.take(k - 1 as int);
                let here = submissions[k - 1 as int];
                let cur = submissions.take(k as int);
                assert(cur =~= prefix.push(here));
                assert(cur.drop_last() =~= prefix);
                reveal(Seq::filter);
                if f(here) {
                    assert(cur.filter(f) == prefix.filter(f).push(here));
                    assert(cur.filter(f).map_values(m) =~= prefix.filter(f).map_values(m).push(
                        m(here),
                    ));
                } else {
                    assert(cur.filter(f) == prefix.filter(f));
                }
            }
        }
        proof {
            assert(submissions.take(submissions.len() as int) =~= submissions);
        }
        Ok(())
    }

    /// What a successful image-create registration does to the builder:
    /// one new usage of type `Create`, one new resource whose version 0 it
    /// produces, the usage appended to the creating node's list, and
    /// everything else (except possibly the attachment list) untouched.
    pub open spec fn image_create_applied(
        self,
        new: RenderGraphBuilder,
        node: RenderGraphNodeId,
        constraint: RenderGraphImageConstraint,
        preferred_layout: ImageLayout,
    ) -> bool {
        let usage_id = RenderGraphImageUsageId(self.image_usages@.len() as usize);
        &&& new.image_usages@ == self.image_usages@.push(
            RenderGraphImageUsage {
                user: RenderGraphImageUser::Node(node),
                usage_type: RenderGraphImageUsageType::Create,
                version: RenderGraphImageVersionId {
                    index: self.image_resources@.len() as usize,
                    version: 0,
                },
                constraint,
                preferred_layout,
                subresource_range: None,
            },
        )
        &&& new.image_resources@.len() == self.image_resources@.len() + 1
        &&& new.image_resources@.subrange(0, self.image_resources@.len() as int)
            == self.image_resources@
        &&& new.image_resources@.last().name is None
        &&& new.image_resources@.last().versions@.len() == 1
        &&& new.image_resources@.last().versions@[0].creator_node == node
        &&& new.image_resources@.last().versions@[0].create_usage == usage_id
        &&& new.image_resources@.last().versions@[0].read_usages@
            == Seq::<RenderGraphImageUsageId>::empty()
        &&& self.node_usage_appended(new, node, usage_id)
        &&& new.buffer_resources@ == self.buffer_resources@
        &&& new.buffer_usages@ == self.buffer_usages@
        &&& new.phase_submissions@ == self.phase_submissions@
        &&& new.explicit_dependencies@ == self.explicit_dependencies@
        &&& new.output_image == self.output_image
    }

    /// What a successful image-read registration does to the builder: one
    /// new usage attached to the version the given source usage belongs to,
    /// appended both to that version's read list and to the reading node's
    /// list; everything else (except possibly the attachment list) is
    /// untouched.
    pub open spec fn image_read_applied(
        self,
        new: RenderGraphBuilder,
        node: RenderGraphNodeId,
        image: RenderGraphImageUsageId,
        constraint: RenderGraphImageConstraint,
        preferred_layout: ImageLayout,
        usage_type: RenderGraphImageUsageType,
        subresource_range: Option<ImageSubresourceRange>,
    ) -> bool {
        let usage_id = RenderGraphImageUsageId(self.image_usages@.len() as usize);
        let version = self.image_usages@[image.0 as int].version;
        let i = version.index as int;
        let v = version.version as int;
        &&& new.image_usages@ == self.image_usages@.push(
            RenderGraphImageUsage {
                user: RenderGraphImageUser::Node(node),
                usage_type,
                version,
                constraint,
                preferred_layout,
                subresource_range,
            },
        )
        &&& new.image_resources@.len() == self.image_resources@.len()
        &&& forall|j: int|
            0 <= j < self.image_resources@.len() && j != i ==> new.image_resources@[j]
                == self.image_resources@[j]
        &&& new.image_resources@[i].name == self.image_resources@[i].name
        &&& new.image_resources@[i].versions@.len() == self.image_resources@[i].versions@.len()
        &&& forall|w: int|
            0 <= w < self.image_resources@[i].versions@.len() && w != v
                ==> new.image_resources@[i].versions@[w] == self.image_resources@[i].versions@[w]
        &&& new.image_resources@[i].versions@[v].creator_node
            == self.image_resources@[i].versions@[v].creator_node
        &&& new.image_resources@[i].versions@[v].create_usage
            == self.image_resources@[i].versions@[v].create_usage
        &&& new.image_resources@[i].versions@[v].read_usages@
            == self.image_resources@[i].versions@[v].read_usages@.push(usage_id)
        &&& self.node_usage_appended(new, node, usage_id)
        &&& new.buffer_resources@ == self.buffer_resources@
        &&& new.buffer_usages@ == self.buffer_usages@
        &&& new.phase_submissions@ == self.phase_submissions@
        &&& new.explicit_dependencies@ == self.explicit_dependencies@
        &&& new.output_image == self.output_image
    }

    /// The node table after one image usage id was appended to one node's
    /// list, all other nodes and fields untouched.
    pub open spec fn node_usage_appended(
        self,
        new: RenderGraphBuilder,
        node: RenderGraphNodeId,
        usage_id: RenderGraphImageUsageId,
    ) -> bool {
        let n = node.0 as int;
        &&& new.nodes@.len() == self.nodes@.len()
        &&& forall|m: int|
            0 <= m < self.nodes@.len() && m != n ==> new.nodes@[m] == self.nodes@[m]
        &&& new.nodes@[n].name == self.nodes@[n].name
        &&& new.nodes@[n].queue == self.nodes@[n].queue
        &&& new.nodes@[n].has_callback == self.nodes@[n].has_callback
        &&& new.nodes@[n].buffer_usages@ == self.nodes@[n].buffer_usages@
        &&& new.nodes@[n].image_usages@ == self.nodes@[n].image_usages@.push(usage_id)
    }

    /// Register a new virtual image, created by the given node with the
    /// given initial constraint: version 0 of a fresh resource.
    pub fn create_image(
        &mut self,
        node: RenderGraphNodeId,
        constraint: RenderGraphImageConstraint,
        preferred_layout: ImageLayout,
    ) -> (r: Result<(VirtualImageId, RenderGraphImageUsageId), RenderGraphError>)
        requires
            old(self).wf(),
        ensures
            final(self).wf(),
            node.0 >= old(self).nodes@.len() ==> r == Err::<
                (VirtualImageId, RenderGraphImageUsageId),
                RenderGraphError,
            >(RenderGraphError::UnknownNode { id: node.0 }) && *final(self) == *old(self),
            node.0 < old(self).nodes@.len() ==> {
                &&& r == Ok::<(VirtualImageId, RenderGraphImageUsageId), RenderGraphError>(
                    (
                        VirtualImageId(old(self).image_resources@.len() as usize),
                        RenderGraphImageUsageId(old(self).image_usages@.len() as usize),
                    ),
                )
                &&& old(self).image_create_applied(
                    *final(self),
                    node,
                    constraint,
                    preferred_layout,
                )
                &&& final(self).attachments@ == old(self).attachments@
            },
    {
        if node.0 >= self.nodes.len() {
            return Err(RenderGraphError::UnknownNode { id: node.0 });
        }
        let image_index = self.image_resources.len();
        let usage_id = RenderGraphImageUsageId(self.image_usages.len());
        self.image_usages.push(
            RenderGraphImageUsage {
                user: RenderGraphImageUser::Node(node),
                usage_type: RenderGraphImageUsageType::Create,
                version: RenderGraphImageVersionId { index: image_index, version: 0 },
                constraint,
                preferred_layout,
                subresource_range: None,
            },
        );
        let mut resource = RenderGraphImageResource::new();
        resource.versions.push(RenderGraphImageResourceVersionInfo::new(node, usage_id));
        self.image_resources.push(resource);
        self.nodes[node.0].image_usages.push(usage_id);
        proof {
            assert(final(self).image_resources@.subrange(
                0,
                old(self).image_resources@.len() as int,
            ) =~= old(self).image_resources@);
            assert(final(self).image_version_counts() =~= old(
                self,
            ).image_version_counts().push(1));
            assert(final(self).buffer_version_counts() =~= old(self).buffer_version_counts());
        }
        Ok((VirtualImageId(image_index), usage_id))
    }

    /// Register a read of the version the given source usage belongs to:
    /// the reading node depends on that version's creator.
    pub fn read_image(
        &mut self,
        node: RenderGraphNodeId,
        image: RenderGraphImageUsageId,
        constraint: RenderGraphImageConstraint,
        preferred_layout: ImageLayout,
        subresource_range: Option<ImageSubresourceRange>,
    ) -> (r: Result<RenderGraphImageUsageId, RenderGraphError>)
        requires
            old(self).wf(),
        ensures
            final(self).wf(),
            node.0 >= old(self).nodes@.len() ==> r == Err::<
                RenderGraphImageUsageId,
                RenderGraphError,
            >(RenderGraphError::UnknownNode { id: node.0 }) && *final(self) == *old(self),
            node.0 < old(self).nodes@.len() && image.0 >= old(self).image_usages@.len() ==> r
                == Err::<RenderGraphImageUsageId, RenderGraphError>(
                RenderGraphError::UnknownResource {
                    kind: RenderGraphResourceKind::Image,
                    id: image.0,
                },
            ) && *final(self) == *old(self),
            node.0 < old(self).nodes@.len() && image.0 < old(self).image_usages@.len() ==> {
                &&& r == Ok::<RenderGraphImageUsageId, RenderGraphError>(
                    RenderGraphImageUsageId(old(self).image_usages@.len() as usize),
                )
                &&& old(self).image_read_applied(
                    *final(self),
                    node,
                    image,
                    constraint,
                    preferred_layout,
                    RenderGraphImageUsageType::Read,
                    subresource_range,
                )
                &&& final(self).attachments@ == old(self).attachments@
            },
    {
        self.add_image_read(
            node,
            image,
            constraint,
            preferred_layout,
            RenderGraphImageUsageType::Read,
            subresource_range,
        )
    }

    /// Shared implementation of every read-like registration: attaches a
    /// usage of the given (read-only or modify-read) type to the version the
    /// source usage belongs to.
    fn add_image_read(
        &mut self,
        node: RenderGraphNodeId,
        image: RenderGraphImageUsageId,
        constraint: RenderGraphImageConstraint,
        preferred_layout: ImageLayout,
        usage_type: RenderGraphImageUsageType,
        subresource_range: Option<ImageSubresourceRange>,
    ) -> (r: Result<RenderGraphImageUsageId, RenderGraphError>)
        requires
            old(self).wf(),
            !(usage_type is Create),
            !(usage_type is ModifyWrite),
        ensures
            final(self).wf(),
            node.0 >= old(self).nodes@.len() ==> r == Err::<
                RenderGraphImageUsageId,
                RenderGraphError,
            >(RenderGraphError::UnknownNode { id: node.0 }) && *final(self) == *old(self),
            node.0 < old(self).nodes@.len() && image.0 >= old(self).image_usages@.len() ==> r
                == Err::<RenderGraphImageUsageId, RenderGraphError>(
                RenderGraphError::UnknownResource {
                    kind: RenderGraphResourceKind::Image,
                    id: image.0,
                },
            ) && *final(self) == *old(self),
            node.0 < old(self).nodes@.len() && image.0 < old(self).image_usages@.len() ==> {
                &&& r == Ok::<RenderGraphImageUsageId, RenderGraphError>(
                    RenderGraphImageUsageId(old(self).image_usages@.len() as usize),
                )
                &&& old(self).image_read_applied(
                    *final(self),
                    node,
                    image,
                    constraint,
                    preferred_layout,
                    usage_type,
                    subresource_range,
                )
                &&& final(self).attachments@ == old(self).attachments@
            },
    {
        if node.0 >= self.nodes.len() {
            return Err(RenderGraphError::UnknownNode { id: node.0 });
        }
        if image.0 >= self.image_usages.len() {
            return Err(
                RenderGraphError::UnknownResource {
                    kind: RenderGraphResourceKind::Image,
                    id: image.0,
                },
            );
        }
        let version = self.image_usages[image.0].version;
        let usage_id = RenderGraphImageUsageId(self.image_usages.len());
        self.image_usages.push(
            RenderGraphImageUsage {
                user: RenderGraphImageUser::Node(node),
                usage_type,
                version,
                constraint,
                preferred_layout,
                subresource_range,
            },
        );
        self.image_resources[version.index].versions[version.version].read_usages.push(usage_id);
        self.nodes[node.0].image_usages.push(usage_id);
        proof {
            assert(final(self).image_version_counts() =~= old(self).image_version_counts());
            assert(final(self).buffer_version_counts() =~= old(self).buffer_version_counts());
        }
        Ok(usage_id)
    }

    /// What a successful modify registration does to the builder, beyond
    /// the read half described by `image_read_applied`: a new version of
    /// the same image, produced by a `ModifyWrite` usage of the modifying
    /// node.
    pub open spec fn image_modify_applied(
        self,
        new: RenderGraphBuilder,
        node: RenderGraphNodeId,
        image: RenderGraphImageUsageId,
        read_constraint: RenderGraphImageConstraint,
        write_constraint: RenderGraphImageConstraint,
        preferred_layout: ImageLayout,
    ) -> bool {
        let read_id = RenderGraphImageUsageId(self.image_usages@.len() as usize);
        let write_id = RenderGraphImageUsageId((self.image_usages@.len() + 1) as usize);
        let version = self.image_usages@[image.0 as int].version;
        let i = version.index as int;
        let v = version.version as int;
        let new_version = RenderGraphImageVersionId {
            index: version.index,
            version: self.image_resources@[i].versions@.len() as usize,
        };
        &&& new.image_usages@ == self.image_usages@.push(
            RenderGraphImageUsage {
                user: RenderGraphImageUser::Node(node),
                usage_type: RenderGraphImageUsageType::ModifyRead,
                version,
                constraint: read_constraint,
                preferred_layout,
                subresource_range: None,
            },
        ).push(
            RenderGraphImageUsage {
                user: RenderGraphImageUser::Node(node),
                usage_type: RenderGraphImageUsageType::ModifyWrite,
                version: new_version,
                constraint: write_constraint,
                preferred_layout,
                subresource_range: None,
            },
        )
        &&& new.image_resources@.len() == self.image_resources@.len()
        &&& forall|j: int|
            0 <= j < self.image_resources@.len() && j != i ==> new.image_resources@[j]
                == self.image_resources@[j]
        &&& new.image_resources@[i].name == self.image_resources@[i].name
        &&& new.image_resources@[i].versions@.len() == self.image_resources@[i].versions@.len()
            + 1
        &&& forall|w: int|
            0 <= w < self.image_resources@[i].versions@.len() && w != v
                ==> new.image_resources@[i].versions@[w] == self.image_resources@[i].versions@[w]
        &&& new.image_resources@[i].versions@[v].creator_node
            == self.image_resources@[i].versions@[v].creator_node
        &&& new.image_resources@[i].versions@[v].create_usage
            == self.image_resources@[i].versions@[v].create_usage
        &&& new.image_resources@[i].versions@[v].read_usages@
            == self.image_resources@[i].versions@[v].read_usages@.push(read_id)
        &&& new.image_resources@[i].versions@.last().creator_node == node
        &&& new.image_resources@[i].versions@.last().create_usage == write_id
        &&& new.image_resources@[i].versions@.last().read_usages@
            == Seq::<RenderGraphImageUsageId>::empty()
        &&& new.nodes@.len() == self.nodes@.len()
        &&& forall|m: int|
            0 <= m < self.nodes@.len() && m != node.0 ==> new.nodes@[m] == self.nodes@[m]
        &&& new.nodes@[node.0 as int].name == self.nodes@[node.0 as int].name
        &&& new.nodes@[node.0 as int].queue == self.nodes@[node.0 as int].queue
        &&& new.nodes@[node.0 as int].has_callback == self.nodes@[node.0 as int].has_callback
        &&& new.nodes@[node.0 as int].buffer_usages@ == self.nodes@[node.0 as int].buffer_usages@
        &&& new.nodes@[node.0 as int].image_usages@ == self.nodes@[
            node.0 as int
        ].image_usages@.push(read_id).push(write_id)
        &&& new.buffer_resources@ == self.buffer_resources@
        &&& new.buffer_usages@ == self.buffer_usages@
        &&& new.attachments@ == self.attachments@
        &&& new.phase_submissions@ == self.phase_submissions@
        &&& new.explicit_dependencies@ == self.explicit_dependencies@
        &&& new.output_image == self.output_image
    }

    /// Register a read-modify-write of the version the given source usage
    /// belongs to: a read usage is attached to that version, and a new
    /// version of the same image is created by this node. This models
    /// passes such as a ping-pong blur.
    pub fn modify_image(
        &mut self,
        node: RenderGraphNodeId,
        image: RenderGraphImageUsageId,
        read_constraint: RenderGraphImageConstraint,
        write_constraint: RenderGraphImageConstraint,
        preferred_layout: ImageLayout,
    ) -> (r: Result<
        (RenderGraphImageUsageId, RenderGraphImageUsageId, RenderGraphImageVersionId),
        RenderGraphError,
    >)
        requires
            old(self).wf(),
        ensures
            final(self).wf(),
            node.0 >= old(self).nodes@.len() ==> r == Err::<
                (RenderGraphImageUsageId, RenderGraphImageUsageId, RenderGraphImageVersionId),
                RenderGraphError,
            >(RenderGraphError::UnknownNode { id: node.0 }) && *final(self) == *old(self),
            node.0 < old(self).nodes@.len() && image.0 >= old(self).image_usages@.len() ==> r
                == Err::<
                (RenderGraphImageUsageId, RenderGraphImageUsageId, RenderGraphImageVersionId),
                RenderGraphError,
            >(
                RenderGraphError::UnknownResource {
                    kind: RenderGraphResourceKind::Image,
                    id: image.0,
                },
            ) && *final(self) == *old(self),
            node.0 < old(self).nodes@.len() && image.0 < old(self).image_usages@.len() ==> {
                &&& r == Ok::<
                    (RenderGraphImageUsageId, RenderGraphImageUsageId, RenderGraphImageVersionId),
                    RenderGraphError,
                >(
                    (
                        RenderGraphImageUsageId(old(self).image_usages@.len() as usize),
                        RenderGraphImageUsageId((old(self).image_usages@.len() + 1) as usize),
                        RenderGraphImageVersionId {
                            index: old(self).image_usages@[image.0 as int].version.index,
                            version: old(self).image_resources@[old(
                                self,
                            ).image_usages@[image.0 as int].version.index as int].versions@.len()
                                as usize,
                        },
                    ),
                )
                &&& old(self).image_modify_applied(
                    *final(self),
                    node,
                    image,
                    read_constraint,
                    write_constraint,
                    preferred_layout,
                )
            },
    {
        if node.0 >= self.nodes.len() {
            return Err(RenderGraphError::UnknownNode { id: node.0 });
        }
        if image.0 >= self.image_usages.len() {
            return Err(
                RenderGraphError::UnknownResource {
                    kind: RenderGraphResourceKind::Image,
                    id: image.0,
                },
            );
        }
        let version = self.image_usages[image.0].version;
        let read_id = RenderGraphImageUsageId(self.image_usages.len());
        self.image_usages.push(
            RenderGraphImageUsage {
                user: RenderGraphImageUser::Node(node),
                usage_type: RenderGraphImageUsageType::ModifyRead,
                version,
                constraint: read_constraint,
                preferred_layout,
                subresource_range: None,
            },
        );
        self.image_resources[version.index].versions[version.version].read_usages.push(read_id);
        let new_version = RenderGraphImageVersionId {
            index: version.index,
            version: self.image_resources[version.index].versions.len(),
        };
        let write_id = RenderGraphImageUsageId(self.image_usages.len());
        self.image_usages.push(
            RenderGraphImageUsage {
                user: RenderGraphImageUser::Node(node),
                usage_type: RenderGraphImageUsageType::ModifyWrite,
                version: new_version,
                constraint: write_constraint,
                preferred_layout,
                subresource_range: None,
            },
        );
        self.image_resources[version.index].versions.push(
            RenderGraphImageResourceVersionInfo::new(node, write_id),
        );
        self.nodes[node.0].image_usages.push(read_id);
        self.nodes[node.0].image_usages.push(write_id);
        proof {
            assert(final(self).image_version_counts() =~= old(
                self,
            ).image_version_counts().update(
                version.index as int,
                old(self).image_resources@[version.index as int].versions@.len() as int + 1,
            ));
            assert(final(self).buffer_version_counts() =~= old(self).buffer_version_counts());
            assert(final(self).nodes@[node.0 as int].image_usages@ =~= old(self).nodes@[
                node.0 as int
            ].image_usages@.push(read_id).push(write_id));
        }
        Ok((read_id, write_id, new_version))
    }

    /// The given constraint with attachment flags folded in: convenience
    /// applied by the attachment registrations, so that callers cannot
    /// forget the flags the backend validation requires.
    pub open spec fn spec_attachment_constraint(
        constraint: RenderGraphImageConstraint,
        aspect: u32,
        usage: u32,
    ) -> RenderGraphImageConstraint {
        RenderGraphImageConstraint {
            samples: constraint.samples,
            format: constraint.format,
            aspect_flags: constraint.aspect_flags | aspect,
            usage_flags: constraint.usage_flags | usage,
            create_flags: constraint.create_flags,
            layer_count: constraint.layer_count,
            mip_count: constraint.mip_count,
        }
    }

    /// Create a new image and bind it as a color attachment of the node.
    /// The color aspect and color-attachment usage flags are set here, by
    /// the builder, not by the caller.
    pub fn create_color_attachment(
        &mut self,
        node: RenderGraphNodeId,
        color_attachment_index: usize,
        clear_color: Option<ColorClearValue>,
        constraint: RenderGraphImageConstraint,
        usage_flags: u32,
    ) -> (r: Result<RenderGraphImageUsageId, RenderGraphError>)
        requires
            old(self).wf(),
        ensures
            final(self).wf(),
            node.0 >= old(self).nodes@.len() ==> r == Err::<
                RenderGraphImageUsageId,
                RenderGraphError,
            >(RenderGraphError::UnknownNode { id: node.0 }) && *final(self) == *old(self),
            node.0 < old(self).nodes@.len() ==> {
                &&& r == Ok::<RenderGraphImageUsageId, RenderGraphError>(
                    RenderGraphImageUsageId(old(self).image_usages@.len() as usize),
                )
                &&& old(self).image_create_applied(
                    *final(self),
                    node,
                    Self::spec_attachment_constraint(
                        constraint,
                        ASPECT_COLOR,
                        usage_flags | USAGE_COLOR_ATTACHMENT,
                    ),
                    LAYOUT_COLOR_ATTACHMENT,
                )
                &&& final(self).attachments@ == old(self).attachments@.push(
                    RenderGraphAttachment {
                        node,
                        usage: RenderGraphImageUsageId(old(self).image_usages@.len() as usize),
                        index: color_attachment_index,
                        kind: RenderGraphAttachmentKind::Color,
                        clear_color,
                        clear_depth_stencil: None,
                    },
                )
            },
    {
        let mut adjusted = constraint;
        adjusted.aspect_flags = adjusted.aspect_flags | ASPECT_COLOR;
        adjusted.usage_flags = adjusted.usage_flags | (usage_flags | USAGE_COLOR_ATTACHMENT);
        match self.create_image(node, adjusted, LAYOUT_COLOR_ATTACHMENT) {
            Err(e) => Err(e),
            Ok((_, usage_id)) => {
                self.attachments.push(
                    RenderGraphAttachment {
                        node,
                        usage: usage_id,
                        index: color_attachment_index,
                        kind: RenderGraphAttachmentKind::Color,
                        clear_color,
                        clear_depth_stencil: None,
                    },
                );
                Ok(usage_id)
            },
        }
    }

    /// Create a new image and bind it as the depth attachment of the node.
    /// The depth aspect and depth-stencil-attachment usage flags are set
    /// here, by the builder, not by the caller.
    pub fn create_depth_attachment(
        &mut self,
        node: RenderGraphNodeId,
        clear_depth_stencil: Option<DepthStencilClearValue>,
        constraint: RenderGraphImageConstraint,
    ) -> (r: Result<RenderGraphImageUsageId, RenderGraphError>)
        requires
            old(self).wf(),
        ensures
            final(self).wf(),
            node.0 >= old(self).nodes@.len() ==> r == Err::<
                RenderGraphImageUsageId,
                RenderGraphError,
            >(RenderGraphError::UnknownNode { id: node.0 }) && *final(self) == *old(self),
            node.0 < old(self).nodes@.len() ==> {
                &&& r == Ok::<RenderGraphImageUsageId, RenderGraphError>(
                    RenderGraphImageUsageId(old(self).image_usages@.len() as usize),
                )
                &&& old(self).image_create_applied(
                    *final(self),
                    node,
                    Self::spec_attachment_constraint(
                        constraint,
                        ASPECT_DEPTH,
                        USAGE_DEPTH_STENCIL_ATTACHMENT,
                    ),
                    LAYOUT_DEPTH_STENCIL_ATTACHMENT,
                )
                &&& final(self).attachments@ == old(self).attachments@.push(
                    RenderGraphAttachment {
                        node,
                        usage: RenderGraphImageUsageId(old(self).image_usages@.len() as usize),
                        index: 0,
                        kind: RenderGraphAttachmentKind::Depth,
                        clear_color: None,
                        clear_depth_stencil,
                    },
                )
            },
    {
        let mut adjusted = constraint;
        adjusted.aspect_flags = adjusted.aspect_flags | ASPECT_DEPTH;
        adjusted.usage_flags = adjusted.usage_flags | USAGE_DEPTH_STENCIL_ATTACHMENT;
        match self.create_image(node, adjusted, LAYOUT_DEPTH_STENCIL_ATTACHMENT) {
            Err(e) => Err(e),
            Ok((_, usage_id)) => {
                self.attachments.push(
                    RenderGraphAttachment {
                        node,
                        usage: usage_id,
                        index: 0,
                        kind: RenderGraphAttachmentKind::Depth,
                        clear_color: None,
                        clear_depth_stencil,
                    },
                );
                Ok(usage_id)
            },
        }
    }

    /// Bind an existing image version as a color attachment read by the
    /// node (for example for blending against an earlier pass's output).
    pub fn read_color_attachment(
        &mut self,
        node: RenderGraphNodeId,
        image: RenderGraphImageUsageId,
        color_attachment_index: usize,
        constraint: RenderGraphImageConstraint,
    ) -> (r: Result<RenderGraphImageUsageId, RenderGraphError>)
        requires
            old(self).wf(),
        ensures
            final(self).wf(),
            node.0 >= old(self).nodes@.len() ==> r == Err::<
                RenderGraphImageUsageId,
                RenderGraphError,
            >(RenderGraphError::UnknownNode { id: node.0 }) && *final(self) == *old(self),
            node.0 < old(self).nodes@.len() && image.0 >= old(self).image_usages@.len() ==> r
                == Err::<RenderGraphImageUsageId, RenderGraphError>(
                RenderGraphError::UnknownResource {
                    kind: RenderGraphResourceKind::Image,
                    id: image.0,
                },
            ) && *final(self) == *old(self),
            node.0 < old(self).nodes@.len() && image.0 < old(self).image_usages@.len() ==> {
                &&& r == Ok::<RenderGraphImageUsageId, RenderGraphError>(
                    RenderGraphImageUsageId(old(self).image_usages@.len() as usize),
                )
                &&& old(self).image_read_applied(
                    *final(self),
                    node,
                    image,
                    Self::spec_attachment_constraint(
                        constraint,
                        ASPECT_COLOR,
                        USAGE_COLOR_ATTACHMENT,
                    ),
                    LAYOUT_COLOR_ATTACHMENT,
                    RenderGraphImageUsageType::Read,
                    None,
                )
                &&& final(self).attachments@ == old(self).attachments@.push(
                    RenderGraphAttachment {
                        node,
                        usage: RenderGraphImageUsageId(old(self).image_usages@.len() as usize),
                        index: color_attachment_index,
                        kind: RenderGraphAttachmentKind::Color,
                        clear_color: None,
                        clear_depth_stencil: None,
                    },
                )
            },
    {
        let mut adjusted = constraint;
        adjusted.aspect_flags = adjusted.aspect_flags | ASPECT_COLOR;
        adjusted.usage_flags = adjusted.usage_flags | USAGE_COLOR_ATTACHMENT;
        match self.add_image_read(
            node,
            image,
            adjusted,
            LAYOUT_COLOR_ATTACHMENT,
            RenderGraphImageUsageType::Read,
            None,
        ) {
            Err(e) => Err(e),
            Ok(usage_id) => {
                self.attachments.push(
                    RenderGraphAttachment {
                        node,
                        usage: usage_id,
                        index: color_attachment_index,
                        kind: RenderGraphAttachmentKind::Color,
                        clear_color: None,
                        clear_depth_stencil: None,
                    },
                );
                Ok(usage_id)
            },
        }
    }

    /// Bind an existing image version as the depth attachment read by the
    /// node (depth test without depth write).
    pub fn read_depth_attachment(
        &mut self,
        node: RenderGraphNodeId,
        image: RenderGraphImageUsageId,
        constraint: RenderGraphImageConstraint,
    ) -> (r: Result<RenderGraphImageUsageId, RenderGraphError>)
        requires
            old(self).wf(),
        ensures
            final(self).wf(),
            node.0 >= old(self).nodes@.len() ==> r == Err::<
                RenderGraphImageUsageId,
                RenderGraphError,
            >(RenderGraphError::UnknownNode { id: node.0 }) && *final(self) == *old(self),
            node.0 < old(self).nodes@.len() && image.0 >= old(self).image_usages@.len() ==> r
                == Err::<RenderGraphImageUsageId, RenderGraphError>(
                RenderGraphError::UnknownResource {
                    kind: RenderGraphResourceKind::Image,
                    id: image.0,
                },
            ) && *final(self) == *old(self),
            node.0 < old(self).nodes@.len() && image.0 < old(self).image_usages@.len() ==> {
                &&& r == Ok::<RenderGraphImageUsageId, RenderGraphError>(
                    RenderGraphImageUsageId(old(self).image_usages@.len() as usize),
                )
                &&& old(self).image_read_applied(
                    *final(self),
                    node,
                    image,
                    Self::spec_attachment_constraint(
                        constraint,
                        ASPECT_DEPTH,
                        USAGE_DEPTH_STENCIL_ATTACHMENT,
                    ),
                    LAYOUT_DEPTH_STENCIL_READ_ONLY,
                    RenderGraphImageUsageType::Read,
                    None,
                )
                &&& final(self).attachments@ == old(self).attachments@.push(
                    RenderGraphAttachment {
                        node,
                        usage: RenderGraphImageUsageId(old(self).image_usages@.len() as usize),
                        index: 0,
                        kind: RenderGraphAttachmentKind::Depth,
                        clear_color: None,
                        clear_depth_stencil: None,
                    },
                )
            },
    {
        let mut adjusted = constraint;
        adjusted.aspect_flags = adjusted.aspect_flags | ASPECT_DEPTH;
        adjusted.usage_flags = adjusted.usage_flags | USAGE_DEPTH_STENCIL_ATTACHMENT;
        match self.add_image_read(
            node,
            image,
            adjusted,
            LAYOUT_DEPTH_STENCIL_READ_ONLY,
            RenderGraphImageUsageType::Read,
            None,
        ) {
            Err(e) => Err(e),
            Ok(usage_id) => {
                self.attachments.push(
                    RenderGraphAttachment {
                        node,
                        usage: usage_id,
                        index: 0,
                        kind: RenderGraphAttachmentKind::Depth,
                        clear_color: None,
                        clear_depth_stencil: None,
                    },
                );
                Ok(usage_id)
            },
        }
    }

    /// Register a non-attachment read of an image version, such as a
    /// texture fetch from a shader. The sampled usage flag is set here, by
    /// the builder.
    pub fn sample_image(
        &mut self,
        node: RenderGraphNodeId,
        image: RenderGraphImageUsageId,
        constraint: RenderGraphImageConstraint,
        subresource_range: Option<ImageSubresourceRange>,
    ) -> (r: Result<RenderGraphImageUsageId, RenderGraphError>)
        requires
            old(self).wf(),
        ensures
            final(self).wf(),
            node.0 >= old(self).nodes@.len() ==> r == Err::<
                RenderGraphImageUsageId,
                RenderGraphError,
            >(RenderGraphError::UnknownNode { id: node.0 }) && *final(self) == *old(self),
            node.0 < old(self).nodes@.len() && image.0 >= old(self).image_usages@.len() ==> r
                == Err::<RenderGraphImageUsageId, RenderGraphError>(
                RenderGraphError::UnknownResource {
                    kind: RenderGraphResourceKind::Image,
                    id: image.0,
                },
            ) && *final(self) == *old(self),
            node.0 < old(self).nodes@.len() && image.0 < old(self).image_usages@.len() ==> {
                &&& r == Ok::<RenderGraphImageUsageId, RenderGraphError>(
                    RenderGraphImageUsageId(old(self).image_usages@.len() as usize),
                )
                &&& old(self).image_read_applied(
                    *final(self),
                    node,
                    image,
                    Self::spec_attachment_constraint(constraint, 0, USAGE_SAMPLED),
                    LAYOUT_SHADER_READ_ONLY,
                    RenderGraphImageUsageType::Read,
                    subresource_range,
                )
                &&& final(self).attachments@ == old(self).attachments@
            },
    {
        let mut adjusted = constraint;
        adjusted.aspect_flags = adjusted.aspect_flags | 0;
        adjusted.usage_flags = adjusted.usage_flags | USAGE_SAMPLED;
        self.add_image_read(
            node,
            image,
            adjusted,
            LAYOUT_SHADER_READ_ONLY,
            RenderGraphImageUsageType::Read,
            subresource_range,
        )
    }

    /// Assign a debug name to the image the given usage belongs to.
    pub fn set_image_name(
        &mut self,
        image: RenderGraphImageUsageId,
        name: RenderGraphResourceName,
    ) -> (r: Result<(), RenderGraphError>)
        requires
            old(self).wf(),
        ensures
            final(self).wf(),
            image.0 >= old(self).image_usages@.len() ==> r == Err::<(), RenderGraphError>(
                RenderGraphError::UnknownResource {
                    kind: RenderGraphResourceKind::Image,
                    id: image.0,
                },
            ) && *final(self) == *old(self),
            image.0 < old(self).image_usages@.len() ==> {
                let i = old(self).image_usages@[image.0 as int].version.index as int;
                &&& r is Ok
                &&& final(self).image_resources@.len() == old(self).image_resources@.len()
                &&& forall|j: int|
                    0 <= j < old(self).image_resources@.len() && j != i
                        ==> final(self).image_resources@[j] == old(self).image_resources@[j]
                &&& final(self).image_resources@[i].name == Some(name)
                &&& final(self).image_resources@[i].versions@ == old(
                    self,
                ).image_resources@[i].versions@
                &&& final(self).nodes@ == old(self).nodes@
                &&& final(self).image_usages@ == old(self).image_usages@
                &&& final(self).buffer_resources@ == old(self).buffer_resources@
                &&& final(self).buffer_usages@ == old(self).buffer_usages@
                &&& final(self).attachments@ == old(self).attachments@
                &&& final(self).phase_submissions@ == old(self).phase_submissions@
                &&& final(self).explicit_dependencies@ == old(self).explicit_dependencies@
                &&& final(self).output_image == old(self).output_image
            },
    {
        if image.0 >= self.image_usages.len() {
            return Err(
                RenderGraphError::UnknownResource {
                    kind: RenderGraphResourceKind::Image,
                    id: image.0,
                },
            );
        }
        let index = self.image_usages[image.0].version.index;
        self.image_resources[index].name = Some(name);
        proof {
            assert(final(self).image_version_counts() =~= old(self).image_version_counts());
            assert(final(self).buffer_version_counts() =~= old(self).buffer_version_counts());
        }
        Ok(())
    }

    /// Bind the externally owned output image (for example the swapchain
    /// image) as the terminal consumer of the version the given usage
    /// belongs to. The external specification pins that version's
    /// externally fixed fields, and its physical allocation is the external
    /// image itself: the compiler never lets another version alias it.
    /// Binding a second output is an attempt to alias the pinned image and
    /// is rejected.
    pub fn set_output_image(
        &mut self,
        image: RenderGraphImageUsageId,
        external_image: u32,
        specification: RenderGraphImageSpecification,
        clear_color: Option<ColorClearValue>,
        final_layout: ImageLayout,
    ) -> (r: Result<RenderGraphOutputImageId, RenderGraphError>)
        requires
            old(self).wf(),
        ensures
            final(self).wf(),
            old(self).output_image is Some ==> r == Err::<
                RenderGraphOutputImageId,
                RenderGraphError,
            >(RenderGraphError::ExternalAliasingError) && *final(self) == *old(self),
            old(self).output_image is None && image.0 >= old(self).image_usages@.len() ==> r
                == Err::<RenderGraphOutputImageId, RenderGraphError>(
                RenderGraphError::UnknownResource {
                    kind: RenderGraphResourceKind::Image,
                    id: image.0,
                },
            ) && *final(self) == *old(self),
            old(self).output_image is None && image.0 < old(self).image_usages@.len() ==> {
                let usage_id = RenderGraphImageUsageId(old(self).image_usages@.len() as usize);
                let version = old(self).image_usages@[image.0 as int].version;
                let i = version.index as int;
                let v = version.version as int;
                &&& r == Ok::<RenderGraphOutputImageId, RenderGraphError>(
                    RenderGraphOutputImageId(0),
                )
                &&& final(self).image_usages@ == old(self).image_usages@.push(
                    RenderGraphImageUsage {
                        user: RenderGraphImageUser::Output(RenderGraphOutputImageId(0)),
                        usage_type: RenderGraphImageUsageType::Output,
                        version,
                        constraint: RenderGraphImageConstraint::spec_from_specification(
                            specification,
                        ),
                        preferred_layout: final_layout,
                        subresource_range: None,
                    },
                )
                &&& final(self).image_resources@.len() == old(self).image_resources@.len()
                &&& forall|j: int|
                    0 <= j < old(self).image_resources@.len() && j != i
                        ==> final(self).image_resources@[j] == old(self).image_resources@[j]
                &&& final(self).image_resources@[i].name == old(self).image_resources@[i].name
                &&& final(self).image_resources@[i].versions@.len() == old(
                    self,
                ).image_resources@[i].versions@.len()
                &&& forall|w: int|
                    0 <= w < old(self).image_resources@[i].versions@.len() && w != v
                        ==> final(self).image_resources@[i].versions@[w] == old(
                        self,
                    ).image_resources@[i].versions@[w]
                &&& final(self).image_resources@[i].versions@[v].creator_node == old(
                    self,
                ).image_resources@[i].versions@[v].creator_node
                &&& final(self).image_resources@[i].versions@[v].create_usage == old(
                    self,
                ).image_resources@[i].versions@[v].create_usage
                &&& final(self).image_resources@[i].versions@[v].read_usages@ == old(
                    self,
                ).image_resources@[i].versions@[v].read_usages@.push(usage_id)
                &&& final(self).nodes@ == old(self).nodes@
                &&& final(self).buffer_resources@ == old(self).buffer_resources@
                &&& final(self).buffer_usages@ == old(self).buffer_usages@
                &&& final(self).attachments@ == old(self).attachments@
                &&& final(self).phase_submissions@ == old(self).phase_submissions@
                &&& final(self).explicit_dependencies@ == old(self).explicit_dependencies@
                &&& final(self).output_image == Some(
                    RenderGraphOutputImage {
                        output_image_id: RenderGraphOutputImageId(0),
                        usage: usage_id,
                        source_usage: image,
                        version,
                        specification,
                        external_image,
                        clear_color,
                        final_layout,
                    },
                )
            },
    {
        if self.output_image.is_some() {
            return Err(RenderGraphError::ExternalAliasingError);
        }
        if image.0 >= self.image_usages.len() {
            return Err(
                RenderGraphError::UnknownResource {
                    kind: RenderGraphResourceKind::Image,
                    id: image.0,
                },
            );
        }
        let version = self.image_usages[image.0].version;
        let usage_id = RenderGraphImageUsageId(self.image_usages.len());
        let output_image_id = RenderGraphOutputImageId(0);
        self.image_usages.push(
            RenderGraphImageUsage {
                user: RenderGraphImageUser::Output(output_image_id),
                usage_type: RenderGraphImageUsageType::Output,
                version,
                constraint: RenderGraphImageConstraint::from(specification),
                preferred_layout: final_layout,
                subresource_range: None,
            },
        );
        self.image_resources[version.index].versions[version.version].read_usages.push(usage_id);
        self.output_image = Some(
            RenderGraphOutputImage {
                output_image_id,
                usage: usage_id,
                source_usage: image,
                version,
                specification,
                external_image,
                clear_color,
                final_layout,
            },
        );
        proof {
            assert(final(self).image_version_counts() =~= old(self).image_version_counts());
            assert(final(self).buffer_version_counts() =~= old(self).buffer_version_counts());
        }
        Ok(output_image_id)
    }

    /// The given buffer constraint with the storage usage flag folded in.
    pub open spec fn spec_storage_buffer_constraint(
        constraint: RenderGraphBufferConstraint,
    ) -> RenderGraphBufferConstraint {
        RenderGraphBufferConstraint {
            size: constraint.size,
            usage_flags: constraint.usage_flags | BUFFER_USAGE_STORAGE,
        }
    }

    /// What a successful buffer-create registration does to the builder.
    pub open spec fn buffer_create_applied(
        self,
        new: RenderGraphBuilder,
        node: RenderGraphNodeId,
        constraint: RenderGraphBufferConstraint,
    ) -> bool {
        let usage_id = RenderGraphBufferUsageId(self.buffer_usages@.len() as usize);
        &&& new.buffer_usages@ == self.buffer_usages@.push(
            RenderGraphBufferUsage {
                user: node,
                usage_type: RenderGraphBufferUsageType::Create,
                version: RenderGraphBufferVersionId {
                    index: self.buffer_resources@.len() as usize,
                    version: 0,
                },
                constraint,
            },
        )
        &&& new.buffer_resources@.len() == self.buffer_resources@.len() + 1
        &&& new.buffer_resources@.subrange(0, self.buffer_resources@.len() as int)
            == self.buffer_resources@
        &&& new.buffer_resources@.last().name is None
        &&& new.buffer_resources@.last().versions@.len() == 1
        &&& new.buffer_resources@.last().versions@[0].creator_node == node
        &&& new.buffer_resources@.last().versions@[0].create_usage == usage_id
        &&& new.buffer_resources@.last().versions@[0].read_usages@
            == Seq::<RenderGraphBufferUsageId>::empty()
        &&& self.node_buffer_usage_appended(new, node, usage_id)
        &&& new.image_resources@ == self.image_resources@
        &&& new.image_usages@ == self.image_usages@
        &&& new.attachments@ == self.attachments@
        &&& new.phase_submissions@ == self.phase_submissions@
        &&& new.explicit_dependencies@ == self.explicit_dependencies@
        &&& new.output_image == self.output_image
    }

    /// What a successful buffer-read registration does to the builder.
    pub open spec fn buffer_read_applied(
        self,
        new: RenderGraphBuilder,
        node: RenderGraphNodeId,
        buffer: RenderGraphBufferUsageId,
        constraint: RenderGraphBufferConstraint,
    ) -> bool {
        let usage_id = RenderGraphBufferUsageId(self.buffer_usages@.len() as usize);
        let version = self.buffer_usages@[buffer.0 as int].version;
        let i = version.index as int;
        let v = version.version as int;
        &&& new.buffer_usages@ == self.buffer_usages@.push(
            RenderGraphBufferUsage {
                user: node,
                usage_type: RenderGraphBufferUsageType::Read,
                version,
                constraint,
            },
        )
        &&& new.buffer_resources@.len() == self.buffer_resources@.len()
        &&& forall|j: int|
            0 <= j < self.buffer_resources@.len() && j != i ==> new.buffer_resources@[j]
                == self.buffer_resources@[j]
        &&& new.buffer_resources@[i].name == self.buffer_resources@[i].name
        &&& new.buffer_resources@[i].versions@.len() == self.buffer_resources@[i].versions@.len()
        &&& forall|w: int|
            0 <= w < self.buffer_resources@[i].versions@.len() && w != v
                ==> new.buffer_resources@[i].versions@[w]
                == self.buffer_resources@[i].versions@[w]
        &&& new.buffer_resources@[i].versions@[v].creator_node
            == self.buffer_resources@[i].versions@[v].creator_node
        &&& new.buffer_resources@[i].versions@[v].create_usage
            == self.buffer_resources@[i].versions@[v].create_usage
        &&& new.buffer_resources@[i].versions@[v].read_usages@
            == self.buffer_resources@[i].versions@[v].read_usages@.push(usage_id)
        &&& self.node_buffer_usage_appended(new, node, usage_id)
        &&& new.image_resources@ == self.image_resources@
        &&& new.image_usages@ == self.image_usages@
        &&& new.attachments@ == self.attachments@
        &&& new.phase_submissions@ == self.phase_submissions@
        &&& new.explicit_dependencies@ == self.explicit_dependencies@
        &&& new.output_image == self.output_image
    }

    /// The node table after one buffer usage id was appended to one node's
    /// list, all other nodes and fields untouched.
    pub open spec fn node_buffer_usage_appended(
        self,
        new: RenderGraphBuilder,
        node: RenderGraphNodeId,
        usage_id: RenderGraphBufferUsageId,
    ) -> bool {
        let n = node.0 as int;
        &&& new.nodes@.len() == self.nodes@.len()
        &&& forall|m: int|
            0 <= m < self.nodes@.len() && m != n ==> new.nodes@[m] == self.nodes@[m]
        &&& new.nodes@[n].name == self.nodes@[n].name
        &&& new.nodes@[n].queue == self.nodes@[n].queue
        &&& new.nodes@[n].has_callback == self.nodes@[n].has_callback
        &&& new.nodes@[n].image_usages@ == self.nodes@[n].image_usages@
        &&& new.nodes@[n].buffer_usages@ == self.nodes@[n].buffer_usages@.push(usage_id)
    }

    /// Register a new storage buffer created by a (typically compute) node.
    /// The storage usage flag is set here, by the builder.
    pub fn create_storage_buffer(
        &mut self,
        node: RenderGraphNodeId,
        constraint: RenderGraphBufferConstraint,
    ) -> (r: Result<RenderGraphBufferUsageId, RenderGraphError>)
        requires
            old(self).wf(),
        ensures
            final(self).wf(),
            node.0 >= old(self).nodes@.len() ==> r == Err::<
                RenderGraphBufferUsageId,
                RenderGraphError,
            >(RenderGraphError::UnknownNode { id: node.0 }) && *final(self) == *old(self),
            node.0 < old(self).nodes@.len() ==> {
                &&& r == Ok::<RenderGraphBufferUsageId, RenderGraphError>(
                    RenderGraphBufferUsageId(old(self).buffer_usages@.len() as usize),
                )
                &&& old(self).buffer_create_applied(
                    *final(self),
                    node,
                    Self::spec_storage_buffer_constraint(constraint),
                )
            },
    {
        if node.0 >= self.nodes.len() {
            return Err(RenderGraphError::UnknownNode { id: node.0 });
        }
        let mut adjusted = constraint;
        adjusted.usage_flags = adjusted.usage_flags | BUFFER_USAGE_STORAGE;
        let buffer_index = self.buffer_resources.len();
        let usage_id = RenderGraphBufferUsageId(self.buffer_usages.len());
        self.buffer_usages.push(
            RenderGraphBufferUsage {
                user: node,
                usage_type: RenderGraphBufferUsageType::Create,
                version: RenderGraphBufferVersionId { index: buffer_index, version: 0 },
                constraint: adjusted,
            },
        );
        let mut resource = RenderGraphBufferResource::new();
        resource.versions.push(RenderGraphBufferResourceVersionInfo::new(node, usage_id));
        self.buffer_resources.push(resource);
        self.nodes[node.0].buffer_usages.push(usage_id);
        proof {
            assert(final(self).buffer_resources@.subrange(
                0,
                old(self).buffer_resources@.len() as int,
            ) =~= old(self).buffer_resources@);
            assert(final(self).buffer_version_counts() =~= old(
                self,
            ).buffer_version_counts().push(1));
            assert(final(self).image_version_counts() =~= old(self).image_version_counts());
        }
        Ok(usage_id)
    }

    /// Register a read of the buffer version the given source usage
    /// belongs to, as a storage buffer. The storage usage flag is set
    /// here, by the builder.
    pub fn read_storage_buffer(
        &mut self,
        node: RenderGraphNodeId,
        buffer: RenderGraphBufferUsageId,
        constraint: RenderGraphBufferConstraint,
    ) -> (r: Result<RenderGraphBufferUsageId, RenderGraphError>)
        requires
            old(self).wf(),
        ensures
            final(self).wf(),
            node.0 >= old(self).nodes@.len() ==> r == Err::<
                RenderGraphBufferUsageId,
                RenderGraphError,
            >(RenderGraphError::UnknownNode { id: node.0 }) && *final(self) == *old(self),
            node.0 < old(self).nodes@.len() && buffer.0 >= old(self).buffer_usages@.len() ==> r
                == Err::<RenderGraphBufferUsageId, RenderGraphError>(
                RenderGraphError::UnknownResource {
                    kind: RenderGraphResourceKind::Buffer,
                    id: buffer.0,
                },
            ) && *final(self) == *old(self),
            node.0 < old(self).nodes@.len() && buffer.0 < old(self).buffer_usages@.len() ==> {
                &&& r == Ok::<RenderGraphBufferUsageId, RenderGraphError>(
                    RenderGraphBufferUsageId(old(self).buffer_usages@.len() as usize),
                )
                &&& old(self).buffer_read_applied(
                    *final(self),
                    node,
                    buffer,
                    Self::spec_storage_buffer_constraint(constraint),
                )
            },
    {
        if node.0 >= self.nodes.len() {
            return Err(RenderGraphError::UnknownNode { id: node.0 });
        }
        if buffer.0 >= self.buffer_usages.len() {
            return Err(
                RenderGraphError::UnknownResource {
                    kind: RenderGraphResourceKind::Buffer,
                    id: buffer.0,
                },
            );
        }
        let mut adjusted = constraint;
        adjusted.usage_flags = adjusted.usage_flags | BUFFER_USAGE_STORAGE;
        let version = self.buffer_usages[buffer.0].version;
        let usage_id = RenderGraphBufferUsageId(self.buffer_usages.len());
        self.buffer_usages.push(
            RenderGraphBufferUsage {
                user: node,
                usage_type: RenderGraphBufferUsageType::Read,
                version,
                constraint: adjusted,
            },
        );
        self.buffer_resources[version.index].versions[version.version].read_usages.push(usage_id);
        self.nodes[node.0].buffer_usages.push(usage_id);
        proof {
            assert(final(self).image_version_counts() =~= old(self).image_version_counts());
            assert(final(self).buffer_version_counts() =~= old(self).buffer_version_counts());
        }
        Ok(usage_id)
    }
}

} // verus!
