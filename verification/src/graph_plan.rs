//! The compiled plan: what `compile` produces and the executor walks.

use vstd::prelude::*;
use crate::graph_builder::RenderGraphOutputImage;
use crate::graph_buffer::RenderGraphBufferSpecification;
use crate::graph_image::ImageLayout;
use crate::graph_image::PhysicalImageId;
use crate::graph_image::RenderGraphImageSpecification;
use crate::graph_image::RenderGraphNodeId;

verus! {

/// The lifetime of one resource version, as positions in the compiled
/// execution order: the version exists from the position of its creator
/// node through the position of its last reader (inclusive).
#[derive(Debug, Clone, Copy, PartialEq, Eq, Structural)]
pub struct RenderGraphVersionLifetime {
    /// Position of the creating node in the execution order.
    pub begin: usize,
    /// Position of the last consuming node; equals `begin` when nothing
    /// reads the version.
    pub end: usize,
}

/// One physical image allocation of the plan. Several virtual image
/// versions may map here when their lifetimes do not overlap; the
/// specification is the merge of all of them, so the one allocation
/// satisfies every aliased version.
#[derive(Debug, Clone, Copy, PartialEq, Eq, Structural)]
pub struct RenderGraphPhysicalImage {
    /// The merged specification the allocation must satisfy.
    pub specification: RenderGraphImageSpecification,
    /// Position of the last node that uses any version mapped here.
    pub end: usize,
    /// Whether this allocation is the pinned, externally supplied output
    /// image. A pinned allocation is never offered for reuse.
    pub is_output: bool,
}

/// An image layout transition to execute immediately before a node runs.
#[derive(Debug, Clone, Copy, PartialEq, Eq, Structural)]
pub struct RenderGraphImageBarrier {
    /// The physical image to transition.
    pub physical_image: PhysicalImageId,
    /// The layout the image was last left in.
    pub old_layout: ImageLayout,
    /// The layout the next usage needs.
    pub new_layout: ImageLayout,
}

/// The immutable output of one compilation: the node execution order, the
/// resolved specification and physical assignment of every resource
/// version, and the layout transitions each node needs before it runs.
#[derive(Debug, Clone)]
pub struct RenderGraphPlan {
    /// Every node of the graph, ordered so that all dependencies point
    /// forward; ties are broken by insertion order.
    pub node_execution_order: Vec<RenderGraphNodeId>,
    /// For each node id, its position in the execution order.
    pub node_positions: Vec<usize>,
    /// For each image and version, the resolved specification.
    pub image_specifications: Vec<Vec<RenderGraphImageSpecification>>,
    /// For each buffer and version, the resolved specification. Buffer
    /// versions are not aliased: the executor allocates one buffer per
    /// version, sized by its specification.
    pub buffer_specifications: Vec<Vec<RenderGraphBufferSpecification>>,
    /// For each image and version, its lifetime in execution positions.
    pub image_lifetimes: Vec<Vec<RenderGraphVersionLifetime>>,
    /// For each image and version, the physical allocation it maps to.
    pub image_physical_ids: Vec<Vec<PhysicalImageId>>,
    /// The physical image allocations, indexed by `PhysicalImageId`.
    pub physical_images: Vec<RenderGraphPhysicalImage>,
    /// The physical image pinned to the externally supplied output image,
    /// if an output was bound.
    pub output_physical_image: Option<PhysicalImageId>,
    /// The output binding carried over from the builder, if any.
    pub output_image: Option<RenderGraphOutputImage>,
    /// For each execution position, the layout transitions to issue
    /// before running the node at that position.
    pub image_barriers: Vec<Vec<RenderGraphImageBarrier>>,
}

} // verus!
