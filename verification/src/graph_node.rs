//! Nodes of the render graph: passes that create, read and modify resources.

use vstd::prelude::*;
use crate::graph_buffer::RenderGraphBufferUsageId;
use crate::graph_image::RenderGraphImageUsageId;
use crate::graph_image::RenderGraphNodeId;

verus! {

/// A name for a node, for debug output only.
pub type RenderGraphNodeName = &'static str;

/// The queue class a node executes on.
#[derive(Debug, Clone, Copy, PartialEq, Eq, Structural)]
pub enum RenderGraphQueue {
    /// The default graphics queue.
    DefaultGraphics,
    /// An asynchronous compute queue.
    AsyncCompute,
    /// A transfer (copy) queue.
    Transfer,
}

/// One pass of the graph. Nodes are added in calling order and that order
/// breaks ties during topological sorting, so node ids double as insertion
/// indexes.
#[derive(Debug, Clone)]
pub struct RenderGraphNode {
    /// Debug name of the pass.
    pub name: RenderGraphNodeName,
    /// The queue class this node executes on.
    pub queue: RenderGraphQueue,
    /// Every image usage this node owns, in registration order.
    pub image_usages: Vec<RenderGraphImageUsageId>,
    /// Every buffer usage this node owns, in registration order.
    pub buffer_usages: Vec<RenderGraphBufferUsageId>,
    /// Whether a renderpass callback has been registered for this node.
    /// The callbacks themselves are closures over backend state and live
    /// with the executor, outside this crate; the builder only enforces
    /// that each node receives at most one.
    pub has_callback: bool,
}

impl RenderGraphNode {
    /// A fresh node with no usages and no callback.
    pub fn new(name: RenderGraphNodeName, queue: RenderGraphQueue) -> (r: Self)
        ensures
            r.name == name,
            r.queue == queue,
            r.image_usages@ == Seq::<RenderGraphImageUsageId>::empty(),
            r.buffer_usages@ == Seq::<RenderGraphBufferUsageId>::empty(),
            !r.has_callback,
    {
        RenderGraphNode {
            name,
            queue,
            image_usages: Vec::new(),
            buffer_usages: Vec::new(),
            has_callback: false,
        }
    }
}

/// An edge of the dependency graph in node-index space: the first node must
/// execute before the second.
#[derive(Debug, Clone, Copy, PartialEq, Eq, Structural)]
pub struct RenderGraphDependency {
    /// The node that must run first.
    pub before: RenderGraphNodeId,
    /// The node that must run after it.
    pub after: RenderGraphNodeId,
}

} // verus!
