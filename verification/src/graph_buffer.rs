//! Identifiers and value types for buffers tracked by the render graph.
//!
//! Buffers mirror images: versions, usages and the constraint/specification
//! algebra all work the same way, but a buffer's specification has no pixel
//! format or sample count — its one mandatory scalar field is the size.

use vstd::prelude::*;
use crate::graph_image::RenderGraphNodeId;

verus! {

/// Buffer usage flag: the buffer may be read as a uniform buffer.
pub const BUFFER_USAGE_UNIFORM: u32 = 1;
/// Buffer usage flag: the buffer may be read or written as a storage buffer.
pub const BUFFER_USAGE_STORAGE: u32 = 2;
/// Buffer usage flag: the buffer may be the source of a transfer.
pub const BUFFER_USAGE_TRANSFER_SRC: u32 = 4;
/// Buffer usage flag: the buffer may be the target of a transfer.
pub const BUFFER_USAGE_TRANSFER_DST: u32 = 8;

/// Unique ID for a particular usage (read or write) of a specific buffer.
#[derive(Clone, Copy, PartialEq, Eq, Structural, Hash, Debug)]
pub struct RenderGraphBufferUsageId(pub usize);

/// Unique ID for a particular version of a buffer.
#[derive(Clone, Copy, PartialEq, Eq, Structural, Hash, Debug)]
pub struct RenderGraphBufferVersionId {
    /// Index of the buffer resource within the graph.
    pub index: usize,
    /// Version number, starting at 0 for the create usage.
    pub version: usize,
}

/// How a buffer is being used by a single usage.
#[derive(Copy, Clone, Debug, PartialEq, Eq, Structural)]
pub enum RenderGraphBufferUsageType {
    /// The usage that produces version 0 of a buffer.
    Create,
    /// A plain read of a version.
    Read,
    /// The read half of a read-modify-write.
    ModifyRead,
    /// The write half of a read-modify-write; produces a new version.
    ModifyWrite,
}

impl RenderGraphBufferUsageType {
    /// Whether this usage only reads the version it is attached to.
    pub fn is_read_only(&self) -> (r: bool)
        ensures
            r == (*self is Read),
    {
        match self {
            RenderGraphBufferUsageType::Read => true,
            RenderGraphBufferUsageType::Create => false,
            RenderGraphBufferUsageType::ModifyRead => false,
            RenderGraphBufferUsageType::ModifyWrite => false,
        }
    }
}

/// One usage of a particular buffer version.
#[derive(Debug, Clone)]
pub struct RenderGraphBufferUsage {
    /// The node this usage belongs to.
    pub user: RenderGraphNodeId,
    /// Read, write, or modify.
    pub usage_type: RenderGraphBufferUsageType,
    /// The buffer version the usage touches.
    pub version: RenderGraphBufferVersionId,
    /// The constraint this usage imposes on the version's specification.
    pub constraint: RenderGraphBufferConstraint,
}

/// A "virtual" buffer that the render graph knows about.
#[derive(Debug, Clone)]
pub struct RenderGraphBufferResource {
    /// Debug name, if one was assigned.
    pub name: Option<&'static str>,
    /// All versions of this buffer, oldest first.
    pub versions: Vec<RenderGraphBufferResourceVersionInfo>,
}

impl RenderGraphBufferResource {
    /// A fresh buffer resource with no name and no versions.
    pub fn new() -> (r: Self)
        ensures
            r.name is None,
            r.versions@ == Seq::<RenderGraphBufferResourceVersionInfo>::empty(),
    {
        RenderGraphBufferResource { name: None, versions: Vec::new() }
    }
}

/// Information about a specific version of a buffer.
#[derive(Debug, Clone)]
pub struct RenderGraphBufferResourceVersionInfo {
    /// The node that created this version.
    pub creator_node: RenderGraphNodeId,
    /// The single write usage that produced this version.
    pub create_usage: RenderGraphBufferUsageId,
    /// All read usages attached to this version, in registration order.
    pub read_usages: Vec<RenderGraphBufferUsageId>,
}

impl RenderGraphBufferResourceVersionInfo {
    /// A fresh version with a creator and its create usage, and no reads.
    pub fn new(creator: RenderGraphNodeId, create_usage: RenderGraphBufferUsageId) -> (r: Self)
        ensures
            r.creator_node == creator,
            r.create_usage == create_usage,
            r.read_usages@ == Seq::<RenderGraphBufferUsageId>::empty(),
    {
        RenderGraphBufferResourceVersionInfo {
            creator_node: creator,
            create_usage,
            read_usages: Vec::new(),
        }
    }

    /// Attach one more read usage to this version.
    pub fn add_read_usage(&mut self, usage: RenderGraphBufferUsageId)
        ensures
            final(self).creator_node == old(self).creator_node,
            final(self).create_usage == old(self).create_usage,
            final(self).read_usages@ == old(self).read_usages@.push(usage),
    {
        self.read_usages.push(usage);
    }
}

/// Immutable, fully specified attributes of a buffer.
#[derive(Debug, Clone, Copy, PartialEq, Eq, Structural, Hash)]
pub struct RenderGraphBufferSpecification {
    /// Size of the buffer in bytes.
    pub size: u64,
    /// Union of the usage flags of every usage.
    pub usage_flags: u32,
}

impl RenderGraphBufferSpecification {
    /// Two buffer specifications can share one allocation exactly when their
    /// sizes agree; usage flags are unions and never conflict.
    pub open spec fn spec_can_merge(self, other: Self) -> bool {
        self.size == other.size
    }

    /// The merge of two mergeable buffer specifications.
    pub open spec fn spec_merged(self, other: Self) -> Self {
        RenderGraphBufferSpecification {
            size: self.size,
            usage_flags: self.usage_flags | other.usage_flags,
        }
    }

    /// Returns true if no fields in the two specifications are conflicting.
    pub fn can_merge(&self, other: &RenderGraphBufferSpecification) -> (r: bool)
        ensures
            r == self.spec_can_merge(*other),
    {
        self.size == other.size
    }

    /// Merge other's attributes into self, but only if there are no
    /// conflicts. No modification occurs if any conflict exists.
    pub fn try_merge(&mut self, other: &RenderGraphBufferSpecification) -> (r: bool)
        ensures
            r == old(self).spec_can_merge(*other),
            r ==> *final(self) == old(self).spec_merged(*other),
            !r ==> *final(self) == *old(self),
    {
        if self.size != other.size {
            return false;
        }
        self.usage_flags = self.usage_flags | other.usage_flags;
        true
    }
}

/// Constraints on a buffer: the size is optional, the usage flags accumulate.
#[derive(Debug, Clone, Copy, PartialEq, Eq, Structural, Hash)]
pub struct RenderGraphBufferConstraint {
    /// Required size in bytes, if any usage insisted on one.
    pub size: Option<u64>,
    /// Accumulated usage flags.
    pub usage_flags: u32,
}

impl Default for RenderGraphBufferConstraint {
    /// The empty constraint: no size required, no flags accumulated.
    fn default() -> (r: Self)
        ensures
            r == RenderGraphBufferConstraint::spec_default(),
    {
        RenderGraphBufferConstraint { size: None, usage_flags: 0 }
    }
}

impl RenderGraphBufferConstraint {
    /// The empty constraint.
    pub open spec fn spec_default() -> Self {
        RenderGraphBufferConstraint { size: None, usage_flags: 0 }
    }

    /// Two buffer constraints conflict exactly when both pin different
    /// sizes.
    pub open spec fn spec_can_merge(self, other: Self) -> bool {
        self.size is Some && other.size is Some ==> self.size == other.size
    }

    /// The merge of two mergeable buffer constraints.
    pub open spec fn spec_merged(self, other: Self) -> Self {
        RenderGraphBufferConstraint {
            size: if self.size is Some {
                self.size
            } else {
                other.size
            },
            usage_flags: self.usage_flags | other.usage_flags,
        }
    }

    /// The specification a buffer constraint resolves to: `None` while the
    /// size is still unset — the graph never guesses a buffer size.
    pub open spec fn spec_to_specification(self) -> Option<RenderGraphBufferSpecification> {
        match self.size {
            None => None,
            Some(size) => Some(
                RenderGraphBufferSpecification { size, usage_flags: self.usage_flags },
            ),
        }
    }

    /// Returns true if no fields in the two constraints are conflicting.
    pub fn can_merge(&self, other: &RenderGraphBufferConstraint) -> (r: bool)
        ensures
            r == self.spec_can_merge(*other),
    {
        if self.size.is_some() && other.size.is_some() && self.size != other.size {
            return false;
        }
        true
    }

    /// Merge other's constraints into self, but only if there are no
    /// conflicts. No modification occurs if any conflict exists.
    pub fn try_merge(&mut self, other: &RenderGraphBufferConstraint) -> (r: bool)
        ensures
            r == old(self).spec_can_merge(*other),
            r ==> *final(self) == old(self).spec_merged(*other),
            !r ==> *final(self) == *old(self),
    {
        if !self.can_merge(other) {
            return false;
        }
        if self.size.is_none() && other.size.is_some() {
            self.size = other.size;
        }
        self.usage_flags = self.usage_flags | other.usage_flags;
        true
    }

    /// Resolve this constraint to a full specification; `None` while the
    /// size is unset.
    pub fn try_convert_to_specification(self) -> (r: Option<RenderGraphBufferSpecification>)
        ensures
            r == self.spec_to_specification(),
    {
        match self.size {
            None => None,
            Some(size) => Some(
                RenderGraphBufferSpecification { size, usage_flags: self.usage_flags },
            ),
        }
    }
}

} // verus!
