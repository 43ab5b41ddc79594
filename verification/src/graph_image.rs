//! Identifiers and value types for images tracked by the render graph, and
//! the constraint/specification merge algebra the compiler solves with.
//!
//! A *constraint* is a partially specified description of an image: every
//! scalar field (sample count, pixel format, layer count, mip count) is
//! optional, and the flag fields (aspect, usage, create) start empty and only
//! ever accumulate by union. A *specification* is a fully resolved
//! description. The compiler discovers a specification for every image
//! version by merging the constraints of all of that version's usages.

use vstd::prelude::*;

verus! {

/// Image aspect flag: the color plane.
pub const ASPECT_COLOR: u32 = 1;
/// Image aspect flag: the depth plane.
pub const ASPECT_DEPTH: u32 = 2;
/// Image aspect flag: the stencil plane.
pub const ASPECT_STENCIL: u32 = 4;

/// Image usage flag: the image may be sampled from a shader.
pub const USAGE_SAMPLED: u32 = 4;
/// Image usage flag: the image may be used as a storage image.
pub const USAGE_STORAGE: u32 = 8;
/// Image usage flag: the image may be bound as a color render target.
pub const USAGE_COLOR_ATTACHMENT: u32 = 16;
/// Image usage flag: the image may be bound as a depth/stencil render target.
pub const USAGE_DEPTH_STENCIL_ATTACHMENT: u32 = 32;

/// Image layout values, backend-agnostic: only equality of two layouts is
/// meaningful to the graph. A transition is emitted whenever the layout an
/// upcoming usage needs differs from the layout last recorded for the
/// physical image.
pub type ImageLayout = u32;

/// The layout of an image nothing has touched yet.
pub const LAYOUT_UNDEFINED: u32 = 0;
/// Layout for color-attachment writes.
pub const LAYOUT_COLOR_ATTACHMENT: u32 = 2;
/// Layout for depth/stencil-attachment writes.
pub const LAYOUT_DEPTH_STENCIL_ATTACHMENT: u32 = 3;
/// Layout for depth/stencil reads from a shader.
pub const LAYOUT_DEPTH_STENCIL_READ_ONLY: u32 = 4;
/// Layout for sampled reads from a shader.
pub const LAYOUT_SHADER_READ_ONLY: u32 = 5;
/// Layout for general (storage) access.
pub const LAYOUT_GENERAL: u32 = 6;
/// Layout a swapchain image must be in to be presented.
pub const LAYOUT_PRESENT: u32 = 7;

/// Unique ID for a particular usage (read or write) of a specific image.
#[derive(Clone, Copy, PartialEq, Eq, Structural, Hash, Debug)]
pub struct RenderGraphImageUsageId(pub usize);

/// An ID for an image used within the graph between passes.
#[derive(Copy, Clone, Debug, PartialEq, Eq, Structural, Hash)]
pub struct VirtualImageId(pub usize);

/// An ID for an image allocation (possibly shared by several versions whose
/// lifetimes do not overlap).
#[derive(Copy, Clone, Debug, PartialEq, Eq, Structural, Hash)]
pub struct PhysicalImageId(pub usize);

/// An ID for an image view allocation (possibly reused).
#[derive(Copy, Clone, Debug, PartialEq, Eq, Structural, Hash)]
pub struct PhysicalImageViewId(pub usize);

/// Unique ID provided for any image registered as an output image.
#[derive(Debug, Copy, Clone, PartialEq, Eq, Structural)]
pub struct RenderGraphOutputImageId(pub usize);

/// Unique ID for a particular version of an image. Any time an image is
/// modified, a new version is produced.
#[derive(Clone, Copy, PartialEq, Eq, Structural, Hash, Debug)]
pub struct RenderGraphImageVersionId {
    /// Index of the image resource within the graph.
    pub index: usize,
    /// Version number, starting at 0 for the create usage and increasing by
    /// one for every modify.
    pub version: usize,
}

/// A name for a virtual resource, for debug output only.
pub type RenderGraphResourceName = &'static str;

/// Identifies a node of the graph. Nodes are numbered in insertion order.
#[derive(Clone, Copy, PartialEq, Eq, Structural, Hash, Debug)]
pub struct RenderGraphNodeId(pub usize);

/// A "virtual" image that the render graph knows about. The compiler
/// allocates physical images as needed, but can reuse the same allocation for
/// multiple virtual images if their lifetimes do not overlap.
#[derive(Debug, Clone)]
pub struct RenderGraphImageResource {
    /// Debug name, if one was assigned.
    pub name: Option<RenderGraphResourceName>,
    /// All versions of this image, oldest first.
    pub versions: Vec<RenderGraphImageResourceVersionInfo>,
}

impl RenderGraphImageResource {
    /// A fresh image resource with no name and no versions.
    pub fn new() -> (r: Self)
        ensures
            r.name is None,
            r.versions@ == Seq::<RenderGraphImageResourceVersionInfo>::empty(),
    {
        RenderGraphImageResource { name: None, versions: Vec::new() }
    }
}

/// A subresource slice of an image: a run of mip levels and array layers.
#[derive(Debug, Clone, Copy, PartialEq, Eq, Structural, Hash)]
pub struct ImageSubresourceRange {
    pub aspect_mask: u32,
    pub base_mip_level: u32,
    pub level_count: u32,
    pub base_array_layer: u32,
    pub layer_count: u32,
}

/// A physical image together with the subresource range a usage sees of it.
#[derive(Debug, Clone, PartialEq, Eq, Structural, Hash)]
pub struct RenderGraphImageView {
    pub physical_image: PhysicalImageId,
    pub subresource_range: ImageSubresourceRange,
}

/// Defines what created a usage: a node of the graph, or the output-image
/// binding that consumes the final version.
#[derive(Debug, Clone, Copy, PartialEq, Eq, Structural)]
pub enum RenderGraphImageUser {
    Node(RenderGraphNodeId),
    Output(RenderGraphOutputImageId),
}

/// How an image is being used by a single usage.
#[derive(Copy, Clone, Debug, PartialEq, Eq, Structural)]
pub enum RenderGraphImageUsageType {
    /// The usage that produces version 0 of an image.
    Create,
    /// A plain read of a version.
    Read,
    /// The read half of a read-modify-write.
    ModifyRead,
    /// The write half of a read-modify-write; produces a new version.
    ModifyWrite,
    /// The terminal read by the output-image binding.
    Output,
}

impl RenderGraphImageUsageType {
    /// Whether this usage only reads the version it is attached to.
    pub fn is_read_only(&self) -> (r: bool)
        ensures
            r == self.spec_is_read_only(),
    {
        match self {
            RenderGraphImageUsageType::Read => true,
            RenderGraphImageUsageType::Output => true,
            RenderGraphImageUsageType::ModifyRead => false,
            RenderGraphImageUsageType::Create => false,
            RenderGraphImageUsageType::ModifyWrite => false,
        }
    }

    /// A usage reads without writing exactly when it is a plain read or the
    /// output binding's terminal read.
    pub open spec fn spec_is_read_only(self) -> bool {
        self is Read || self is Output
    }
}

/// One usage of a particular image version: who uses it, how, and under what
/// constraint.
#[derive(Debug, Clone)]
pub struct RenderGraphImageUsage {
    /// The node (or output binding) this usage belongs to.
    pub user: RenderGraphImageUser,
    /// Read, write, or modify.
    pub usage_type: RenderGraphImageUsageType,
    /// The image version the usage touches.
    pub version: RenderGraphImageVersionId,
    /// The constraint this usage imposes on the version's specification.
    pub constraint: RenderGraphImageConstraint,
    /// The layout the user would like the image to be in while it runs.
    pub preferred_layout: ImageLayout,
    /// An optional mip/layer slice; `None` means the whole image.
    pub subresource_range: Option<ImageSubresourceRange>,
}

/// Information about a specific version of an image. A version records the
/// single usage that created it and every read usage that consumed it before
/// the next write (or before graph end).
#[derive(Debug, Clone)]
pub struct RenderGraphImageResourceVersionInfo {
    /// The node that created this version. Versions are virtual, so every
    /// version has a creator node.
    pub creator_node: RenderGraphNodeId,
    /// The single write usage that produced this version.
    pub create_usage: RenderGraphImageUsageId,
    /// All read usages attached to this version, in registration order.
    pub read_usages: Vec<RenderGraphImageUsageId>,
}

impl RenderGraphImageResourceVersionInfo {
    /// A fresh version with a creator and its create usage, and no reads.
    pub fn new(creator: RenderGraphNodeId, create_usage: RenderGraphImageUsageId) -> (r: Self)
        ensures
            r.creator_node == creator,
            r.create_usage == create_usage,
            r.read_usages@ == Seq::<RenderGraphImageUsageId>::empty(),
    {
        RenderGraphImageResourceVersionInfo {
            creator_node: creator,
            create_usage,
            read_usages: Vec::new(),
        }
    }

    /// Attach one more read usage to this version.
    pub fn add_read_usage(&mut self, usage: RenderGraphImageUsageId)
        ensures
            final(self).creator_node == old(self).creator_node,
            final(self).create_usage == old(self).create_usage,
            final(self).read_usages@ == old(self).read_usages@.push(usage),
    {
        self.read_usages.push(usage);
    }

    /// Detach the first occurrence of a read usage, if present: the last
    /// read usage takes its slot, so the order of the remaining reads may
    /// change.
    pub fn remove_read_usage(&mut self, usage: RenderGraphImageUsageId)
        ensures
            final(self).creator_node == old(self).creator_node,
            final(self).create_usage == old(self).create_usage,
            final(self).read_usages@ == match old(self).read_usages@.index_of_first(usage) {
                Some(p) => old(self).read_usages@.update(
                    p,
                    old(self).read_usages@.last(),
                ).drop_last(),
                None => old(self).read_usages@,
            },
    {
        proof {
            old(self).read_usages@.index_of_first_ensures(usage);
        }
        let mut position: Option<usize> = None;
        let mut k: usize = 0;
        while k < self.read_usages.len()
            invariant
                k <= self.read_usages.len(),
                self == old(self),
                position is None ==> forall|j: int|
                    0 <= j < k ==> self.read_usages@[j] != usage,
                position matches Some(p) ==> 0 <= p < self.read_usages@.len()
                    && self.read_usages@[p as int] == usage && forall|j: int|
                    0 <= j < p ==> self.read_usages@[j] != usage,
                position is Some ==> k == self.read_usages.len(),
            decreases self.read_usages.len() - k,
        {
            if self.read_usages[k] == usage {
                position = Some(k);
                k = self.read_usages.len();
            } else {
                k = k + 1;
            }
        }
        match position {
            Some(p) => {
                let _ = self.read_usages.swap_remove(p);
            },
            None => {},
        }
    }
}

/// Immutable, fully specified attributes of an image. A *constraint* is
/// partially specified and the graph uses constraints to solve for the
/// specification.
#[derive(Debug, Clone, Copy, PartialEq, Eq, Structural, Hash)]
pub struct RenderGraphImageSpecification {
    /// Sample count (1, 2, 4, ...).
    pub samples: u32,
    /// Pixel format code. Only equality of two formats is meaningful here.
    pub format: u32,
    /// Union of the aspect flags of every usage.
    pub aspect_flags: u32,
    /// Union of the usage flags of every usage.
    pub usage_flags: u32,
    /// Union of the create flags of every usage.
    pub create_flags: u32,
    /// Array layer count.
    pub layer_count: u32,
    /// Mip level count.
    pub mip_count: u32,
}

impl RenderGraphImageSpecification {
    /// Two specifications can share one allocation exactly when every scalar
    /// field agrees; the flag fields are unions and never conflict.
    pub open spec fn spec_can_merge(self, other: Self) -> bool {
        &&& self.samples == other.samples
        &&& self.format == other.format
        &&& self.mip_count == other.mip_count
        &&& self.layer_count == other.layer_count
    }

    /// The merge of two mergeable specifications: the shared scalar fields,
    /// and the union of each flag field.
    pub open spec fn spec_merged(self, other: Self) -> Self {
        RenderGraphImageSpecification {
            samples: self.samples,
            format: self.format,
            aspect_flags: self.aspect_flags | other.aspect_flags,
            usage_flags: self.usage_flags | other.usage_flags,
            create_flags: self.create_flags | other.create_flags,
            layer_count: self.layer_count,
            mip_count: self.mip_count,
        }
    }

    /// Returns true if no fields in the two specifications are conflicting.
    pub fn can_merge(&self, other: &RenderGraphImageSpecification) -> (r: bool)
        ensures
            r == self.spec_can_merge(*other),
    {
        if self.samples != other.samples {
            return false;
        }
        if self.format != other.format {
            return false;
        }
        if self.mip_count != other.mip_count {
            return false;
        }
        if self.layer_count != other.layer_count {
            return false;
        }
        true
    }

    /// Merge other's attributes into self, but only if there are no
    /// conflicts. No modification occurs if any conflict exists.
    pub fn try_merge(&mut self, other: &RenderGraphImageSpecification) -> (r: bool)
        ensures
            r == old(self).spec_can_merge(*other),
            r ==> *final(self) == old(self).spec_merged(*other),
            !r ==> *final(self) == *old(self),
    {
        if !self.can_merge(other) {
            return false;
        }
        self.aspect_flags = self.aspect_flags | other.aspect_flags;
        self.usage_flags = self.usage_flags | other.usage_flags;
        self.create_flags = self.create_flags | other.create_flags;
        true
    }
}

/// Constraints on an image. Constraints are set per-field and start out
/// `None` (unconstrained); the compiler derives specifications from them.
#[derive(Debug, Clone, Copy, PartialEq, Eq, Structural, Hash)]
pub struct RenderGraphImageConstraint {
    /// Required sample count, if any usage insisted on one.
    pub samples: Option<u32>,
    /// Required pixel format, if any usage insisted on one.
    pub format: Option<u32>,
    /// Accumulated aspect flags.
    pub aspect_flags: u32,
    /// Accumulated usage flags.
    pub usage_flags: u32,
    /// Accumulated create flags.
    pub create_flags: u32,
    /// Required layer count, if any usage insisted on one.
    pub layer_count: Option<u32>,
    /// Required mip count, if any usage insisted on one.
    pub mip_count: Option<u32>,
}

impl Default for RenderGraphImageConstraint {
    /// The empty constraint: nothing required, no flags accumulated.
    fn default() -> (r: Self)
        ensures
            r == RenderGraphImageConstraint::spec_default(),
    {
        RenderGraphImageConstraint {
            samples: None,
            format: None,
            aspect_flags: 0,
            usage_flags: 0,
            create_flags: 0,
            layer_count: None,
            mip_count: None,
        }
    }
}

impl From<RenderGraphImageSpecification> for RenderGraphImageConstraint {
    /// The constraint that pins every scalar field to the specification's
    /// value and carries its flags.
    fn from(specification: RenderGraphImageSpecification) -> (r: Self)
        ensures
            r == RenderGraphImageConstraint::spec_from_specification(specification),
    {
        RenderGraphImageConstraint {
            samples: Some(specification.samples),
            format: Some(specification.format),
            aspect_flags: specification.aspect_flags,
            usage_flags: specification.usage_flags,
            create_flags: specification.create_flags,
            layer_count: Some(specification.layer_count),
            mip_count: Some(specification.mip_count),
        }
    }
}

impl vstd::std_specs::convert::FromSpecImpl<RenderGraphImageSpecification>
    for RenderGraphImageConstraint {
    open spec fn obeys_from_spec() -> bool {
        true
    }

    open spec fn from_spec(specification: RenderGraphImageSpecification) -> Self {
        RenderGraphImageConstraint::spec_from_specification(specification)
    }
}

/// Whether two optional scalar fields agree: a conflict needs both present
/// and different.
pub open spec fn scalar_compatible(a: Option<u32>, b: Option<u32>) -> bool {
    a is Some && b is Some ==> a == b
}

/// The merge of two optional scalar fields: the first present value wins.
pub open spec fn scalar_merged(a: Option<u32>, b: Option<u32>) -> Option<u32> {
    if a is Some {
        a
    } else {
        b
    }
}

impl RenderGraphImageConstraint {
    /// The empty constraint.
    pub open spec fn spec_default() -> Self {
        RenderGraphImageConstraint {
            samples: None,
            format: None,
            aspect_flags: 0,
            usage_flags: 0,
            create_flags: 0,
            layer_count: None,
            mip_count: None,
        }
    }

    /// The fully pinned constraint a specification converts to.
    pub open spec fn spec_from_specification(s: RenderGraphImageSpecification) -> Self {
        RenderGraphImageConstraint {
            samples: Some(s.samples),
            format: Some(s.format),
            aspect_flags: s.aspect_flags,
            usage_flags: s.usage_flags,
            create_flags: s.create_flags,
            layer_count: Some(s.layer_count),
            mip_count: Some(s.mip_count),
        }
    }

    /// Two constraints conflict exactly when some scalar field is present in
    /// both with different values; flag fields never conflict.
    pub open spec fn spec_can_merge(self, other: Self) -> bool {
        &&& scalar_compatible(self.samples, other.samples)
        &&& scalar_compatible(self.format, other.format)
        &&& scalar_compatible(self.layer_count, other.layer_count)
        &&& scalar_compatible(self.mip_count, other.mip_count)
    }

    /// The merge of two mergeable constraints: each scalar field takes the
    /// first present value, each flag field the union.
    pub open spec fn spec_merged(self, other: Self) -> Self {
        RenderGraphImageConstraint {
            samples: scalar_merged(self.samples, other.samples),
            format: scalar_merged(self.format, other.format),
            aspect_flags: self.aspect_flags | other.aspect_flags,
            usage_flags: self.usage_flags | other.usage_flags,
            create_flags: self.create_flags | other.create_flags,
            layer_count: scalar_merged(self.layer_count, other.layer_count),
            mip_count: scalar_merged(self.mip_count, other.mip_count),
        }
    }

    /// The partial merge: every scalar field without a conflict is merged,
    /// conflicting ones keep self's value; flags always union.
    pub open spec fn spec_partial_merged(self, other: Self) -> Self {
        RenderGraphImageConstraint {
            samples: if scalar_compatible(self.samples, other.samples) {
                scalar_merged(self.samples, other.samples)
            } else {
                self.samples
            },
            format: if scalar_compatible(self.format, other.format) {
                scalar_merged(self.format, other.format)
            } else {
                self.format
            },
            aspect_flags: self.aspect_flags | other.aspect_flags,
            usage_flags: self.usage_flags | other.usage_flags,
            create_flags: self.create_flags | other.create_flags,
            layer_count: if scalar_compatible(self.layer_count, other.layer_count) {
                scalar_merged(self.layer_count, other.layer_count)
            } else {
                self.layer_count
            },
            mip_count: if scalar_compatible(self.mip_count, other.mip_count) {
                scalar_merged(self.mip_count, other.mip_count)
            } else {
                self.mip_count
            },
        }
    }

    /// The specification a constraint resolves to: `None` while the format is
    /// still unset, otherwise the pinned scalars with samples, layer count
    /// and mip count defaulting to 1.
    pub open spec fn spec_to_specification(self) -> Option<RenderGraphImageSpecification> {
        match self.format {
            None => None,
            Some(format) => Some(
                RenderGraphImageSpecification {
                    samples: if self.samples is Some {
                        self.samples->0
                    } else {
                        1
                    },
                    format,
                    aspect_flags: self.aspect_flags,
                    usage_flags: self.usage_flags,
                    create_flags: self.create_flags,
                    layer_count: if self.layer_count is Some {
                        self.layer_count->0
                    } else {
                        1
                    },
                    mip_count: if self.mip_count is Some {
                        self.mip_count->0
                    } else {
                        1
                    },
                },
            ),
        }
    }

    /// Returns true if no fields in the two constraints are conflicting.
    pub fn can_merge(&self, other: &RenderGraphImageConstraint) -> (r: bool)
        ensures
            r == self.spec_can_merge(*other),
    {
        if self.samples.is_some() && other.samples.is_some() && self.samples != other.samples {
            return false;
        }
        if self.format.is_some() && other.format.is_some() && self.format != other.format {
            return false;
        }
        if self.layer_count.is_some() && other.layer_count.is_some() && self.layer_count
            != other.layer_count {
            return false;
        }
        if self.mip_count.is_some() && other.mip_count.is_some() && self.mip_count
            != other.mip_count {
            return false;
        }
        true
    }

    /// Merge other's constraints into self, but only if there are no
    /// conflicts. No modification occurs if any conflict exists.
    pub fn try_merge(&mut self, other: &RenderGraphImageConstraint) -> (r: bool)
        ensures
            r == old(self).spec_can_merge(*other),
            r ==> *final(self) == old(self).spec_merged(*other),
            !r ==> *final(self) == *old(self),
    {
        if !self.can_merge(other) {
            return false;
        }
        if self.samples.is_none() && other.samples.is_some() {
            self.samples = other.samples;
        }
        if self.format.is_none() && other.format.is_some() {
            self.format = other.format;
        }
        if self.layer_count.is_none() && other.layer_count.is_some() {
            self.layer_count = other.layer_count;
        }
        if self.mip_count.is_none() && other.mip_count.is_some() {
            self.mip_count = other.mip_count;
        }
        self.aspect_flags = self.aspect_flags | other.aspect_flags;
        self.usage_flags = self.usage_flags | other.usage_flags;
        self.create_flags = self.create_flags | other.create_flags;
        true
    }

    /// Merge other's constraints into self where possible, skipping scalar
    /// fields with conflicts. Returns true only when every field merged.
    pub fn partial_merge(&mut self, other: &RenderGraphImageConstraint) -> (r: bool)
        ensures
            r == old(self).spec_can_merge(*other),
            *final(self) == old(self).spec_partial_merged(*other),
            r ==> *final(self) == old(self).spec_merged(*other),
    {
        let mut complete_merge = true;
        if self.samples.is_some() && other.samples.is_some() && self.samples != other.samples {
            complete_merge = false;
        } else if other.samples.is_some() {
            self.samples = other.samples;
        }
        if self.format.is_some() && other.format.is_some() && self.format != other.format {
            complete_merge = false;
        } else if other.format.is_some() {
            self.format = other.format;
        }
        if self.layer_count.is_some() && other.layer_count.is_some() && self.layer_count
            != other.layer_count {
            complete_merge = false;
        } else if other.layer_count.is_some() {
            self.layer_count = other.layer_count;
        }
        if self.mip_count.is_some() && other.mip_count.is_some() && self.mip_count
            != other.mip_count {
            complete_merge = false;
        } else if other.mip_count.is_some() {
            self.mip_count = other.mip_count;
        }
        self.aspect_flags = self.aspect_flags | other.aspect_flags;
        self.usage_flags = self.usage_flags | other.usage_flags;
        self.create_flags = self.create_flags | other.create_flags;
        complete_merge
    }

    /// Resolve this constraint to a full specification. Fails (returns
    /// `None`) while the format is still unset: the graph never guesses a
    /// pixel format. Samples, layer count and mip count default to 1.
    pub fn try_convert_to_specification(self) -> (r: Option<RenderGraphImageSpecification>)
        ensures
            r == self.spec_to_specification(),
    {
        if self.format.is_none() {
            None
        } else {
            Some(
                RenderGraphImageSpecification {
                    samples: self.samples.unwrap_or(1),
                    format: self.format.unwrap(),
                    aspect_flags: self.aspect_flags,
                    usage_flags: self.usage_flags,
                    create_flags: self.create_flags,
                    layer_count: self.layer_count.unwrap_or(1),
                    mip_count: self.mip_count.unwrap_or(1),
                },
            )
        }
    }

    /// Overwrite this constraint with exactly what the given specification
    /// pins down.
    pub fn set(&mut self, other: &RenderGraphImageSpecification)
        ensures
            *final(self) == RenderGraphImageConstraint::spec_from_specification(*other),
    {
        *self = RenderGraphImageConstraint::from(*other);
    }
}

/// The union of flag words does not depend on the order of its arguments.
proof fn lemma_flags_union_commutative(x: u32, y: u32)
    ensures
        x | y == y | x,
{
    assert(x | y == y | x) by (bit_vector);
}

/// The union of flag words does not depend on its grouping.
proof fn lemma_flags_union_associative(x: u32, y: u32, z: u32)
    ensures
        (x | y) | z == x | (y | z),
{
    assert((x | y) | z == x | (y | z)) by (bit_vector);
}

/// Uniting a flag word with itself changes nothing.
proof fn lemma_flags_union_idempotent(x: u32)
    ensures
        x | x == x,
{
    assert(x | x == x) by (bit_vector);
}

/// Merging is commutative: for mergeable constraints the merged result does
/// not depend on which side the merge started from.
pub proof fn lemma_merge_commutative(a: RenderGraphImageConstraint, b: RenderGraphImageConstraint)
    requires
        a.spec_can_merge(b),
    ensures
        b.spec_can_merge(a),
        a.spec_merged(b) == b.spec_merged(a),
{
    lemma_flags_union_commutative(a.aspect_flags, b.aspect_flags);
    lemma_flags_union_commutative(a.usage_flags, b.usage_flags);
    lemma_flags_union_commutative(a.create_flags, b.create_flags);
}

/// Merging is associative over pairwise-mergeable triples, and the merges
/// never fail along the way: merging in any grouping resolves to the same
/// constraint, hence to the same specification.
pub proof fn lemma_merge_associative(
    a: RenderGraphImageConstraint,
    b: RenderGraphImageConstraint,
    c: RenderGraphImageConstraint,
)
    requires
        a.spec_can_merge(b),
        a.spec_can_merge(c),
        b.spec_can_merge(c),
    ensures
        a.spec_merged(b).spec_can_merge(c),
        a.spec_can_merge(b.spec_merged(c)),
        a.spec_merged(b).spec_merged(c) == a.spec_merged(b.spec_merged(c)),
{
    lemma_flags_union_associative(a.aspect_flags, b.aspect_flags, c.aspect_flags);
    lemma_flags_union_associative(a.usage_flags, b.usage_flags, c.usage_flags);
    lemma_flags_union_associative(a.create_flags, b.create_flags, c.create_flags);
}

/// Order independence of merging: for a pairwise-mergeable triple, merging in
/// either order around the first constraint yields the same resolved result.
pub proof fn lemma_merge_order_independent(
    a: RenderGraphImageConstraint,
    b: RenderGraphImageConstraint,
    c: RenderGraphImageConstraint,
)
    requires
        a.spec_can_merge(b),
        a.spec_can_merge(c),
        b.spec_can_merge(c),
    ensures
        a.spec_merged(b).spec_can_merge(c),
        a.spec_merged(c).spec_can_merge(b),
        a.spec_merged(b).spec_merged(c) == a.spec_merged(c).spec_merged(b),
        a.spec_merged(b).spec_merged(c).spec_to_specification() == a.spec_merged(
            c,
        ).spec_merged(b).spec_to_specification(),
{
    lemma_merge_commutative(b, c);
    lemma_merge_associative(a, b, c);
    lemma_merge_associative(a, c, b);
}

/// Round trip between constraints and specifications: a constraint that
/// resolves to a specification, merged with the constraint form of that
/// specification, still resolves to the same specification (the merge cannot
/// fail). Converting the specification's own constraint form back resolves to
/// the specification exactly.
pub proof fn lemma_constraint_specification_round_trip(
    c: RenderGraphImageConstraint,
    s: RenderGraphImageSpecification,
)
    requires
        c.spec_to_specification() == Some(s),
    ensures
        RenderGraphImageConstraint::spec_from_specification(s).spec_to_specification() == Some(s),
        c.spec_can_merge(RenderGraphImageConstraint::spec_from_specification(s)),
        c.spec_merged(
            RenderGraphImageConstraint::spec_from_specification(s),
        ).spec_to_specification() == Some(s),
{
    lemma_flags_union_idempotent(s.aspect_flags);
    lemma_flags_union_idempotent(s.usage_flags);
    lemma_flags_union_idempotent(s.create_flags);
}

} // verus!
