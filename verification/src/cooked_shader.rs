//! Reflection metadata carried with a compiled ("cooked") shader: what the
//! framework needs to create root signatures and descriptor sets around the
//! shader's binary.

use vstd::prelude::*;

verus! {

/// One resource a shader stage declares: a texture, sampler or buffer
/// binding at a (set, binding) slot.
#[derive(Debug, Clone)]
pub struct RafxShaderResource {
    /// Kind of the resource, as resource-type flags.
    pub resource_type: u32,
    /// The descriptor set the binding lives in.
    pub set_index: u32,
    /// The binding slot within the set.
    pub binding: u32,
    /// Array size of the binding; 1 for a plain binding.
    pub element_count: u32,
    /// The name the shader declares the resource under.
    pub name: Option<String>,
}

/// A full description of an immutable sampler.
#[derive(Debug, Clone, Copy, PartialEq, Eq, Structural)]
pub struct RafxSamplerDef {
    pub min_filter: u32,
    pub mag_filter: u32,
    pub mip_map_mode: u32,
    pub address_mode_u: u32,
    pub address_mode_v: u32,
    pub address_mode_w: u32,
    pub compare_op: u32,
}

/// The reflection of one shader stage: its entry point and the resources
/// it declares.
#[derive(Debug, Clone)]
pub struct RafxShaderStageReflection {
    /// Which stage this is, as stage flags.
    pub shader_stage: u32,
    /// Name of the entry point function.
    pub entry_point_name: String,
    /// Every resource the stage declares.
    pub resources: Vec<RafxShaderResource>,
}

/// Basic info required to create one descriptor-set-layout binding.
#[derive(Debug, Clone)]
pub struct ReflectedDescriptorSetLayoutBinding {
    /// The shader resource bound at this slot.
    pub resource: RafxShaderResource,
    /// Samplers created here are automatically created and bound.
    pub immutable_samplers: Option<Vec<RafxSamplerDef>>,
    /// When non-zero, a buffer of this size is allocated and bound
    /// automatically per descriptor.
    pub internal_buffer_per_descriptor_size: Option<u32>,
}

/// One descriptor set layout of a reflected entry point. The bindings are
/// not indexable by binding slot: they may be sparse.
#[derive(Debug, Clone)]
pub struct ReflectedDescriptorSetLayout {
    pub bindings: Vec<ReflectedDescriptorSetLayoutBinding>,
}

/// One vertex input attribute of a reflected entry point.
#[derive(Debug, Clone)]
pub struct ReflectedVertexInput {
    /// The name the shader declares the input under.
    pub name: String,
    /// The semantic the asset pipeline binds the input by.
    pub semantic: String,
    /// The shader location of the input.
    pub location: u32,
}

/// Everything reflected about one entry point of a cooked shader.
#[derive(Debug, Clone)]
pub struct ReflectedEntryPoint {
    /// The stage-level reflection the backend API consumes.
    pub rafx_reflection: RafxShaderStageReflection,
    /// Descriptor set layouts, indexed by set; `None` for unused sets.
    pub descriptor_set_layouts: Vec<Option<ReflectedDescriptorSetLayout>>,
    /// Vertex inputs, for building vertex layouts.
    pub vertex_inputs: Vec<ReflectedVertexInput>,
}

/// An import format holding a compiled shader: the SPIR-V binary, the
/// translated Metal source, and the reflection of every entry point.
#[derive(Debug, Clone)]
pub struct CookedShader {
    pub spv: Vec<u8>,
    pub metal_source: String,
    pub entry_points: Vec<ReflectedEntryPoint>,
}

} // verus!
