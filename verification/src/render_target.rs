//! Render targets as the Metal backend sees them, modeled as plain
//! values. The Metal texture object itself is opaque to this crate and is
//! carried as a handle; the descriptions and the texture metadata are what
//! the logic reads.

use vstd::prelude::*;
use crate::texture::RafxExtents3D;
use crate::texture::RafxTextureDef;
use crate::texture::RafxTextureDimensions;
use crate::texture::RafxTextureGl;

verus! {

/// A texture of the Metal backend: its description plus the opaque handle
/// of the driver-side texture object.
#[derive(Debug, Clone, Copy, PartialEq, Eq, Structural)]
pub struct RafxTextureMetal {
    pub texture_def: RafxTextureDef,
    /// Opaque handle of the backend texture object.
    pub texture: u64,
}

/// A texture of whichever backend is in use.
#[derive(Debug, Clone, Copy, PartialEq, Eq, Structural)]
pub enum RafxTexture {
    Gl(RafxTextureGl),
    Metal(RafxTextureMetal),
}

impl RafxTexture {
    /// The description the texture was made with, whatever the backend.
    pub fn texture_def(&self) -> (r: &RafxTextureDef)
        ensures
            *r == (match *self {
                RafxTexture::Gl(t) => t.inner.texture_def,
                RafxTexture::Metal(t) => t.texture_def,
            }),
    {
        match self {
            RafxTexture::Gl(t) => &t.inner.texture_def,
            RafxTexture::Metal(t) => &t.texture_def,
        }
    }
}

/// A full description of a render target.
#[derive(Debug, Clone, Copy, PartialEq, Eq, Structural)]
pub struct RafxRenderTargetDef {
    pub extents: RafxExtents3D,
    pub array_length: u32,
    pub mip_count: u32,
    pub sample_count: u32,
    pub format: u32,
    pub resource_type: u32,
    pub dimensions: RafxTextureDimensions,
}

impl RafxRenderTargetDef {
    /// The description of the texture backing this render target.
    pub open spec fn spec_to_texture_def(self) -> RafxTextureDef {
        RafxTextureDef {
            extents: self.extents,
            array_length: self.array_length,
            mip_count: self.mip_count,
            sample_count: self.sample_count,
            format: self.format,
            resource_type: self.resource_type,
            dimensions: self.dimensions,
        }
    }

    /// The description of the texture backing this render target.
    pub fn to_texture_def(&self) -> (r: RafxTextureDef)
        ensures
            r == self.spec_to_texture_def(),
    {
        RafxTextureDef {
            extents: self.extents,
            array_length: self.array_length,
            mip_count: self.mip_count,
            sample_count: self.sample_count,
            format: self.format,
            resource_type: self.resource_type,
            dimensions: self.dimensions,
        }
    }
}

/// The data a Metal render target carries: the texture it renders into,
/// and the description it was made with.
#[derive(Debug, Clone, Copy, PartialEq, Eq, Structural)]
pub struct RafxRenderTargetMetalInner {
    pub texture: RafxTexture,
    pub render_target_def: RafxRenderTargetDef,
}

/// A render target of the Metal backend.
#[derive(Debug, Clone, Copy, PartialEq, Eq, Structural)]
pub struct RafxRenderTargetMetal {
    pub inner: RafxRenderTargetMetalInner,
}

impl RafxRenderTargetMetal {
    /// The description this render target was made with.
    pub fn render_target_def(&self) -> (r: &RafxRenderTargetDef)
        ensures
            *r == self.inner.render_target_def,
    {
        &self.inner.render_target_def
    }

    /// The texture this render target renders into.
    pub fn texture(&self) -> (r: &RafxTexture)
        ensures
            *r == self.inner.texture,
    {
        &self.inner.texture
    }
}

} // verus!
