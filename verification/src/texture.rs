//! Textures as the OpenGL ES backend sees them, modeled as plain values:
//! the ids, descriptions and target selection the logic reads. The calls
//! into the driver itself (creating and destroying texture objects) belong
//! to the backend layer outside this crate, which hands the resulting ids
//! in.

use vstd::prelude::*;

verus! {

/// A texture object id handed out by the driver.
pub type TextureId = u32;

/// A renderbuffer object id handed out by the driver.
pub type RenderbufferId = u32;

/// The GL texture target for plain 2D textures.
pub const GL_TEXTURE_2D: u32 = 0x0DE1;

/// The GL texture target for cube maps.
pub const GL_TEXTURE_CUBE_MAP: u32 = 0x8513;

/// Resource-type flag: the resource is a texture.
pub const RESOURCE_TYPE_TEXTURE: u32 = 1;
/// Resource-type flag: the texture is a cube map.
pub const RESOURCE_TYPE_TEXTURE_CUBE: u32 = 2;
/// Resource-type flag: the resource is a color render target.
pub const RESOURCE_TYPE_RENDER_TARGET_COLOR: u32 = 4;
/// Resource-type flag: the resource is a depth/stencil render target.
pub const RESOURCE_TYPE_RENDER_TARGET_DEPTH_STENCIL: u32 = 8;

/// Pixel format code: 8-bit RGBA, unsigned normalized.
pub const FORMAT_R8G8B8A8_UNORM: u32 = 37;
/// Pixel format code: 8-bit BGRA, unsigned normalized.
pub const FORMAT_B8G8R8A8_UNORM: u32 = 44;
/// Pixel format code: 16-bit floating-point RGBA.
pub const FORMAT_R16G16B16A16_SFLOAT: u32 = 97;
/// Pixel format code: 32-bit floating-point depth.
pub const FORMAT_D32_SFLOAT: u32 = 126;

/// What can go wrong when wrapping or describing a backend texture.
#[derive(Debug, Clone, Copy, PartialEq, Eq, Structural)]
pub enum RafxApiError {
    /// The backend only supports 2D textures.
    UnsupportedDimensions,
    /// The backend cannot store the requested pixel format.
    UnsupportedFormat,
}

/// The result type of the backend-facing calls.
pub type RafxResult<T> = Result<T, RafxApiError>;

/// Width, height and depth of a texture.
#[derive(Debug, Clone, Copy, PartialEq, Eq, Structural, Hash)]
pub struct RafxExtents3D {
    pub width: u32,
    pub height: u32,
    pub depth: u32,
}

/// The dimensionality of a texture; `Auto` derives it from the extents.
#[derive(Debug, Clone, Copy, PartialEq, Eq, Structural, Hash)]
pub enum RafxTextureDimensions {
    Auto,
    Dim1D,
    Dim2D,
    Dim3D,
}

impl RafxTextureDimensions {
    /// The dimensionality `Auto` resolves to for the given extents: 3D
    /// when there is depth, else 2D when there is height, else 1D.
    pub open spec fn spec_determine_dimensions(
        self,
        extents: RafxExtents3D,
    ) -> RafxTextureDimensions {
        match self {
            RafxTextureDimensions::Auto => if extents.depth > 1 {
                RafxTextureDimensions::Dim3D
            } else if extents.height > 1 {
                RafxTextureDimensions::Dim2D
            } else {
                RafxTextureDimensions::Dim1D
            },
            other => other,
        }
    }

    /// Resolve `Auto` against the given extents; explicit dimensionalities
    /// stay as they are.
    pub fn determine_dimensions(self, extents: RafxExtents3D) -> (r: RafxTextureDimensions)
        ensures
            r == self.spec_determine_dimensions(extents),
    {
        match self {
            RafxTextureDimensions::Auto => {
                if extents.depth > 1 {
                    RafxTextureDimensions::Dim3D
                } else if extents.height > 1 {
                    RafxTextureDimensions::Dim2D
                } else {
                    RafxTextureDimensions::Dim1D
                }
            },
            other => other,
        }
    }
}

/// A full description of a texture.
#[derive(Debug, Clone, Copy, PartialEq, Eq, Structural, Hash)]
pub struct RafxTextureDef {
    pub extents: RafxExtents3D,
    pub array_length: u32,
    pub mip_count: u32,
    pub sample_count: u32,
    pub format: u32,
    pub resource_type: u32,
    pub dimensions: RafxTextureDimensions,
}

impl RafxTextureDef {
    /// A sane texture description: no zero-sized axis and at least one
    /// layer and one mip level.
    pub open spec fn spec_wf(self) -> bool {
        &&& self.extents.width >= 1
        &&& self.extents.height >= 1
        &&& self.extents.depth >= 1
        &&& self.array_length >= 1
        &&& self.mip_count >= 1
    }

    /// Check that the description is sane.
    pub fn verify_def(&self) -> (r: bool)
        ensures
            r == self.spec_wf(),
    {
        self.extents.width >= 1 && self.extents.height >= 1 && self.extents.depth >= 1
            && self.array_length >= 1 && self.mip_count >= 1
    }
}

/// Whether the GL ES backend can store the given pixel format.
pub open spec fn spec_gl_texture_format_supported(format: u32) -> bool {
    format == FORMAT_R8G8B8A8_UNORM || format == FORMAT_B8G8R8A8_UNORM
}

/// Whether the GL ES backend can store the given pixel format.
pub fn gl_texture_format_supported(format: u32) -> (r: bool)
    ensures
        r == spec_gl_texture_format_supported(format),
{
    format == FORMAT_R8G8B8A8_UNORM || format == FORMAT_B8G8R8A8_UNORM
}

/// The raw GL object behind a texture: either a renderbuffer (for
/// swapchain surfaces) or a texture object.
#[derive(Debug, Clone, Copy, PartialEq, Eq, Structural)]
pub enum RafxRawImageGl {
    Renderbuffer(RenderbufferId),
    Texture(TextureId),
}

impl RafxRawImageGl {
    /// The texture object id, when this image is a texture.
    pub fn gl_texture_id(&self) -> (r: Option<TextureId>)
        ensures
            r == (match *self {
                RafxRawImageGl::Renderbuffer(_) => None::<TextureId>,
                RafxRawImageGl::Texture(id) => Some(id),
            }),
    {
        match self {
            RafxRawImageGl::Renderbuffer(_) => None,
            RafxRawImageGl::Texture(id) => Some(*id),
        }
    }

    /// The renderbuffer object id, when this image is a renderbuffer.
    pub fn gl_renderbuffer_id(&self) -> (r: Option<RenderbufferId>)
        ensures
            r == (match *self {
                RafxRawImageGl::Renderbuffer(id) => Some(id),
                RafxRawImageGl::Texture(_) => None::<RenderbufferId>,
            }),
    {
        match self {
            RafxRawImageGl::Renderbuffer(id) => Some(*id),
            RafxRawImageGl::Texture(_) => None,
        }
    }
}

/// The data a GL texture carries: its description, the raw GL object, the
/// GL target it binds to, and a unique id for identity comparisons.
#[derive(Debug, Clone, Copy, PartialEq, Eq, Structural)]
pub struct RafxTextureGlInner {
    pub texture_def: RafxTextureDef,
    pub image: RafxRawImageGl,
    pub gl_target: u32,
    pub texture_id: u32,
}

/// A texture of the GL ES backend.
#[derive(Debug, Clone, Copy, PartialEq, Eq, Structural)]
pub struct RafxTextureGl {
    pub inner: RafxTextureGlInner,
}

impl RafxTextureGl {
    /// The description this texture was made with.
    pub fn texture_def(&self) -> (r: &RafxTextureDef)
        ensures
            *r == self.inner.texture_def,
    {
        &self.inner.texture_def
    }

    /// The raw GL object behind this texture.
    pub fn gl_raw_image(&self) -> (r: &RafxRawImageGl)
        ensures
            *r == self.inner.image,
    {
        &self.inner.image
    }

    /// Wrap a freshly created texture object. `fresh_texture` is the
    /// texture object id the driver handed out, and `texture_id` a unique
    /// id from the backend's counter.
    pub fn new(
        texture_def: &RafxTextureDef,
        fresh_texture: TextureId,
        texture_id: u32,
    ) -> (r: RafxResult<RafxTextureGl>)
        requires
            texture_def.spec_wf(),
        ensures
            r == RafxTextureGl::spec_from_existing(
                None::<RafxRawImageGl>,
                *texture_def,
                fresh_texture,
                texture_id,
            ),
    {
        Self::from_existing(None, texture_def, fresh_texture, texture_id)
    }

    /// What `from_existing` returns: only 2D textures in a format the
    /// backend can store are representable; the raw image is the existing
    /// one when given (wrapping a swapchain image), else the freshly
    /// created texture object; cube-map resources bind to the cube-map
    /// target.
    pub open spec fn spec_from_existing(
        existing_image: Option<RafxRawImageGl>,
        texture_def: RafxTextureDef,
        fresh_texture: TextureId,
        texture_id: u32,
    ) -> RafxResult<RafxTextureGl> {
        if texture_def.dimensions.spec_determine_dimensions(texture_def.extents)
            != RafxTextureDimensions::Dim2D {
            Err(RafxApiError::UnsupportedDimensions)
        } else if !spec_gl_texture_format_supported(texture_def.format) {
            Err(RafxApiError::UnsupportedFormat)
        } else {
            Ok(
                RafxTextureGl {
                    inner: RafxTextureGlInner {
                        texture_def,
                        image: match existing_image {
                            Some(image) => image,
                            None => RafxRawImageGl::Texture(fresh_texture),
                        },
                        gl_target: if texture_def.resource_type & RESOURCE_TYPE_TEXTURE_CUBE
                            != 0 {
                            GL_TEXTURE_CUBE_MAP
                        } else {
                            GL_TEXTURE_2D
                        },
                        texture_id,
                    },
                },
            )
        }
    }

    /// Wrap an existing raw image (most often a provided swapchain image),
    /// or a freshly created texture object when none is given.
    pub fn from_existing(
        existing_image: Option<RafxRawImageGl>,
        texture_def: &RafxTextureDef,
        fresh_texture: TextureId,
        texture_id: u32,
    ) -> (r: RafxResult<RafxTextureGl>)
        requires
            texture_def.spec_wf(),
        ensures
            r == RafxTextureGl::spec_from_existing(
                existing_image,
                *texture_def,
                fresh_texture,
                texture_id,
            ),
    {
        let dimensions = texture_def.dimensions.determine_dimensions(texture_def.extents);
        if dimensions != RafxTextureDimensions::Dim2D {
            return Err(RafxApiError::UnsupportedDimensions);
        }
        if !gl_texture_format_supported(texture_def.format) {
            return Err(RafxApiError::UnsupportedFormat);
        }
        let image = match existing_image {
            Some(image) => image,
            None => RafxRawImageGl::Texture(fresh_texture),
        };
        let gl_target = if texture_def.resource_type & RESOURCE_TYPE_TEXTURE_CUBE != 0 {
            GL_TEXTURE_CUBE_MAP
        } else {
            GL_TEXTURE_2D
        };
        Ok(
            RafxTextureGl {
                inner: RafxTextureGlInner {
                    texture_def: *texture_def,
                    image,
                    gl_target,
                    texture_id,
                },
            },
        )
    }
}

} // verus!
