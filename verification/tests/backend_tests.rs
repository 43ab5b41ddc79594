//! Tests for the backend-facing texture and render-target models.

use render_graph::assets::FontId;
use render_graph::assets::TypefaceId;
use render_graph::cooked_shader::CookedShader;
use render_graph::cooked_shader::RafxShaderResource;
use render_graph::cooked_shader::RafxShaderStageReflection;
use render_graph::cooked_shader::ReflectedDescriptorSetLayout;
use render_graph::cooked_shader::ReflectedDescriptorSetLayoutBinding;
use render_graph::cooked_shader::ReflectedEntryPoint;
use render_graph::cooked_shader::ReflectedVertexInput;
use render_graph::render_target::RafxRenderTargetDef;
use render_graph::render_target::RafxRenderTargetMetal;
use render_graph::render_target::RafxRenderTargetMetalInner;
use render_graph::render_target::RafxTexture;
use render_graph::render_target::RafxTextureMetal;
use render_graph::texture::RafxApiError;
use render_graph::texture::RafxExtents3D;
use render_graph::texture::RafxRawImageGl;
use render_graph::texture::RafxTextureDef;
use render_graph::texture::RafxTextureDimensions;
use render_graph::texture::RafxTextureGl;
use render_graph::texture::FORMAT_B8G8R8A8_UNORM;
use render_graph::texture::FORMAT_R16G16B16A16_SFLOAT;
use render_graph::texture::FORMAT_R8G8B8A8_UNORM;
use render_graph::texture::GL_TEXTURE_2D;
use render_graph::texture::GL_TEXTURE_CUBE_MAP;
use render_graph::texture::RESOURCE_TYPE_TEXTURE;
use render_graph::texture::RESOURCE_TYPE_TEXTURE_CUBE;

fn texture_def_2d(format: u32) -> RafxTextureDef {
    RafxTextureDef {
        extents: RafxExtents3D {
            width: 512,
            height: 512,
            depth: 1,
        },
        array_length: 1,
        mip_count: 1,
        sample_count: 1,
        format,
        resource_type: RESOURCE_TYPE_TEXTURE,
        dimensions: RafxTextureDimensions::Auto,
    }
}

#[test]
fn raw_image_ids_follow_the_variant() {
    let texture = RafxRawImageGl::Texture(7);
    assert_eq!(texture.gl_texture_id(), Some(7));
    assert_eq!(texture.gl_renderbuffer_id(), None);
    let renderbuffer = RafxRawImageGl::Renderbuffer(3);
    assert_eq!(renderbuffer.gl_texture_id(), None);
    assert_eq!(renderbuffer.gl_renderbuffer_id(), Some(3));
}

#[test]
fn auto_dimensions_resolve_from_extents() {
    let flat = RafxExtents3D {
        width: 64,
        height: 1,
        depth: 1,
    };
    let square = RafxExtents3D {
        width: 64,
        height: 64,
        depth: 1,
    };
    let volume = RafxExtents3D {
        width: 64,
        height: 64,
        depth: 8,
    };
    assert_eq!(
        RafxTextureDimensions::Auto.determine_dimensions(flat),
        RafxTextureDimensions::Dim1D
    );
    assert_eq!(
        RafxTextureDimensions::Auto.determine_dimensions(square),
        RafxTextureDimensions::Dim2D
    );
    assert_eq!(
        RafxTextureDimensions::Auto.determine_dimensions(volume),
        RafxTextureDimensions::Dim3D
    );
    assert_eq!(
        RafxTextureDimensions::Dim2D.determine_dimensions(volume),
        RafxTextureDimensions::Dim2D
    );
}

#[test]
fn new_textures_wrap_a_fresh_texture_object() {
    let def = texture_def_2d(FORMAT_R8G8B8A8_UNORM);
    let texture = RafxTextureGl::new(&def, 11, 99).unwrap();
    assert_eq!(*texture.texture_def(), def);
    assert_eq!(*texture.gl_raw_image(), RafxRawImageGl::Texture(11));
    assert_eq!(texture.inner.gl_target, GL_TEXTURE_2D);
    assert_eq!(texture.inner.texture_id, 99);
}

#[test]
fn existing_images_are_wrapped_unchanged() {
    let def = texture_def_2d(FORMAT_B8G8R8A8_UNORM);
    let texture =
        RafxTextureGl::from_existing(Some(RafxRawImageGl::Renderbuffer(4)), &def, 11, 1).unwrap();
    assert_eq!(*texture.gl_raw_image(), RafxRawImageGl::Renderbuffer(4));
}

#[test]
fn cube_resources_bind_the_cube_target() {
    let mut def = texture_def_2d(FORMAT_R8G8B8A8_UNORM);
    def.resource_type = RESOURCE_TYPE_TEXTURE | RESOURCE_TYPE_TEXTURE_CUBE;
    let texture = RafxTextureGl::new(&def, 5, 1).unwrap();
    assert_eq!(texture.inner.gl_target, GL_TEXTURE_CUBE_MAP);
}

#[test]
fn non_2d_textures_are_rejected_by_gl() {
    let mut def = texture_def_2d(FORMAT_R8G8B8A8_UNORM);
    def.extents.depth = 4;
    assert_eq!(
        RafxTextureGl::new(&def, 5, 1).unwrap_err(),
        RafxApiError::UnsupportedDimensions
    );
}

#[test]
fn unsupported_formats_are_rejected_by_gl() {
    let def = texture_def_2d(FORMAT_R16G16B16A16_SFLOAT);
    assert_eq!(
        RafxTextureGl::new(&def, 5, 1).unwrap_err(),
        RafxApiError::UnsupportedFormat
    );
}

#[test]
fn render_targets_expose_their_parts() {
    let rt_def = RafxRenderTargetDef {
        extents: RafxExtents3D {
            width: 1280,
            height: 720,
            depth: 1,
        },
        array_length: 1,
        mip_count: 1,
        sample_count: 1,
        format: FORMAT_B8G8R8A8_UNORM,
        resource_type: RESOURCE_TYPE_TEXTURE,
        dimensions: RafxTextureDimensions::Dim2D,
    };
    let texture_def = rt_def.to_texture_def();
    assert_eq!(texture_def.extents.width, 1280);
    assert_eq!(texture_def.format, FORMAT_B8G8R8A8_UNORM);
    let texture = RafxTexture::Metal(RafxTextureMetal {
        texture_def,
        texture: 17,
    });
    let target = RafxRenderTargetMetal {
        inner: RafxRenderTargetMetalInner {
            texture,
            render_target_def: rt_def,
        },
    };
    assert_eq!(*target.render_target_def(), rt_def);
    assert_eq!(*target.texture(), texture);
    assert_eq!(*target.texture().texture_def(), texture_def);
}

#[test]
fn asset_and_shader_metadata_hold_their_fields() {

    assert_eq!(TypefaceId(3), TypefaceId(3));
    assert_ne!(FontId(1), FontId(2));

    let resource = RafxShaderResource {
        resource_type: 1,
        set_index: 0,
        binding: 2,
        element_count: 1,
        name: Some(String::from("smp")),
    };
    let layout = ReflectedDescriptorSetLayout {
        bindings: vec![ReflectedDescriptorSetLayoutBinding {
            resource: resource.clone(),
            immutable_samplers: None,
            internal_buffer_per_descriptor_size: Some(64),
        }],
    };
    let entry_point = ReflectedEntryPoint {
        rafx_reflection: RafxShaderStageReflection {
            shader_stage: 1,
            entry_point_name: String::from("main"),
            resources: vec![resource],
        },
        descriptor_set_layouts: vec![Some(layout), None],
        vertex_inputs: vec![ReflectedVertexInput {
            name: String::from("in_pos"),
            semantic: String::from("POSITION"),
            location: 0,
        }],
    };
    let cooked = CookedShader {
        spv: vec![3, 2, 35, 7],
        metal_source: String::from("fragment void main() {}"),
        entry_points: vec![entry_point],
    };
    assert_eq!(cooked.spv.len(), 4);
    assert_eq!(cooked.entry_points[0].vertex_inputs[0].semantic, "POSITION");
    assert_eq!(
        cooked.entry_points[0]
            .descriptor_set_layouts[0]
            .as_ref()
            .unwrap()
            .bindings[0]
            .internal_buffer_per_descriptor_size,
        Some(64)
    );
}
