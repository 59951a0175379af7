//! The textures, texture views and the sampler a render creates, and where
//! copies into and out of textures start.

use vstd::prelude::*;

use crate::raster::Image;

verus! {

/// Texel format of every texture of a render: four 8-bit channels, red,
/// green, blue, alpha, read as values in `0.0..=1.0`.
#[derive(Debug, Clone, Copy, PartialEq, Eq, Structural)]
pub enum TexelFormat {
    Rgba8Unorm,
}

/// Dimensionality of a texture.
#[derive(Debug, Clone, Copy, PartialEq, Eq, Structural)]
pub enum TextureDimension {
    D2,
}

/// How a texture may be used.
#[derive(Debug, Clone, Copy, PartialEq, Eq, Structural)]
pub struct TextureUsage {
    /// Drawn into by a render pass.
    pub render_attachment: bool,
    /// Copied from.
    pub copy_src: bool,
    /// Bound to a shader for sampling.
    pub texture_binding: bool,
    /// Copied into.
    pub copy_dst: bool,
}

/// The view a texture is bound or drawn through.
#[derive(Debug, Clone, Copy, PartialEq, Eq, Structural)]
pub enum ViewSpec {
    /// The default view: every mip level, every layer and every aspect, in
    /// the texture's own format and dimension.
    WholeTexture,
}

/// A texture to create on the GPU, and the view it is used through.
#[derive(Debug, Clone, Copy, PartialEq, Eq, Structural)]
pub struct TextureSpec {
    pub width: u32,
    pub height: u32,
    pub depth_or_array_layers: u32,
    pub mip_level_count: u32,
    pub sample_count: u32,
    pub dimension: TextureDimension,
    pub format: TexelFormat,
    pub usage: TextureUsage,
    /// Whether views may take formats other than the texture's own.
    pub other_view_formats: bool,
    pub view: ViewSpec,
}

/// A single-level, single-sample 2D RGBA8 texture of the given size, viewed
/// whole, with no other view formats.
pub open spec fn rgba_texture(width: u32, height: u32, usage: TextureUsage) -> TextureSpec {
    TextureSpec {
        width,
        height,
        depth_or_array_layers: 1,
        mip_level_count: 1,
        sample_count: 1,
        dimension: TextureDimension::D2,
        format: TexelFormat::Rgba8Unorm,
        usage,
        other_view_formats: false,
        view: ViewSpec::WholeTexture,
    }
}

/// The texture the shader renders into: drawn into, then copied out.
pub open spec fn output_texture_spec(width: u32, height: u32) -> TextureSpec {
    rgba_texture(
        width,
        height,
        TextureUsage {
            render_attachment: true,
            copy_src: true,
            texture_binding: false,
            copy_dst: false,
        },
    )
}

/// The texture an input image is uploaded into: copied into, then sampled.
pub open spec fn input_texture_spec(width: u32, height: u32) -> TextureSpec {
    rgba_texture(
        width,
        height,
        TextureUsage {
            render_attachment: false,
            copy_src: false,
            texture_binding: true,
            copy_dst: true,
        },
    )
}

/// The render target of a `width` by `height` render.
pub fn output(width: u32, height: u32) -> (texture: TextureSpec)
    ensures
        texture == output_texture_spec(width, height),
        texture.width == width,
        texture.height == height,
        texture.sample_count == 1,
{
    TextureSpec {
        width,
        height,
        depth_or_array_layers: 1,
        mip_level_count: 1,
        sample_count: 1,
        dimension: TextureDimension::D2,
        format: TexelFormat::Rgba8Unorm,
        usage: TextureUsage {
            render_attachment: true,
            copy_src: true,
            texture_binding: false,
            copy_dst: false,
        },
        other_view_formats: false,
        view: ViewSpec::WholeTexture,
    }
}

/// Aspect of a texture that a copy touches.
#[derive(Debug, Clone, Copy, PartialEq, Eq, Structural)]
pub enum TextureAspect {
    All,
}

/// Where in a texture a copy into or out of it starts.
#[derive(Debug, Clone, Copy, PartialEq, Eq, Structural)]
pub struct CopyTarget {
    pub mip_level: u32,
    pub origin_x: u32,
    pub origin_y: u32,
    pub origin_z: u32,
    pub aspect: TextureAspect,
}

/// The whole texture from its first texel: mip level 0, origin 0, all
/// aspects.
pub open spec fn texture_start_spec() -> CopyTarget {
    CopyTarget { mip_level: 0, origin_x: 0, origin_y: 0, origin_z: 0, aspect: TextureAspect::All }
}

/// The start of a texture, where every copy of a render begins.
pub fn texture_start() -> (target: CopyTarget)
    ensures
        target == texture_start_spec(),
{
    CopyTarget { mip_level: 0, origin_x: 0, origin_y: 0, origin_z: 0, aspect: TextureAspect::All }
}

/// An input texture together with the bytes to write into it and how they are
/// laid out.
#[derive(Debug)]
pub struct TextureUpload {
    pub texture: TextureSpec,
    /// The bytes written into the texture, four per texel, row after row.
    pub bytes: Vec<u8>,
    /// Where in `bytes` the first row starts.
    pub offset: u64,
    /// Distance in `bytes` from the start of one row to the next.
    pub bytes_per_row: u32,
    /// Rows per layer; `None` for a single-layer texture.
    pub rows_per_image: Option<u32>,
    /// Where in the texture the write starts.
    pub destination: CopyTarget,
}

/// The texture an input image is sampled from, with the image's bytes written
/// into all of it from its start, rows packed `4 * width` bytes apart from
/// offset 0.
pub fn input(image: &Image) -> (upload: TextureUpload)
    requires
        4 * image@.width <= u32::MAX,
    ensures
        upload.texture == input_texture_spec(image@.width, image@.height),
        upload.texture.width == image@.width,
        upload.texture.height == image@.height,
        upload.texture.sample_count == 1,
        upload.texture.mip_level_count == 1,
        upload.texture.depth_or_array_layers == 1,
        upload.bytes@ == image@.bytes,
        upload.offset == 0,
        upload.bytes_per_row == 4 * image@.width,
        upload.rows_per_image is None,
        upload.destination == texture_start_spec(),
{
    let (width, height) = image.dimensions();
    let bytes = vstd::slice::slice_to_vec(image.as_raw());
    TextureUpload {
        texture: TextureSpec {
            width,
            height,
            depth_or_array_layers: 1,
            mip_level_count: 1,
            sample_count: 1,
            dimension: TextureDimension::D2,
            format: TexelFormat::Rgba8Unorm,
            usage: TextureUsage {
                render_attachment: false,
                copy_src: false,
                texture_binding: true,
                copy_dst: true,
            },
            other_view_formats: false,
            view: ViewSpec::WholeTexture,
        },
        bytes,
        offset: 0,
        bytes_per_row: width * 4,
        rows_per_image: None,
        destination: texture_start(),
    }
}

/// What a sampler does with coordinates outside `0.0..=1.0`.
#[derive(Debug, Clone, Copy, PartialEq, Eq, Structural)]
pub enum AddressMode {
    ClampToEdge,
}

/// How a sampler combines texels.
#[derive(Debug, Clone, Copy, PartialEq, Eq, Structural)]
pub enum FilterMode {
    Nearest,
    Linear,
}

/// The levels of detail a sampler may use.
#[derive(Debug, Clone, Copy, PartialEq, Eq, Structural)]
pub enum LodRange {
    /// Levels `0.0` through `32.0`, wgpu's default.
    ZeroToThirtyTwo,
}

/// A sampler to create on the GPU.
#[derive(Debug, Clone, Copy, PartialEq, Eq, Structural)]
pub struct SamplerSpec {
    pub address_mode_u: AddressMode,
    pub address_mode_v: AddressMode,
    pub address_mode_w: AddressMode,
    pub mag_filter: FilterMode,
    pub min_filter: FilterMode,
    pub mipmap_filter: FilterMode,
    pub lod_range: LodRange,
    /// Whether the sampler compares against a reference (a depth sampler).
    pub comparison: bool,
    /// Largest anisotropy used; 1 is none.
    pub anisotropy_clamp: u16,
    /// Whether a border colour is used for out-of-range coordinates.
    pub border_color: bool,
}

/// Clamps at the edges, filters linearly within a level, takes the nearest
/// mip level; full level-of-detail range, no comparison, no anisotropy, no
/// border colour.
pub open spec fn input_sampler_spec() -> SamplerSpec {
    SamplerSpec {
        address_mode_u: AddressMode::ClampToEdge,
        address_mode_v: AddressMode::ClampToEdge,
        address_mode_w: AddressMode::ClampToEdge,
        mag_filter: FilterMode::Linear,
        min_filter: FilterMode::Linear,
        mipmap_filter: FilterMode::Nearest,
        lod_range: LodRange::ZeroToThirtyTwo,
        comparison: false,
        anisotropy_clamp: 1,
        border_color: false,
    }
}

/// The sampler the shader reads the input texture through.
pub fn sampler() -> (sampler: SamplerSpec)
    ensures
        sampler == input_sampler_spec(),
{
    SamplerSpec {
        address_mode_u: AddressMode::ClampToEdge,
        address_mode_v: AddressMode::ClampToEdge,
        address_mode_w: AddressMode::ClampToEdge,
        mag_filter: FilterMode::Linear,
        min_filter: FilterMode::Linear,
        mipmap_filter: FilterMode::Nearest,
        lod_range: LodRange::ZeroToThirtyTwo,
        comparison: false,
        anisotropy_clamp: 1,
        border_color: false,
    }
}

/// Law: the render target is a single-level, single-sample, single-layer 2D
/// RGBA8 texture of exactly the requested width and height, in that order,
/// that is only drawn into and copied from, viewed whole in its own format.
pub proof fn lemma_output_texture(width: u32, height: u32)
    ensures
        output_texture_spec(width, height).width == width,
        output_texture_spec(width, height).height == height,
        output_texture_spec(width, height).depth_or_array_layers == 1,
        output_texture_spec(width, height).mip_level_count == 1,
        output_texture_spec(width, height).sample_count == 1,
        output_texture_spec(width, height).dimension == TextureDimension::D2,
        output_texture_spec(width, height).format == TexelFormat::Rgba8Unorm,
        output_texture_spec(width, height).usage.render_attachment,
        output_texture_spec(width, height).usage.copy_src,
        !output_texture_spec(width, height).usage.texture_binding,
        !output_texture_spec(width, height).usage.copy_dst,
        !output_texture_spec(width, height).other_view_formats,
        output_texture_spec(width, height).view == ViewSpec::WholeTexture,
{
}

/// Law: an input texture is a single-level, single-sample, single-layer 2D
/// RGBA8 texture of exactly the image's width and height, in that order, that
/// is only written into and sampled, viewed whole in its own format.
pub proof fn lemma_input_texture(width: u32, height: u32)
    ensures
        input_texture_spec(width, height).width == width,
        input_texture_spec(width, height).height == height,
        input_texture_spec(width, height).depth_or_array_layers == 1,
        input_texture_spec(width, height).mip_level_count == 1,
        input_texture_spec(width, height).sample_count == 1,
        input_texture_spec(width, height).dimension == TextureDimension::D2,
        input_texture_spec(width, height).format == TexelFormat::Rgba8Unorm,
        !input_texture_spec(width, height).usage.render_attachment,
        !input_texture_spec(width, height).usage.copy_src,
        input_texture_spec(width, height).usage.texture_binding,
        input_texture_spec(width, height).usage.copy_dst,
        !input_texture_spec(width, height).other_view_formats,
        input_texture_spec(width, height).view == ViewSpec::WholeTexture,
{
}

/// Law: every copy starts at the first texel of the top mip level, on all
/// aspects.
pub proof fn lemma_texture_start()
    ensures
        texture_start_spec().mip_level == 0,
        texture_start_spec().origin_x == 0,
        texture_start_spec().origin_y == 0,
        texture_start_spec().origin_z == 0,
        texture_start_spec().aspect == TextureAspect::All,
{
}

/// Law: the input sampler clamps every coordinate at the edges, filters
/// linearly when magnifying and minifying, takes the nearest mip level, and
/// uses the full level-of-detail range without comparison, anisotropy or
/// border colour.
pub proof fn lemma_input_sampler()
    ensures
        input_sampler_spec().address_mode_u == AddressMode::ClampToEdge,
        input_sampler_spec().address_mode_v == AddressMode::ClampToEdge,
        input_sampler_spec().address_mode_w == AddressMode::ClampToEdge,
        input_sampler_spec().mag_filter == FilterMode::Linear,
        input_sampler_spec().min_filter == FilterMode::Linear,
        input_sampler_spec().mipmap_filter == FilterMode::Nearest,
        input_sampler_spec().lod_range == LodRange::ZeroToThirtyTwo,
        !input_sampler_spec().comparison,
        input_sampler_spec().anisotropy_clamp == 1,
        !input_sampler_spec().border_color,
{
}

} // verus!
