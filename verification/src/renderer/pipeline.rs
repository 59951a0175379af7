//! The uniform parameters, bindings and render pipeline of a render.

use vstd::prelude::*;

use vstd::bytes::spec_u32_to_le_bytes;
use vstd::endian::{endianness, Endian};

use super::output::BufferUsage;
use super::textures::TexelFormat;

verus! {

/// The four bytes of `x` in the byte order of the machine.
pub open spec fn native_u32_bytes(x: u32) -> Seq<u8> {
    match endianness() {
        Endian::Little => spec_u32_to_le_bytes(x),
        Endian::Big => spec_u32_to_le_bytes(x).reverse(),
    }
}

/// `bytemuck::bytes_of` applied to the two words `[first, second]`: the
/// memory of the array, read as bytes, which is each word's four bytes in the
/// machine's byte order, `first` before `second`.
#[verifier::external_body]
fn bytes_of_words(first: u32, second: u32) -> (bytes: Vec<u8>)
    ensures
        bytes@ == native_u32_bytes(first) + native_u32_bytes(second),
{
    bytemuck::bytes_of(&[first, second]).to_vec()
}

/// How the uniform buffer may be used: bound as a uniform, nothing else.
pub open spec fn uniform_usage() -> BufferUsage {
    BufferUsage { uniform: true, copy_dst: false, map_read: false }
}

/// A buffer to create on the GPU with the given initial contents.
#[derive(Debug)]
pub struct UniformBuffer {
    pub contents: Vec<u8>,
    pub usage: BufferUsage,
}

/// The uniform buffer at binding 0: the shader's
/// `struct Params { width: u32, height: u32 }`, laid out as the GPU reads it,
/// usable as a uniform only.
pub fn uniform_buffer(width: u32, height: u32) -> (buffer: UniformBuffer)
    ensures
        buffer.contents@ == native_u32_bytes(width) + native_u32_bytes(height),
        buffer.contents@.len() == 8,
        buffer.usage == uniform_usage(),
{
    proof {
        vstd::bytes::lemma_auto_spec_u32_to_from_le_bytes();
        assert(native_u32_bytes(width).len() == 4);
        assert(native_u32_bytes(height).len() == 4);
    }
    UniformBuffer {
        contents: bytes_of_words(width, height),
        usage: BufferUsage { uniform: true, copy_dst: false, map_read: false },
    }
}

/// Shader stages that see a binding.
#[derive(Debug, Clone, Copy, PartialEq, Eq, Structural)]
pub struct Visibility {
    pub vertex: bool,
    pub fragment: bool,
}

/// What a binding holds.
#[derive(Debug, Clone, Copy, PartialEq, Eq, Structural)]
pub enum BindingKind {
    /// A uniform buffer without dynamic offset or minimum size.
    UniformBuffer,
    /// A single-sample 2D texture of filterable floats.
    FilterableTexture2d,
    /// A filtering sampler.
    FilteringSampler,
}

/// One binding of bind group 0.
#[derive(Debug, Clone, Copy, PartialEq, Eq, Structural)]
pub struct LayoutEntry {
    pub binding: u32,
    pub visibility: Visibility,
    pub kind: BindingKind,
}

/// Binding 0: the `Params` uniform, seen by both stages.
pub open spec fn params_entry() -> LayoutEntry {
    LayoutEntry {
        binding: 0,
        visibility: Visibility { vertex: true, fragment: true },
        kind: BindingKind::UniformBuffer,
    }
}

/// Binding 1: the first input image, seen by the fragment stage.
pub open spec fn input_texture_entry() -> LayoutEntry {
    LayoutEntry {
        binding: 1,
        visibility: Visibility { vertex: false, fragment: true },
        kind: BindingKind::FilterableTexture2d,
    }
}

/// Binding 2: the sampler for the input image, seen by the fragment stage.
pub open spec fn input_sampler_entry() -> LayoutEntry {
    LayoutEntry {
        binding: 2,
        visibility: Visibility { vertex: false, fragment: true },
        kind: BindingKind::FilteringSampler,
    }
}

/// The bindings of group 0: the uniform always; the input texture and its
/// sampler only when an input image is given.
pub open spec fn layout_entries(with_input: bool) -> Seq<LayoutEntry> {
    if with_input {
        seq![params_entry(), input_texture_entry(), input_sampler_entry()]
    } else {
        seq![params_entry()]
    }
}

/// The entries of the layout of bind group 0.
pub fn bind_group_layout(with_input: bool) -> (entries: Vec<LayoutEntry>)
    ensures
        entries@ == layout_entries(with_input),
{
    let mut entries: Vec<LayoutEntry> = Vec::new();
    entries.push(
        LayoutEntry {
            binding: 0,
            visibility: Visibility { vertex: true, fragment: true },
            kind: BindingKind::UniformBuffer,
        },
    );
    if with_input {
        entries.push(
            LayoutEntry {
                binding: 1,
                visibility: Visibility { vertex: false, fragment: true },
                kind: BindingKind::FilterableTexture2d,
            },
        );
        entries.push(
            LayoutEntry {
                binding: 2,
                visibility: Visibility { vertex: false, fragment: true },
                kind: BindingKind::FilteringSampler,
            },
        );
    }
    entries
}

/// The resource a binding of group 0 is given.
#[derive(Debug, Clone, Copy, PartialEq, Eq, Structural)]
pub enum GroupResource {
    /// The whole uniform buffer.
    ParamsBuffer,
    /// The default view of the input texture.
    InputTextureView,
    /// The input sampler.
    InputSampler,
}

/// One binding of bind group 0 and its resource.
#[derive(Debug, Clone, Copy, PartialEq, Eq, Structural)]
pub struct GroupEntry {
    pub binding: u32,
    pub resource: GroupResource,
}

/// The resource that fills a binding of the given kind.
pub open spec fn resource_for(kind: BindingKind) -> GroupResource {
    match kind {
        BindingKind::UniformBuffer => GroupResource::ParamsBuffer,
        BindingKind::FilterableTexture2d => GroupResource::InputTextureView,
        BindingKind::FilteringSampler => GroupResource::InputSampler,
    }
}

/// The entries of bind group 0: each binding of the layout, in its order,
/// with the resource its kind takes.
pub fn bind_group_entries(layout: &[LayoutEntry]) -> (entries: Vec<GroupEntry>)
    ensures
        entries@.len() == layout@.len(),
        forall|i: int|
            0 <= i < layout@.len() ==> #[trigger] entries@[i] == (GroupEntry {
                binding: layout@[i].binding,
                resource: resource_for(layout@[i].kind),
            }),
{
    let mut entries: Vec<GroupEntry> = Vec::new();
    let mut i: usize = 0;
    while i < layout.len()
        invariant
            i <= layout@.len(),
            entries@.len() == i,
            forall|j: int|
                0 <= j < i ==> #[trigger] entries@[j] == (GroupEntry {
                    binding: layout@[j].binding,
                    resource: resource_for(layout@[j].kind),
                }),
        decreases layout@.len() - i,
    {
        let entry = layout[i];
        let resource = match entry.kind {
            BindingKind::UniformBuffer => GroupResource::ParamsBuffer,
            BindingKind::FilterableTexture2d => GroupResource::InputTextureView,
            BindingKind::FilteringSampler => GroupResource::InputSampler,
        };
        entries.push(GroupEntry { binding: entry.binding, resource });
        i = i + 1;
    }
    entries
}

/// The layout of a pipeline: how many bind group layouts it takes, in group
/// order, and how many push-constant ranges.
#[derive(Debug, Clone, Copy, PartialEq, Eq, Structural)]
pub struct PipelineLayoutSpec {
    pub bind_group_layouts: u32,
    pub push_constant_ranges: u32,
}

/// Only the layout of bind group 0, no push constants.
pub open spec fn pipeline_layout_spec() -> PipelineLayoutSpec {
    PipelineLayoutSpec { bind_group_layouts: 1, push_constant_ranges: 0 }
}

/// The layout of the render pipeline.
pub fn pipeline_layout() -> (layout: PipelineLayoutSpec)
    ensures
        layout == pipeline_layout_spec(),
{
    PipelineLayoutSpec { bind_group_layouts: 1, push_constant_ranges: 0 }
}

/// How vertices are assembled into primitives.
#[derive(Debug, Clone, Copy, PartialEq, Eq, Structural)]
pub enum Topology {
    TriangleList,
}

/// Which winding faces the front.
#[derive(Debug, Clone, Copy, PartialEq, Eq, Structural)]
pub enum FrontFace {
    CounterClockwise,
}

/// How primitives are filled.
#[derive(Debug, Clone, Copy, PartialEq, Eq, Structural)]
pub enum PolygonMode {
    Fill,
}

/// Primitive assembly and rasterisation of the pipeline.
#[derive(Debug, Clone, Copy, PartialEq, Eq, Structural)]
pub struct PrimitiveSpec {
    pub topology: Topology,
    /// Whether strips are cut by an index format (only for strip topologies).
    pub strip_index_format: bool,
    pub front_face: FrontFace,
    /// Whether any face is culled.
    pub culling: bool,
    pub unclipped_depth: bool,
    pub polygon_mode: PolygonMode,
    pub conservative: bool,
}

/// A triangle list, counter-clockwise front faces, no culling, filled, with
/// depth clipped and no conservative rasterisation: wgpu's default.
pub open spec fn primitive_spec() -> PrimitiveSpec {
    PrimitiveSpec {
        topology: Topology::TriangleList,
        strip_index_format: false,
        front_face: FrontFace::CounterClockwise,
        culling: false,
        unclipped_depth: false,
        polygon_mode: PolygonMode::Fill,
        conservative: false,
    }
}

/// How the fragment output is combined with the target.
#[derive(Debug, Clone, Copy, PartialEq, Eq, Structural)]
pub enum BlendMode {
    /// The output replaces what the target held.
    Replace,
}

/// The colour the render target is cleared to before drawing.
#[derive(Debug, Clone, Copy, PartialEq, Eq, Structural)]
pub enum ClearColor {
    /// Opaque black: red, green and blue 0, alpha 1.
    Black,
}

/// The render pipeline, and the render pass with its single draw.
#[derive(Debug, Clone, Copy)]
pub struct PipelineSpec {
    pub layout: PipelineLayoutSpec,
    /// Entry point of the vertex stage in the shader module.
    pub vertex_entry: &'static str,
    /// Vertex buffers the vertex stage reads.
    pub vertex_buffers: u32,
    /// Entry point of the fragment stage, in the same shader module.
    pub fragment_entry: &'static str,
    /// Pipeline-overridable constants set for the stages.
    pub override_constants: u32,
    /// Whether workgroup memory is zeroed before use.
    pub zero_initialize_workgroup_memory: bool,
    /// Format of the single colour target.
    pub target_format: TexelFormat,
    pub blend: BlendMode,
    /// Whether all four channels are written.
    pub write_all_channels: bool,
    pub primitive: PrimitiveSpec,
    /// Whether a depth-stencil state is used.
    pub depth_stencil: bool,
    pub multisample_count: u32,
    pub multisample_mask: u64,
    pub alpha_to_coverage: bool,
    /// Whether the pipeline renders to several array layers at once.
    pub multiview: bool,
    /// Whether a pipeline cache is used.
    pub pipeline_cache: bool,
    /// What the target is cleared to before drawing.
    pub clear: ClearColor,
    /// Whether the drawn target is kept after the pass.
    pub store: bool,
    /// Whether the pass has a depth-stencil attachment.
    pub depth_stencil_attachment: bool,
    /// Whether the pass writes timestamps or runs occlusion queries.
    pub queries: bool,
    /// Vertices drawn, from vertex 0: one full-screen triangle.
    pub vertex_count: u32,
    /// Instances drawn, from instance 0.
    pub instance_count: u32,
}

/// Bind group 0 as the only layout; entry points `vs_main` and `fs_main` of
/// the one shader module, no vertex buffers, default compilation options; one
/// RGBA8 target replaced on all channels; wgpu's default primitive state; no
/// depth-stencil, one sample with every sample bit, no multiview, no cache; the
/// pass clears to black, stores, has no depth attachment or queries; three
/// vertices, one instance.
pub open spec fn render_pipeline_spec(pipeline: PipelineSpec) -> bool {
    &&& pipeline.layout == pipeline_layout_spec()
    &&& pipeline.vertex_entry@ == "vs_main"@
    &&& pipeline.vertex_buffers == 0
    &&& pipeline.fragment_entry@ == "fs_main"@
    &&& pipeline.override_constants == 0
    &&& pipeline.zero_initialize_workgroup_memory
    &&& pipeline.target_format == TexelFormat::Rgba8Unorm
    &&& pipeline.blend == BlendMode::Replace
    &&& pipeline.write_all_channels
    &&& pipeline.primitive == primitive_spec()
    &&& !pipeline.depth_stencil
    &&& pipeline.multisample_count == 1
    &&& pipeline.multisample_mask == u64::MAX
    &&& !pipeline.alpha_to_coverage
    &&& !pipeline.multiview
    &&& !pipeline.pipeline_cache
    &&& pipeline.clear == ClearColor::Black
    &&& pipeline.store
    &&& !pipeline.depth_stencil_attachment
    &&& !pipeline.queries
    &&& pipeline.vertex_count == 3
    &&& pipeline.instance_count == 1
}

/// The render pipeline of a render.
pub fn pipeline() -> (pipeline: PipelineSpec)
    ensures
        render_pipeline_spec(pipeline),
{
    PipelineSpec {
        layout: pipeline_layout(),
        vertex_entry: "vs_main",
        vertex_buffers: 0,
        fragment_entry: "fs_main",
        override_constants: 0,
        zero_initialize_workgroup_memory: true,
        target_format: TexelFormat::Rgba8Unorm,
        blend: BlendMode::Replace,
        write_all_channels: true,
        primitive: PrimitiveSpec {
            topology: Topology::TriangleList,
            strip_index_format: false,
            front_face: FrontFace::CounterClockwise,
            culling: false,
            unclipped_depth: false,
            polygon_mode: PolygonMode::Fill,
            conservative: false,
        },
        depth_stencil: false,
        multisample_count: 1,
        multisample_mask: u64::MAX,
        alpha_to_coverage: false,
        multiview: false,
        pipeline_cache: false,
        clear: ClearColor::Black,
        store: true,
        depth_stencil_attachment: false,
        queries: false,
        vertex_count: 3,
        instance_count: 1,
    }
}

/// Law: read as a little-endian word on a little-endian machine, or as a
/// big-endian word on a big-endian one, the machine-order bytes of `x` are `x`.
pub proof fn lemma_native_bytes_decode(x: u32)
    ensures
        native_u32_bytes(x).len() == 4,
        endianness() == Endian::Little ==> vstd::bytes::spec_u32_from_le_bytes(native_u32_bytes(x))
            == x,
        endianness() == Endian::Big ==> vstd::bytes::spec_u32_from_le_bytes(
            native_u32_bytes(x).reverse(),
        ) == x,
{
    vstd::bytes::lemma_auto_spec_u32_to_from_le_bytes();
    assert(spec_u32_to_le_bytes(x).reverse().reverse() =~= spec_u32_to_le_bytes(x));
}

/// Law: the uniform buffer is usable as a uniform and nothing else.
pub proof fn lemma_uniform_usage()
    ensures
        uniform_usage().uniform,
        !uniform_usage().copy_dst,
        !uniform_usage().map_read,
{
}

/// Law: the bindings table of group 0. Binding 0 is the uniform buffer, seen by
/// the vertex and fragment stages; with an input image, binding 1 is a
/// filterable 2D texture and binding 2 a filtering sampler, both seen by the
/// fragment stage only; without one, binding 0 is the only binding. Each is
/// filled with the resource of its kind.
pub proof fn lemma_bindings_table(with_input: bool)
    ensures
        layout_entries(with_input).len() == (if with_input { 3int } else { 1int }),
        layout_entries(with_input)[0].binding == 0,
        layout_entries(with_input)[0].visibility.vertex,
        layout_entries(with_input)[0].visibility.fragment,
        layout_entries(with_input)[0].kind == BindingKind::UniformBuffer,
        with_input ==> {
            &&& layout_entries(with_input)[1].binding == 1
            &&& !layout_entries(with_input)[1].visibility.vertex
            &&& layout_entries(with_input)[1].visibility.fragment
            &&& layout_entries(with_input)[1].kind == BindingKind::FilterableTexture2d
            &&& layout_entries(with_input)[2].binding == 2
            &&& !layout_entries(with_input)[2].visibility.vertex
            &&& layout_entries(with_input)[2].visibility.fragment
            &&& layout_entries(with_input)[2].kind == BindingKind::FilteringSampler
        },
        resource_for(BindingKind::UniformBuffer) == GroupResource::ParamsBuffer,
        resource_for(BindingKind::FilterableTexture2d) == GroupResource::InputTextureView,
        resource_for(BindingKind::FilteringSampler) == GroupResource::InputSampler,
{
}

/// Law: the pipeline layout holds bind group 0 only and no push constants, and
/// primitives are an unindexed triangle list, front faces counter-clockwise,
/// none culled, filled, depth-clipped, not conservatively rasterised.
pub proof fn lemma_pipeline_layout_and_primitive()
    ensures
        pipeline_layout_spec().bind_group_layouts == 1,
        pipeline_layout_spec().push_constant_ranges == 0,
        primitive_spec().topology == Topology::TriangleList,
        !primitive_spec().strip_index_format,
        primitive_spec().front_face == FrontFace::CounterClockwise,
        !primitive_spec().culling,
        !primitive_spec().unclipped_depth,
        primitive_spec().polygon_mode == PolygonMode::Fill,
        !primitive_spec().conservative,
{
}

} // verus!
