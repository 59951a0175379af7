//! What a render decides before and after the GPU does its work: the size of
//! the output, the resources to create, the uniform parameters, and where the
//! rendered texture is read back.

pub mod output;
pub mod pipeline;
pub mod textures;

use vstd::prelude::*;

use crate::raster::Image;
use output::{
    byte_at, lemma_readback_buffer_suffices, lemma_strip_recovers_rows, padded_row_bytes,
    readback_fits, readback_in_bounds, readback_layout, unpadded_rows, ReadbackLayout,
};
use output::readback_usage;
use pipeline::{
    bind_group_entries, bind_group_layout, layout_entries, native_u32_bytes, pipeline,
    render_pipeline_spec, resource_for, uniform_buffer, uniform_usage, GroupEntry, LayoutEntry,
    PipelineSpec, UniformBuffer,
};
use textures::{
    lemma_input_texture, lemma_output_texture,
    input, input_sampler_spec, input_texture_spec, output, output_texture_spec, sampler,
    texture_start_spec, SamplerSpec, TextureSpec, TextureUpload,
};

verus! {

/// Width of the output when no input image is given.
pub const DEFAULT_WIDTH: u32 = 512;

/// Height of the output when no input image is given.
pub const DEFAULT_HEIGHT: u32 = 512;

/// The size of the output: that of the first input image, or 512 by 512
/// without one.
pub open spec fn render_size(images: Seq<Image>) -> (u32, u32) {
    if images.len() == 0 {
        (DEFAULT_WIDTH, DEFAULT_HEIGHT)
    } else {
        (images[0]@.width, images[0]@.height)
    }
}

/// The width and height the shader renders at.
pub fn output_dimensions(images: &[Image]) -> (size: (u32, u32))
    ensures
        size == render_size(images@),
        images@.len() == 0 ==> size == (512u32, 512u32),
        images@.len() > 0 ==> size == (images@[0]@.width, images@[0]@.height),
{
    if images.len() == 0 {
        (DEFAULT_WIDTH, DEFAULT_HEIGHT)
    } else {
        images[0].dimensions()
    }
}

/// The input texture of a render and the sampler it is read through.
#[derive(Debug)]
pub struct InputBinding {
    pub texture: TextureUpload,
    pub sampler: SamplerSpec,
}

/// The settings of every GPU object a render creates, of its render pass and
/// draw, and of the copy that reads the result back. Debug labels, and the
/// shader source, which is handed to the GPU as it is, are not part of it.
#[derive(Debug)]
pub struct RenderPlan {
    /// Width of the output in texels.
    pub width: u32,
    /// Height of the output in texels.
    pub height: u32,
    /// The texture the shader renders into.
    pub output_texture: TextureSpec,
    /// The first input image as a texture, and its sampler; absent without
    /// input images.
    pub input: Option<InputBinding>,
    /// The uniform buffer at binding 0.
    pub params: UniformBuffer,
    /// The bindings of group 0.
    pub layout: Vec<LayoutEntry>,
    /// The resources bound to group 0, binding by binding.
    pub bind_group: Vec<GroupEntry>,
    /// The pipeline and its draw.
    pub pipeline: PipelineSpec,
    /// Where the rendered texture is copied for reading.
    pub readback: ReadbackLayout,
}

/// `plan` is the plan of a render over `images`: the output takes the size of
/// the first image, or 512 by 512 without images; only the first image is
/// bound, with its sampler; the uniform buffer holds the output size; the
/// bindings, pipeline and read-back are the fixed ones of a render.
pub open spec fn plans_render(plan: RenderPlan, images: Seq<Image>) -> bool {
    &&& (plan.width, plan.height) == render_size(images)
    &&& plan.output_texture == output_texture_spec(plan.width, plan.height)
    &&& plan.input is Some <==> images.len() > 0
    &&& plan.input matches Some(bound) ==> {
        &&& bound.texture.texture == input_texture_spec(plan.width, plan.height)
        &&& bound.texture.bytes@ == images[0]@.bytes
        &&& bound.texture.offset == 0
        &&& bound.texture.bytes_per_row == 4 * plan.width
        &&& bound.texture.rows_per_image is None
        &&& bound.texture.destination == texture_start_spec()
        &&& bound.sampler == input_sampler_spec()
    }
    &&& plan.params.contents@ == native_u32_bytes(plan.width) + native_u32_bytes(plan.height)
    &&& plan.params.usage == uniform_usage()
    &&& plan.layout@ == layout_entries(images.len() > 0)
    &&& plan.bind_group@.len() == plan.layout@.len()
    &&& forall|i: int|
        0 <= i < plan.layout@.len() ==> #[trigger] plan.bind_group@[i] == (GroupEntry {
            binding: plan.layout@[i].binding,
            resource: resource_for(plan.layout@[i].kind),
        })
    &&& render_pipeline_spec(plan.pipeline)
    &&& plan.readback.padded_bytes_per_row == padded_row_bytes(plan.width)
    &&& plan.readback.buffer_size == padded_row_bytes(plan.width) * plan.height
    &&& plan.readback.usage == readback_usage()
    &&& !plan.readback.mapped_at_creation
    &&& plan.readback.offset == 0
    &&& plan.readback.rows_per_image is None
    &&& plan.readback.source == texture_start_spec()
    &&& readback_in_bounds(
        plan.readback.buffer_size as int,
        plan.width,
        plan.height,
        plan.readback.padded_bytes_per_row,
    )
}

/// Plans the render of a shader over `images`, of which only the first is
/// bound; the output takes its size, or 512 by 512 without images.
pub fn plan_render(images: &[Image]) -> (plan: RenderPlan)
    requires
        readback_fits(render_size(images@).0, render_size(images@).1),
    ensures
        plans_render(plan, images@),
{
    let (width, height) = output_dimensions(images);
    let input_binding = if images.len() == 0 {
        None
    } else {
        Some(InputBinding { texture: input(&images[0]), sampler: sampler() })
    };
    let layout = bind_group_layout(images.len() > 0);
    let bind_group = bind_group_entries(layout.as_slice());
    RenderPlan {
        width,
        height,
        output_texture: output(width, height),
        input: input_binding,
        params: uniform_buffer(width, height),
        layout,
        bind_group,
        pipeline: pipeline(),
        readback: readback_layout(width, height),
    }
}

/// Law: the output is 512 by 512 without images, and otherwise exactly the
/// width and height of the first image, whatever they are.
pub proof fn lemma_render_size(images: Seq<Image>)
    ensures
        images.len() == 0 ==> render_size(images) == (512u32, 512u32),
        images.len() > 0 ==> render_size(images).0 == images[0]@.width,
        images.len() > 0 ==> render_size(images).1 == images[0]@.height,
{
}

/// Law: a plan renders at the size of the first image, binds that image's
/// bytes in a texture of that size, and hands the shader that size; without
/// images it renders 512 by 512 and binds no texture.
pub proof fn lemma_plan_follows_first_image(plan: RenderPlan, images: Seq<Image>)
    requires
        plans_render(plan, images),
    ensures
        images.len() == 0 ==> plan.width == 512 && plan.height == 512 && plan.input is None,
        images.len() > 0 ==> {
            &&& plan.width == images[0]@.width
            &&& plan.height == images[0]@.height
            &&& plan.output_texture.width == images[0]@.width
            &&& plan.output_texture.height == images[0]@.height
            &&& plan.input matches Some(bound) && {
                &&& bound.texture.texture.width == images[0]@.width
                &&& bound.texture.texture.height == images[0]@.height
                &&& bound.texture.texture.sample_count == 1
                &&& bound.texture.bytes@ == images[0]@.bytes
                &&& bound.texture.bytes_per_row == 4 * images[0]@.width
            }
        },
        plan.params.contents@ == native_u32_bytes(plan.width) + native_u32_bytes(plan.height),
{
    lemma_render_size(images);
    lemma_output_texture(plan.width, plan.height);
    lemma_input_texture(plan.width, plan.height);
}

/// Law: images after the first change nothing; a plan of a render over
/// `images` is exactly a plan of a render over their first image alone, which
/// has the same output size.
pub proof fn lemma_only_first_image_matters(plan: RenderPlan, images: Seq<Image>)
    requires
        images.len() > 0,
    ensures
        render_size(images) == render_size(images.take(1)),
        plans_render(plan, images) <==> plans_render(plan, images.take(1)),
{
    assert(images.take(1)[0] == images[0]);
    assert(images.take(1).len() == 1);
}

/// Law: whatever bytes the GPU leaves between the rows of the read-back
/// buffer, reading back a buffer of the planned size whose rows hold the
/// rendered texture gives exactly the rendered texture's bytes, and every row
/// the read-back takes lies inside that buffer.
pub proof fn lemma_readback_recovers_render(images: Seq<Image>, rendered: Seq<u8>, buffer: Seq<u8>)
    requires
        readback_fits(render_size(images).0, render_size(images).1),
        rendered.len() == 4 * render_size(images).0 * render_size(images).1,
        buffer.len() == padded_row_bytes(render_size(images).0) * render_size(images).1,
        forall|row: int, col: int|
            0 <= row < render_size(images).1 && 0 <= col < 4 * render_size(images).0
                ==> #[trigger] byte_at(buffer, padded_row_bytes(render_size(images).0), row, col)
                == byte_at(rendered, 4 * render_size(images).0, row, col),
    ensures
        readback_in_bounds(
            buffer.len() as int,
            render_size(images).0,
            render_size(images).1,
            padded_row_bytes(render_size(images).0) as u32,
        ),
        unpadded_rows(
            buffer,
            4 * render_size(images).0 as nat,
            padded_row_bytes(render_size(images).0) as nat,
            render_size(images).1 as nat,
        ) == rendered,
{
    let (width, height) = render_size(images);
    lemma_readback_buffer_suffices(width, height);
    lemma_strip_recovers_rows(
        buffer,
        rendered,
        4 * width as nat,
        padded_row_bytes(width) as nat,
        height as nat,
    );
}

} // verus!
