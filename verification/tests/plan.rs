use tiedye::raster::Image;
use tiedye::renderer::output::{readback_layout, BufferUsage};
use tiedye::renderer::pipeline::{
    bind_group_entries, bind_group_layout, pipeline, pipeline_layout, uniform_buffer, BindingKind,
    BlendMode, ClearColor, FrontFace, GroupEntry, GroupResource, LayoutEntry, PipelineLayoutSpec,
    PolygonMode, PrimitiveSpec, Topology, Visibility,
};
use tiedye::renderer::textures::{
    input, output, sampler, texture_start, AddressMode, FilterMode, LodRange, SamplerSpec,
    TexelFormat, TextureDimension, TextureSpec, TextureUsage, ViewSpec,
};
use tiedye::renderer::{output_dimensions, plan_render, DEFAULT_HEIGHT, DEFAULT_WIDTH};

fn image(width: u32, height: u32) -> Image {
    let bytes: Vec<u8> = (0..width * height * 4).map(|i| i as u8).collect();
    Image::from_raw(width, height, bytes).unwrap()
}

#[test]
fn output_is_512_square_without_images() {
    assert_eq!((DEFAULT_WIDTH, DEFAULT_HEIGHT), (512, 512));
    assert_eq!(output_dimensions(&[]), (512, 512));
}

#[test]
fn output_takes_the_size_of_the_first_image() {
    let images = vec![image(3, 7), image(100, 1)];
    assert_eq!(output_dimensions(&images), (3, 7));
}

#[test]
fn uniform_params_are_width_then_height() {
    let buffer = uniform_buffer(640, 480);
    assert_eq!(buffer.usage, BufferUsage { uniform: true, copy_dst: false, map_read: false });
    let params = buffer.contents;
    let mut expected = Vec::new();
    expected.extend_from_slice(&640u32.to_ne_bytes());
    expected.extend_from_slice(&480u32.to_ne_bytes());
    assert_eq!(params, expected);
    assert_eq!(params.len(), 8);
}

#[test]
fn uniform_params_decode_back_to_the_size() {
    let params = uniform_buffer(0x0102_0304, 512).contents;
    assert_eq!(u32::from_ne_bytes([params[0], params[1], params[2], params[3]]), 0x0102_0304);
    assert_eq!(u32::from_ne_bytes([params[4], params[5], params[6], params[7]]), 512);
    let le = [params[0], params[1], params[2], params[3]] == [4, 3, 2, 1];
    let be = [params[0], params[1], params[2], params[3]] == [1, 2, 3, 4];
    assert!(le || be);
}

fn fragment_only() -> Visibility {
    Visibility { vertex: false, fragment: true }
}

#[test]
fn bindings_with_an_input_image() {
    assert_eq!(
        bind_group_layout(true),
        vec![
            LayoutEntry {
                binding: 0,
                visibility: Visibility { vertex: true, fragment: true },
                kind: BindingKind::UniformBuffer,
            },
            LayoutEntry {
                binding: 1,
                visibility: fragment_only(),
                kind: BindingKind::FilterableTexture2d,
            },
            LayoutEntry {
                binding: 2,
                visibility: fragment_only(),
                kind: BindingKind::FilteringSampler,
            },
        ]
    );
}

#[test]
fn bindings_without_an_input_image() {
    assert_eq!(
        bind_group_layout(false),
        vec![LayoutEntry {
            binding: 0,
            visibility: Visibility { vertex: true, fragment: true },
            kind: BindingKind::UniformBuffer,
        }]
    );
}

#[test]
fn pipeline_entry_points_and_draw() {
    let p = pipeline();
    assert_eq!(p.vertex_entry, "vs_main");
    assert_eq!(p.fragment_entry, "fs_main");
    assert_eq!(p.target_format, TexelFormat::Rgba8Unorm);
    assert_eq!(p.blend, BlendMode::Replace);
    assert!(p.write_all_channels);
    assert_eq!(p.clear, ClearColor::Black);
    assert_eq!((p.vertex_count, p.instance_count), (3, 1));
    assert_eq!(p.layout, PipelineLayoutSpec { bind_group_layouts: 1, push_constant_ranges: 0 });
    assert_eq!(p.layout, pipeline_layout());
    assert_eq!(p.vertex_buffers, 0);
    assert_eq!(p.override_constants, 0);
    assert!(p.zero_initialize_workgroup_memory);
    assert_eq!(
        p.primitive,
        PrimitiveSpec {
            topology: Topology::TriangleList,
            strip_index_format: false,
            front_face: FrontFace::CounterClockwise,
            culling: false,
            unclipped_depth: false,
            polygon_mode: PolygonMode::Fill,
            conservative: false,
        }
    );
    assert!(!p.depth_stencil);
    assert_eq!((p.multisample_count, p.multisample_mask), (1, u64::MAX));
    assert!(!p.alpha_to_coverage);
    assert!(!p.multiview && !p.pipeline_cache);
    assert!(p.store && !p.depth_stencil_attachment && !p.queries);
}

#[test]
fn bind_group_gives_each_binding_its_resource() {
    assert_eq!(
        bind_group_entries(&bind_group_layout(true)),
        vec![
            GroupEntry { binding: 0, resource: GroupResource::ParamsBuffer },
            GroupEntry { binding: 1, resource: GroupResource::InputTextureView },
            GroupEntry { binding: 2, resource: GroupResource::InputSampler },
        ]
    );
    assert_eq!(
        bind_group_entries(&bind_group_layout(false)),
        vec![GroupEntry { binding: 0, resource: GroupResource::ParamsBuffer }]
    );
    assert!(bind_group_entries(&[]).is_empty());
}

#[test]
fn output_texture_is_a_render_target_copied_out() {
    assert_eq!(
        output(640, 480),
        TextureSpec {
            width: 640,
            height: 480,
            depth_or_array_layers: 1,
            mip_level_count: 1,
            sample_count: 1,
            dimension: TextureDimension::D2,
            format: TexelFormat::Rgba8Unorm,
            usage: TextureUsage {
                render_attachment: true,
                copy_src: true,
                texture_binding: false,
                copy_dst: false,
            },
            other_view_formats: false,
            view: ViewSpec::WholeTexture,
        }
    );
}

#[test]
fn input_texture_holds_the_image_bytes() {
    let img = image(2, 3);
    let upload = input(&img);
    assert_eq!(upload.bytes, img.as_raw().to_vec());
    assert_eq!(upload.bytes_per_row, 8);
    assert_eq!(upload.offset, 0);
    assert_eq!(upload.rows_per_image, None);
    assert_eq!(upload.destination, texture_start());
    assert!(!upload.texture.other_view_formats);
    assert_eq!(upload.texture.view, ViewSpec::WholeTexture);
    assert_eq!((upload.texture.width, upload.texture.height), (2, 3));
    assert_eq!(
        upload.texture.usage,
        TextureUsage {
            render_attachment: false,
            copy_src: false,
            texture_binding: true,
            copy_dst: true,
        }
    );
}

#[test]
fn sampler_clamps_and_filters_linearly() {
    assert_eq!(
        sampler(),
        SamplerSpec {
            address_mode_u: AddressMode::ClampToEdge,
            address_mode_v: AddressMode::ClampToEdge,
            address_mode_w: AddressMode::ClampToEdge,
            mag_filter: FilterMode::Linear,
            min_filter: FilterMode::Linear,
            mipmap_filter: FilterMode::Nearest,
            lod_range: LodRange::ZeroToThirtyTwo,
            comparison: false,
            anisotropy_clamp: 1,
            border_color: false,
        }
    );
}

#[test]
fn plan_without_images() {
    let plan = plan_render(&[]);
    assert_eq!((plan.width, plan.height), (512, 512));
    assert!(plan.input.is_none());
    assert_eq!(plan.layout.len(), 1);
    assert_eq!(plan.output_texture, output(512, 512));
    assert_eq!(plan.params.contents, uniform_buffer(512, 512).contents);
    assert_eq!(plan.bind_group, bind_group_entries(&plan.layout));
    assert_eq!(plan.readback, readback_layout(512, 512));
    assert_eq!(plan.readback.buffer_size, 2048 * 512);
}

#[test]
fn plan_with_images_binds_the_first() {
    let images = vec![image(5, 2), image(9, 9)];
    let plan = plan_render(&images);
    assert_eq!((plan.width, plan.height), (5, 2));
    let bound = plan.input.expect("first image is bound");
    assert_eq!(bound.texture.bytes, images[0].as_raw().to_vec());
    assert_eq!(bound.texture.bytes_per_row, 20);
    assert_eq!(bound.sampler, sampler());
    assert_eq!(plan.layout, bind_group_layout(true));
    assert_eq!(plan.bind_group.len(), 3);
    assert_eq!(plan.readback, readback_layout(5, 2));
    assert_eq!(plan.readback.padded_bytes_per_row, 256);
    assert_eq!(plan.readback.buffer_size, 512);
}

#[test]
fn images_after_the_first_change_nothing() {
    let first = image(4, 3);
    let others = vec![image(4, 3), image(8, 1), image(1, 9)];
    let mut all = vec![image(4, 3)];
    all.extend(others);
    let alone = plan_render(&[first]);
    let with_more = plan_render(&all);
    assert_eq!(format!("{:?}", alone), format!("{:?}", with_more));
}
