use wexp::gpu::{ShaderStages, TextureFormat, TextureViewDimension};
use wexp::pipeline::{
    camera_bind_group, camera_bind_group_layout, diffuse_bind_group, pipeline_layout,
    render_pipeline, shader_module, texture_bind_group_layout, BindGroupEntry,
    BindGroupLayoutEntry, BindingResource, BindingType, BlendState, BufferBindingType,
    ColorTargetState, ColorWrites, FrontFace, LayoutId, MultisampleState, PolygonMode,
    PrimitiveTopology, SamplerBindingType, TextureSampleType, CAMERA_GROUP, TEXTURE_GROUP,
};
use wexp::vertex::Vertex;

const FRAGMENT: ShaderStages = ShaderStages { vertex: false, fragment: true, compute: false };
const VERTEX: ShaderStages = ShaderStages { vertex: true, fragment: false, compute: false };

#[test]
fn texture_layout_binds_texture_then_sampler_for_fragments() {
    let layout = texture_bind_group_layout();
    assert_eq!(layout.label, "Diffuse texture bind group");
    assert_eq!(
        layout.entries,
        vec![
            BindGroupLayoutEntry {
                binding: 0,
                visibility: FRAGMENT,
                ty: BindingType::Texture {
                    sample_type: TextureSampleType::Float { filterable: true },
                    view_dimension: TextureViewDimension::D2,
                    multisampled: false,
                },
                count: None,
            },
            BindGroupLayoutEntry {
                binding: 1,
                visibility: FRAGMENT,
                ty: BindingType::Sampler(SamplerBindingType::Filtering),
                count: None,
            },
        ]
    );
}

#[test]
fn camera_layout_binds_one_uniform_for_vertices() {
    let layout = camera_bind_group_layout();
    assert_eq!(layout.label, "Camera bind group layout");
    assert_eq!(
        layout.entries,
        vec![BindGroupLayoutEntry {
            binding: 0,
            visibility: VERTEX,
            ty: BindingType::Buffer {
                ty: BufferBindingType::Uniform,
                has_dynamic_offset: false,
                min_binding_size: None,
            },
            count: None,
        }]
    );
}

#[test]
fn bind_groups_bind_the_sessions_resources() {
    let diffuse = diffuse_bind_group();
    assert_eq!(diffuse.label, "Diffuse bind group");
    assert_eq!(diffuse.layout, LayoutId::Texture);
    assert_eq!(
        diffuse.entries,
        vec![
            BindGroupEntry { binding: 0, resource: BindingResource::DiffuseView },
            BindGroupEntry { binding: 1, resource: BindingResource::DiffuseSampler },
        ]
    );
    let camera = camera_bind_group();
    assert_eq!(camera.label, "Camera bind group");
    assert_eq!(camera.layout, LayoutId::Camera);
    assert_eq!(
        camera.entries,
        vec![BindGroupEntry { binding: 0, resource: BindingResource::CameraBuffer }]
    );
}

#[test]
fn pipeline_layout_orders_the_slots() {
    let layout = pipeline_layout();
    assert_eq!(layout.label, "Render pipeline layout");
    assert_eq!(layout.bind_group_layouts, vec![LayoutId::Texture, LayoutId::Camera]);
    assert_eq!(layout.bind_group_layouts[TEXTURE_GROUP as usize], LayoutId::Texture);
    assert_eq!(layout.bind_group_layouts[CAMERA_GROUP as usize], LayoutId::Camera);
    assert_eq!(layout.push_constant_ranges, vec![]);
}

#[test]
fn shader_module_has_its_label() {
    assert_eq!(shader_module().label, "Main shader");
}

#[test]
fn pipeline_targets_the_surface_format() {
    for format in [TextureFormat::Bgra8UnormSrgb, TextureFormat::Rgba8Unorm] {
        let pipeline = render_pipeline(format);
        assert_eq!(pipeline.label, "Render pipeline");
        assert_eq!(pipeline.layout, Some(pipeline_layout()));
        let fragment = pipeline.fragment.unwrap();
        assert_eq!(fragment.entry_point, "fs_main");
        assert_eq!(
            fragment.targets,
            vec![ColorTargetState {
                format,
                blend: Some(BlendState::Replace),
                write_mask: ColorWrites { red: true, green: true, blue: true, alpha: true },
            }]
        );
    }
}

#[test]
fn pipeline_draws_triangle_lists_of_vertices() {
    let pipeline = render_pipeline(TextureFormat::Bgra8UnormSrgb);
    assert_eq!(pipeline.vertex.entry_point, "vs_main");
    assert_eq!(pipeline.vertex.buffers, vec![Vertex::desc()]);
    assert_eq!(pipeline.primitive.topology, PrimitiveTopology::TriangleList);
    assert_eq!(pipeline.primitive.strip_index_format, None);
    assert_eq!(pipeline.primitive.front_face, FrontFace::Ccw);
    assert_eq!(pipeline.primitive.cull_mode, None);
    assert!(!pipeline.primitive.unclipped_depth);
    assert_eq!(pipeline.primitive.polygon_mode, PolygonMode::Fill);
    assert!(!pipeline.primitive.conservative);
    assert_eq!(
        pipeline.multisample,
        MultisampleState { count: 1, mask: !0, alpha_to_coverage_enabled: false }
    );
    assert_eq!(pipeline.depth_stencil, None);
    assert_eq!(pipeline.multiview, None);
}
