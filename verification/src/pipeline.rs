//! The bind groups and the render pipeline of the scene.
//!
//! Two bind groups feed the shader: group 0 holds the texture and its sampler for
//! the fragment stage, group 1 holds the camera uniform for the vertex stage. The
//! pipeline draws triangle lists of `Vertex` into one colour target of the
//! surface's format, replacing what is there.
use vstd::prelude::*;
use crate::gpu::{ShaderStages, TextureFormat, TextureViewDimension};
use crate::vertex::{Vertex, VertexBufferLayout};

verus! {

/// Slot of the texture and sampler bind group.
pub const TEXTURE_GROUP: u32 = 0;

/// Slot of the camera bind group.
pub const CAMERA_GROUP: u32 = 1;

/// What kind of numbers a shader gets from a texture.
#[derive(Clone, Copy, Debug, PartialEq, Eq, Structural)]
pub enum TextureSampleType {
    Float { filterable: bool },
    Depth,
    Sint,
    Uint,
}

/// Kind of sampler a binding takes.
#[derive(Clone, Copy, Debug, PartialEq, Eq, Structural)]
pub enum SamplerBindingType {
    Filtering,
    NonFiltering,
    Comparison,
}

/// Kind of buffer a binding takes.
#[derive(Clone, Copy, Debug, PartialEq, Eq, Structural)]
pub enum BufferBindingType {
    Uniform,
    Storage { read_only: bool },
}

/// What a binding of a layout takes.
#[derive(Clone, Copy, Debug, PartialEq, Eq, Structural)]
pub enum BindingType {
    Buffer { ty: BufferBindingType, has_dynamic_offset: bool, min_binding_size: Option<u64> },
    Sampler(SamplerBindingType),
    Texture {
        sample_type: TextureSampleType,
        view_dimension: TextureViewDimension,
        multisampled: bool,
    },
}

/// One binding of a bind group layout.
#[derive(Clone, Copy, Debug, PartialEq, Eq, Structural)]
pub struct BindGroupLayoutEntry {
    pub binding: u32,
    pub visibility: ShaderStages,
    pub ty: BindingType,
    pub count: Option<u32>,
}

/// A bind group layout to create.
#[derive(Clone, Debug, PartialEq, Eq)]
pub struct BindGroupLayoutDescriptor {
    pub label: &'static str,
    pub entries: Vec<BindGroupLayoutEntry>,
}

/// The two bind group layouts of the scene.
#[derive(Clone, Copy, Debug, PartialEq, Eq, Structural)]
pub enum LayoutId {
    Texture,
    Camera,
}

/// A resource of the session that a bind group binds.
#[derive(Clone, Copy, Debug, PartialEq, Eq, Structural)]
pub enum BindingResource {
    /// The default view of the diffuse texture.
    DiffuseView,
    /// The sampler of the diffuse texture.
    DiffuseSampler,
    /// The whole camera uniform buffer.
    CameraBuffer,
}

/// One binding of a bind group.
#[derive(Clone, Copy, Debug, PartialEq, Eq, Structural)]
pub struct BindGroupEntry {
    pub binding: u32,
    pub resource: BindingResource,
}

/// A bind group to create.
#[derive(Clone, Debug, PartialEq, Eq)]
pub struct BindGroupDescriptor {
    pub label: &'static str,
    pub layout: LayoutId,
    pub entries: Vec<BindGroupEntry>,
}

/// A range of push constants and the stages that see it.
#[derive(Clone, Copy, Debug, PartialEq, Eq, Structural)]
pub struct PushConstantRange {
    pub stages: ShaderStages,
    pub start: u32,
    pub end: u32,
}

/// A pipeline layout to create: its bind group layouts by slot, and its push
/// constant ranges.
#[derive(Clone, Debug, PartialEq, Eq)]
pub struct PipelineLayoutDescriptor {
    pub label: &'static str,
    pub bind_group_layouts: Vec<LayoutId>,
    pub push_constant_ranges: Vec<PushConstantRange>,
}

/// A shader module to create. Its source is the host's: a program with the entry
/// points the pipeline names and the two bind groups of the scene.
#[derive(Clone, Copy, Debug, PartialEq, Eq)]
pub struct ShaderModuleDescriptor {
    pub label: &'static str,
}

/// The scene's shader module.
pub fn shader_module() -> (r: ShaderModuleDescriptor)
    ensures
        r.label@ == "Main shader"@,
{
    ShaderModuleDescriptor { label: "Main shader" }
}

/// How triangles are assembled from vertices.
#[derive(Clone, Copy, Debug, PartialEq, Eq, Structural)]
pub enum PrimitiveTopology {
    PointList,
    LineList,
    LineStrip,
    TriangleList,
    TriangleStrip,
}

/// Width of the indices of a strip.
#[derive(Clone, Copy, Debug, PartialEq, Eq, Structural)]
pub enum IndexFormat {
    Uint16,
    Uint32,
}

/// Winding of a triangle that faces the viewer.
#[derive(Clone, Copy, Debug, PartialEq, Eq, Structural)]
pub enum FrontFace {
    Ccw,
    Cw,
}

/// A side of a triangle.
#[derive(Clone, Copy, Debug, PartialEq, Eq, Structural)]
pub enum Face {
    Front,
    Back,
}

/// How a triangle is filled.
#[derive(Clone, Copy, Debug, PartialEq, Eq, Structural)]
pub enum PolygonMode {
    Fill,
    Line,
    Point,
}

/// How primitives are assembled and rasterised.
#[derive(Clone, Copy, Debug, PartialEq, Eq, Structural)]
pub struct PrimitiveState {
    pub topology: PrimitiveTopology,
    pub strip_index_format: Option<IndexFormat>,
    pub front_face: FrontFace,
    pub cull_mode: Option<Face>,
    pub unclipped_depth: bool,
    pub polygon_mode: PolygonMode,
    pub conservative: bool,
}

/// Multisampling of a pipeline.
#[derive(Clone, Copy, Debug, PartialEq, Eq, Structural)]
pub struct MultisampleState {
    pub count: u32,
    pub mask: u64,
    pub alpha_to_coverage_enabled: bool,
}

/// How a fragment's colour is combined with what the target holds.
#[derive(Clone, Copy, Debug, PartialEq, Eq, Structural)]
pub enum BlendState {
    Replace,
    AlphaBlending,
    PremultipliedAlphaBlending,
}

/// Channels of a colour target that are written.
#[derive(Clone, Copy, Debug, PartialEq, Eq, Structural)]
pub struct ColorWrites {
    pub red: bool,
    pub green: bool,
    pub blue: bool,
    pub alpha: bool,
}

/// One colour target of a pipeline.
#[derive(Clone, Copy, Debug, PartialEq, Eq, Structural)]
pub struct ColorTargetState {
    pub format: TextureFormat,
    pub blend: Option<BlendState>,
    pub write_mask: ColorWrites,
}

/// The vertex stage of a pipeline.
#[derive(Clone, Debug, PartialEq, Eq)]
pub struct VertexState {
    pub entry_point: &'static str,
    pub buffers: Vec<VertexBufferLayout>,
}

/// The fragment stage of a pipeline.
#[derive(Clone, Debug, PartialEq, Eq)]
pub struct FragmentState {
    pub entry_point: &'static str,
    pub targets: Vec<ColorTargetState>,
}

/// A render pipeline to create. `depth_stencil` is the format of the depth
/// attachment, if the pipeline has one.
#[derive(Clone, Debug, PartialEq, Eq)]
pub struct RenderPipelineDescriptor {
    pub label: &'static str,
    pub layout: Option<PipelineLayoutDescriptor>,
    pub vertex: VertexState,
    pub fragment: Option<FragmentState>,
    pub primitive: PrimitiveState,
    pub multisample: MultisampleState,
    pub depth_stencil: Option<TextureFormat>,
    pub multiview: Option<u32>,
}

/// Bindings of the texture group: the texture at 0, its sampler at 1, both for the
/// fragment stage.
pub open spec fn texture_layout_entries() -> Seq<BindGroupLayoutEntry> {
    seq![
        BindGroupLayoutEntry {
            binding: 0,
            visibility: ShaderStages::fragment_only(),
            ty: BindingType::Texture {
                sample_type: TextureSampleType::Float { filterable: true },
                view_dimension: TextureViewDimension::D2,
                multisampled: false,
            },
            count: None,
        },
        BindGroupLayoutEntry {
            binding: 1,
            visibility: ShaderStages::fragment_only(),
            ty: BindingType::Sampler(SamplerBindingType::Filtering),
            count: None,
        },
    ]
}

/// Bindings of the camera group: one uniform buffer at 0 for the vertex stage.
pub open spec fn camera_layout_entries() -> Seq<BindGroupLayoutEntry> {
    seq![
        BindGroupLayoutEntry {
            binding: 0,
            visibility: ShaderStages::vertex_only(),
            ty: BindingType::Buffer {
                ty: BufferBindingType::Uniform,
                has_dynamic_offset: false,
                min_binding_size: None,
            },
            count: None,
        },
    ]
}

impl BindGroupLayoutDescriptor {
    /// This is the layout of the texture and sampler group.
    pub open spec fn is_texture_layout(&self) -> bool {
        &&& self.label@ == "Diffuse texture bind group"@
        &&& self.entries@ == texture_layout_entries()
    }

    /// This is the layout of the camera group.
    pub open spec fn is_camera_layout(&self) -> bool {
        &&& self.label@ == "Camera bind group layout"@
        &&& self.entries@ == camera_layout_entries()
    }
}

impl BindGroupDescriptor {
    /// This is the texture group: the texture's view at binding 0, its sampler at
    /// binding 1, laid out by the texture layout.
    pub open spec fn is_diffuse_group(&self) -> bool {
        &&& self.label@ == "Diffuse bind group"@
        &&& self.layout == LayoutId::Texture
        &&& self.entries@ == seq![
            BindGroupEntry { binding: 0, resource: BindingResource::DiffuseView },
            BindGroupEntry { binding: 1, resource: BindingResource::DiffuseSampler },
        ]
    }

    /// This is the camera group: the whole camera buffer at binding 0, laid out by
    /// the camera layout.
    pub open spec fn is_camera_group(&self) -> bool {
        &&& self.label@ == "Camera bind group"@
        &&& self.layout == LayoutId::Camera
        &&& self.entries@ == seq![
            BindGroupEntry { binding: 0, resource: BindingResource::CameraBuffer },
        ]
    }
}

/// Layout of the texture and sampler group.
pub fn texture_bind_group_layout() -> (r: BindGroupLayoutDescriptor)
    ensures
        r.is_texture_layout(),
{
    let fragment = ShaderStages { vertex: false, fragment: true, compute: false };
    let entries = vec![
        BindGroupLayoutEntry {
            binding: 0,
            visibility: fragment,
            ty: BindingType::Texture {
                sample_type: TextureSampleType::Float { filterable: true },
                view_dimension: TextureViewDimension::D2,
                multisampled: false,
            },
            count: None,
        },
        BindGroupLayoutEntry {
            binding: 1,
            visibility: fragment,
            ty: BindingType::Sampler(SamplerBindingType::Filtering),
            count: None,
        },
    ];
    assert(entries@ =~= texture_layout_entries());
    BindGroupLayoutDescriptor { label: "Diffuse texture bind group", entries }
}

/// The texture group.
pub fn diffuse_bind_group() -> (r: BindGroupDescriptor)
    ensures
        r.is_diffuse_group(),
{
    let entries = vec![
        BindGroupEntry { binding: 0, resource: BindingResource::DiffuseView },
        BindGroupEntry { binding: 1, resource: BindingResource::DiffuseSampler },
    ];
    BindGroupDescriptor { label: "Diffuse bind group", layout: LayoutId::Texture, entries }
}

/// Layout of the camera group.
pub fn camera_bind_group_layout() -> (r: BindGroupLayoutDescriptor)
    ensures
        r.is_camera_layout(),
{
    let entries = vec![
        BindGroupLayoutEntry {
            binding: 0,
            visibility: ShaderStages { vertex: true, fragment: false, compute: false },
            ty: BindingType::Buffer {
                ty: BufferBindingType::Uniform,
                has_dynamic_offset: false,
                min_binding_size: None,
            },
            count: None,
        },
    ];
    assert(entries@ =~= camera_layout_entries());
    BindGroupLayoutDescriptor { label: "Camera bind group layout", entries }
}

/// The camera group.
pub fn camera_bind_group() -> (r: BindGroupDescriptor)
    ensures
        r.is_camera_group(),
{
    let entries = vec![BindGroupEntry { binding: 0, resource: BindingResource::CameraBuffer }];
    assert(entries@ =~= seq![
        BindGroupEntry { binding: 0, resource: BindingResource::CameraBuffer },
    ]);
    BindGroupDescriptor { label: "Camera bind group", layout: LayoutId::Camera, entries }
}

impl PipelineLayoutDescriptor {
    /// Slot 0 takes the texture group, slot 1 the camera group, and there are no
    /// push constants.
    pub open spec fn is_scene_layout(&self) -> bool {
        &&& self.label@ == "Render pipeline layout"@
        &&& self.bind_group_layouts@ == seq![LayoutId::Texture, LayoutId::Camera]
        &&& self.push_constant_ranges@.len() == 0
    }
}

/// The pipeline layout: the bind group layouts in slot order.
pub fn pipeline_layout() -> (r: PipelineLayoutDescriptor)
    ensures
        r.is_scene_layout(),
        r.bind_group_layouts@[TEXTURE_GROUP as int] == LayoutId::Texture,
        r.bind_group_layouts@[CAMERA_GROUP as int] == LayoutId::Camera,
{
    PipelineLayoutDescriptor {
        label: "Render pipeline layout",
        bind_group_layouts: vec![LayoutId::Texture, LayoutId::Camera],
        push_constant_ranges: Vec::new(),
    }
}

impl PrimitiveState {
    /// Triangle lists, counter-clockwise front faces, nothing culled, filled.
    pub open spec fn scene() -> PrimitiveState {
        PrimitiveState {
            topology: PrimitiveTopology::TriangleList,
            strip_index_format: None,
            front_face: FrontFace::Ccw,
            cull_mode: None,
            unclipped_depth: false,
            polygon_mode: PolygonMode::Fill,
            conservative: false,
        }
    }
}

impl RenderPipelineDescriptor {
    /// This is the scene's pipeline for a surface of format `format`: entry points
    /// `vs_main` and `fs_main`, one buffer of `Vertex`, one colour target of that
    /// format that replaces all four channels, one sample with every sample
    /// enabled, no depth attachment, no multiview.
    pub open spec fn is_scene_pipeline(&self, format: TextureFormat) -> bool {
        &&& self.label@ == "Render pipeline"@
        &&& self.layout.is_some()
        &&& self.layout.unwrap().is_scene_layout()
        &&& self.vertex.entry_point@ == "vs_main"@
        &&& self.vertex.buffers@.len() == 1
        &&& self.vertex.buffers@[0].is_vertex_layout()
        &&& self.fragment.is_some()
        &&& self.fragment.unwrap().entry_point@ == "fs_main"@
        &&& self.fragment.unwrap().targets@ == seq![
            ColorTargetState {
                format,
                blend: Some(BlendState::Replace),
                write_mask: ColorWrites { red: true, green: true, blue: true, alpha: true },
            },
        ]
        &&& self.primitive == PrimitiveState::scene()
        &&& self.multisample == (MultisampleState {
            count: 1,
            mask: u64::MAX,
            alpha_to_coverage_enabled: false,
        })
        &&& self.depth_stencil.is_none()
        &&& self.multiview.is_none()
    }
}

/// The render pipeline for a surface of the given format.
pub fn render_pipeline(format: TextureFormat) -> (r: RenderPipelineDescriptor)
    ensures
        r.is_scene_pipeline(format),
{
    let vertex = VertexState { entry_point: "vs_main", buffers: vec![Vertex::desc()] };
    let fragment = FragmentState {
        entry_point: "fs_main",
        targets: vec![
            ColorTargetState {
                format,
                blend: Some(BlendState::Replace),
                write_mask: ColorWrites { red: true, green: true, blue: true, alpha: true },
            },
        ],
    };
    let r = RenderPipelineDescriptor {
        label: "Render pipeline",
        layout: Some(pipeline_layout()),
        vertex,
        fragment: Some(fragment),
        primitive: PrimitiveState {
            topology: PrimitiveTopology::TriangleList,
            strip_index_format: None,
            front_face: FrontFace::Ccw,
            cull_mode: None,
            unclipped_depth: false,
            polygon_mode: PolygonMode::Fill,
            conservative: false,
        },
        multisample: MultisampleState {
            count: 1,
            mask: 0xFFFF_FFFF_FFFF_FFFF,
            alpha_to_coverage_enabled: false,
        },
        depth_stencil: None,
        multiview: None,
    };
    assert(r.fragment.unwrap().targets@ =~= seq![
        ColorTargetState {
            format,
            blend: Some(BlendState::Replace),
            write_mask: ColorWrites { red: true, green: true, blue: true, alpha: true },
        },
    ]);
    r
}

} // verus!
