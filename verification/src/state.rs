//! The render session: what it asks of the device at start, how it follows the
//! size of its surface, and the commands of one frame.
//!
//! The session holds values only. A host owns the device, the queue and the
//! surface, creates what `Resources` describes, and carries out each frame's
//! commands in order.
use vstd::prelude::*;
use crate::bytes::in_memory;
use crate::camera::{matrix_words, Aspect, Camera, CameraUniform, Matrix};
use crate::gpu::{BufferInit, BufferUsages, PresentMode, TextureFormat, TextureUsages};
use crate::frame::{frame_commands, is_frame, lemma_frame_is_valid, record_frame, RenderCommand};
use crate::pipeline::{
    camera_bind_group, camera_bind_group_layout, diffuse_bind_group, render_pipeline,
    shader_module, texture_bind_group_layout, BindGroupDescriptor, BindGroupLayoutDescriptor,
    RenderPipelineDescriptor, ShaderModuleDescriptor,
};
use crate::texture_resource::{decoded_image, TextureError, TextureResource};
use crate::vertex::{flattened, quad, quad_vertices, vertex_bytes, VERTEX_COUNT};

verus! {

/// Size of a window's surface in physical pixels.
#[derive(Clone, Copy, Debug, PartialEq, Eq, Structural)]
pub struct PhysicalSize {
    pub width: u32,
    pub height: u32,
}

/// How an adapter is chosen among those that can draw to the surface.
#[derive(Clone, Copy, Debug, PartialEq, Eq, Structural)]
pub enum PowerPreference {
    LowPower,
    HighPerformance,
}

/// The request for an adapter. The adapter must be able to draw to the session's
/// surface.
#[derive(Clone, Copy, Debug, PartialEq, Eq, Structural)]
pub struct RequestAdapterOptions {
    pub power_preference: PowerPreference,
    pub force_fallback_adapter: bool,
}

/// Sets of limits a device can be asked for.
#[derive(Clone, Copy, Debug, PartialEq, Eq, Structural)]
pub enum Limits {
    Default,
    DownlevelDefaults,
    DownlevelWebgl2Defaults,
}

/// A set of optional device features, one bit each in the device's own numbering.
#[derive(Clone, Copy, Debug, PartialEq, Eq, Structural)]
pub struct Features {
    pub bits: u64,
}

/// The request for a device.
#[derive(Clone, Copy, Debug, PartialEq, Eq)]
pub struct DeviceDescriptor {
    pub label: &'static str,
    pub features: Features,
    pub limits: Limits,
}

/// The session asks for a high-performance hardware adapter.
pub fn adapter_options() -> (r: RequestAdapterOptions)
    ensures
        r == (RequestAdapterOptions {
            power_preference: PowerPreference::HighPerformance,
            force_fallback_adapter: false,
        }),
{
    RequestAdapterOptions {
        power_preference: PowerPreference::HighPerformance,
        force_fallback_adapter: false,
    }
}

/// The session asks for a device within the limits of WebGL2, with no optional
/// feature.
pub fn device_descriptor() -> (r: DeviceDescriptor)
    ensures
        r.label@ == "Root device"@,
        r.features.bits == 0,
        r.limits == Limits::DownlevelWebgl2Defaults,
{
    DeviceDescriptor {
        label: "Root device",
        features: Features { bits: 0 },
        limits: Limits::DownlevelWebgl2Defaults,
    }
}

/// How the surface is configured.
#[derive(Clone, Copy, Debug, PartialEq, Eq, Structural)]
pub struct SurfaceConfiguration {
    pub usage: TextureUsages,
    pub format: TextureFormat,
    pub width: u32,
    pub height: u32,
    pub present_mode: PresentMode,
}

impl SurfaceConfiguration {
    /// The session's configuration of a surface: a render attachment of the given
    /// format and size, presented first in, first out.
    pub open spec fn scene(format: TextureFormat, width: u32, height: u32) -> SurfaceConfiguration {
        SurfaceConfiguration {
            usage: TextureUsages { render_attachment: true, ..TextureUsages::none() },
            format,
            width,
            height,
            present_mode: PresentMode::Fifo,
        }
    }
}

/// How far the host got in acquiring a device for the surface.
#[derive(Clone, Copy, Debug, PartialEq, Eq, Structural)]
pub enum Acquired {
    /// No adapter can draw to the surface.
    NoAdapter,
    /// The adapter refused the device asked for.
    DeviceRefused,
    /// Adapter, device and queue are there; the surface prefers this format, if
    /// it reports one at all.
    Device { preferred_format: Option<TextureFormat> },
}

/// Why a session could not be started.
#[derive(Clone, Copy, Debug, PartialEq, Eq, Structural)]
pub enum SessionError {
    /// No adapter can draw to the surface.
    NoAdapter,
    /// The adapter refused the device asked for.
    DeviceRefused,
    /// The surface reports no format it can be configured with.
    NoSurfaceFormat,
    /// The texture of the scene could not be described.
    Texture(TextureError),
}

impl SessionError {
    /// The message the start is given up with.
    pub fn message(&self) -> (r: &'static str)
        ensures
            r@ == match *self {
                SessionError::NoAdapter => "Unable to create surface"@,
                SessionError::DeviceRefused => "Failed to query device"@,
                SessionError::NoSurfaceFormat => "Unable to get preferred format"@,
                SessionError::Texture(TextureError::Decode) => "Unable to decode texture"@,
                SessionError::Texture(TextureError::RowTooLong) => "Texture rows too long"@,
            },
    {
        match self {
            SessionError::NoAdapter => "Unable to create surface",
            SessionError::DeviceRefused => "Failed to query device",
            SessionError::NoSurfaceFormat => "Unable to get preferred format",
            SessionError::Texture(TextureError::Decode) => "Unable to decode texture",
            SessionError::Texture(TextureError::RowTooLong) => "Texture rows too long",
        }
    }
}

/// Why a frame could not be drawn.
#[derive(Clone, Copy, Debug, PartialEq, Eq, Structural)]
pub enum SurfaceError {
    /// No image became free in time.
    Timeout,
    /// The surface has changed since it was configured.
    Outdated,
    /// The surface is gone.
    Lost,
    /// The device has no memory left.
    OutOfMemory,
}

impl SurfaceError {
    /// A fatal error ends the session; after any other the frame is skipped and the
    /// next redraw tries again.
    pub open spec fn is_fatal(self) -> bool {
        self == SurfaceError::Lost || self == SurfaceError::OutOfMemory
    }

    /// Whether the error ends the session.
    pub fn fatal(&self) -> (r: bool)
        ensures
            r == self.is_fatal(),
    {
        match self {
            SurfaceError::Timeout => false,
            SurfaceError::Outdated => false,
            SurfaceError::Lost => true,
            SurfaceError::OutOfMemory => true,
        }
    }
}

/// Whether the session can draw.
#[derive(Clone, Copy, Debug, PartialEq, Eq, Structural)]
pub enum Status {
    /// Frames can be drawn.
    Ready,
    /// The surface or the device was lost. Nothing leads out of this state.
    Lost,
}

/// What the session has the host create on the device, in the order of creation.
#[derive(Clone, Debug, PartialEq, Eq)]
pub struct Resources {
    pub texture: TextureResource,
    pub texture_bind_group_layout: BindGroupLayoutDescriptor,
    pub diffuse_bind_group: BindGroupDescriptor,
    pub shader: ShaderModuleDescriptor,
    pub camera_buffer: BufferInit,
    pub camera_bind_group_layout: BindGroupLayoutDescriptor,
    pub camera_bind_group: BindGroupDescriptor,
    pub vertex_buffer: BufferInit,
    pub render_pipeline: RenderPipelineDescriptor,
}

impl Resources {
    /// Everything about the resources that does not change with the texture or the
    /// camera: both bind groups and their layouts, the shader module's label, the
    /// uses and labels of the two buffers, the quad in the vertex buffer, and the pipeline for a surface of
    /// format `format`.
    pub open spec fn is_scene(&self, format: TextureFormat) -> bool {
        &&& self.texture_bind_group_layout.is_texture_layout()
        &&& self.diffuse_bind_group.is_diffuse_group()
        &&& self.shader.label@ == "Main shader"@
        &&& self.camera_buffer.label@ == "Camera buf"@
        &&& self.camera_buffer.usage == (BufferUsages {
            uniform: true,
            copy_dst: true,
            ..BufferUsages::none()
        })
        &&& self.camera_buffer.contents@.len() == 64
        &&& self.camera_bind_group_layout.is_camera_layout()
        &&& self.camera_bind_group.is_camera_group()
        &&& self.vertex_buffer.label@ == "Vertex Buffer"@
        &&& self.vertex_buffer.usage == (BufferUsages { vertex: true, ..BufferUsages::none() })
        &&& in_memory(flattened(quad_vertices()), self.vertex_buffer.contents@)
        &&& self.render_pipeline.is_scene_pipeline(format)
    }
}

/// The render session. It is made by `State::new` or `State::assemble` and changed
/// only by its own methods, so what `StateView::wf` says holds of every session.
#[derive(Clone, Debug, PartialEq, Eq)]
pub struct State {
    config: SurfaceConfiguration,
    size: PhysicalSize,
    vertex_count: u32,
    camera: Camera,
    camera_uniform: CameraUniform,
    status: Status,
    resources: Resources,
}

/// A session as contracts speak of it.
pub struct StateView {
    /// How the surface is configured.
    pub config: SurfaceConfiguration,
    /// The size of the window.
    pub size: PhysicalSize,
    /// How many vertices a frame draws.
    pub vertex_count: u32,
    /// The camera.
    pub camera: Camera,
    /// The matrix the vertex shader reads.
    pub camera_uniform: CameraUniform,
    /// Whether the session can draw.
    pub status: Status,
    /// What the host creates on the device.
    pub resources: Resources,
}

impl View for State {
    type V = StateView;

    closed spec fn view(&self) -> StateView {
        StateView {
            config: self.config,
            size: self.size,
            vertex_count: self.vertex_count,
            camera: self.camera,
            camera_uniform: self.camera_uniform,
            status: self.status,
            resources: self.resources,
        }
    }
}

impl StateView {
    /// What holds of a session from its start on: the surface has a positive size
    /// and is configured as the session configures it; the camera is the session's
    /// camera for that size; six vertices are drawn; the resources are the scene's,
    /// with a pipeline whose colour target has the surface's format.
    pub open spec fn wf(self) -> bool {
        &&& self.config.width > 0
        &&& self.config.height > 0
        &&& self.config == SurfaceConfiguration::scene(
            self.config.format,
            self.config.width,
            self.config.height,
        )
        &&& self.size == (PhysicalSize { width: self.config.width, height: self.config.height })
        &&& self.camera == Camera::with_aspect(
            Aspect { width: self.config.width, height: self.config.height },
        )
        &&& self.vertex_count == VERTEX_COUNT
        &&& self.resources.is_scene(self.config.format)
    }

    /// The session as `resize` leaves it for a size without a zero side: the size,
    /// the surface's size and the camera's ratio follow, nothing else changes.
    pub open spec fn resized(self, size: PhysicalSize) -> StateView {
        StateView {
            size,
            config: SurfaceConfiguration { width: size.width, height: size.height, ..self.config },
            camera: Camera {
                aspect: Aspect { width: size.width, height: size.height },
                ..self.camera
            },
            ..self
        }
    }

    /// The session after an attempt to draw a frame: it is lost if it was ready and
    /// acquiring the image failed fatally, and unchanged otherwise.
    pub open spec fn rendered(self, acquired: Result<(), SurfaceError>) -> StateView {
        match acquired {
            Err(e) => if self.status == Status::Ready && e.is_fatal() {
                StateView { status: Status::Lost, ..self }
            } else {
                self
            },
            Ok(_) => self,
        }
    }
}

impl State {
    /// What `assemble` returns. The first thing missing decides the error: the
    /// adapter, the device, the surface's format, the texture, in this order. With
    /// all of them the session is ready, configured for the given size and format,
    /// holds the given texture, and its uniform and camera buffer hold the given
    /// matrix.
    pub open spec fn started(
        r: Result<State, SessionError>,
        size: PhysicalSize,
        acquired: Acquired,
        texture: Result<TextureResource, TextureError>,
        vp_mat: Matrix,
    ) -> bool {
        match (acquired, texture) {
            (Acquired::NoAdapter, _) => r == Err::<State, SessionError>(SessionError::NoAdapter),
            (Acquired::DeviceRefused, _) => r == Err::<State, SessionError>(
                SessionError::DeviceRefused,
            ),
            (Acquired::Device { preferred_format: None }, _) => r == Err::<State, SessionError>(
                SessionError::NoSurfaceFormat,
            ),
            (Acquired::Device { preferred_format: Some(_) }, Err(e)) => r == Err::<
                State,
                SessionError,
            >(SessionError::Texture(e)),
            (Acquired::Device { preferred_format: Some(format) }, Ok(t)) => {
                &&& r.is_ok()
                &&& r.unwrap()@.wf()
                &&& r.unwrap()@.status == Status::Ready
                &&& r.unwrap()@.config == SurfaceConfiguration::scene(
                    format,
                    size.width,
                    size.height,
                )
                &&& r.unwrap()@.camera_uniform.vp_mat == vp_mat
                &&& r.unwrap()@.resources.texture == t
                &&& in_memory(matrix_words(vp_mat), r.unwrap()@.resources.camera_buffer.contents@)
            },
        }
    }

    /// Builds the session from what the host found out: the size of the window, how
    /// acquiring the device went, the described texture, and the view-projection
    /// matrix of `Camera::new` for that size.
    pub fn assemble(
        size: PhysicalSize,
        acquired: Acquired,
        texture: Result<TextureResource, TextureError>,
        vp_mat: Matrix,
    ) -> (r: Result<State, SessionError>)
        requires
            size.width > 0,
            size.height > 0,
        ensures
            Self::started(r, size, acquired, texture, vp_mat),
    {
        let format = match acquired {
            Acquired::NoAdapter => {
                return Err(SessionError::NoAdapter);
            },
            Acquired::DeviceRefused => {
                return Err(SessionError::DeviceRefused);
            },
            Acquired::Device { preferred_format: None } => {
                return Err(SessionError::NoSurfaceFormat);
            },
            Acquired::Device { preferred_format: Some(format) } => format,
        };
        let config = SurfaceConfiguration {
            usage: TextureUsages {
                copy_src: false,
                copy_dst: false,
                texture_binding: false,
                storage_binding: false,
                render_attachment: true,
            },
            format,
            width: size.width,
            height: size.height,
            present_mode: PresentMode::Fifo,
        };
        let texture = match texture {
            Ok(texture) => texture,
            Err(e) => {
                return Err(SessionError::Texture(e));
            },
        };
        let camera = Camera::new(Aspect { width: config.width, height: config.height });
        let mut camera_uniform = CameraUniform::new();
        camera_uniform.update(vp_mat);
        let camera_buffer = BufferInit {
            label: "Camera buf",
            contents: camera_uniform.bytes(),
            usage: BufferUsages {
                copy_src: false,
                copy_dst: true,
                index: false,
                vertex: false,
                uniform: true,
                storage: false,
            },
        };
        let vertices = quad();
        let vertex_buffer = BufferInit {
            label: "Vertex Buffer",
            contents: vertex_bytes(vertices.as_slice()),
            usage: BufferUsages {
                copy_src: false,
                copy_dst: false,
                index: false,
                vertex: true,
                uniform: false,
                storage: false,
            },
        };
        let resources = Resources {
            texture,
            texture_bind_group_layout: texture_bind_group_layout(),
            diffuse_bind_group: diffuse_bind_group(),
            shader: shader_module(),
            camera_buffer,
            camera_bind_group_layout: camera_bind_group_layout(),
            camera_bind_group: camera_bind_group(),
            vertex_buffer,
            render_pipeline: render_pipeline(config.format),
        };
        Ok(
            State {
                config,
                size,
                vertex_count: VERTEX_COUNT,
                camera,
                camera_uniform,
                status: Status::Ready,
                resources,
            },
        )
    }

    /// Starts a session: decodes the scene's texture from `diffuse_bytes` and
    /// builds the session around it.
    pub fn new(
        size: PhysicalSize,
        acquired: Acquired,
        diffuse_bytes: &[u8],
        vp_mat: Matrix,
    ) -> (r: Result<State, SessionError>)
        requires
            size.width > 0,
            size.height > 0,
        ensures
            exists|texture: Result<TextureResource, TextureError>|
                TextureResource::outcome(texture, decoded_image(diffuse_bytes@), "diffuse-texture"@)
                    && #[trigger] Self::started(r, size, acquired, texture, vp_mat),
    {
        let texture = TextureResource::from_bytes(diffuse_bytes, "diffuse-texture");
        Self::assemble(size, acquired, texture, vp_mat)
    }

    /// How the surface is configured.
    pub fn config(&self) -> (r: SurfaceConfiguration)
        ensures
            r == self@.config,
    {
        self.config
    }

    /// The size of the window.
    pub fn size(&self) -> (r: PhysicalSize)
        ensures
            r == self@.size,
    {
        self.size
    }

    /// How many vertices a frame draws.
    pub fn vertex_count(&self) -> (r: u32)
        ensures
            r == self@.vertex_count,
    {
        self.vertex_count
    }

    /// The camera.
    pub fn camera(&self) -> (r: Camera)
        ensures
            r == self@.camera,
    {
        self.camera
    }

    /// The matrix the vertex shader reads.
    pub fn camera_uniform(&self) -> (r: CameraUniform)
        ensures
            r == self@.camera_uniform,
    {
        self.camera_uniform
    }

    /// Whether the session can draw.
    pub fn status(&self) -> (r: Status)
        ensures
            r == self@.status,
    {
        self.status
    }

    /// What the host creates on the device.
    pub fn resources(&self) -> (r: &Resources)
        ensures
            *r == self@.resources,
    {
        &self.resources
    }

    /// Follows a change of the window's size. A size with a zero side changes
    /// nothing. Any other size becomes the session's size, the size the surface
    /// is configured with, and the ratio of the camera; the result then says that
    /// the surface must be configured anew and the camera's matrix updated.
    pub fn resize(&mut self, new_size: PhysicalSize) -> (reconfigure: bool)
        ensures
            old(self)@.wf() ==> final(self)@.wf(),
            reconfigure == (new_size.width > 0 && new_size.height > 0),
            !reconfigure ==> final(self)@ == old(self)@,
            reconfigure ==> final(self)@ == old(self)@.resized(new_size),
    {
        if new_size.width > 0 && new_size.height > 0 {
            self.size = new_size;
            self.config.width = new_size.width;
            self.config.height = new_size.height;
            self.camera.aspect = Aspect { width: new_size.width, height: new_size.height };
            true
        } else {
            false
        }
    }

    /// Takes the view-projection matrix computed for the session's camera and
    /// returns the bytes to write to the start of the camera buffer.
    pub fn update(&mut self, vp_mat: Matrix) -> (bytes: Vec<u8>)
        ensures
            final(self)@ == (StateView {
                camera_uniform: CameraUniform { vp_mat },
                ..old(self)@
            }),
            in_memory(matrix_words(vp_mat), bytes@),
            bytes@.len() == 64,
    {
        self.camera_uniform.update(vp_mat);
        self.camera_uniform.bytes()
    }

    /// Draws one frame, given how acquiring the surface's next image went. A lost
    /// session draws nothing and reports that it is lost. A ready session with an
    /// image returns the frame's commands and stays as it is; without an image it
    /// hands the error on, issues no command, and is lost if the error is fatal.
    pub fn render(&mut self, acquired: Result<(), SurfaceError>) -> (r: Result<
        Vec<RenderCommand>,
        SurfaceError,
    >)
        ensures
            final(self)@ == old(self)@.rendered(acquired),
            match (old(self)@.status, acquired) {
                (Status::Lost, _) => r == Err::<Vec<RenderCommand>, SurfaceError>(
                    SurfaceError::Lost,
                ),
                (Status::Ready, Err(e)) => r == Err::<Vec<RenderCommand>, SurfaceError>(e),
                (Status::Ready, Ok(_)) => r.is_ok() && r.unwrap()@ == frame_commands(
                    old(self)@.vertex_count,
                ),
            },
            r.is_ok() ==> is_frame(r.unwrap()@, old(self)@.vertex_count),
    {
        proof {
            lemma_frame_is_valid(self.vertex_count);
        }
        match self.status {
            Status::Lost => {
                return Err(SurfaceError::Lost);
            },
            Status::Ready => {},
        }
        match acquired {
            Err(e) => {
                if e.fatal() {
                    self.status = Status::Lost;
                }
                Err(e)
            },
            Ok(_) => {
                let commands = record_frame(self.vertex_count);
                Ok(commands)
            },
        }
    }
}

/// A size with a zero side leaves the session, and with it the surface's
/// configuration, as it was; any other size becomes the configuration's size.
pub proof fn lemma_resize_outcomes(before: StateView, after: StateView, size: PhysicalSize)
    requires
        before.wf(),
        after == if size.width > 0 && size.height > 0 {
            before.resized(size)
        } else {
            before
        },
    ensures
        after.wf(),
        size.width == 0 || size.height == 0 ==> after.config == before.config && after.size
            == before.size,
        size.width > 0 && size.height > 0 ==> after.config.width == size.width
            && after.config.height == size.height && after.config.format == before.config.format,
{
}

/// After a resize the camera is the one built directly for the new size: its
/// ratio is the new width over the new height and every other parameter is the
/// session's, so the matrix computed from it is the matrix for that ratio.
pub proof fn lemma_resize_sets_aspect(state: StateView, size: PhysicalSize)
    requires
        state.wf(),
        size.width > 0,
        size.height > 0,
    ensures
        state.resized(size).wf(),
        state.resized(size).camera == Camera::with_aspect(
            Aspect { width: size.width, height: size.height },
        ),
        state.resized(size).camera.aspect == (Aspect { width: size.width, height: size.height }),
{
}

/// A session that is well formed stays so through every attempt to draw, and a
/// lost session stays lost.
pub proof fn lemma_render_keeps_session(state: StateView, acquired: Result<(), SurfaceError>)
    requires
        state.wf(),
    ensures
        state.rendered(acquired).wf(),
        state.status == Status::Lost ==> state.rendered(acquired) == state,
        state.rendered(acquired).config == state.config,
{
}

} // verus!
