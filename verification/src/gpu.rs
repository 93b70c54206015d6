//! Plain descriptions of what a graphics device is asked to create.
//!
//! Each type here holds, as ordinary values, the settings that the renderer decides
//! on. A host turns them into the device's own descriptors field by field.
use vstd::prelude::*;

verus! {

/// Pixel formats the renderer has a name for.
///
/// The four formats with 8 bits per channel, in either channel order, linear or
/// sRGB-encoded, are those a surface is expected to prefer; the two wide formats
/// are there for surfaces that are configured by hand. A device knows many more
/// formats. The renderer takes none of them: a host whose surface prefers one has
/// no format to start a session with, and the start ends with
/// `SessionError::NoSurfaceFormat`.
#[derive(Clone, Copy, Debug, PartialEq, Eq, Structural)]
pub enum TextureFormat {
    Rgba8Unorm,
    Rgba8UnormSrgb,
    Bgra8Unorm,
    Bgra8UnormSrgb,
    Rgb10a2Unorm,
    Rgba16Float,
}

/// Size of a texture or of a copy, in texels.
#[derive(Clone, Copy, Debug, PartialEq, Eq, Structural)]
pub struct Extent3d {
    pub width: u32,
    pub height: u32,
    pub depth_or_array_layers: u32,
}

/// A texel position inside a texture.
#[derive(Clone, Copy, Debug, PartialEq, Eq, Structural)]
pub struct Origin3d {
    pub x: u32,
    pub y: u32,
    pub z: u32,
}

/// Number of dimensions of a texture.
#[derive(Clone, Copy, Debug, PartialEq, Eq, Structural)]
pub enum TextureDimension {
    D1,
    D2,
    D3,
}

/// Which planes of a texture a copy or a view touches.
#[derive(Clone, Copy, Debug, PartialEq, Eq, Structural)]
pub enum TextureAspect {
    All,
    StencilOnly,
    DepthOnly,
}

/// What a texture may be used for.
#[derive(Clone, Copy, Debug, PartialEq, Eq, Structural)]
pub struct TextureUsages {
    pub copy_src: bool,
    pub copy_dst: bool,
    pub texture_binding: bool,
    pub storage_binding: bool,
    pub render_attachment: bool,
}

/// What a buffer may be used for.
#[derive(Clone, Copy, Debug, PartialEq, Eq, Structural)]
pub struct BufferUsages {
    pub copy_src: bool,
    pub copy_dst: bool,
    pub index: bool,
    pub vertex: bool,
    pub uniform: bool,
    pub storage: bool,
}

/// Shader stages that can see a binding.
#[derive(Clone, Copy, Debug, PartialEq, Eq, Structural)]
pub struct ShaderStages {
    pub vertex: bool,
    pub fragment: bool,
    pub compute: bool,
}

/// Shape of a texture as a shader sees it.
#[derive(Clone, Copy, Debug, PartialEq, Eq, Structural)]
pub enum TextureViewDimension {
    D1,
    D2,
    D2Array,
    Cube,
    CubeArray,
    D3,
}

/// How a sampler treats coordinates outside the texture.
#[derive(Clone, Copy, Debug, PartialEq, Eq, Structural)]
pub enum AddressMode {
    ClampToEdge,
    Repeat,
    MirrorRepeat,
    ClampToBorder,
}

/// How a sampler picks a colour between texels.
#[derive(Clone, Copy, Debug, PartialEq, Eq, Structural)]
pub enum FilterMode {
    Nearest,
    Linear,
}

/// How a surface hands finished frames to the display.
#[derive(Clone, Copy, Debug, PartialEq, Eq, Structural)]
pub enum PresentMode {
    Immediate,
    Mailbox,
    Fifo,
}

/// A buffer created together with its contents.
#[derive(Clone, Debug, PartialEq, Eq)]
pub struct BufferInit {
    pub label: &'static str,
    pub contents: Vec<u8>,
    pub usage: BufferUsages,
}

impl TextureUsages {
    /// No use at all.
    pub open spec fn none() -> TextureUsages {
        TextureUsages {
            copy_src: false,
            copy_dst: false,
            texture_binding: false,
            storage_binding: false,
            render_attachment: false,
        }
    }
}

impl BufferUsages {
    /// No use at all.
    pub open spec fn none() -> BufferUsages {
        BufferUsages {
            copy_src: false,
            copy_dst: false,
            index: false,
            vertex: false,
            uniform: false,
            storage: false,
        }
    }
}

impl ShaderStages {
    /// Visible to the vertex stage alone.
    pub open spec fn vertex_only() -> ShaderStages {
        ShaderStages { vertex: true, fragment: false, compute: false }
    }

    /// Visible to the fragment stage alone.
    pub open spec fn fragment_only() -> ShaderStages {
        ShaderStages { vertex: false, fragment: true, compute: false }
    }
}

} // verus!
