//! From encoded image bytes to the description of a texture, its upload and its
//! sampler.
use vstd::prelude::*;
use crate::gpu::{
    AddressMode, Extent3d, FilterMode, Origin3d, TextureAspect, TextureDimension, TextureFormat,
    TextureUsages, TextureViewDimension,
};

verus! {

/// Bytes of one RGBA8 texel.
pub const BYTES_PER_TEXEL: u32 = 4;

/// Widest image whose row of RGBA8 texels still has a 32-bit byte length.
pub const MAX_WIDTH: u32 = 0x3FFF_FFFF;

/// An image as rows of RGBA8 texels, top row first, with nothing between rows.
#[derive(Clone, Debug, PartialEq, Eq)]
pub struct DecodedImage {
    pub width: u32,
    pub height: u32,
    pub rgba: Vec<u8>,
}

impl DecodedImage {
    /// The buffer holds exactly `width * height` texels.
    pub open spec fn wf(&self) -> bool {
        self.rgba@.len() == 4 * self.width * self.height
    }
}

/// Row `y` of an image `width` texels wide whose texels are `rgba`.
pub open spec fn image_row(rgba: Seq<u8>, width: int, y: int) -> Seq<u8> {
    rgba.subrange(4 * width * y, 4 * width * (y + 1))
}

/// The texel in column `x` of row `y` of such an image.
pub open spec fn image_texel(rgba: Seq<u8>, width: int, x: int, y: int) -> Seq<u8> {
    rgba.subrange(4 * (width * y + x), 4 * (width * y + x) + 4)
}

/// The error of the `image` crate's decoders.
#[verifier::external_type_specification]
#[verifier::external_body]
pub struct ExImageError(image::ImageError);

/// What `image::load_from_memory` makes of `bytes`, converted to RGBA8: width,
/// height and texels, or `None` where it reports an error. The crate is built with
/// its PNG decoder alone, so bytes in any other container are an error.
pub uninterp spec fn decoded_image(bytes: Seq<u8>) -> Option<(u32, u32, Seq<u8>)>;

/// Decodes with `image::load_from_memory`, which guesses the container format from
/// the first bytes, and converts the picture to RGBA8 with
/// `DynamicImage::to_rgba8`. Only the PNG decoder is built in: bytes with another
/// signature, JPEG among them, reach no decoder and come back as an error. The
/// contract names the outcome, and adds what `ImageBuffer` guarantees of every such
/// buffer: four bytes for each of its `width * height` texels.
#[verifier::external_body]
fn decode_rgba8(bytes: &[u8]) -> (r: Result<DecodedImage, image::ImageError>)
    ensures
        match r {
            Ok(img) => decoded_image(bytes@) == Some((img.width, img.height, img.rgba@))
                && img.wf(),
            Err(_) => decoded_image(bytes@).is_none(),
        },
{
    let img = image::load_from_memory(bytes)?;
    Ok(DecodedImage { width: img.width(), height: img.height(), rgba: img.to_rgba8().into_raw() })
}

/// Why a texture could not be described.
#[derive(Clone, Copy, Debug, PartialEq, Eq, Structural)]
pub enum TextureError {
    /// The bytes are not a PNG image that can be decoded.
    Decode,
    /// A row of the image is longer than a 32-bit byte count.
    RowTooLong,
}

/// A texture to create.
#[derive(Clone, Debug, PartialEq, Eq)]
pub struct TextureDescriptor {
    pub label: String,
    pub size: Extent3d,
    pub mip_level_count: u32,
    pub sample_count: u32,
    pub dimension: TextureDimension,
    pub format: TextureFormat,
    pub usage: TextureUsages,
}

/// Where in a texture a copy lands.
#[derive(Clone, Copy, Debug, PartialEq, Eq, Structural)]
pub struct ImageCopyTexture {
    pub mip_level: u32,
    pub origin: Origin3d,
    pub aspect: TextureAspect,
}

/// How the bytes handed to a copy are laid out. A pitch of `None` stands for zero.
#[derive(Clone, Copy, Debug, PartialEq, Eq, Structural)]
pub struct ImageDataLayout {
    pub offset: u64,
    pub bytes_per_row: Option<u32>,
    pub rows_per_image: Option<u32>,
}

/// One write of texel data into a texture through the queue.
#[derive(Clone, Debug, PartialEq, Eq)]
pub struct TextureWrite {
    pub target: ImageCopyTexture,
    pub data: Vec<u8>,
    pub layout: ImageDataLayout,
    pub size: Extent3d,
}

/// A view of a texture to create. `None` for the format or the dimension takes the
/// texture's own; `None` for a count takes every level or layer from the base on.
#[derive(Clone, Copy, Debug, PartialEq, Eq, Structural)]
pub struct TextureViewDescriptor {
    pub format: Option<TextureFormat>,
    pub dimension: Option<TextureViewDimension>,
    pub aspect: TextureAspect,
    pub base_mip_level: u32,
    pub mip_level_count: Option<u32>,
    pub base_array_layer: u32,
    pub array_layer_count: Option<u32>,
}

impl TextureViewDescriptor {
    /// The view of a whole texture: its own format and dimension, all aspects,
    /// every mip level and every layer.
    pub open spec fn whole() -> TextureViewDescriptor {
        TextureViewDescriptor {
            format: None,
            dimension: None,
            aspect: TextureAspect::All,
            base_mip_level: 0,
            mip_level_count: None,
            base_array_layer: 0,
            array_layer_count: None,
        }
    }

    /// The view of a whole texture.
    pub fn full() -> (r: TextureViewDescriptor)
        ensures
            r == TextureViewDescriptor::whole(),
    {
        TextureViewDescriptor {
            format: None,
            dimension: None,
            aspect: TextureAspect::All,
            base_mip_level: 0,
            mip_level_count: None,
            base_array_layer: 0,
            array_layer_count: None,
        }
    }
}

/// A sampler to create. What is not listed keeps the device's default.
#[derive(Clone, Debug, PartialEq, Eq)]
pub struct SamplerDescriptor {
    pub label: String,
    pub address_mode_u: AddressMode,
    pub address_mode_v: AddressMode,
    pub address_mode_w: AddressMode,
    pub mag_filter: FilterMode,
    pub min_filter: FilterMode,
    pub mipmap_filter: FilterMode,
}

/// Everything needed to put an image on the device: the texture, the write that
/// fills it, the one view of it, and the sampler.
#[derive(Clone, Debug, PartialEq, Eq)]
pub struct TextureResource {
    pub texture: TextureDescriptor,
    pub write: TextureWrite,
    pub view: TextureViewDescriptor,
    pub sampler: SamplerDescriptor,
}

/// `n`, or `None` for zero.
pub open spec fn non_zero(n: u32) -> Option<u32> {
    if n == 0 {
        None
    } else {
        Some(n)
    }
}

/// The row pitch, in bytes, of the write described by `layout`.
pub open spec fn row_pitch(layout: ImageDataLayout) -> int {
    match layout.bytes_per_row {
        Some(n) => n as int,
        None => 0,
    }
}

/// Row `y` as the device reads it out of the bytes of a write.
pub open spec fn written_row(write: TextureWrite, y: int) -> Seq<u8> {
    let start = write.layout.offset + row_pitch(write.layout) * y;
    write.data@.subrange(start, start + 4 * write.size.width)
}

impl TextureResource {
    /// The resource for an image of the given size and texels under the given label:
    /// a 2-D sRGB RGBA8 texture of exactly that size, one mip level, one sample,
    /// to be sampled and copied into; one write of all texels to its origin with a
    /// row pitch of four bytes per texel of width; one view of the whole texture; a
    /// sampler that clamps on all axes, magnifies linearly and minifies to the
    /// nearest texel.
    pub open spec fn describes(&self, width: u32, height: u32, rgba: Seq<u8>, label: Seq<char>)
        -> bool {
        let size = Extent3d { width, height, depth_or_array_layers: 1 };
        &&& self.texture.label@ == label
        &&& self.texture.size == size
        &&& self.texture.mip_level_count == 1
        &&& self.texture.sample_count == 1
        &&& self.texture.dimension == TextureDimension::D2
        &&& self.texture.format == TextureFormat::Rgba8UnormSrgb
        &&& self.texture.usage == (TextureUsages {
            copy_dst: true,
            texture_binding: true,
            ..TextureUsages::none()
        })
        &&& self.write.target == (ImageCopyTexture {
            mip_level: 0,
            origin: Origin3d { x: 0, y: 0, z: 0 },
            aspect: TextureAspect::All,
        })
        &&& self.write.data@ == rgba
        &&& self.write.layout.offset == 0
        &&& self.write.layout.bytes_per_row == non_zero((4 * width) as u32)
        &&& self.write.layout.rows_per_image == non_zero(height)
        &&& self.write.size == size
        &&& self.view == TextureViewDescriptor::whole()
        &&& self.sampler.label@ == label
        &&& self.sampler.address_mode_u == AddressMode::ClampToEdge
        &&& self.sampler.address_mode_v == AddressMode::ClampToEdge
        &&& self.sampler.address_mode_w == AddressMode::ClampToEdge
        &&& self.sampler.mag_filter == FilterMode::Linear
        &&& self.sampler.min_filter == FilterMode::Nearest
        &&& self.sampler.mipmap_filter == FilterMode::Nearest
    }

    /// Describes the texture for an image already decoded.
    pub fn from_image(image: &DecodedImage, label: &str) -> (r: TextureResource)
        requires
            image.width <= MAX_WIDTH,
        ensures
            r.describes(image.width, image.height, image.rgba@, label@),
    {
        let width = image.width;
        let height = image.height;
        let size = Extent3d { width, height, depth_or_array_layers: 1 };
        let texture = TextureDescriptor {
            label: label.to_owned(),
            size,
            mip_level_count: 1,
            sample_count: 1,
            dimension: TextureDimension::D2,
            format: TextureFormat::Rgba8UnormSrgb,
            usage: TextureUsages {
                copy_src: false,
                copy_dst: true,
                texture_binding: true,
                storage_binding: false,
                render_attachment: false,
            },
        };
        let target = ImageCopyTexture {
            mip_level: 0,
            origin: Origin3d { x: 0, y: 0, z: 0 },
            aspect: TextureAspect::All,
        };
        let pitch: u32 = BYTES_PER_TEXEL * width;
        let layout = ImageDataLayout {
            offset: 0,
            bytes_per_row: if pitch == 0 {
                None
            } else {
                Some(pitch)
            },
            rows_per_image: if height == 0 {
                None
            } else {
                Some(height)
            },
        };
        let data = image.rgba.clone();
        let write = TextureWrite { target, data, layout, size };
        let sampler = SamplerDescriptor {
            label: label.to_owned(),
            address_mode_u: AddressMode::ClampToEdge,
            address_mode_v: AddressMode::ClampToEdge,
            address_mode_w: AddressMode::ClampToEdge,
            mag_filter: FilterMode::Linear,
            min_filter: FilterMode::Nearest,
            mipmap_filter: FilterMode::Nearest,
        };
        TextureResource { texture, write, view: TextureViewDescriptor::full(), sampler }
    }

    /// What `from_bytes` returns once the decoder has spoken.
    pub open spec fn outcome(
        r: Result<TextureResource, TextureError>,
        decoded: Option<(u32, u32, Seq<u8>)>,
        label: Seq<char>,
    ) -> bool {
        match decoded {
            None => r == Err::<TextureResource, TextureError>(TextureError::Decode),
            Some((width, height, rgba)) => if width > MAX_WIDTH {
                r == Err::<TextureResource, TextureError>(TextureError::RowTooLong)
            } else {
                r.is_ok() && r.unwrap().describes(width, height, rgba, label)
            },
        }
    }

    /// Describes the texture for the outcome of decoding: the resource for the
    /// image, `Decode` where there is none, `RowTooLong` where its rows do not fit.
    pub fn from_decoded(decoded: Option<DecodedImage>, label: &str) -> (r: Result<
        TextureResource,
        TextureError,
    >)
        ensures
            Self::outcome(
                r,
                match decoded {
                    Some(img) => Some((img.width, img.height, img.rgba@)),
                    None => None,
                },
                label@,
            ),
    {
        match decoded {
            None => Err(TextureError::Decode),
            Some(image) => {
                if image.width > MAX_WIDTH {
                    Err(TextureError::RowTooLong)
                } else {
                    Ok(Self::from_image(&image, label))
                }
            },
        }
    }

    /// Decodes the bytes of a PNG image and describes the texture for the picture.
    /// Bytes in any other container, and PNG bytes that cannot be decoded, are a
    /// `Decode` error.
    pub fn from_bytes(bytes: &[u8], label: &str) -> (r: Result<TextureResource, TextureError>)
        ensures
            Self::outcome(r, decoded_image(bytes@), label@),
    {
        let decoded = match decode_rgba8(bytes) {
            Ok(image) => Some(image),
            Err(_) => None,
        };
        Self::from_decoded(decoded, label)
    }
}

/// No row skew: with the pitch that `describes` fixes, every row of the image is
/// read by the device from exactly the bytes that hold it, and so is every texel.
pub proof fn lemma_rows_land(
    resource: TextureResource,
    width: u32,
    height: u32,
    rgba: Seq<u8>,
    label: Seq<char>,
    y: int,
)
    requires
        resource.describes(width, height, rgba, label),
        width <= MAX_WIDTH,
        rgba.len() == 4 * width * height,
        0 <= y < height,
    ensures
        row_pitch(resource.write.layout) == 4 * width,
        written_row(resource.write, y) == image_row(rgba, width as int, y),
        forall|x: int|
            0 <= x < width ==> #[trigger] written_row(resource.write, y).subrange(4 * x, 4 * x + 4)
                == image_texel(rgba, width as int, x, y),
{
    let w = width as int;
    let row = written_row(resource.write, y);
    assert(4 * w * y + 4 * w == 4 * w * (y + 1)) by (nonlinear_arith);
    assert(4 * w * (y + 1) <= 4 * w * height) by (nonlinear_arith)
        requires
            0 <= w,
            y + 1 <= height,
    ;
    assert(0 <= 4 * w * y) by (nonlinear_arith)
        requires
            0 <= w,
            0 <= y,
    ;
    assert forall|x: int| 0 <= x < width implies #[trigger] row.subrange(4 * x, 4 * x + 4)
        == image_texel(rgba, w, x, y) by {
        assert(4 * w * y + 4 * x == 4 * (w * y + x)) by (nonlinear_arith);
        assert(row.subrange(4 * x, 4 * x + 4) =~= image_texel(rgba, w, x, y));
    }
}

} // verus!
