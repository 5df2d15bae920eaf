//! Textures loaded from PNG files.
use vstd::prelude::*;
use crate::rhi::{Format, ImageDesc, ImageType, ImageUsage};

verus! {

/// An image decoded to 8-bit RGBA.
pub struct DecodedImage {
    pub width: u32,
    pub height: u32,
    /// The pixels, row by row, four bytes each.
    pub pixels: Vec<u8>,
}

/// What the `image` crate decodes PNG bytes into: width, height and RGBA8
/// pixels, or nothing when the bytes are not a PNG it can read.
pub uninterp spec fn png_rgba8(bytes: Seq<u8>) -> Option<(u32, u32, Seq<u8>)>;

/// `image::load_from_memory_with_format` with the PNG format, then
/// `DynamicImage::to_rgba8`. Claimed: the result depends on the bytes alone
/// (it is named `png_rgba8`); nothing is claimed of its size.
#[verifier::external_body]
fn decode_png_rgba8(bytes: &[u8]) -> (r: Option<DecodedImage>)
    ensures
        match r {
            Some(d) => png_rgba8(bytes@) == Some((d.width, d.height, d.pixels@)),
            None => png_rgba8(bytes@) is None,
        },
{
    match image::load_from_memory_with_format(bytes, image::ImageFormat::Png) {
        Ok(img) => {
            let rgba = img.to_rgba8();
            let (width, height) = rgba.dimensions();
            Some(DecodedImage { width, height, pixels: rgba.into_raw() })
        },
        Err(_) => None,
    }
}

/// `VK_FORMAT_R8G8B8A8_SRGB`.
pub const TEXTURE_FORMAT: i32 = 43i32;

/// The description of a sampled sRGB RGBA8 texture of the given size.
pub fn texture_desc(width: u32, height: u32) -> (r: ImageDesc)
    ensures
        r.ty == ImageType::Type2D,
        r.dimensions@ == seq![width, height, 1u32],
        r.mip_count == 1,
        r.layer_count == 1,
        r.sample_count == 1,
        r.format.raw == TEXTURE_FORMAT,
        r.usage == ImageUsage::Sampled,
{
    ImageDesc {
        ty: ImageType::Type2D,
        dimensions: [width, height, 1],
        mip_count: 1,
        layer_count: 1,
        sample_count: 1,
        format: Format { raw: TEXTURE_FORMAT },
        usage: ImageUsage::Sampled,
    }
}

/// The texture that a decoded image makes: a sampled sRGB RGBA8 image of its
/// size, and its pixels as they are.
pub fn texture_from_decoded(d: DecodedImage) -> (r: (ImageDesc, Vec<u8>))
    ensures
        r.1@ == d.pixels@,
        r.0.dimensions@ == seq![d.width, d.height, 1u32],
        r.0.format.raw == TEXTURE_FORMAT,
        r.0.ty == ImageType::Type2D,
        r.0.usage == ImageUsage::Sampled,
        r.0.mip_count == 1,
        r.0.layer_count == 1,
        r.0.sample_count == 1,
{
    (texture_desc(d.width, d.height), d.pixels)
}

/// Decodes a PNG texture: its description and its pixels, or nothing when the
/// bytes cannot be decoded.
pub fn load_png_texture(bytes: &[u8]) -> (r: Option<(ImageDesc, Vec<u8>)>)
    ensures
        match png_rgba8(bytes@) {
            Some((w, h, px)) => r matches Some((d, p)) && p@ == px && d.dimensions@ == seq![w, h, 1u32]
                && d.format.raw == TEXTURE_FORMAT && d.ty == ImageType::Type2D && d.usage
                == ImageUsage::Sampled && d.mip_count == 1 && d.layer_count == 1 && d.sample_count == 1,
            None => r is None,
        },
{
    match decode_png_rgba8(bytes) {
        Some(d) => Some(texture_from_decoded(d)),
        None => None,
    }
}

} // verus!
