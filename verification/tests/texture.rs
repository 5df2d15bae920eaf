use styro::rhi::{ImageType, ImageUsage};
use styro::texture::{load_png_texture, texture_desc, texture_from_decoded, DecodedImage, TEXTURE_FORMAT};

fn png(width: u32, height: u32, pixels: Vec<u8>) -> Vec<u8> {
    let img = image::RgbaImage::from_raw(width, height, pixels).unwrap();
    let mut out = std::io::Cursor::new(Vec::new());
    img.write_to(&mut out, image::ImageFormat::Png).unwrap();
    out.into_inner()
}

#[test]
fn png_textures_decode_to_rgba8() {
    let pixels = vec![255, 0, 0, 255, 0, 255, 0, 128];
    let bytes = png(2, 1, pixels.clone());
    let (desc, decoded) = load_png_texture(&bytes).unwrap();
    assert_eq!(desc.dimensions, [2, 1, 1]);
    assert_eq!(desc.format.raw, TEXTURE_FORMAT);
    assert_eq!(desc.usage, ImageUsage::Sampled);
    assert_eq!(decoded, pixels);
}

#[test]
fn garbage_is_not_a_texture() {
    assert!(load_png_texture(&[1, 2, 3, 4]).is_none());
}

#[test]
fn texture_descriptions() {
    let d = texture_desc(640, 480);
    assert_eq!(d.ty, ImageType::Type2D);
    assert_eq!(d.dimensions, [640, 480, 1]);
    assert_eq!(d.format.raw, ash::vk::Format::R8G8B8A8_SRGB.as_raw());
}

#[test]
fn decoded_images_become_sampled_textures() {
    let (desc, pixels) = texture_from_decoded(DecodedImage {
        width: 3,
        height: 2,
        pixels: vec![7; 24],
    });
    assert_eq!(desc.dimensions, [3, 2, 1]);
    assert_eq!(desc.mip_count, 1);
    assert_eq!(desc.sample_count, 1);
    assert_eq!(desc.usage, ImageUsage::Sampled);
    assert_eq!(pixels, vec![7; 24]);
}
