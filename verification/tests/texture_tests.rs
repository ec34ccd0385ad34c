use cube_world::texture::{decode_texture, texture_from_decoded, TextureError, TextureFormat};

fn png_bytes(width: u32, height: u32) -> (Vec<u8>, Vec<u8>) {
    let mut img = image::RgbaImage::new(width, height);
    for (x, y, p) in img.enumerate_pixels_mut() {
        *p = image::Rgba([x as u8 * 10, y as u8 * 20, 200, 255 - x as u8]);
    }
    let raw = img.clone().into_vec();
    let mut out = std::io::Cursor::new(Vec::new());
    img.write_to(&mut out, image::ImageFormat::Png).unwrap();
    (out.into_inner(), raw)
}

#[test]
fn decodes_png_into_rgba() {
    let (bytes, raw) = png_bytes(3, 2);
    let tex = match decode_texture(&bytes, TextureFormat::Png) {
        Ok(t) => t,
        Err(e) => panic!("decoding failed: {:?}", e),
    };
    assert_eq!(tex.width(), 3);
    assert_eq!(tex.height(), 2);
    assert_eq!(tex.pixels(), &raw);
    assert_eq!(tex.pixels().len(), 3 * 2 * 4);
}

#[test]
fn garbage_is_undecodable() {
    let r = decode_texture(&[1, 2, 3, 4, 5], TextureFormat::Jpeg);
    assert!(matches!(r, Err(TextureError::Undecodable)));
    let r = decode_texture(&[], TextureFormat::Png);
    assert!(matches!(r, Err(TextureError::Undecodable)));
}

#[test]
fn png_read_as_jpeg_is_undecodable() {
    let (bytes, _) = png_bytes(2, 2);
    let r = decode_texture(&bytes, TextureFormat::Jpeg);
    assert!(matches!(r, Err(TextureError::Undecodable)));
}

#[test]
fn decoded_parts_become_the_texture() {
    let t = texture_from_decoded(Some((1, 2, vec![1, 2, 3, 4, 5, 6, 7, 8]))).ok().unwrap();
    assert_eq!(t.width(), 1);
    assert_eq!(t.height(), 2);
    assert_eq!(t.pixels(), &vec![1, 2, 3, 4, 5, 6, 7, 8]);
    assert!(matches!(texture_from_decoded(None), Err(TextureError::Undecodable)));
}

#[test]
fn grayscale_png_becomes_four_bytes_per_pixel() {
    let img = image::GrayImage::from_fn(5, 3, |x, y| image::Luma([(x * 40 + y) as u8]));
    let mut out = std::io::Cursor::new(Vec::new());
    img.write_to(&mut out, image::ImageFormat::Png).unwrap();
    let tex = decode_texture(out.get_ref(), TextureFormat::Png).ok().unwrap();
    assert_eq!((tex.width(), tex.height()), (5, 3));
    assert_eq!(tex.pixels().len(), 5 * 3 * 4);
    assert_eq!(&tex.pixels()[4..8], &[40, 40, 40, 255]);
}

#[test]
fn jpeg_decodes_to_its_size() {
    let img = image::RgbImage::from_pixel(8, 4, image::Rgb([120, 60, 30]));
    let mut out = std::io::Cursor::new(Vec::new());
    img.write_to(&mut out, image::ImageFormat::Jpeg).unwrap();
    let tex = decode_texture(out.get_ref(), TextureFormat::Jpeg).ok().unwrap();
    assert_eq!((tex.width(), tex.height()), (8, 4));
    assert_eq!(tex.pixels().len(), 8 * 4 * 4);
}
