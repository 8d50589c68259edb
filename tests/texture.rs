use raytracer::color::Color;
use raytracer::texture::{Texture, TextureError, UV_ONE};

fn two_by_two() -> Texture {
    let raw: Vec<u8> = vec![1, 2, 3, 4, 5, 6, 7, 8, 9, 10, 11, 12];
    match Texture::from_rgb8(2, 2, &raw) {
        Ok(t) => t,
        Err(_) => panic!("a full grid must build"),
    }
}

#[test]
fn from_rgb8_reads_three_bytes_a_texel() {
    let t = two_by_two();
    assert_eq!(t.width(), 2);
    assert_eq!(t.height(), 2);
    assert_eq!(t.get_color(0, 0), Color { r: 1, g: 2, b: 3 });
    assert_eq!(t.get_color(1, 0), Color { r: 4, g: 5, b: 6 });
    assert_eq!(t.get_color(0, 1), Color { r: 7, g: 8, b: 9 });
    assert_eq!(t.get_color(1, 1), Color { r: 10, g: 11, b: 12 });
}

#[test]
fn from_rgb8_rejects_short_samples() {
    let raw: Vec<u8> = vec![1, 2, 3, 4, 5];
    assert!(matches!(Texture::from_rgb8(2, 1, &raw), Err(TextureError::SizeMismatch)));
}

#[test]
fn sample_scales_and_clamps() {
    let t = two_by_two();
    assert_eq!(t.sample(0, 0), Some(Color { r: 1, g: 2, b: 3 }));
    assert_eq!(t.sample(UV_ONE, 0), Some(Color { r: 4, g: 5, b: 6 }));
    assert_eq!(t.sample(UV_ONE / 2, UV_ONE), Some(Color { r: 7, g: 8, b: 9 }));
    assert_eq!(t.sample(u32::MAX, u32::MAX), Some(Color { r: 10, g: 11, b: 12 }));
}

#[test]
fn sample_of_empty_texture_is_none() {
    let raw: Vec<u8> = Vec::new();
    let t = match Texture::from_rgb8(0, 3, &raw) {
        Ok(t) => t,
        Err(_) => panic!("an empty grid must build"),
    };
    assert_eq!(t.sample(0, 0), None);
}

#[test]
fn decode_reads_png() {
    let raw: Vec<u8> = vec![255, 0, 0, 0, 255, 0, 0, 0, 255, 9, 9, 9];
    let picture = image::RgbImage::from_raw(2, 2, raw).expect("buffer fits");
    let mut bytes: Vec<u8> = Vec::new();
    picture
        .write_to(&mut std::io::Cursor::new(&mut bytes), image::ImageFormat::Png)
        .expect("png encodes");
    let t = match Texture::decode(&bytes) {
        Ok(t) => t,
        Err(e) => panic!("png must decode: {:?}", e),
    };
    assert_eq!((t.width(), t.height()), (2, 2));
    assert_eq!(t.get_color(0, 0), Color { r: 255, g: 0, b: 0 });
    assert_eq!(t.get_color(1, 0), Color { r: 0, g: 255, b: 0 });
    assert_eq!(t.get_color(0, 1), Color { r: 0, g: 0, b: 255 });
    assert_eq!(t.get_color(1, 1), Color { r: 9, g: 9, b: 9 });
}

#[test]
fn decode_rejects_garbage() {
    let bytes: Vec<u8> = vec![0, 1, 2, 3, 4, 5, 6, 7];
    assert!(matches!(Texture::decode(&bytes), Err(TextureError::Decode(_))));
}
