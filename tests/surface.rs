use std::sync::Arc;

use raytracer::color::Color;
use raytracer::surface::Surface;
use raytracer::texture::{Texture, UV_ONE};

fn checker() -> Arc<Texture> {
    let raw: Vec<u8> = vec![10, 10, 10, 200, 200, 200];
    Arc::new(Texture::from_rgb8(2, 1, &raw).ok().expect("grid fits"))
}

#[test]
fn untextured_surface_shows_diffuse() {
    let s = Surface::new(Color::from_hex(0x228B22), [None, None, None, None, None, None], false);
    assert_eq!(s.get_diffuse_color(0, 0, 0), Color::from_hex(0x228B22));
}

#[test]
fn textured_face_samples_its_texture() {
    let t = checker();
    let s = Surface::new(
        Color::from_hex(0xFF4500),
        [Some(t.clone()), None, Some(t.clone()), None, None, None],
        true,
    );
    assert_eq!(s.get_diffuse_color(0, 0, 0), Color { r: 10, g: 10, b: 10 });
    assert_eq!(s.get_diffuse_color(2, UV_ONE, 0), Color { r: 200, g: 200, b: 200 });
    assert_eq!(s.get_diffuse_color(1, UV_ONE, 0), Color::from_hex(0xFF4500));
    assert_eq!(s.get_diffuse_color(9, 0, 0), Color::from_hex(0xFF4500));
}

#[test]
fn texture_flag_off_ignores_textures() {
    let t = checker();
    let s = Surface::new(Color::new(1, 2, 3), [Some(t.clone()), None, None, None, None, None], false);
    assert_eq!(s.get_diffuse_color(0, UV_ONE, 0), Color::new(1, 2, 3));
}

#[test]
fn texture_for_face_by_index() {
    let t = checker();
    let s = Surface::new(Color::black(), [None, Some(t.clone()), None, None, None, None], true);
    assert!(s.get_texture_for_face(0).is_none());
    let got = s.get_texture_for_face(1).expect("slot one holds a texture");
    assert!(Arc::ptr_eq(&got, &t));
    assert!(s.get_texture_for_face(6).is_none());
}

#[test]
fn black_surface_is_plain_black() {
    let s = Surface::black();
    assert!(!s.has_texture);
    assert_eq!(s.get_diffuse_color(3, 5, 5), Color::black());
}
