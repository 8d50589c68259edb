use raytracer::color::Color;
use raytracer::framebuffer::Framebuffer;

#[test]
fn new_frame_is_black() {
    let fb = Framebuffer::new(3, 2);
    assert_eq!(*fb.get_buffer(), vec![0; 6]);
    assert_eq!((fb.get_width(), fb.get_height()), (3, 2));
}

#[test]
fn clear_fills_background() {
    let mut fb = Framebuffer::new(2, 2);
    fb.set_background_color(Color::new(4, 12, 36));
    fb.clear();
    assert_eq!(*fb.get_buffer(), vec![0x040C24; 4]);
}

#[test]
fn point_plots_current_color_inside_only() {
    let mut fb = Framebuffer::new(3, 2);
    fb.set_current_color(Color::from_hex(0x123456));
    fb.point(2, 1);
    fb.point(3, 0);
    fb.point(0, 2);
    assert_eq!(*fb.get_buffer(), vec![0, 0, 0, 0, 0, 0x123456]);
}

#[test]
fn commit_writes_hits_and_keeps_misses() {
    let mut fb = Framebuffer::new(2, 2);
    fb.set_background_color(Color::new(4, 12, 36));
    fb.clear();
    let pixels = vec![Some(Color::new(255, 0, 0)), None, None, Some(Color::new(0, 0, 255))];
    fb.commit_pixels(&pixels);
    assert_eq!(*fb.get_buffer(), vec![0xFF0000, 0x040C24, 0x040C24, 0x0000FF]);
    fb.point(1, 0);
    assert_eq!(fb.get_buffer()[1], 0xFFFFFF);
}
