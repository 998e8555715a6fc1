use tinybit::{BoundingBox, Camera, Pixel, ScreenPos, ScreenSize, Viewport, WorldPos, WorldSize};

#[test]
fn camera_min_corner_maps_to_origin() {
    let cam = Camera::new(WorldPos::new(30, 30), WorldSize::new(6, 6));
    assert_eq!(cam.to_screen(WorldPos::new(30, 30)), ScreenPos::new(0, 0));
}

#[test]
fn camera_offset_inside_box() {
    let cam = Camera::new(WorldPos::new(-10, 7), WorldSize::new(20, 5));
    assert_eq!(cam.to_screen(WorldPos::new(-3, 11)), ScreenPos::new(7, 4));
    assert_eq!(cam.to_screen(WorldPos::new(9, 7)), ScreenPos::new(19, 0));
}

#[test]
fn camera_offset_outside_box_is_not_clipped() {
    let cam = Camera::new(WorldPos::new(30, 30), WorldSize::new(6, 6));
    assert_eq!(cam.to_screen(WorldPos::new(25, 40)), ScreenPos::new(-5, 10));
}

#[test]
fn camera_move_keeps_size() {
    let mut cam = Camera::new(WorldPos::new(30, 30), WorldSize::new(6, 4));
    cam.move_to(WorldPos::new(100, -50));
    assert_eq!(cam.bounding_box, BoundingBox::new(100, -50, 6, 4));
    assert_eq!(cam.bounding_box.max_x(), 106);
    assert_eq!(cam.bounding_box.max_y(), -46);
    assert_eq!(cam.to_screen(WorldPos::new(101, -49)), ScreenPos::new(1, 1));
}

#[test]
fn bounding_box_bounds() {
    let b = BoundingBox::new(-4, 9, 10, 0);
    assert_eq!((b.min_x(), b.min_y(), b.max_x(), b.max_y()), (-4, 9, 6, 9));
}

#[test]
fn viewport_adds_its_origin() {
    let mut view = Viewport::new(ScreenPos::new(7, 3), ScreenSize::new(10, 10));
    view.draw_pixel(('q', ScreenPos::new(4, 5)));
    assert_eq!(view.pixels(), vec![Pixel::new('q', ScreenPos::new(11, 8))]);
}

#[test]
fn viewport_passes_out_of_bounds_through() {
    let mut view = Viewport::new(ScreenPos::new(2, 2), ScreenSize::new(3, 3));
    view.draw_pixel(('o', ScreenPos::new(10, -5)));
    assert_eq!(view.pixels(), vec![Pixel::new('o', ScreenPos::new(12, -3))]);
}

#[test]
fn viewport_second_drain_is_empty() {
    let mut view = Viewport::new(ScreenPos::new(0, 0), ScreenSize::new(4, 4));
    view.draw_pixel(('a', ScreenPos::new(1, 2)));
    assert_eq!(view.pixels().len(), 1);
    assert!(view.pixels().is_empty());
    assert!(view.pixels().is_empty());
}

#[test]
fn viewport_new_is_empty() {
    let mut view = Viewport::new(ScreenPos::new(5, 6), ScreenSize::new(1, 2));
    assert_eq!(view.bounding_box(), BoundingBox::new(5, 6, 1, 2));
    assert!(view.pixels().is_empty());
}

#[test]
fn camera_and_viewport_compose() {
    let cam = Camera::new(WorldPos::new(100, 200), WorldSize::new(40, 20));
    let mut view = Viewport::new(ScreenPos::new(3, 1), ScreenSize::new(40, 20));
    view.draw_pixel(('@', cam.to_screen(WorldPos::new(110, 215))));
    assert_eq!(view.pixels(), vec![Pixel::new('@', ScreenPos::new(13, 16))]);
}

#[test]
fn screen_cell_addressable() {
    assert_eq!(ScreenPos::new(2, 2).cell(), Some((2, 2)));
    assert_eq!(ScreenPos::new(65535, 0).cell(), Some((65535, 0)));
    assert_eq!(ScreenPos::new(-1, 0).cell(), None);
    assert_eq!(ScreenPos::new(0, 65536).cell(), None);
}
