use raycaster::canvas::Canvas;
use raycaster::color::RGBColor;
use raycaster::textures::{get_texture_coord, Atlas, Textures};

#[test]
fn a_new_canvas_is_clear() {
    let canvas = Canvas::new(4, 3);
    assert_eq!(canvas.width, 4);
    assert_eq!(canvas.height, 3);
    assert_eq!(canvas.buffer, vec![0u8; 48]);
    let empty = Canvas::new(0, 7);
    assert!(empty.buffer.is_empty());
}

#[test]
fn a_pixel_is_four_bytes_in_its_row() {
    let mut canvas = Canvas::new(4, 3);
    canvas.put_pixel(1, 2, RGBColor { r: 10, g: 20, b: 30, a: 40 });
    let mut expected = vec![0u8; 48];
    expected[36..40].copy_from_slice(&[10, 20, 30, 255]);
    assert_eq!(canvas.buffer, expected);
    assert_eq!(canvas.get_pixel(1, 2), RGBColor::new(10, 20, 30));
    assert_eq!(canvas.get_pixel(2, 1), RGBColor { r: 0, g: 0, b: 0, a: 0 });
    canvas.put_pixel(3, 2, RGBColor::new(1, 2, 3));
    canvas.put_pixel(0, 0, RGBColor::new(4, 5, 6));
    assert_eq!(&canvas.buffer[44..48], &[1, 2, 3, 255]);
    assert_eq!(&canvas.buffer[0..4], &[4, 5, 6, 255]);
    assert_eq!(canvas.get_pixel(1, 2), RGBColor::new(10, 20, 30));
}

#[test]
fn an_atlas_needs_four_bytes_for_each_texel() {
    assert!(Atlas::new(2, 2, vec![0; 16]).is_some());
    assert!(Atlas::new(2, 2, vec![0; 15]).is_none());
    assert!(Atlas::new(2, 2, vec![0; 17]).is_none());
    assert!(Atlas::new(0, 5, vec![]).is_some());
    assert!(Atlas::new(usize::MAX, 2, vec![]).is_none());
    assert!(Atlas::new(usize::MAX / 4, 2, vec![]).is_none());
}

#[test]
fn texels_are_found_by_column_and_row() {
    let mut pixels = Vec::new();
    for i in 0..6u8 {
        pixels.extend_from_slice(&[i, 10 + i, 20 + i, 30 + i]);
    }
    let atlas = Atlas::new(3, 2, pixels).unwrap();
    assert_eq!(atlas.pixel(0, 0), Some(RGBColor { r: 0, g: 10, b: 20, a: 30 }));
    assert_eq!(atlas.pixel(2, 0), Some(RGBColor { r: 2, g: 12, b: 22, a: 32 }));
    assert_eq!(atlas.pixel(1, 1), Some(RGBColor { r: 4, g: 14, b: 24, a: 34 }));
    assert_eq!(atlas.pixel(3, 0), None);
    assert_eq!(atlas.pixel(0, 2), None);
    assert_eq!(atlas.pixel(u64::MAX, u64::MAX), None);
}

#[test]
fn what_is_outside_an_atlas_has_its_own_colour() {
    let one = |r: u8| Atlas::new(1, 1, vec![r, 2, 3, 4]).unwrap();
    let textures = Textures { walls: one(1), portal: one(5), sprites: one(6), soldier: one(7) };
    assert_eq!(textures.get_wall_pixel(0, 0), RGBColor { r: 1, g: 2, b: 3, a: 4 });
    assert_eq!(textures.get_portal_pixel(0, 0), RGBColor { r: 5, g: 2, b: 3, a: 4 });
    assert_eq!(textures.get_sprite_pixel(0, 0), RGBColor { r: 6, g: 2, b: 3, a: 4 });
    assert_eq!(textures.get_soldier_pixel(0, 0), RGBColor { r: 7, g: 2, b: 3, a: 4 });
    assert_eq!(textures.get_wall_pixel(1, 0), RGBColor { r: 0, g: 0, b: 0, a: 255 });
    assert_eq!(textures.get_portal_pixel(0, 1), RGBColor::white());
    assert_eq!(textures.get_sprite_pixel(1, 1), RGBColor { r: 0, g: 0, b: 0, a: 0 });
    assert_eq!(textures.get_soldier_pixel(9, 9), RGBColor { r: 0, g: 0, b: 0, a: 0 });
}

#[test]
fn a_point_of_a_face_falls_on_one_of_sixty_four_texels() {
    assert_eq!(get_texture_coord(0, 0), (0, 0));
    assert_eq!(get_texture_coord(500_000, 999_999), (32, 63));
    assert_eq!(get_texture_coord(15_624, 15_625), (0, 1));
    assert_eq!(get_texture_coord(984_375, 984_374), (63, 62));
}
