use gr_raytracer::config::{samples_per_pixel, IMAGE_HEIGHT, IMAGE_WIDTH};
use gr_raytracer::graphics::camera::{encode_frame, pixel_coordinates};
use gr_raytracer::graphics::texture::{TextureId, Textures};
use gr_raytracer::graphics::window::hovered_pixel_number;

#[test]
fn image_is_sixteen_by_nine() {
    assert_eq!(IMAGE_HEIGHT, 800);
    assert_eq!(IMAGE_WIDTH, 1422);
}

#[test]
fn debugging_traces_one_sample_per_pixel() {
    assert_eq!(samples_per_pixel(true), 1);
    assert_eq!(samples_per_pixel(false), 7);
}

#[test]
fn pixels_are_traced_row_by_row() {
    let pixels = pixel_coordinates(3, 2);
    assert_eq!(pixels, vec![(0, 0), (1, 0), (2, 0), (0, 1), (1, 1), (2, 1)]);
    assert!(pixel_coordinates(0, 5).is_empty());
    assert!(pixel_coordinates(5, 0).is_empty());
}

#[test]
fn full_image_has_one_ray_per_pixel() {
    let pixels = pixel_coordinates(IMAGE_WIDTH, IMAGE_HEIGHT);
    assert_eq!(pixels.len(), (IMAGE_WIDTH * IMAGE_HEIGHT) as usize);
    assert_eq!(pixels[82292], (82292 % 1422, 82292 / 1422));
    assert_eq!(*pixels.last().unwrap(), (IMAGE_WIDTH - 1, IMAGE_HEIGHT - 1));
}

#[test]
fn hovered_pixel_counts_row_by_row() {
    assert_eq!(hovered_pixel_number(3, 2, 10, 5), Some(23));
    assert_eq!(hovered_pixel_number(0, 0, 10, 5), Some(0));
    assert_eq!(hovered_pixel_number(9, 4, 10, 5), Some(49));
}

#[test]
fn cursor_outside_the_image_has_no_pixel() {
    assert_eq!(hovered_pixel_number(10, 2, 10, 5), None);
    assert_eq!(hovered_pixel_number(3, 5, 10, 5), None);
    assert_eq!(hovered_pixel_number(0, 0, 0, 0), None);
}

#[test]
fn hovered_pixel_is_the_traced_ray() {
    let (width, height) = (7u32, 4u32);
    let pixels = pixel_coordinates(width, height);
    for y in 0..height {
        for x in 0..width {
            let number = hovered_pixel_number(x, y, width, height).unwrap();
            assert_eq!(pixels[number as usize], (x, y));
        }
    }
}

#[test]
fn frame_gets_opaque_rgba_pixels() {
    let mut frame = vec![9u8; 8];
    encode_frame(&mut frame, &[[1, 2, 3], [4, 5, 6]]);
    assert_eq!(frame, vec![1, 2, 3, 255, 4, 5, 6, 255]);
}

#[test]
fn extra_colors_are_ignored() {
    let mut frame = vec![9u8; 6];
    encode_frame(&mut frame, &[[1, 2, 3], [4, 5, 6]]);
    assert_eq!(frame, vec![1, 2, 3, 255, 9, 9]);
}

#[test]
fn missing_colors_leave_the_frame_untouched() {
    let mut frame = vec![9u8; 12];
    encode_frame(&mut frame, &[[7, 7, 7]]);
    assert_eq!(frame, vec![7, 7, 7, 255, 9, 9, 9, 9, 9, 9, 9, 9]);
}

#[test]
fn texture_ids_index_the_table() {
    assert_eq!(TextureId::NONE.as_index(), 0);
    assert_eq!(TextureId::ACCRETION.as_index(), 1);
    assert_eq!(TextureId::SKY.as_index(), 2);
    assert_eq!(TextureId::COUNT, 3);
}

#[test]
fn textures_give_back_what_they_were_built_with() {
    let textures = Textures::new("none", "accretion", "sky");
    assert_eq!(*textures.get(TextureId::NONE), "none");
    assert_eq!(*textures.get(TextureId::ACCRETION), "accretion");
    assert_eq!(*textures.get(TextureId::SKY), "sky");
}
