use image_resizer::resize::reduce_count;
use image_resizer::transform::{TransformError, transform_image};

fn encoded_bytes(w: u32, h: u32, format: image::ImageFormat) -> Vec<u8> {
    let img = image::DynamicImage::new_rgb8(w, h);
    let mut sink = std::io::Cursor::new(Vec::new());
    img.write_to(&mut sink, format).unwrap();
    sink.into_inner()
}

#[test]
fn reduce_count_rounds_down() {
    assert_eq!(reduce_count(50, 100), 50);
    assert_eq!(reduce_count(50, 81), 40);
    assert_eq!(reduce_count(10, 3), 0);
    assert_eq!(reduce_count(1, 99), 0);
    assert_eq!(reduce_count(25, 200), 50);
}

#[test]
fn reduce_count_at_one_hundred_is_identity() {
    assert_eq!(reduce_count(100, 0), 0);
    assert_eq!(reduce_count(100, 123), 123);
    assert_eq!(reduce_count(100, u32::MAX), u32::MAX);
}

#[test]
fn reduce_count_survives_large_dimensions() {
    assert_eq!(reduce_count(1, 4_000_000_000), 40_000_000);
    assert_eq!(reduce_count(99, 4_000_000_000), 3_960_000_000);
}

#[test]
fn transform_halves_a_png_into_jpeg() {
    let input = encoded_bytes(100, 80, image::ImageFormat::Png);
    let out = transform_image(&input, 50, "jpg").unwrap();
    assert_eq!(out.width, 50);
    assert_eq!(out.height, 40);
    let reloaded = image::load_from_memory(&out.bytes).unwrap();
    assert_eq!(reloaded.width(), 50);
    assert_eq!(reloaded.height(), 40);
    assert_eq!(image::guess_format(&out.bytes).unwrap(), image::ImageFormat::Jpeg);
}

#[test]
fn transform_rejects_undecodable_bytes() {
    let garbage = vec![0u8, 1, 2, 3, 4, 5, 6, 7];
    let r = transform_image(&garbage, 50, "jpg");
    assert!(matches!(r, Err(TransformError::Decode(_))));
}

#[test]
fn transform_rejects_zero_dimension() {
    let input = encoded_bytes(3, 3, image::ImageFormat::Png);
    let r = transform_image(&input, 10, "jpg");
    assert!(matches!(r, Err(TransformError::ZeroDimension)));
}

#[test]
fn transform_rejects_unknown_output_extension() {
    let input = encoded_bytes(10, 10, image::ImageFormat::Png);
    let r = transform_image(&input, 50, "txt");
    assert!(matches!(r, Err(TransformError::UnsupportedOutput)));
}

#[test]
fn transform_zero_dimension_outranks_unknown_extension() {
    let input = encoded_bytes(3, 3, image::ImageFormat::Png);
    let r = transform_image(&input, 10, "txt");
    assert!(matches!(r, Err(TransformError::ZeroDimension)));
}

#[test]
fn transform_keeps_dimensions_at_full_scale() {
    let input = encoded_bytes(33, 17, image::ImageFormat::Png);
    let out = transform_image(&input, 100, "png").unwrap();
    assert_eq!(out.width, 33);
    assert_eq!(out.height, 17);
}
