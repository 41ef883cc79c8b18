use image_resizer::driver::{Config, plan_batch, process_entry};
use image_resizer::transform::TransformError;

fn encoded_bytes(w: u32, h: u32, format: image::ImageFormat) -> Vec<u8> {
    let img = image::DynamicImage::new_rgb8(w, h);
    let mut sink = std::io::Cursor::new(Vec::new());
    img.write_to(&mut sink, format).unwrap();
    sink.into_inner()
}

fn config(reduce: u8, extension: &str, process_all: bool, delete: bool) -> Config {
    Config::new(reduce, extension.to_string(), process_all, delete).unwrap()
}

#[test]
fn halve_png_to_jpg_keeps_original() {
    let cfg = config(50, "jpg", true, false);
    let names = vec!["a.png".to_string()];
    let jobs = plan_batch(&names, &cfg);
    assert_eq!(jobs.len(), 1);
    assert_eq!(jobs[0].input_name, "a.png".to_string());
    assert_eq!(jobs[0].output_name, "a.jpg".to_string());
    let bytes = encoded_bytes(100, 80, image::ImageFormat::Png);
    let outcome = process_entry(&jobs[0], &bytes, &cfg);
    let out = outcome.result.unwrap();
    assert_eq!((out.width, out.height), (50, 40));
    let reloaded = image::load_from_memory(&out.bytes).unwrap();
    assert_eq!((reloaded.width(), reloaded.height()), (50, 40));
    assert!(!outcome.delete_original);
}

#[test]
fn halve_png_to_jpg_with_delete_marks_original() {
    let cfg = config(50, "jpg", true, true);
    let names = vec!["a.png".to_string()];
    let jobs = plan_batch(&names, &cfg);
    assert_eq!(jobs.len(), 1);
    assert_eq!(jobs[0].output_name, "a.jpg".to_string());
    let bytes = encoded_bytes(100, 80, image::ImageFormat::Png);
    let outcome = process_entry(&jobs[0], &bytes, &cfg);
    let out = outcome.result.unwrap();
    assert_eq!((out.width, out.height), (50, 40));
    assert!(outcome.delete_original);
}

#[test]
fn quarter_webp_to_png_skips_text_file() {
    let cfg = config(25, "png", true, false);
    let names = vec!["note.txt".to_string(), "b.webp".to_string()];
    let jobs = plan_batch(&names, &cfg);
    assert_eq!(jobs.len(), 1);
    assert_eq!(jobs[0].input_name, "b.webp".to_string());
    assert_eq!(jobs[0].output_name, "b.png".to_string());
    let bytes = encoded_bytes(200, 200, image::ImageFormat::WebP);
    let outcome = process_entry(&jobs[0], &bytes, &cfg);
    let out = outcome.result.unwrap();
    assert_eq!((out.width, out.height), (50, 50));
    assert_eq!(image::guess_format(&out.bytes).unwrap(), image::ImageFormat::Png);
}

#[test]
fn tiny_image_fails_without_overwriting() {
    let cfg = config(10, "jpg", true, false);
    let names = vec!["c.jpg".to_string()];
    let jobs = plan_batch(&names, &cfg);
    assert_eq!(jobs.len(), 1);
    let bytes = encoded_bytes(3, 3, image::ImageFormat::Jpeg);
    let outcome = process_entry(&jobs[0], &bytes, &cfg);
    assert!(matches!(outcome.result, Err(TransformError::ZeroDimension)));
    assert!(!outcome.delete_original);
}

#[test]
fn without_process_all_nothing_is_planned() {
    let cfg = config(50, "jpg", false, false);
    let names = vec!["a.png".to_string(), "b.jpg".to_string()];
    let jobs = plan_batch(&names, &cfg);
    assert!(jobs.is_empty());
}

#[test]
fn uppercase_extension_is_accepted_and_renamed() {
    let cfg = config(50, "png", true, false);
    let names = vec!["d.JPG".to_string()];
    let jobs = plan_batch(&names, &cfg);
    assert_eq!(jobs.len(), 1);
    assert_eq!(jobs[0].output_name, "d.png".to_string());
    let bytes = encoded_bytes(10, 10, image::ImageFormat::Jpeg);
    let outcome = process_entry(&jobs[0], &bytes, &cfg);
    let out = outcome.result.unwrap();
    assert_eq!((out.width, out.height), (5, 5));
    assert_eq!(image::guess_format(&out.bytes).unwrap(), image::ImageFormat::Png);
}

#[test]
fn delete_is_never_marked_after_a_failure() {
    let cfg = config(10, "jpg", true, true);
    let names = vec!["tiny.png".to_string()];
    let jobs = plan_batch(&names, &cfg);
    let bytes = encoded_bytes(3, 3, image::ImageFormat::Png);
    let outcome = process_entry(&jobs[0], &bytes, &cfg);
    assert!(outcome.result.is_err());
    assert!(!outcome.delete_original);
}

#[test]
fn in_place_collision_makes_delete_a_noop() {
    let cfg = config(50, "jpg", true, true);
    let names = vec!["cat.jpg".to_string()];
    let jobs = plan_batch(&names, &cfg);
    assert_eq!(jobs.len(), 1);
    assert_eq!(jobs[0].output_name, "cat.jpg".to_string());
    assert!(jobs[0].overwrites_input);
    let bytes = encoded_bytes(100, 80, image::ImageFormat::Jpeg);
    let outcome = process_entry(&jobs[0], &bytes, &cfg);
    assert!(outcome.result.is_ok());
    assert!(!outcome.delete_original);
}

#[test]
fn distinct_names_do_not_collide() {
    let cfg = config(50, "png", true, true);
    let names = vec!["cat.jpg".to_string()];
    let jobs = plan_batch(&names, &cfg);
    assert_eq!(jobs.len(), 1);
    assert_eq!(jobs[0].output_name, "cat.png".to_string());
    assert!(!jobs[0].overwrites_input);
}
