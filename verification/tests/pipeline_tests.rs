use gravity_crop::codec::from_decoded;
use gravity_crop::crop::FaceBox;
use gravity_crop::pipeline::{process_image, ItemError};
use image::{DynamicImage, GenericImageView};

fn test_image(width: u32, height: u32) -> gravity_crop::codec::SizedImage {
    from_decoded(DynamicImage::new_rgb8(width, height))
}

#[test]
fn round_trip_dimensions_png() {
    let img = test_image(1000, 500);
    let p = process_image(&img, None, "300x300", "png", "photos/test.png", None).unwrap();
    assert_eq!(p.width, 300);
    assert_eq!(p.height, 300);
    assert_eq!(p.dest.as_str(), "photos/test_resized.png");
    let decoded = image::load_from_memory(&p.bytes).unwrap();
    assert_eq!(decoded.dimensions(), (300, 300));
}

#[test]
fn round_trip_dimensions_jpeg_with_face() {
    let img = test_image(1000, 500);
    let face = FaceBox { x: 700, y: 200, width: 100, height: 100 };
    let p = process_image(&img, Some(face), "320x200", "jpeg", "in/portrait.png", Some("out"))
        .unwrap();
    assert_eq!((p.width, p.height), (320, 200));
    assert_eq!(p.dest.as_str(), "out/portrait_resized.jpeg");
    let decoded = image::load_from_memory(&p.bytes).unwrap();
    assert_eq!(decoded.dimensions(), (320, 200));
}

#[test]
fn round_trip_dimensions_bmp_tiff_gif() {
    let img = test_image(64, 48);
    for token in ["bmp", "tiff", "gif"] {
        let p = process_image(&img, None, "32x32", token, "a/b.png", None).unwrap();
        let decoded = image::load_from_memory(&p.bytes).unwrap();
        assert_eq!(decoded.dimensions(), (32, 32));
    }
}

#[test]
fn jpg_and_jpeg_same_encoder_distinct_filenames() {
    let img = test_image(100, 100);
    let a = process_image(&img, None, "50x50", "jpg", "x/p.png", None).unwrap();
    let b = process_image(&img, None, "50x50", "jpeg", "x/p.png", None).unwrap();
    assert_eq!(a.dest.as_str(), "x/p_resized.jpg");
    assert_eq!(b.dest.as_str(), "x/p_resized.jpeg");
    // Same encoder: the byte streams agree, only the filenames differ.
    assert_eq!(a.bytes, b.bytes);
    assert_eq!(
        image::guess_format(&a.bytes).unwrap(),
        image::ImageFormat::Jpeg
    );
}

#[test]
fn invalid_size_fails_first() {
    let img = test_image(10, 10);
    let r = process_image(&img, None, "0x300", "webp", "a/b.png", None);
    assert_eq!(r.unwrap_err(), ItemError::InvalidSize);
    let r = process_image(&img, None, "300", "png", "a/b.png", None);
    assert_eq!(r.unwrap_err(), ItemError::InvalidSize);
}

#[test]
fn unsupported_format_fails_before_crop_work() {
    let img = test_image(10, 10);
    let r = process_image(&img, None, "300x300", "webp", "a/b.png", None);
    assert_eq!(r.unwrap_err(), ItemError::UnsupportedFormat);
}

#[test]
fn empty_image_is_an_unusable_crop() {
    let img = test_image(0, 0);
    let r = process_image(&img, None, "300x300", "png", "a/b.png", None);
    assert_eq!(r.unwrap_err(), ItemError::EmptyCrop);
}

#[test]
fn missing_file_stem_is_per_item_fatal() {
    let img = test_image(10, 10);
    let r = process_image(&img, None, "300x300", "png", "a/..", None);
    assert_eq!(r.unwrap_err(), ItemError::NoFileStem);
}
