use gravity_crop::config::{determine_image_format, parse_size, OutputFormat};

#[test]
fn parse_size_ordinary() {
    assert_eq!(parse_size("800x600"), Some((800, 600)));
    assert_eq!(parse_size("2000x2000"), Some((2000, 2000)));
    assert_eq!(parse_size("1x1"), Some((1, 1)));
}

#[test]
fn parse_size_leading_zeros() {
    assert_eq!(parse_size("007x05"), Some((7, 5)));
}

#[test]
fn parse_size_largest_values() {
    assert_eq!(parse_size("4294967295x1"), Some((4294967295, 1)));
}

#[test]
fn parse_size_overflow_rejected() {
    assert_eq!(parse_size("4294967296x1"), None);
    assert_eq!(parse_size("1x99999999999999999999"), None);
}

#[test]
fn parse_size_zero_rejected() {
    assert_eq!(parse_size("0x600"), None);
    assert_eq!(parse_size("800x0"), None);
}

#[test]
fn parse_size_wrong_shape_rejected() {
    assert_eq!(parse_size(""), None);
    assert_eq!(parse_size("800"), None);
    assert_eq!(parse_size("800x"), None);
    assert_eq!(parse_size("x600"), None);
    assert_eq!(parse_size("800x600x2"), None);
    assert_eq!(parse_size("800 x600"), None);
    assert_eq!(parse_size("8a0x600"), None);
    assert_eq!(parse_size("-800x600"), None);
}

#[test]
fn format_tokens_select_encoders() {
    assert_eq!(determine_image_format("png"), Some(OutputFormat::Png));
    assert_eq!(determine_image_format("jpg"), Some(OutputFormat::Jpeg));
    assert_eq!(determine_image_format("jpeg"), Some(OutputFormat::Jpeg));
    assert_eq!(determine_image_format("gif"), Some(OutputFormat::Gif));
    assert_eq!(determine_image_format("bmp"), Some(OutputFormat::Bmp));
    assert_eq!(determine_image_format("tiff"), Some(OutputFormat::Tiff));
}

#[test]
fn format_tokens_are_case_insensitive() {
    assert_eq!(determine_image_format("PNG"), Some(OutputFormat::Png));
    assert_eq!(determine_image_format("JpEg"), Some(OutputFormat::Jpeg));
    assert_eq!(determine_image_format("TIFF"), Some(OutputFormat::Tiff));
    assert_eq!(determine_image_format("Bmp"), Some(OutputFormat::Bmp));
}

#[test]
fn jpeg_and_jpg_select_the_same_encoder() {
    assert_eq!(determine_image_format("jpeg"), determine_image_format("jpg"));
}

#[test]
fn unknown_format_tokens_rejected() {
    assert_eq!(determine_image_format(""), None);
    assert_eq!(determine_image_format("webp"), None);
    assert_eq!(determine_image_format("jpgg"), None);
    assert_eq!(determine_image_format("pn"), None);
    assert_eq!(determine_image_format("tif"), None);
}
