//! Thin adapter over the external raster codec: cropping, resampling and
//! encoding of decoded images.  The image value itself is opaque; its pixel
//! dimensions are carried beside it so that contracts can speak of them.

use vstd::prelude::*;
use crate::config::OutputFormat;
use crate::crop::CropRegion;

verus! {

#[verifier::external_type_specification]
#[verifier::external_body]
pub struct ExDynamicImage(image::DynamicImage);

/// A decoded image and its pixel dimensions, recorded at construction.
pub struct SizedImage {
    pub img: image::DynamicImage,
    pub width: u32,
    pub height: u32,
}

/// Relies on image::DynamicImage::width and image::DynamicImage::height: the
/// pixel dimensions of the decoded image, recorded beside it.
#[verifier::external_body]
pub fn from_decoded(img: image::DynamicImage) -> (r: SizedImage) {
    let width = img.width();
    let height = img.height();
    SizedImage { img, width, height }
}

/// Relies on image::DynamicImage::crop_imm: the cut-out delimited by the
/// given rectangle, which has the rectangle's own dimensions whenever the
/// rectangle lies inside the image.
#[verifier::external_body]
pub fn crop_to_region(img: &SizedImage, r: &CropRegion) -> (out: SizedImage)
    requires
        r.in_bounds(img.width, img.height),
    ensures
        out.width == r.side,
        out.height == r.side,
{
    let c = img.img.crop_imm(r.x, r.y, r.side, r.side);
    let width = c.width();
    let height = c.height();
    SizedImage { img: c, width, height }
}

/// Relies on image::DynamicImage::resize_exact with the Lanczos3 filter: the
/// resampled image has exactly the requested dimensions.
#[verifier::external_body]
pub fn resize_lanczos(img: &SizedImage, width: u32, height: u32) -> (out: SizedImage)
    requires
        1 <= width,
        1 <= height,
        1 <= img.width,
        1 <= img.height,
    ensures
        out.width == width,
        out.height == height,
{
    let c = img.img.resize_exact(width, height, image::imageops::FilterType::Lanczos3);
    let w = c.width();
    let h = c.height();
    SizedImage { img: c, width: w, height: h }
}

/// Relies on image::DynamicImage::write_to: encodes the image as an
/// in-memory byte stream in the requested format, or reports that the
/// encoder refused it.
#[verifier::external_body]
pub fn encode_image(img: &SizedImage, format: OutputFormat) -> (r: Result<Vec<u8>, ()>) {
    let f = match format {
        OutputFormat::Png => image::ImageFormat::Png,
        OutputFormat::Jpeg => image::ImageFormat::Jpeg,
        OutputFormat::Gif => image::ImageFormat::Gif,
        OutputFormat::Bmp => image::ImageFormat::Bmp,
        OutputFormat::Tiff => image::ImageFormat::Tiff,
    };
    let mut buf = std::io::Cursor::new(Vec::new());
    match img.img.write_to(&mut buf, f) {
        Ok(()) => Ok(buf.into_inner()),
        Err(_) => Err(()),
    }
}

} // verus!
