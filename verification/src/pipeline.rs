//! The per-item pipeline: one decoded image and its detected face in, the
//! encoded output bytes and their destination path out.

use vstd::prelude::*;
use crate::codec::{SizedImage, crop_to_region, encode_image, resize_lanczos};
use crate::config::{determine_image_format, parse_size, spec_parse_format, spec_parse_size};
use crate::crop::{FaceBox, select_crop};
use crate::paths::{determine_output_path, spec_file_stem, spec_output_path};

verus! {

/// Why one task failed.  Every variant is a per-item condition: the failure
/// is attributed to its file and the batch goes on.
#[derive(Clone, Copy, PartialEq, Eq, Structural, Debug)]
pub enum ItemError {
    /// The size string is not two positive integers separated by one `x`.
    InvalidSize,
    /// The format token names no known encoder.
    UnsupportedFormat,
    /// The image has no pixels to crop.
    EmptyCrop,
    /// The source path has no filename component to derive a stem from.
    NoFileStem,
    /// The codec refused to encode the resized image.
    EncodeFailed,
}

/// The finished work of one task: the encoded bytes, the dimensions of the
/// image they hold, and the destination they should be written to.
#[derive(Debug)]
pub struct ProcessedImage {
    pub bytes: Vec<u8>,
    pub dest: String,
    pub width: u32,
    pub height: u32,
}

/// View of the optional output directory argument.
pub open spec fn odir(out_dir: Option<&str>) -> Option<Seq<char>> {
    match out_dir {
        Some(d) => Some(d@),
        None => None,
    }
}

/// Run one decoded image through the whole pipeline: parse the target size,
/// pick the encoder (an unrecognized token fails before any crop or resample
/// work), compute the face-biased square crop, resample it to the target
/// size with the Lanczos filter, encode it, and derive the destination path.
///
/// The result carries the exact target dimensions, so a consumer decoding
/// the bytes gets back an image of exactly the requested size.
pub fn process_image(
    img: &SizedImage,
    face: Option<FaceBox>,
    size: &str,
    token: &str,
    source: &str,
    out_dir: Option<&str>,
) -> (r: Result<ProcessedImage, ItemError>)
    ensures
        r == Err::<ProcessedImage, ItemError>(ItemError::InvalidSize) <==> spec_parse_size(size@)
            is None,
        r == Err::<ProcessedImage, ItemError>(ItemError::UnsupportedFormat) <==> spec_parse_size(
            size@,
        ) is Some && spec_parse_format(token@) is None,
        r == Err::<ProcessedImage, ItemError>(ItemError::EmptyCrop) <==> spec_parse_size(size@)
            is Some && spec_parse_format(token@) is Some && (img.width == 0 || img.height == 0),
        r == Err::<ProcessedImage, ItemError>(ItemError::NoFileStem) <==> spec_parse_size(size@)
            is Some && spec_parse_format(token@) is Some && img.width > 0 && img.height > 0
            && spec_file_stem(source@) is None,
        r == Err::<ProcessedImage, ItemError>(ItemError::EncodeFailed) ==> spec_parse_size(size@)
            is Some && spec_parse_format(token@) is Some && img.width > 0 && img.height > 0
            && spec_file_stem(source@) is Some,
        r matches Ok(p) ==> spec_parse_size(size@) matches Some(wh) && p.width == wh.0 && p.height
            == wh.1 && spec_parse_format(token@) is Some && img.width > 0 && img.height > 0
            && p.dest@ == spec_output_path(source@, token@, odir(out_dir)).unwrap(),
{
    let (width, height) = match parse_size(size) {
        Some(p) => p,
        None => {
            return Err(ItemError::InvalidSize);
        },
    };
    proof {
        let i = choose|i: int| crate::config::valid_size_at(size@, i);
        assert(crate::config::valid_size_at(size@, i));
    }
    let format = match determine_image_format(token) {
        Some(f) => f,
        None => {
            return Err(ItemError::UnsupportedFormat);
        },
    };
    if img.width == 0 || img.height == 0 {
        return Err(ItemError::EmptyCrop);
    }
    let dest = match determine_output_path(source, token, out_dir) {
        Some(d) => d,
        None => {
            return Err(ItemError::NoFileStem);
        },
    };
    let region = select_crop(img.width, img.height, face);
    let cropped = crop_to_region(img, &region);
    let resized = resize_lanczos(&cropped, width, height);
    let bytes = match encode_image(&resized, format) {
        Ok(b) => b,
        Err(_) => {
            return Err(ItemError::EncodeFailed);
        },
    };
    Ok(ProcessedImage { bytes, dest, width: resized.width, height: resized.height })
}

} // verus!
