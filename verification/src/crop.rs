//! Selection of the square crop rectangle: face-centred when a face was
//! detected, geometric centre otherwise.

use vstd::prelude::*;

verus! {

/// A face bounding box reported by the external detector, in pixel
/// coordinates of the original image.  A detector may report a box that
/// reaches outside the image, so nothing is assumed of the fields.
#[derive(Clone, Copy, PartialEq, Eq, Structural, Debug)]
pub struct FaceBox {
    pub x: i32,
    pub y: i32,
    pub width: u32,
    pub height: u32,
}

/// A square crop rectangle in pixel coordinates of the image it was
/// computed for.
#[derive(Clone, Copy, PartialEq, Eq, Structural, Debug)]
pub struct CropRegion {
    pub x: u32,
    pub y: u32,
    pub side: u32,
}

impl CropRegion {
    /// The rectangle lies fully inside an image of the given dimensions.
    pub open spec fn in_bounds(self, width: u32, height: u32) -> bool {
        self.x + self.side <= width && self.y + self.side <= height
    }
}

/// Centre of a face box along one axis: its low edge plus half its extent.
pub open spec fn face_center(lo: i32, extent: u32) -> int {
    lo + extent / 2
}

/// Crop coordinate on the face path: the face centre shifted back by half
/// the crop side, then clamped into `[0, limit - side]`.  The lower clamp is
/// the saturating subtraction that keeps coordinates non-negative; the upper
/// clamp is the documented policy for faces near the right or bottom edge,
/// which keeps the crop strictly inside the image.
pub open spec fn face_coord(center: int, side: int, limit: int) -> int {
    let lowered = if center - side / 2 < 0 { 0 } else { center - side / 2 };
    if lowered > limit - side {
        limit - side
    } else {
        lowered
    }
}

/// Crop coordinate on the no-face path: plain integer halving of both the
/// image extent and the crop side.
pub open spec fn center_coord(extent: u32, side: u32) -> int {
    extent / 2 - side / 2
}

/// The side of the square crop: the smaller image dimension.
pub open spec fn crop_side(width: u32, height: u32) -> u32 {
    if width <= height {
        width
    } else {
        height
    }
}

/// Compute the square crop rectangle for an image of the given dimensions.
///
/// With a face box the crop is centred on the face, clamped so that it never
/// leaves the image; without one it is the geometric centre crop.
pub fn select_crop(width: u32, height: u32, face: Option<FaceBox>) -> (r: CropRegion)
    ensures
        r.side == crop_side(width, height),
        face is None ==> r.x == center_coord(width, r.side) && r.y == center_coord(
            height,
            r.side,
        ),
        face matches Some(f) ==> r.x == face_coord(
            face_center(f.x, f.width),
            r.side as int,
            width as int,
        ) && r.y == face_coord(face_center(f.y, f.height), r.side as int, height as int),
        r.in_bounds(width, height),
{
    let side: u32 = if width <= height {
        width
    } else {
        height
    };
    match face {
        None => {
            assert(side / 2 <= width / 2 && side / 2 <= height / 2);
            let x: u32 = width / 2 - side / 2;
            let y: u32 = height / 2 - side / 2;
            assert(x + side <= width && y + side <= height);
            CropRegion { x, y, side }
        },
        Some(f) => {
            let cx: i64 = f.x as i64 + (f.width / 2) as i64;
            let cy: i64 = f.y as i64 + (f.height / 2) as i64;
            let half: i64 = (side / 2) as i64;
            let xmax: i64 = (width - side) as i64;
            let ymax: i64 = (height - side) as i64;
            let mut x: i64 = cx - half;
            if x < 0 {
                x = 0;
            }
            if x > xmax {
                x = xmax;
            }
            let mut y: i64 = cy - half;
            if y < 0 {
                y = 0;
            }
            if y > ymax {
                y = ymax;
            }
            CropRegion { x: x as u32, y: y as u32, side }
        },
    }
}

/// The face-path coordinate is never negative and never pushes the crop past
/// the image edge: the clamped value always lands in `[0, limit - side]`.
pub proof fn lemma_face_coord_in_range(center: int, side: int, limit: int)
    requires
        0 <= side <= limit,
    ensures
        0 <= face_coord(center, side, limit),
        face_coord(center, side, limit) + side <= limit,
{
}

/// Along one axis, the centre-crop coordinate agrees with the
/// `(extent - side) / 2` form of the centre-crop formula whenever the image
/// extent and the crop side have the same parity.  With differing parities
/// the two forms differ by one (for example extent 4 with side 1 gives
/// `4 / 2 - 1 / 2 == 2` but `(4 - 1) / 2 == 1`), and the plain-halving form
/// is the one the crop selector uses.
pub proof fn lemma_center_formula(extent: u32, side: u32)
    requires
        side <= extent,
        extent % 2 == side % 2,
    ensures
        center_coord(extent, side) == (extent - side) / 2,
{
}

/// Without a face, and with image dimensions of equal parity, the selected
/// crop is exactly the deterministic centre crop
/// `((width - side) / 2, (height - side) / 2)` with `side` the smaller
/// dimension, and it lies fully in bounds.
pub proof fn lemma_no_face_center_crop(width: u32, height: u32, r: CropRegion)
    requires
        width % 2 == height % 2,
        r.side == crop_side(width, height),
        r.x == center_coord(width, r.side),
        r.y == center_coord(height, r.side),
    ensures
        r.x == (width - r.side) / 2,
        r.y == (height - r.side) / 2,
        r.in_bounds(width, height),
{
    lemma_center_formula(width, r.side);
    lemma_center_formula(height, r.side);
}

} // verus!
