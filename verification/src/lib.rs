//! Face-aware square cropping and batch resizing of images.
//!
//! The library computes a square crop of an image, biased toward a detected
//! face when one is available, resamples the crop to a requested size and
//! encodes it, derives the destination path for the result, and tallies the
//! outcomes of a batch run.  Decoding, face detection and all file system
//! work happen outside the library; it receives plain values and returns
//! plain values.

pub mod batch;
pub mod codec;
pub mod config;
pub mod crop;
pub mod paths;
pub mod pipeline;
