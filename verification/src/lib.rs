//! Batch raster-image rescaling: directory-entry classification, output
//! naming, reduced-dimension arithmetic, and the per-file transformation
//! pipeline, with the codec work of the `image` crate behind a small
//! trusted boundary.

pub mod chars;
pub mod classify;
pub mod driver;
pub mod img;
pub mod paths;
pub mod resize;
pub mod transform;
