//! An adaptive raster-image conversion pipeline.
//!
//! The library validates a conversion request, plans and applies aspect-aware
//! resizing, chooses encoder parameters from sampled image content, builds an
//! ICO container byte by byte, wraps PNG data in a minimal SVG document, and
//! derives a bounded-size preview for display.  Decoding, encoding and
//! resampling of pixel data are delegated to the `image`, `base64` and `uuid`
//! crates through a small set of trusted wrappers; everything else is verified.

pub mod formats;
pub mod geometry;
pub mod numfmt;
pub mod image_data;
pub mod codec;
pub mod resize;
pub mod ico;
pub mod advisor;
pub mod svg;
pub mod quality;
pub mod results;
pub mod preview;
pub mod file_preview;
pub mod paths;
pub mod orchestrator;
