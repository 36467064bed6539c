//! Screen-change detection.
//!
//! The library captures a raster image of a display (or a sub-region of one),
//! compares it against the previously captured image with a sampled
//! pixel-difference metric, and reports whether the screen content changed.
//! Platform screen grabbing, smooth downscaling, PNG encoding and base64
//! transport encoding are performed by outside crates behind narrow, trusted
//! interfaces; everything the library decides itself is verified.


pub mod capture;
pub mod detect;
pub mod platform;
pub mod raster;
