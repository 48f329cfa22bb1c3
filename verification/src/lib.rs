//! Conversion of decoded raster images into single-image ICO containers.
//!
//! The library is free of file and network access: a caller reads the image
//! file, hands its bytes over, and writes out the containers it gets back.
//! Decoding, resampling and PNG compression are done by the `image` crate;
//! the decisions around them are proved against their contracts here.

pub mod batch;
pub mod container;
pub mod decode;
pub mod job;
pub mod names;
pub mod raster;
pub mod report;
pub mod resize;
pub mod size;
