//! Transcoding and progressive optimization of hosted images.
//!
//! An upload is decoded once by its caller. The raster is scaled to fit a size
//! limit, handed to one or more candidate encoders, and stored with the smallest
//! output. A later background pass repeats the work with heavier settings and
//! advances the image's optimization level, which keeps the same image from being
//! processed without end.

pub mod api;
pub mod background_optimization;
pub mod db;
pub mod encoding;
pub mod error;
pub mod raster;
pub mod upload;
pub mod util;
