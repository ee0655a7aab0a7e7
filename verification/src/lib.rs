//! Batch cropping of images to a fixed rectangle: the rules of the pipeline,
//! stated over plain values and proved.

pub mod error;
pub mod config;
pub mod coords;
pub mod geometry;
pub mod job;
pub mod naming;
pub mod raster;
pub mod source;
pub mod worker;
