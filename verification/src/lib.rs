//! Toolpath operations for laser and CNC machines: command streams,
//! raster scan-line extraction, and G-code bookkeeping.

pub mod ops;
pub mod text;
pub mod image;
pub mod cnc;
