//! Protocol engine for QL-series label printers.
//!
//! The crate turns a declarative print configuration and bitmap pages into
//! the exact raster command byte stream the device expects, and decodes the
//! device's raw 32-byte status replies into structured state.  All byte
//! construction and decoding is pure; the USB transport lives outside.

use vstd::prelude::*;

pub mod bitmap;
pub mod command;
pub mod compress;
pub mod config;
pub mod engine;
pub mod error;
pub mod media;
pub mod model;
pub mod status;

pub use crate::bitmap::{convert_rgb_to_two_color, step_filter_normal, step_filter_wide,
    TwoColorMatrix};
pub use crate::config::Config;
pub use crate::error::{Error, PrinterError};
pub use crate::media::{ContinuousType, DieCutType, Media};
pub use crate::model::Model;
pub use crate::status::{Phase, Status};

verus! {

/// One-bit bitmap data: each inner vector is a pixel row packed 8 pixels
/// per byte (90 bytes for normal printers, 162 for wide ones), the outer
/// vector the rows from top to bottom.
pub type Matrix = Vec<Vec<u8>>;

/// Width in pixels for normal printers: 720 pixels, 90 bytes per packed row.
pub const NORMAL_PRINTER_WIDTH: u32 = 720;

/// Width in pixels for wide printers: 1296 pixels, 162 bytes per packed row.
pub const WIDE_PRINTER_WIDTH: u32 = 1296;

} // verus!
