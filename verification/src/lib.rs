//! Renders raster images as ASCII art.
//!
//! An image is resampled to a target character width, with its height
//! corrected for the shape of monospaced glyphs, and every pixel of the
//! result is replaced by one character of a fixed brightness ramp.

pub mod convert;
pub mod grid;
pub mod ramp;
pub mod raster;
pub mod resample;
pub mod settings;
pub mod strings;
pub mod text;

pub use convert::{image_to_ascci, luma_grid, render};
pub use grid::LumaGrid;
pub use ramp::{map_to_ascii, RAMP};
pub use resample::{is_resizable, resize_image, target_height, try_resize_image};
pub use settings::{Config, Failure, DEFAULT_WIDTH};
pub use text::ascii_art_text;
