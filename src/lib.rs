//! Rendering support for plugin widgets.
//!
//! - `colors`: named web colors and `#` hex notation resolved to exact RGBA
//!   pixels, singly or as a labeled batch.
//! - `named_colors`: the fixed vocabulary of named colors.
//! - `image_ops`: conversions between raw bytes, RGB and RGBA images, and
//!   scaling to a target size.

pub mod colors;
pub mod image_ops;
pub mod named_colors;
