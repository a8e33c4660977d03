//! Glyph and icon atlas.
//!
//! A shelf packer places variable-sized rasterized images into fixed-size
//! square texture pages, and a symbol cache remembers where each character
//! or built-in icon landed so that every distinct symbol is rasterized and
//! packed at most once.

pub mod atlas;
pub mod cache;
pub mod glyph;
pub mod svg;
pub mod text;

pub use crate::atlas::{Atlas, GlSubTexture};
pub use crate::svg::Svg;
pub use crate::text::GlRasterizer;

use vstd::prelude::*;

verus! {

/// Failures surfaced by the rasterizer and the atlas.
#[derive(Clone, Copy, Debug, PartialEq, Eq, Structural)]
pub enum RasterError {
    /// The font backend could not start or the requested font was not found.
    Init,
    /// The font service could not produce a usable glyph.
    Rasterize,
    /// The vector renderer could not produce a bitmap.
    Render,
    /// The packer has exhausted its placement strategy.
    AtlasFull,
}

} // verus!
