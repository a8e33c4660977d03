//! Glyph bitmaps and their normalization to four channels per pixel.

use crate::atlas::{AtlasEntry, MAX_ENTRY_SIDE};
use vstd::prelude::*;

verus! {

/// A glyph bitmap as the font service hands it out.
pub enum RasterBuffer {
    /// Color mask, three bytes per pixel.
    Rgb(Vec<u8>),
    /// Colored pixels, four bytes per pixel.
    Rgba(Vec<u8>),
}

/// A rasterized glyph: its bitmap and its pixel metrics.
pub struct GlyphRaster {
    /// Width in pixels.
    pub width: i32,
    /// Height in pixels.
    pub height: i32,
    /// Vertical bearing.
    pub top: i32,
    /// Horizontal bearing.
    pub left: i32,
    /// Advance vector in pixels.
    pub advance: (i32, i32),
    /// The glyph's pixels.
    pub buffer: RasterBuffer,
}

/// The 4-channel expansion of a 3-channel buffer: colors kept in order,
/// alpha forced to fully opaque.
pub open spec fn rgba_of(rgb: Seq<u8>) -> Seq<u8> {
    Seq::new(
        (rgb.len() / 3) * 4,
        |i: int|
            if i % 4 == 3 {
                255u8
            } else {
                rgb[(i / 4) * 3 + (i % 4)]
            },
    )
}

/// Expand a 3-channel buffer to four channels, copying each pixel's colors
/// and forcing its alpha to fully opaque.
pub fn rgb_to_rgba(rgb: &[u8]) -> (r: Vec<u8>)
    requires
        rgb@.len() % 3 == 0,
    ensures
        r@ == rgba_of(rgb@),
{
    let pixel_count = rgb.len() / 3;
    proof {
        assert(rgb@.len() == 3 * (rgb@.len() / 3));
    }
    let mut rgba: Vec<u8> = Vec::new();
    let mut p: usize = 0;
    while p < pixel_count
        invariant
            p <= pixel_count,
            pixel_count == rgb@.len() / 3,
            rgb@.len() == 3 * pixel_count,
            pixel_count <= usize::MAX / 3,
            rgba@.len() == 4 * p,
            forall|j: int| 0 <= j < rgba@.len() ==> rgba@[j] == rgba_of(rgb@)[j],
        decreases pixel_count - p,
    {
        rgba.push(rgb[3 * p]);
        rgba.push(rgb[3 * p + 1]);
        rgba.push(rgb[3 * p + 2]);
        rgba.push(255);
        p = p + 1;
    }
    proof {
        assert(rgba@ =~= rgba_of(rgb@));
    }
    rgba
}

impl GlyphRaster {
    /// The glyph fits the packer: positive sides within the accepted
    /// range, bearings that fit an `i16`, and a buffer whose length
    /// matches its variant's bytes per pixel.
    pub open spec fn valid(self) -> bool {
        &&& 0 < self.width <= MAX_ENTRY_SIDE
        &&& 0 < self.height <= MAX_ENTRY_SIDE
        &&& -0x8000 <= self.top <= 0x7fff
        &&& -0x8000 <= self.left <= 0x7fff
        &&& match self.buffer {
            RasterBuffer::Rgb(b) => b@.len() == self.width * self.height * 3,
            RasterBuffer::Rgba(b) => b@.len() == self.width * self.height * 4,
        }
    }

    /// The 4-channel pixels this glyph normalizes to.
    pub open spec fn normalized_pixels(self) -> Seq<u8> {
        match self.buffer {
            RasterBuffer::Rgb(b) => rgba_of(b@),
            RasterBuffer::Rgba(b) => b@,
        }
    }

    /// Whether the glyph's pixels carry their own colors.
    pub open spec fn is_multicolor(self) -> bool {
        self.buffer is Rgba
    }
}

impl AtlasEntry {
    /// Turn a rasterized glyph into a packable entry, expanding a
    /// 3-channel mask to four channels.  Refuses a glyph whose sides or
    /// bearings fall outside the accepted range or whose buffer does not
    /// match its dimensions.
    pub fn from_glyph(glyph: GlyphRaster) -> (r: Option<AtlasEntry>)
        ensures
            match r {
                Some(e) => {
                    &&& glyph.valid()
                    &&& e.wf()
                    &&& e.width == glyph.width
                    &&& e.height == glyph.height
                    &&& e.top == glyph.top
                    &&& e.left == glyph.left
                    &&& e.advance == glyph.advance
                    &&& e.multicolor == glyph.is_multicolor()
                    &&& e.buffer@ == glyph.normalized_pixels()
                },
                None => !glyph.valid(),
            },
    {
        let GlyphRaster { width, height, top, left, advance, buffer } = glyph;
        if width <= 0 || width > MAX_ENTRY_SIDE || height <= 0 || height > MAX_ENTRY_SIDE {
            return None;
        }
        if top < -0x8000 || top > 0x7fff || left < -0x8000 || left > 0x7fff {
            return None;
        }
        proof {
            assert(width * height <= 0x7fff * 0x7fff) by (nonlinear_arith)
                requires
                    0 < width <= 0x7fff,
                    0 < height <= 0x7fff,
            ;
        }
        let pixels: u64 = (width as u64) * (height as u64);
        let (rgba, multicolor): (Vec<u8>, bool) = match buffer {
            RasterBuffer::Rgb(b) => {
                if (b.len() as u64) != pixels * 3 {
                    return None;
                }
                proof {
                    assert(b@.len() % 3 == 0) by (nonlinear_arith)
                        requires
                            b@.len() == width * height * 3,
                    ;
                    assert(b@.len() / 3 == width * height) by (nonlinear_arith)
                        requires
                            b@.len() == width * height * 3,
                    ;
                }
                let converted = rgb_to_rgba(b.as_slice());
                (converted, false)
            },
            RasterBuffer::Rgba(b) => {
                if (b.len() as u64) != pixels * 4 {
                    return None;
                }
                (b, true)
            },
        };
        Some(AtlasEntry { buffer: rgba, width, height, top, left, advance, multicolor })
    }
}

} // verus!
