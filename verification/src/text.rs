//! Cached rasterization bound to the system font service.
//!
//! [`GlRasterizer`] owns the symbol cache and the atlas, together with a
//! loaded font; characters and strings are rasterized through the font
//! service and each distinct symbol is packed at most once.

use crate::atlas::{eq_except_advance, spec_after_insert, spec_full, spec_placement, AtlasModel};
use crate::atlas::{GlSubTexture, Upload};
use crate::cache::{apply_kerning, spec_key_code, CacheKey, GlyphCache};
use crate::glyph::{GlyphRaster, RasterBuffer};
use crate::svg::{rendered_svg, svg_renders, Svg};
use crate::RasterError;
use vstd::prelude::*;
use vstd::string::StrSliceExecFns;

verus! {

#[verifier::external_type_specification]
#[verifier::external_body]
pub struct ExRasterizer(crossfont::Rasterizer);

#[verifier::external_type_specification]
#[verifier::external_body]
pub struct ExFontKey(crossfont::FontKey);

#[verifier::external_type_specification]
#[verifier::external_body]
pub struct ExSize(crossfont::Size);

#[verifier::external_type_specification]
#[verifier::external_body]
pub struct ExMetrics(crossfont::Metrics);

#[verifier::external_type_specification]
#[verifier::external_body]
pub struct ExCrossfontError(crossfont::Error);

/// Relies on `crossfont::Rasterize::new`: starts the platform's font
/// rasterizer.
#[verifier::external_body]
fn new_rasterizer() -> (r: Result<crossfont::Rasterizer, crossfont::Error>) {
    <crossfont::Rasterizer as crossfont::Rasterize>::new()
}

/// Relies on `crossfont::FontDesc::new` and `crossfont::Rasterize::load_font`:
/// loads the regular style of the named family at the given size.
#[verifier::external_body]
fn load_regular_font(
    rasterizer: &mut crossfont::Rasterizer,
    family: &str,
    size: crossfont::Size,
) -> (r: Result<crossfont::FontKey, crossfont::Error>) {
    let style = crossfont::Style::Description {
        slant: crossfont::Slant::Normal,
        weight: crossfont::Weight::Normal,
    };
    let desc = crossfont::FontDesc::new(family, style);
    crossfont::Rasterize::load_font(rasterizer, &desc, size)
}

/// Relies on `crossfont::Rasterize::get_glyph`: rasterizes one character's
/// glyph; the bitmap and metrics are carried over one for one, with the
/// two bitmap variants mapped to the library's.  Assumes the font service
/// returns rather than aborts: the FreeType backend is known to reject a
/// few exotic embedded bitmap formats by aborting the process, and the
/// opaque key and rasterizer types leave no way to exclude such fonts by
/// a precondition.
#[verifier::external_body]
fn get_glyph(
    rasterizer: &mut crossfont::Rasterizer,
    font: crossfont::FontKey,
    size: crossfont::Size,
    character: char,
) -> (r: Result<GlyphRaster, crossfont::Error>) {
    let key = crossfont::GlyphKey { font_key: font, size, character };
    let g = crossfont::Rasterize::get_glyph(rasterizer, key)?;
    let buffer = match g.buffer {
        crossfont::BitmapBuffer::Rgb(b) => RasterBuffer::Rgb(b),
        crossfont::BitmapBuffer::Rgba(b) => RasterBuffer::Rgba(b),
    };
    let (width, height, top, left, advance) = (g.width, g.height, g.top, g.left, g.advance);
    Ok(GlyphRaster { width, height, top, left, advance, buffer })
}

/// Relies on `crossfont::Rasterize::kerning`: the advance correction
/// between two shaped glyphs, truncated to whole pixels.  No contract is
/// stated: the result depends on the loaded face.  Assumes the font
/// service returns rather than aborts on keys built from the fields the
/// library loaded together.
#[verifier::external_body]
fn kerning_between(
    rasterizer: &mut crossfont::Rasterizer,
    font: crossfont::FontKey,
    size: crossfont::Size,
    left: char,
    right: char,
) -> (r: (i32, i32)) {
    let left_key = crossfont::GlyphKey { font_key: font, size, character: left };
    let right_key = crossfont::GlyphKey { font_key: font, size, character: right };
    let (x, y) = crossfont::Rasterize::kerning(rasterizer, left_key, right_key);
    (x as i32, y as i32)
}

/// Relies on `crossfont::Rasterize::metrics`: the font-wide metrics of a
/// loaded font at a size.
#[verifier::external_body]
fn font_metrics(
    rasterizer: &crossfont::Rasterizer,
    font: crossfont::FontKey,
    size: crossfont::Size,
) -> (r: Result<crossfont::Metrics, crossfont::Error>) {
    crossfont::Rasterize::metrics(rasterizer, font, size)
}

/// Cached rasterization: the symbol cache and atlas, bound to a font
/// loaded from the platform's font service at construction.
pub struct GlRasterizer {
    cache: GlyphCache,
    rasterizer: crossfont::Rasterizer,
    size: crossfont::Size,
    font: crossfont::FontKey,
}

impl GlRasterizer {
    /// The mapping from key codes to cached placements.
    pub closed spec fn cache_map(self) -> Map<u64, GlSubTexture> {
        self.cache.cache_map()
    }

    /// The packer state of the underlying atlas.
    pub closed spec fn atlas_model(self) -> AtlasModel {
        self.cache.atlas_model()
    }

    /// The page ids of the underlying atlas, in creation order.
    pub closed spec fn pages(self) -> Seq<u32> {
        self.cache.pages()
    }

    /// The pixel uploads recorded and not yet taken.
    pub closed spec fn pending_uploads(self) -> Seq<Upload> {
        self.cache.pending_uploads()
    }

    /// A well-formed rasterizer sits on a well-formed cache.
    pub closed spec fn wf(self) -> bool {
        self.cache.wf()
    }

    /// Start the font service and load the regular style of `font` at
    /// `size`.  The cache starts empty, over a fresh one-page atlas.
    pub fn new(font: &str, size: crossfont::Size) -> (r: Result<GlRasterizer, RasterError>)
        ensures
            r matches Ok(g) ==> {
                &&& g.wf()
                &&& g.cache_map() == Map::<u64, GlSubTexture>::empty()
                &&& g.atlas_model() == (AtlasModel {
                    pages: 1,
                    row_height: 0,
                    cursor_x: 0,
                    cursor_y: 0,
                })
                &&& g.pages() == seq![0u32]
                &&& g.pending_uploads() == Seq::<Upload>::empty()
            },
            r matches Err(e) ==> e == RasterError::Init,
    {
        let mut rasterizer = match new_rasterizer() {
            Ok(r) => r,
            Err(_) => {
                return Err(RasterError::Init);
            },
        };
        let font_key = match load_regular_font(&mut rasterizer, font, size) {
            Ok(k) => k,
            Err(_) => {
                return Err(RasterError::Init);
            },
        };
        Ok(GlRasterizer { cache: GlyphCache::new(), rasterizer, size, font: font_key })
    }

    /// Get a character's placement, rasterizing and packing it only if it
    /// is not yet cached.
    pub fn rasterize_char(&mut self, character: char) -> (r: Result<GlSubTexture, RasterError>)
        requires
            old(self).wf(),
        ensures
            final(self).wf(),
            old(self).pages().is_prefix_of(final(self).pages()),
            old(self).pending_uploads().is_prefix_of(final(self).pending_uploads()),
            r matches Ok(t) ==> final(self).cache_map().contains_key(
                spec_key_code(CacheKey::Character(character)),
            ) && t == final(self).cache_map()[spec_key_code(CacheKey::Character(character))],
            ({
                let code = spec_key_code(CacheKey::Character(character));
                if old(self).cache_map().contains_key(code) {
                    &&& r == Ok::<GlSubTexture, RasterError>(old(self).cache_map()[code])
                    &&& final(self).cache_map() == old(self).cache_map()
                    &&& final(self).atlas_model() == old(self).atlas_model()
                    &&& final(self).pages() == old(self).pages()
                    &&& final(self).pending_uploads() == old(self).pending_uploads()
                } else {
                    match r {
                        Ok(t) => {
                            &&& !spec_full(old(self).atlas_model())
                            &&& final(self).cache_map() == old(self).cache_map().insert(code, t)
                            &&& final(self).pending_uploads().len() == old(
                                self,
                            ).pending_uploads().len() + 1
                            &&& final(self).pending_uploads().drop_last() == old(
                                self,
                            ).pending_uploads()
                        },
                        Err(e) => {
                            &&& final(self).cache_map() == old(self).cache_map()
                            &&& final(self).atlas_model() == old(self).atlas_model()
                            &&& final(self).pages() == old(self).pages()
                            &&& final(self).pending_uploads() == old(self).pending_uploads()
                            &&& (e == RasterError::Rasterize || e == RasterError::AtlasFull)
                        },
                    }
                }
            }),
    {
        let key = CacheKey::Character(character);
        if let Some(t) = self.cache.get_cached(key) {
            return Ok(t);
        }
        let raster = match get_glyph(&mut self.rasterizer, self.font, self.size, character) {
            Ok(g) => g,
            Err(_) => {
                return Err(RasterError::Rasterize);
            },
        };
        self.cache.cache_char(character, raster)
    }

    /// Rasterize each character of a string, in input order, with the
    /// pairwise kerning against the previous character folded into each
    /// glyph's advance.
    ///
    /// If a character cannot be placed, the glyphs produced up to that
    /// point are returned and the rest of the string is not processed.
    /// The whole prefix is computed eagerly: every rasterization, pack and
    /// upload record happens during this call, before the returned vector
    /// is read.  The cache only grows — every placement cached before the
    /// call keeps its value — and pages and recorded uploads are only
    /// appended to.
    pub fn rasterize_string(&mut self, text: &str) -> (r: Vec<GlSubTexture>)
        requires
            old(self).wf(),
        ensures
            final(self).wf(),
            r@.len() <= text@.len(),
            forall|i: int|
                0 <= i < r@.len() ==> final(self).cache_map().contains_key(
                    spec_key_code(CacheKey::Character(text@[i])),
                ),
            forall|i: int|
                0 <= i < r@.len() ==> eq_except_advance(
                    #[trigger] r@[i],
                    final(self).cache_map()[spec_key_code(CacheKey::Character(text@[i]))],
                ),
            r@.len() < text@.len() ==> !final(self).cache_map().contains_key(
                spec_key_code(CacheKey::Character(text@[r@.len() as int])),
            ),
            forall|k: u64|
                old(self).cache_map().contains_key(k) ==> #[trigger] final(self).cache_map().contains_key(
                    k,
                ) && final(self).cache_map()[k] == old(self).cache_map()[k],
            old(self).pages().is_prefix_of(final(self).pages()),
            old(self).pending_uploads().is_prefix_of(final(self).pending_uploads()),
            text@.len() == 0 ==> final(self).cache_map() == old(self).cache_map() && final(self).atlas_model()
                == old(self).atlas_model() && final(self).pages() == old(self).pages() && final(self).pending_uploads()
                == old(self).pending_uploads(),
    {
        let mut out: Vec<GlSubTexture> = Vec::new();
        let len = text.unicode_len();
        let mut i: usize = 0;
        let mut prev: char = ' ';
        while i < len
            invariant
                self.wf(),
                len == text@.len(),
                i <= len,
                out@.len() == i,
                forall|j: int|
                    0 <= j < i ==> self.cache_map().contains_key(
                        spec_key_code(CacheKey::Character(text@[j])),
                    ),
                forall|j: int|
                    0 <= j < i ==> eq_except_advance(
                        #[trigger] out@[j],
                        self.cache_map()[spec_key_code(CacheKey::Character(text@[j]))],
                    ),
                forall|k: u64|
                    old(self).cache_map().contains_key(k) ==> #[trigger] self.cache_map().contains_key(
                        k,
                    ) && self.cache_map()[k] == old(self).cache_map()[k],
                old(self).pages().is_prefix_of(self.pages()),
                old(self).pending_uploads().is_prefix_of(self.pending_uploads()),
                i == 0 ==> self.cache_map() == old(self).cache_map() && self.atlas_model() == old(
                    self,
                ).atlas_model() && self.pages() == old(self).pages() && self.pending_uploads()
                    == old(self).pending_uploads(),
            decreases len - i,
        {
            let c = text.get_char(i);
            let glyph = match self.rasterize_char(c) {
                Ok(g) => g,
                Err(_) => {
                    return out;
                },
            };
            proof {
                assert(old(self).pages().is_prefix_of(self.pages())) by {
                    assert(old(self).pages() =~= self.pages().subrange(
                        0,
                        old(self).pages().len() as int,
                    ));
                }
                assert(old(self).pending_uploads().is_prefix_of(self.pending_uploads())) by {
                    assert(old(self).pending_uploads() =~= self.pending_uploads().subrange(
                        0,
                        old(self).pending_uploads().len() as int,
                    ));
                }
            }
            let kerning = kerning_between(&mut self.rasterizer, self.font, self.size, prev, c);
            let adjusted = apply_kerning(glyph, kerning);
            out.push(adjusted);
            prev = c;
            i = i + 1;
        }
        out
    }

    /// Get a built-in icon's placement, rendering and packing it only if
    /// it is not yet cached.
    pub fn rasterize_svg(&mut self, svg: Svg) -> (r: Result<GlSubTexture, RasterError>)
        requires
            old(self).wf(),
        ensures
            final(self).wf(),
            old(self).pages().is_prefix_of(final(self).pages()),
            old(self).pending_uploads().is_prefix_of(final(self).pending_uploads()),
            ({
                let code = spec_key_code(CacheKey::Svg(svg));
                let w = svg.spec_size().0;
                let h = svg.spec_size().1;
                if old(self).cache_map().contains_key(code) {
                    &&& r == Ok::<GlSubTexture, RasterError>(old(self).cache_map()[code])
                    &&& final(self).cache_map() == old(self).cache_map()
                    &&& final(self).atlas_model() == old(self).atlas_model()
                    &&& final(self).pages() == old(self).pages()
                    &&& final(self).pending_uploads() == old(self).pending_uploads()
                } else {
                    match r {
                        Ok(t) => {
                            let m0 = old(self).atlas_model();
                            let p = spec_placement(m0, w as int, h as int);
                            &&& svg_renders(svg.spec_content(), w, h)
                            &&& !spec_full(m0)
                            &&& t.texture_id as int == p.page
                            &&& t.uv_left as int == p.x
                            &&& t.uv_bot as int == p.y
                            &&& t.width as int == w as int
                            &&& t.height as int == h as int
                            &&& t.uv_width as int == w as int
                            &&& t.uv_height as int == h as int
                            &&& t.top == 0i16
                            &&& t.left == 0i16
                            &&& t.advance == (w as i32, 0i32)
                            &&& t.multicolor
                            &&& final(self).cache_map() == old(self).cache_map().insert(code, t)
                            &&& final(self).atlas_model() == spec_after_insert(
                                m0,
                                w as int,
                                h as int,
                            )
                            &&& final(self).pending_uploads().len() == old(
                                self,
                            ).pending_uploads().len() + 1
                            &&& final(self).pending_uploads().drop_last() == old(
                                self,
                            ).pending_uploads()
                            &&& final(self).pending_uploads().last().pixels@ == rendered_svg(
                                svg.spec_content(),
                                w,
                                h,
                            )
                            &&& final(self).pending_uploads().last().pixels@.len() == w * h * 4
                            &&& final(self).pending_uploads().last().texture_id == t.texture_id
                            &&& final(self).pending_uploads().last().x == t.uv_left
                            &&& final(self).pending_uploads().last().y == t.uv_bot
                            &&& final(self).pending_uploads().last().width as int == w as int
                            &&& final(self).pending_uploads().last().height as int == h as int
                        },
                        Err(e) => {
                            &&& final(self).cache_map() == old(self).cache_map()
                            &&& final(self).atlas_model() == old(self).atlas_model()
                            &&& final(self).pages() == old(self).pages()
                            &&& final(self).pending_uploads() == old(self).pending_uploads()
                            &&& (e == RasterError::Render || e == RasterError::AtlasFull)
                            &&& (e == RasterError::Render <==> !svg_renders(
                                svg.spec_content(),
                                w,
                                h,
                            ))
                            &&& (e == RasterError::AtlasFull <==> svg_renders(
                                svg.spec_content(),
                                w,
                                h,
                            ) && (spec_full(old(self).atlas_model()) || (
                            crate::atlas::spec_needs_page_wrap(
                                crate::atlas::spec_after_row_wrap(
                                    old(self).atlas_model(),
                                    w as int,
                                ),
                                h as int,
                            ) && old(self).atlas_model().pages == u32::MAX)))
                        },
                    }
                }
            }),
    {
        self.cache.rasterize_svg(svg)
    }

    /// Get the font-wide metrics.  A refusal of the font service is
    /// surfaced as the initialization error, since it concerns the loaded
    /// font rather than any one glyph.
    pub fn metrics(&self) -> (r: Result<crossfont::Metrics, RasterError>)
        ensures
            r matches Err(e) ==> e == RasterError::Init,
    {
        match font_metrics(&self.rasterizer, self.font, self.size) {
            Ok(m) => Ok(m),
            Err(_) => Err(RasterError::Init),
        }
    }

    /// Hand out the pending pixel uploads, leaving none recorded.
    pub fn take_uploads(&mut self) -> (r: Vec<Upload>)
        ensures
            r@ == old(self).pending_uploads(),
            final(self).pending_uploads() == Seq::<Upload>::empty(),
            final(self).cache_map() == old(self).cache_map(),
            final(self).atlas_model() == old(self).atlas_model(),
            final(self).pages() == old(self).pages(),
            final(self).wf() == old(self).wf(),
    {
        self.cache.take_uploads()
    }

    /// What well-formedness guarantees of the visible state: the cursor
    /// sits within the model's bounds, and the page list holds one id per
    /// page, equal to its index.
    pub proof fn lemma_wf_invariants(self)
        requires
            self.wf(),
        ensures
            crate::atlas::wf_model(self.atlas_model()),
            self.pages().len() as int == self.atlas_model().pages,
            forall|i: int| 0 <= i < self.pages().len() ==> self.pages()[i] == i as u32,
    {
        self.cache.lemma_wf_invariants();
    }
}

} // verus!
