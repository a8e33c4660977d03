//! Symbol cache: maps each character or icon to its packed placement, so
//! every distinct symbol is rasterized, packed and uploaded at most once.

use crate::atlas::{
    spec_after_insert, spec_after_row_wrap, spec_full, spec_needs_page_wrap, spec_placement, Atlas,
    AtlasEntry, AtlasModel, GlSubTexture, Upload,
};
use crate::glyph::GlyphRaster;
use crate::svg::{is_icon_content, rendered_svg, svg_renders, Svg};
use crate::RasterError;
use std::collections::HashMap;
use vstd::prelude::*;

verus! {

broadcast use vstd::std_specs::hash::group_hash_axioms;

/// Key identifying one cached symbol: a character or a built-in icon.
#[derive(Clone, Copy, Debug, PartialEq, Eq)]
pub enum CacheKey {
    /// A character glyph.
    Character(char),
    /// A built-in icon.
    Svg(Svg),
}

/// The small integer the cache files a key under.  Characters map to their
/// code point and icons to a range above every code point, so distinct
/// keys never share a code.
pub open spec fn spec_key_code(k: CacheKey) -> u64 {
    match k {
        CacheKey::Character(c) => c as u64,
        CacheKey::Svg(s) => (0x110000 + s.spec_index()) as u64,
    }
}

/// Compute the code a key is filed under.
pub fn key_code(k: CacheKey) -> (r: u64)
    ensures
        r == spec_key_code(k),
{
    match k {
        CacheKey::Character(c) => c as u64,
        CacheKey::Svg(s) => 0x110000u64 + s.index(),
    }
}

/// Distinct keys are filed under distinct codes: the cache can never hand
/// one symbol's placement out for another.
pub proof fn lemma_key_code_injective(a: CacheKey, b: CacheKey)
    ensures
        spec_key_code(a) == spec_key_code(b) ==> a == b,
{
}

/// The cache and the atlas it packs into.
pub struct GlyphCache {
    cache: HashMap<u64, GlSubTexture>,
    atlas: Atlas,
}

impl GlyphCache {
    /// The mapping from key codes to cached placements.
    pub closed spec fn cache_map(self) -> Map<u64, GlSubTexture> {
        self.cache@
    }

    /// The packer state of the underlying atlas.
    pub closed spec fn atlas_model(self) -> AtlasModel {
        self.atlas.model()
    }

    /// The page ids of the underlying atlas, in creation order.
    pub closed spec fn pages(self) -> Seq<u32> {
        self.atlas.pages_seq()
    }

    /// The pixel uploads recorded and not yet taken.
    pub closed spec fn pending_uploads(self) -> Seq<Upload> {
        self.atlas.uploads_seq()
    }

    /// A well-formed cache sits on a well-formed atlas.
    pub closed spec fn wf(self) -> bool {
        self.atlas.wf()
    }

    /// A fresh, empty cache over a fresh one-page atlas.
    pub fn new() -> (r: GlyphCache)
        ensures
            r.wf(),
            r.cache_map() == Map::<u64, GlSubTexture>::empty(),
            r.atlas_model() == (AtlasModel { pages: 1, row_height: 0, cursor_x: 0, cursor_y: 0 }),
            r.pages() == seq![0u32],
            r.pending_uploads() == Seq::<Upload>::empty(),
    {
        GlyphCache { cache: HashMap::new(), atlas: Atlas::new() }
    }

    /// Look a symbol up without any side effect.
    pub fn get_cached(&self, key: CacheKey) -> (r: Option<GlSubTexture>)
        ensures
            match r {
                Some(t) => self.cache_map().contains_key(spec_key_code(key)) && t
                    == self.cache_map()[spec_key_code(key)],
                None => !self.cache_map().contains_key(spec_key_code(key)),
            },
    {
        let code = key_code(key);
        match self.cache.get(&code) {
            Some(t) => Some(*t),
            None => None,
        }
    }

    /// Place a character's glyph, or return where it already sits.
    ///
    /// On a hit the cache is untouched and `raster` is ignored.  On a miss
    /// the glyph is normalized, packed, recorded for upload, and cached
    /// under the character; the call fails exactly when the glyph is
    /// unusable or the atlas refuses the entry, and then changes nothing.
    pub fn cache_char(&mut self, character: char, raster: GlyphRaster) -> (r: Result<
        GlSubTexture,
        RasterError,
    >)
        requires
            old(self).wf(),
        ensures
            final(self).wf(),
            old(self).pages().is_prefix_of(final(self).pages()),
            old(self).pending_uploads().is_prefix_of(final(self).pending_uploads()),
            ({
                let code = spec_key_code(CacheKey::Character(character));
                if old(self).cache_map().contains_key(code) {
                    &&& r == Ok::<GlSubTexture, RasterError>(old(self).cache_map()[code])
                    &&& final(self).cache_map() == old(self).cache_map()
                    &&& final(self).atlas_model() == old(self).atlas_model()
                    &&& final(self).pages() == old(self).pages()
                    &&& final(self).pending_uploads() == old(self).pending_uploads()
                } else {
                    match r {
                        Ok(t) => {
                            let m0 = old(self).atlas_model();
                            let w = raster.width as int;
                            let h = raster.height as int;
                            let p = spec_placement(m0, w, h);
                            &&& raster.valid()
                            &&& !spec_full(m0)
                            &&& t.texture_id as int == p.page
                            &&& t.uv_left as int == p.x
                            &&& t.uv_bot as int == p.y
                            &&& t.uv_width as int == w
                            &&& t.uv_height as int == h
                            &&& t.width as int == w
                            &&& t.height as int == h
                            &&& t.top as int == raster.top as int
                            &&& t.left as int == raster.left as int
                            &&& t.advance == raster.advance
                            &&& t.multicolor == raster.is_multicolor()
                            &&& final(self).cache_map() == old(self).cache_map().insert(code, t)
                            &&& final(self).atlas_model() == spec_after_insert(m0, w, h)
                            &&& final(self).pending_uploads().len() == old(
                                self,
                            ).pending_uploads().len() + 1
                            &&& final(self).pending_uploads().drop_last() == old(
                                self,
                            ).pending_uploads()
                            &&& final(self).pending_uploads().last().pixels@
                                == raster.normalized_pixels()
                            &&& final(self).pending_uploads().last().pixels@.len() == raster.width
                                * raster.height * 4
                            &&& final(self).pending_uploads().last().texture_id == t.texture_id
                            &&& final(self).pending_uploads().last().x == t.uv_left
                            &&& final(self).pending_uploads().last().y == t.uv_bot
                            &&& final(self).pending_uploads().last().width == t.uv_width
                            &&& final(self).pending_uploads().last().height == t.uv_height
                        },
                        Err(e) => {
                            &&& final(self).cache_map() == old(self).cache_map()
                            &&& final(self).atlas_model() == old(self).atlas_model()
                            &&& final(self).pages() == old(self).pages()
                            &&& final(self).pending_uploads() == old(self).pending_uploads()
                            &&& (e == RasterError::Rasterize || e == RasterError::AtlasFull)
                            &&& (e == RasterError::Rasterize <==> !raster.valid())
                            &&& (e == RasterError::AtlasFull ==> spec_full(old(self).atlas_model()) || (
                            spec_needs_page_wrap(
                                spec_after_row_wrap(
                                    old(self).atlas_model(),
                                    raster.width as int,
                                ),
                                raster.height as int,
                            ) && old(self).atlas_model().pages == u32::MAX))
                        },
                    }
                }
            }),
    {
        let code = key_code(CacheKey::Character(character));
        if let Some(t) = self.cache.get(&code) {
            return Ok(*t);
        }
        let entry = match AtlasEntry::from_glyph(raster) {
            Some(e) => e,
            None => {
                return Err(RasterError::Rasterize);
            },
        };
        let placed = match self.atlas.insert(entry) {
            Ok(t) => t,
            Err(e) => {
                return Err(e);
            },
        };
        self.cache.insert(code, placed);
        Ok(placed)
    }

    /// Place a built-in icon, or return where it already sits.
    ///
    /// On a hit the cache is untouched.  On a miss the icon's description
    /// is rendered at its fixed size, packed, recorded for upload, and
    /// cached under the icon; a render failure or a refusal of the atlas
    /// is surfaced to the caller, is not cached, and changes nothing.
    pub fn rasterize_svg(&mut self, svg: Svg) -> (r: Result<GlSubTexture, RasterError>)
        requires
            old(self).wf(),
        ensures
            final(self).wf(),
            old(self).pages().is_prefix_of(final(self).pages()),
            old(self).pending_uploads().is_prefix_of(final(self).pending_uploads()),
            ({
                let code = spec_key_code(CacheKey::Svg(svg));
                let w = svg.spec_size().0;
                let h = svg.spec_size().1;
                if old(self).cache_map().contains_key(code) {
                    &&& r == Ok::<GlSubTexture, RasterError>(old(self).cache_map()[code])
                    &&& final(self).cache_map() == old(self).cache_map()
                    &&& final(self).atlas_model() == old(self).atlas_model()
                    &&& final(self).pages() == old(self).pages()
                    &&& final(self).pending_uploads() == old(self).pending_uploads()
                } else {
                    match r {
                        Ok(t) => {
                            let m0 = old(self).atlas_model();
                            let p = spec_placement(m0, w as int, h as int);
                            &&& svg_renders(svg.spec_content(), w, h)
                            &&& !spec_full(m0)
                            &&& t.texture_id as int == p.page
                            &&& t.uv_left as int == p.x
                            &&& t.uv_bot as int == p.y
                            &&& t.width as int == w as int
                            &&& t.height as int == h as int
                            &&& t.uv_width as int == w as int
                            &&& t.uv_height as int == h as int
                            &&& t.top == 0i16
                            &&& t.left == 0i16
                            &&& t.advance == (w as i32, 0i32)
                            &&& t.multicolor
                            &&& final(self).cache_map() == old(self).cache_map().insert(code, t)
                            &&& final(self).atlas_model() == spec_after_insert(
                                m0,
                                w as int,
                                h as int,
                            )
                            &&& final(self).pending_uploads().len() == old(
                                self,
                            ).pending_uploads().len() + 1
                            &&& final(self).pending_uploads().drop_last() == old(
                                self,
                            ).pending_uploads()
                            &&& final(self).pending_uploads().last().pixels@ == rendered_svg(
                                svg.spec_content(),
                                w,
                                h,
                            )
                            &&& final(self).pending_uploads().last().pixels@.len() == w * h * 4
                            &&& final(self).pending_uploads().last().texture_id == t.texture_id
                            &&& final(self).pending_uploads().last().x == t.uv_left
                            &&& final(self).pending_uploads().last().y == t.uv_bot
                            &&& final(self).pending_uploads().last().width as int == w as int
                            &&& final(self).pending_uploads().last().height as int == h as int
                        },
                        Err(e) => {
                            &&& final(self).cache_map() == old(self).cache_map()
                            &&& final(self).atlas_model() == old(self).atlas_model()
                            &&& final(self).pages() == old(self).pages()
                            &&& final(self).pending_uploads() == old(self).pending_uploads()
                            &&& (e == RasterError::Render || e == RasterError::AtlasFull)
                            &&& (e == RasterError::Render <==> !svg_renders(
                                svg.spec_content(),
                                w,
                                h,
                            ))
                            &&& (e == RasterError::AtlasFull <==> svg_renders(
                                svg.spec_content(),
                                w,
                                h,
                            ) && (spec_full(old(self).atlas_model()) || (spec_needs_page_wrap(
                                spec_after_row_wrap(old(self).atlas_model(), w as int),
                                h as int,
                            ) && old(self).atlas_model().pages == u32::MAX)))
                        },
                    }
                }
            }),
    {
        let code = key_code(CacheKey::Svg(svg));
        if let Some(t) = self.cache.get(&code) {
            return Ok(*t);
        }
        let (width, height) = svg.size();
        let content = svg.content();
        proof {
            assert(is_icon_content(content@));
        }
        let pixels = match crate::svg::render_svg(content, width, height) {
            Some(p) => p,
            None => {
                return Err(RasterError::Render);
            },
        };
        let entry = AtlasEntry::new_svg(pixels, width, height);
        let placed = match self.atlas.insert(entry) {
            Ok(t) => t,
            Err(e) => {
                return Err(e);
            },
        };
        self.cache.insert(code, placed);
        Ok(placed)
    }

    /// Hand out the pending pixel uploads, leaving none recorded.
    pub fn take_uploads(&mut self) -> (r: Vec<Upload>)
        ensures
            r@ == old(self).pending_uploads(),
            final(self).pending_uploads() == Seq::<Upload>::empty(),
            final(self).cache_map() == old(self).cache_map(),
            final(self).atlas_model() == old(self).atlas_model(),
            final(self).pages() == old(self).pages(),
            final(self).wf() == old(self).wf(),
    {
        self.atlas.take_uploads()
    }

    /// What well-formedness guarantees of the visible state: the cursor
    /// sits within the model's bounds, and the page list holds one id per
    /// page, equal to its index.
    pub proof fn lemma_wf_invariants(self)
        requires
            self.wf(),
        ensures
            crate::atlas::wf_model(self.atlas_model()),
            self.pages().len() as int == self.atlas_model().pages,
            forall|i: int| 0 <= i < self.pages().len() ==> self.pages()[i] == i as u32,
    {
        self.atlas.lemma_wf_invariants();
    }
}

/// The placement of `glyph` with a kerning offset folded into its advance,
/// each component added with wrap-around on `i32`; every other field is
/// kept as it is.
pub fn apply_kerning(glyph: GlSubTexture, kerning: (i32, i32)) -> (r: GlSubTexture)
    ensures
        r.advance.0 == glyph.advance.0.wrapping_add(kerning.0),
        r.advance.1 == glyph.advance.1.wrapping_add(kerning.1),
        i32::MIN <= glyph.advance.0 + kerning.0 <= i32::MAX ==> r.advance.0 == glyph.advance.0
            + kerning.0,
        i32::MIN <= glyph.advance.1 + kerning.1 <= i32::MAX ==> r.advance.1 == glyph.advance.1
            + kerning.1,
        r.texture_id == glyph.texture_id,
        r.multicolor == glyph.multicolor,
        r.top == glyph.top,
        r.left == glyph.left,
        r.width == glyph.width,
        r.height == glyph.height,
        r.uv_bot == glyph.uv_bot,
        r.uv_left == glyph.uv_left,
        r.uv_width == glyph.uv_width,
        r.uv_height == glyph.uv_height,
{
    GlSubTexture {
        advance: (glyph.advance.0.wrapping_add(kerning.0), glyph.advance.1.wrapping_add(kerning.1)),
        ..glyph
    }
}

} // verus!
