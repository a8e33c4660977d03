//! Shelf packer over fixed-size texture pages.
//!
//! The atlas fills one square page left to right; when an entry does not fit
//! the current row it starts a new row above it, and when the wrapped row
//! does not fit the page it appends a fresh page.  Pages are identified by
//! small sequential ids; the caller owns the matching texture resources and
//! performs the recorded pixel uploads.

use crate::RasterError;
use vstd::prelude::*;

verus! {

/// Width and height in pixels of one atlas texture page.
pub const ATLAS_SIZE: i32 = 1024;

/// Largest accepted side length of one entry.  Placements carry their pixel
/// sizes as `i16`, so a side must fit in one.
pub const MAX_ENTRY_SIDE: i32 = 0x7fff;

/// One rectangle of pixels waiting to be packed, already normalized to four
/// bytes per pixel.
pub struct AtlasEntry {
    /// Pixel data, four bytes per pixel, row-major.
    pub buffer: Vec<u8>,
    /// Width in pixels.
    pub width: i32,
    /// Height in pixels.
    pub height: i32,
    /// Vertical bearing; zero for icons.
    pub top: i32,
    /// Horizontal bearing; zero for icons.
    pub left: i32,
    /// Advance vector in pixels.
    pub advance: (i32, i32),
    /// Whether the source pixels carry their own colors.
    pub multicolor: bool,
}

impl AtlasEntry {
    /// An entry the packer accepts: positive sides that fit an `i16`,
    /// bearings that fit an `i16`, and a buffer of exactly four bytes per
    /// pixel.
    pub open spec fn wf(self) -> bool {
        &&& 0 < self.width <= MAX_ENTRY_SIDE
        &&& 0 < self.height <= MAX_ENTRY_SIDE
        &&& -0x8000 <= self.top <= 0x7fff
        &&& -0x8000 <= self.left <= 0x7fff
        &&& self.buffer@.len() == self.width * self.height * 4
    }

    /// Create an icon entry: zero bearings, an advance of the icon's full
    /// width, and pixels that carry their own colors.
    pub fn new_svg(buffer: Vec<u8>, width: u32, height: u32) -> (r: AtlasEntry)
        requires
            0 < width <= MAX_ENTRY_SIDE as u32,
            0 < height <= MAX_ENTRY_SIDE as u32,
            buffer@.len() == width * height * 4,
        ensures
            r.wf(),
            r.buffer@ == buffer@,
            r.width == width as i32,
            r.height == height as i32,
            r.top == 0,
            r.left == 0,
            r.advance == (width as i32, 0i32),
            r.multicolor,
    {
        AtlasEntry {
            buffer,
            width: width as i32,
            height: height as i32,
            top: 0,
            left: 0,
            advance: (width as i32, 0),
            multicolor: true,
        }
    }
}

/// Where a packed entry ended up: the owning page's id, the entry's pixel
/// rectangle inside that page, and the metrics copied from the entry.
///
/// The rectangle is kept in pixels; dividing `uv_left`, `uv_bot`,
/// `uv_width` and `uv_height` by [`ATLAS_SIZE`] yields the normalized
/// texture coordinates.
#[derive(Clone, Copy, Debug, PartialEq)]
pub struct GlSubTexture {
    /// Id of the owning page.
    pub texture_id: u32,
    /// Whether the pixels carry their own colors.
    pub multicolor: bool,
    /// Vertical bearing.
    pub top: i16,
    /// Horizontal bearing.
    pub left: i16,
    /// Width in pixels.
    pub width: i16,
    /// Height in pixels.
    pub height: i16,
    /// Bottom edge of the rectangle, in pixels from the page's origin.
    pub uv_bot: i32,
    /// Left edge of the rectangle, in pixels from the page's origin.
    pub uv_left: i32,
    /// Width of the rectangle in pixels.
    pub uv_width: i32,
    /// Height of the rectangle in pixels.
    pub uv_height: i32,
    /// Advance vector in pixels.
    pub advance: (i32, i32),
}

/// Two placements agree on everything but their advance.
pub open spec fn eq_except_advance(a: GlSubTexture, b: GlSubTexture) -> bool {
    &&& a.texture_id == b.texture_id
    &&& a.multicolor == b.multicolor
    &&& a.top == b.top
    &&& a.left == b.left
    &&& a.width == b.width
    &&& a.height == b.height
    &&& a.uv_bot == b.uv_bot
    &&& a.uv_left == b.uv_left
    &&& a.uv_width == b.uv_width
    &&& a.uv_height == b.uv_height
}

/// One pending pixel upload: the rectangle of a page that the owner of the
/// texture resources must fill with `pixels`.
pub struct Upload {
    /// Id of the destination page.
    pub texture_id: u32,
    /// Left edge of the destination rectangle in pixels.
    pub x: i32,
    /// Bottom edge of the destination rectangle in pixels.
    pub y: i32,
    /// Width of the destination rectangle in pixels.
    pub width: i32,
    /// Height of the destination rectangle in pixels.
    pub height: i32,
    /// Pixel data, four bytes per pixel, row-major.
    pub pixels: Vec<u8>,
}

/// The packer's write state: how many pages exist, the current row's
/// height, and the write cursor inside the newest page.
pub struct AtlasModel {
    /// Number of pages allocated so far.
    pub pages: int,
    /// Height of the tallest entry in the current row.
    pub row_height: int,
    /// Horizontal write position.
    pub cursor_x: int,
    /// Vertical write position.
    pub cursor_y: int,
}

/// A placement chosen by the packer: the page and the pixel position of the
/// entry's lower-left corner.
pub struct SpecPlacement {
    /// Index of the owning page.
    pub page: int,
    /// Left edge in pixels.
    pub x: int,
    /// Bottom edge in pixels.
    pub y: int,
}

/// A reachable packer state: the cursor sits inside the newest page, save
/// that `cursor_x` may rest past the right edge after an oversized entry.
pub open spec fn wf_model(m: AtlasModel) -> bool {
    &&& 1 <= m.pages <= u32::MAX
    &&& 0 <= m.cursor_x <= MAX_ENTRY_SIDE + ATLAS_SIZE
    &&& 0 <= m.cursor_y <= ATLAS_SIZE
    &&& 0 <= m.row_height <= MAX_ENTRY_SIDE
}

/// The packer refuses every further entry once the cursor has walked off an
/// edge of the page.
pub open spec fn spec_full(m: AtlasModel) -> bool {
    m.cursor_x > ATLAS_SIZE || m.cursor_y > ATLAS_SIZE
}

/// An entry of width `w` does not fit the remainder of the current row.
pub open spec fn spec_needs_row_wrap(m: AtlasModel, w: int) -> bool {
    m.cursor_x + w > ATLAS_SIZE
}

/// The state after wrapping to a fresh row when `w` does not fit.
pub open spec fn spec_after_row_wrap(m: AtlasModel, w: int) -> AtlasModel {
    if spec_needs_row_wrap(m, w) {
        AtlasModel {
            pages: m.pages,
            row_height: 0,
            cursor_x: 0,
            cursor_y: m.cursor_y + m.row_height,
        }
    } else {
        m
    }
}

/// An entry of height `h` does not fit above the cursor on this page.
pub open spec fn spec_needs_page_wrap(m: AtlasModel, h: int) -> bool {
    m.cursor_y + h > ATLAS_SIZE
}

/// The state after appending a fresh page when `h` does not fit.
pub open spec fn spec_after_page_wrap(m: AtlasModel, h: int) -> AtlasModel {
    if spec_needs_page_wrap(m, h) {
        AtlasModel { pages: m.pages + 1, row_height: 0, cursor_x: 0, cursor_y: 0 }
    } else {
        m
    }
}

/// The state, wraps applied, in which an entry of size `w` by `h` is placed.
pub open spec fn spec_prepared(m: AtlasModel, w: int, h: int) -> AtlasModel {
    spec_after_page_wrap(spec_after_row_wrap(m, w), h)
}

/// The placement the packer chooses for an entry of size `w` by `h`.
pub open spec fn spec_placement(m: AtlasModel, w: int, h: int) -> SpecPlacement {
    let p = spec_prepared(m, w, h);
    SpecPlacement { page: p.pages - 1, x: p.cursor_x, y: p.cursor_y }
}

/// The state after placing an entry of size `w` by `h`: the row grows to
/// the entry's height if taller, and the cursor moves right by its width.
pub open spec fn spec_after_insert(m: AtlasModel, w: int, h: int) -> AtlasModel {
    let p = spec_prepared(m, w, h);
    AtlasModel {
        pages: p.pages,
        row_height: if p.row_height < h {
            h
        } else {
            p.row_height
        },
        cursor_x: p.cursor_x + w,
        cursor_y: p.cursor_y,
    }
}

/// Every width in `ws` is a side length the packer accepts.
pub open spec fn widths_ok(ws: Seq<int>) -> bool {
    forall|i: int| 0 <= i < ws.len() ==> 0 < #[trigger] ws[i] <= MAX_ENTRY_SIDE
}

/// The sum of a sequence of widths.
pub open spec fn total_width(ws: Seq<int>) -> int
    decreases ws.len(),
{
    if ws.len() == 0 {
        0
    } else {
        ws[0] + total_width(ws.subrange(1, ws.len() as int))
    }
}

/// The state after placing entries of widths `ws`, all of height `h`, in
/// order.
pub open spec fn run_model(m: AtlasModel, ws: Seq<int>, h: int) -> AtlasModel
    decreases ws.len(),
{
    if ws.len() == 0 {
        m
    } else {
        run_model(spec_after_insert(m, ws[0], h), ws.subrange(1, ws.len() as int), h)
    }
}

/// The placements chosen for entries of widths `ws`, all of height `h`,
/// placed in order.
pub open spec fn run_placements(m: AtlasModel, ws: Seq<int>, h: int) -> Seq<SpecPlacement>
    decreases ws.len(),
{
    if ws.len() == 0 {
        Seq::<SpecPlacement>::empty()
    } else {
        seq![spec_placement(m, ws[0], h)] + run_placements(
            spec_after_insert(m, ws[0], h),
            ws.subrange(1, ws.len() as int),
            h,
        )
    }
}

/// A positive total width bounds each width from below by nothing and the
/// first width from above by the total.
proof fn lemma_total_width_split(ws: Seq<int>)
    requires
        widths_ok(ws),
        ws.len() > 0,
    ensures
        total_width(ws) == ws[0] + total_width(ws.subrange(1, ws.len() as int)),
        total_width(ws.subrange(1, ws.len() as int)) >= 0,
        widths_ok(ws.subrange(1, ws.len() as int)),
    decreases ws.len(),
{
    let tail = ws.subrange(1, ws.len() as int);
    assert forall|i: int| 0 <= i < tail.len() implies 0 < #[trigger] tail[i] <= MAX_ENTRY_SIDE by {
        assert(tail[i] == ws[i + 1]);
    }
    lemma_total_width_nonneg(tail);
}

/// A sequence of accepted widths has a nonnegative total.
proof fn lemma_total_width_nonneg(ws: Seq<int>)
    requires
        widths_ok(ws),
    ensures
        total_width(ws) >= 0,
    decreases ws.len(),
{
    if ws.len() > 0 {
        let tail = ws.subrange(1, ws.len() as int);
        assert forall|i: int| 0 <= i < tail.len() implies 0 < #[trigger] tail[i]
            <= MAX_ENTRY_SIDE by {
            assert(tail[i] == ws[i + 1]);
        }
        lemma_total_width_nonneg(tail);
    }
}

/// Packing monotonicity: entries of one height whose summed width fits the
/// rest of the current row all land in that row — same page, same bottom
/// edge — at strictly increasing horizontal offsets.
pub proof fn lemma_row_monotonic(m: AtlasModel, ws: Seq<int>, h: int)
    requires
        wf_model(m),
        widths_ok(ws),
        0 < h <= MAX_ENTRY_SIDE,
        m.cursor_y + h <= ATLAS_SIZE,
        m.cursor_x + total_width(ws) <= ATLAS_SIZE,
    ensures
        run_placements(m, ws, h).len() == ws.len(),
        forall|i: int|
            0 <= i < ws.len() ==> {
                let p = #[trigger] run_placements(m, ws, h)[i];
                p.y == m.cursor_y && p.page == m.pages - 1 && p.x >= m.cursor_x
            },
        forall|i: int, j: int|
            0 <= i < j < ws.len() ==> run_placements(m, ws, h)[i].x < run_placements(
                m,
                ws,
                h,
            )[j].x,
    decreases ws.len(),
{
    if ws.len() > 0 {
        lemma_total_width_split(ws);
        let w0 = ws[0];
        let tail = ws.subrange(1, ws.len() as int);
        assert(!spec_needs_row_wrap(m, w0));
        assert(!spec_needs_page_wrap(m, h));
        let m1 = spec_after_insert(m, w0, h);
        assert(m1.cursor_x == m.cursor_x + w0);
        lemma_row_monotonic(m1, tail, h);
        let ps = run_placements(m, ws, h);
        let ps1 = run_placements(m1, tail, h);
        assert(ps == seq![spec_placement(m, w0, h)] + ps1);
        assert forall|i: int| 0 <= i < ws.len() implies {
            let p = #[trigger] ps[i];
            p.y == m.cursor_y && p.page == m.pages - 1 && p.x >= m.cursor_x
        } by {
            if i > 0 {
                assert(ps[i] == ps1[i - 1]);
            }
        }
        assert forall|i: int, j: int| 0 <= i < j < ws.len() implies ps[i].x < ps[j].x by {
            if i == 0 {
                assert(ps[j] == ps1[j - 1]);
                assert(ps1[j - 1].x >= m1.cursor_x);
            } else {
                assert(ps[i] == ps1[i - 1]);
                assert(ps[j] == ps1[j - 1]);
            }
        }
    }
}

/// Row wrap: when an entry's width does not fit the rest of the current row
/// but the wrapped row still fits the page, the entry lands at the left
/// edge of a fresh row exactly `row_height` above the previous one.
pub proof fn lemma_row_wrap(m: AtlasModel, w: int, h: int)
    requires
        wf_model(m),
        0 < w <= MAX_ENTRY_SIDE,
        0 < h <= MAX_ENTRY_SIDE,
        !spec_full(m),
        spec_needs_row_wrap(m, w),
        m.cursor_y + m.row_height + h <= ATLAS_SIZE,
    ensures
        spec_placement(m, w, h).x == 0,
        spec_placement(m, w, h).y == m.cursor_y + m.row_height,
        spec_placement(m, w, h).page == m.pages - 1,
        spec_after_insert(m, w, h).cursor_y == m.cursor_y + m.row_height,
{
}

/// Page overflow: when even a freshly wrapped row cannot take the entry's
/// height, a new page is appended and the entry lands at its origin, under
/// a page id no earlier placement carries.
pub proof fn lemma_page_overflow(m: AtlasModel, w: int, h: int)
    requires
        wf_model(m),
        0 < w <= MAX_ENTRY_SIDE,
        0 < h <= MAX_ENTRY_SIDE,
        !spec_full(m),
        spec_needs_page_wrap(spec_after_row_wrap(m, w), h),
    ensures
        spec_after_insert(m, w, h).pages == m.pages + 1,
        spec_placement(m, w, h).page == m.pages,
        spec_placement(m, w, h).x == 0,
        spec_placement(m, w, h).y == 0,
{
}

/// Capacity exhaustion: placing an entry wider than a page leaves the
/// cursor past the page's right edge, so the very next insert — whatever
/// its size — is refused.
pub proof fn lemma_full_after_oversized(m: AtlasModel, w: int, h: int)
    requires
        wf_model(m),
        ATLAS_SIZE < w <= MAX_ENTRY_SIDE,
        0 < h <= MAX_ENTRY_SIDE,
        !spec_full(m),
    ensures
        spec_full(spec_after_insert(m, w, h)),
{
    assert(spec_needs_row_wrap(m, w));
    assert(spec_after_insert(m, w, h).cursor_x == w);
}

/// The atlas: the pages created so far, the shelf cursor, and the pixel
/// uploads not yet performed by the owner of the texture resources.
pub struct Atlas {
    textures: Vec<u32>,
    row_height: i32,
    cursor_x: i32,
    cursor_y: i32,
    uploads: Vec<Upload>,
}

impl Atlas {
    /// The packer state this atlas is in.
    pub closed spec fn model(self) -> AtlasModel {
        AtlasModel {
            pages: self.textures@.len() as int,
            row_height: self.row_height as int,
            cursor_x: self.cursor_x as int,
            cursor_y: self.cursor_y as int,
        }
    }

    /// The ids of the pages created so far, in creation order.
    pub closed spec fn pages_seq(self) -> Seq<u32> {
        self.textures@
    }

    /// The pixel uploads recorded and not yet taken.
    pub closed spec fn uploads_seq(self) -> Seq<Upload> {
        self.uploads@
    }

    /// A well-formed atlas: a reachable cursor state, and one page id per
    /// page, assigned sequentially from zero.
    pub closed spec fn wf(self) -> bool {
        &&& wf_model(self.model())
        &&& forall|i: int| 0 <= i < self.textures@.len() ==> self.textures@[i] == i as u32
    }

    /// A fresh atlas: one empty page, the cursor at the origin.
    pub fn new() -> (r: Atlas)
        ensures
            r.wf(),
            r.model() == (AtlasModel { pages: 1, row_height: 0, cursor_x: 0, cursor_y: 0 }),
            r.pages_seq() == seq![0u32],
            r.uploads_seq() == Seq::<Upload>::empty(),
    {
        let mut textures: Vec<u32> = Vec::new();
        textures.push(0);
        proof {
            assert(textures@ == seq![0u32]);
        }
        Atlas { textures, row_height: 0, cursor_x: 0, cursor_y: 0, uploads: Vec::new() }
    }

    /// Place one entry.
    ///
    /// The entry goes at the cursor; if its width does not fit the row the
    /// cursor wraps to a fresh row first, and if its height then does not
    /// fit the page a fresh page is appended first.  Fails exactly when the
    /// cursor has already walked off an edge of the page, or when no page
    /// id is left.  On failure the atlas is unchanged.
    pub fn insert(&mut self, entry: AtlasEntry) -> (r: Result<GlSubTexture, RasterError>)
        requires
            old(self).wf(),
            entry.wf(),
        ensures
            final(self).wf(),
            old(self).pages_seq().is_prefix_of(final(self).pages_seq()),
            old(self).uploads_seq().is_prefix_of(final(self).uploads_seq()),
            match r {
                Err(e) => {
                    &&& e == RasterError::AtlasFull
                    &&& final(self).model() == old(self).model()
                    &&& final(self).pages_seq() == old(self).pages_seq()
                    &&& final(self).uploads_seq() == old(self).uploads_seq()
                    &&& spec_full(old(self).model()) || (spec_needs_page_wrap(
                        spec_after_row_wrap(old(self).model(), entry.width as int),
                        entry.height as int,
                    ) && old(self).model().pages == u32::MAX)
                },
                Ok(t) => {
                    let m0 = old(self).model();
                    let w = entry.width as int;
                    let h = entry.height as int;
                    let p = spec_placement(m0, w, h);
                    &&& !spec_full(m0)
                    &&& !(spec_needs_page_wrap(spec_after_row_wrap(m0, w), h) && m0.pages
                        == u32::MAX)
                    &&& final(self).model() == spec_after_insert(m0, w, h)
                    &&& final(self).pages_seq().len() as int == final(self).model().pages
                    &&& t.texture_id as int == p.page
                    &&& t.texture_id == final(self).pages_seq().last()
                    &&& t.uv_left as int == p.x
                    &&& t.uv_bot as int == p.y
                    &&& t.uv_width == entry.width
                    &&& t.uv_height == entry.height
                    &&& t.width as int == entry.width as int
                    &&& t.height as int == entry.height as int
                    &&& t.top as int == entry.top as int
                    &&& t.left as int == entry.left as int
                    &&& t.advance == entry.advance
                    &&& t.multicolor == entry.multicolor
                    &&& final(self).uploads_seq().len() == old(self).uploads_seq().len() + 1
                    &&& final(self).uploads_seq().drop_last() == old(self).uploads_seq()
                    &&& final(self).uploads_seq().last().texture_id == t.texture_id
                    &&& final(self).uploads_seq().last().x == t.uv_left
                    &&& final(self).uploads_seq().last().y == t.uv_bot
                    &&& final(self).uploads_seq().last().width == entry.width
                    &&& final(self).uploads_seq().last().height == entry.height
                    &&& final(self).uploads_seq().last().pixels@ == entry.buffer@
                },
            },
    {
        // Refuse the entry if the cursor has already walked off an edge of
        // the page.
        if self.cursor_x > ATLAS_SIZE || self.cursor_y > ATLAS_SIZE {
            return Err(RasterError::AtlasFull);
        }

        let mut cursor_x = self.cursor_x;
        let mut cursor_y = self.cursor_y;
        let mut row_height = self.row_height;
        let mut new_page = false;

        // Start a new row if the entry does not fit into the current one.
        if cursor_x + entry.width > ATLAS_SIZE {
            cursor_y = cursor_y + row_height;
            row_height = 0;
            cursor_x = 0;
        }

        // Append a new page if the row's available height is too little.
        if cursor_y + entry.height > ATLAS_SIZE {
            if self.textures.len() >= u32::MAX as usize {
                return Err(RasterError::AtlasFull);
            }
            new_page = true;
            row_height = 0;
            cursor_x = 0;
            cursor_y = 0;
        }

        if new_page {
            let id = self.textures.len() as u32;
            self.textures.push(id);
        }

        let active_texture = self.textures[self.textures.len() - 1];

        // Record the upload of the entry's pixels into the active page.
        let upload = Upload {
            texture_id: active_texture,
            x: cursor_x,
            y: cursor_y,
            width: entry.width,
            height: entry.height,
            pixels: entry.buffer,
        };
        self.uploads.push(upload);

        let placement = GlSubTexture {
            texture_id: active_texture,
            multicolor: entry.multicolor,
            top: entry.top as i16,
            left: entry.left as i16,
            width: entry.width as i16,
            height: entry.height as i16,
            uv_bot: cursor_y,
            uv_left: cursor_x,
            uv_width: entry.width,
            uv_height: entry.height,
            advance: entry.advance,
        };

        // Advance the write position past the entry.
        self.row_height = if row_height < entry.height {
            entry.height
        } else {
            row_height
        };
        self.cursor_x = cursor_x + entry.width;
        self.cursor_y = cursor_y;

        Ok(placement)
    }

    /// What well-formedness guarantees of the visible state: the cursor
    /// sits within the model's bounds, and the page list holds one id per
    /// page, equal to its index.
    pub proof fn lemma_wf_invariants(self)
        requires
            self.wf(),
        ensures
            wf_model(self.model()),
            self.pages_seq().len() as int == self.model().pages,
            forall|i: int| 0 <= i < self.pages_seq().len() ==> self.pages_seq()[i] == i as u32,
    {
    }

    /// Hand out the pending uploads, leaving none recorded.
    pub fn take_uploads(&mut self) -> (r: Vec<Upload>)
        ensures
            r@ == old(self).uploads_seq(),
            final(self).uploads_seq() == Seq::<Upload>::empty(),
            final(self).model() == old(self).model(),
            final(self).pages_seq() == old(self).pages_seq(),
            final(self).wf() == old(self).wf(),
    {
        let mut out: Vec<Upload> = Vec::new();
        core::mem::swap(&mut out, &mut self.uploads);
        out
    }
}

impl Default for Atlas {
    /// A fresh atlas, as [`Atlas::new`] makes it.
    fn default() -> (r: Atlas)
        ensures
            r.wf(),
            r.model() == (AtlasModel { pages: 1, row_height: 0, cursor_x: 0, cursor_y: 0 }),
            r.pages_seq() == seq![0u32],
            r.uploads_seq() == Seq::<Upload>::empty(),
    {
        Atlas::new()
    }
}

} // verus!
