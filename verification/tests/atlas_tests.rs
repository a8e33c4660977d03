use glyph_atlas::atlas::{Atlas, AtlasEntry, GlSubTexture, ATLAS_SIZE};
use glyph_atlas::RasterError;

fn entry(width: i32, height: i32) -> AtlasEntry {
    AtlasEntry {
        buffer: vec![0u8; (width * height * 4) as usize],
        width,
        height,
        top: 0,
        left: 0,
        advance: (width, 0),
        multicolor: false,
    }
}

fn place(atlas: &mut Atlas, width: i32, height: i32) -> GlSubTexture {
    atlas.insert(entry(width, height)).unwrap()
}

#[test]
fn page_size_is_fixed() {
    assert_eq!(ATLAS_SIZE, 1024);
}

#[test]
fn first_entry_lands_at_origin() {
    let mut atlas = Atlas::new();
    let t = place(&mut atlas, 10, 20);
    assert_eq!(t.uv_left, 0);
    assert_eq!(t.uv_bot, 0);
    assert_eq!(t.uv_width, 10);
    assert_eq!(t.uv_height, 20);
    assert_eq!(t.width, 10);
    assert_eq!(t.height, 20);
    assert_eq!(t.texture_id, 0);
}

#[test]
fn same_row_monotonic_offsets() {
    let mut atlas = Atlas::new();
    let mut placements = Vec::new();
    for _ in 0..5 {
        placements.push(place(&mut atlas, 100, 10));
    }
    for w in placements.windows(2) {
        assert_eq!(w[0].uv_bot, w[1].uv_bot);
        assert!(w[0].uv_left < w[1].uv_left);
        assert_eq!(w[0].texture_id, w[1].texture_id);
    }
    assert_eq!(placements[0].uv_left, 0);
    assert_eq!(placements[4].uv_left, 400);
}

#[test]
fn row_wrap_advances_by_row_height() {
    let mut atlas = Atlas::new();
    let first = place(&mut atlas, 1000, 10);
    assert_eq!(first.uv_bot, 0);
    // 1000 + 100 exceeds the page width: a fresh row starts at the height
    // of the tallest entry of the previous row.
    let wrapped = place(&mut atlas, 100, 8);
    assert_eq!(wrapped.uv_left, 0);
    assert_eq!(wrapped.uv_bot, 10);
}

#[test]
fn page_overflow_allocates_second_page() {
    let mut atlas = Atlas::new();
    let first = place(&mut atlas, 10, 1000);
    // Wraps to a new row at height 1000, where 900 more pixels do not fit:
    // a second page is created and the entry lands at its origin.
    let second = place(&mut atlas, 1020, 900);
    assert_ne!(first.texture_id, second.texture_id);
    assert_eq!(second.texture_id, 1);
    assert_eq!(second.uv_left, 0);
    assert_eq!(second.uv_bot, 0);
}

#[test]
fn oversized_entry_exhausts_capacity() {
    let mut atlas = Atlas::new();
    // Wider than a page: it is still placed, but leaves the cursor past
    // the page's right edge.
    let oversized = place(&mut atlas, 2000, 4);
    assert_eq!(oversized.uv_left, 0);
    // Every further insert is refused, however small.
    let refused = atlas.insert(entry(1, 1));
    assert!(matches!(refused, Err(RasterError::AtlasFull)));
    let refused_again = atlas.insert(entry(1, 1));
    assert!(matches!(refused_again, Err(RasterError::AtlasFull)));
}

#[test]
fn insert_records_one_upload_per_entry() {
    let mut atlas = Atlas::new();
    let t1 = place(&mut atlas, 3, 2);
    let t2 = place(&mut atlas, 5, 2);
    let uploads = atlas.take_uploads();
    assert_eq!(uploads.len(), 2);
    assert_eq!(uploads[0].x, t1.uv_left);
    assert_eq!(uploads[0].y, t1.uv_bot);
    assert_eq!(uploads[0].width, 3);
    assert_eq!(uploads[0].height, 2);
    assert_eq!(uploads[0].pixels.len(), 3 * 2 * 4);
    assert_eq!(uploads[1].x, t2.uv_left);
    assert_eq!(uploads[1].texture_id, t2.texture_id);
    assert!(atlas.take_uploads().is_empty());
}

#[test]
fn entry_metrics_are_copied() {
    let mut atlas = Atlas::new();
    let e = AtlasEntry {
        buffer: vec![7u8; 4 * 3 * 4],
        width: 4,
        height: 3,
        top: -5,
        left: 6,
        advance: (9, -1),
        multicolor: true,
    };
    let t = atlas.insert(e).unwrap();
    assert_eq!(t.top, -5);
    assert_eq!(t.left, 6);
    assert_eq!(t.advance, (9, -1));
    assert!(t.multicolor);
}

#[test]
fn new_svg_entry_has_icon_shape() {
    let e = AtlasEntry::new_svg(vec![1u8; 22 * 8 * 4], 22, 8);
    assert_eq!(e.width, 22);
    assert_eq!(e.height, 8);
    assert_eq!(e.top, 0);
    assert_eq!(e.left, 0);
    assert_eq!(e.advance, (22, 0));
    assert!(e.multicolor);
    assert_eq!(e.buffer.len(), 22 * 8 * 4);
}

#[test]
fn full_page_entries_each_get_a_page() {
    let mut atlas = Atlas::new();
    let first = place(&mut atlas, ATLAS_SIZE, ATLAS_SIZE);
    let second = place(&mut atlas, ATLAS_SIZE, ATLAS_SIZE);
    let third = place(&mut atlas, ATLAS_SIZE, ATLAS_SIZE);
    assert_eq!(first.texture_id, 0);
    assert_eq!(second.texture_id, 1);
    assert_eq!(third.texture_id, 2);
    assert_eq!(second.uv_left, 0);
    assert_eq!(second.uv_bot, 0);
}

#[test]
fn default_atlas_matches_a_fresh_one() {
    let mut atlas = Atlas::default();
    let t = place(&mut atlas, 1, 1);
    assert_eq!(t.texture_id, 0);
    assert_eq!(t.uv_left, 0);
    assert_eq!(t.uv_bot, 0);
}
