use glyph_atlas::cache::{CacheKey, GlyphCache};
use glyph_atlas::glyph::{GlyphRaster, RasterBuffer};
use glyph_atlas::svg::Svg;

const ALL: [Svg; 10] = [
    Svg::BatteryCharging100,
    Svg::BatteryCharging80,
    Svg::BatteryCharging60,
    Svg::BatteryCharging40,
    Svg::BatteryCharging20,
    Svg::Battery100,
    Svg::Battery80,
    Svg::Battery60,
    Svg::Battery40,
    Svg::Battery20,
];

#[test]
fn icon_sizes_are_fixed() {
    for icon in ALL {
        let (width, height) = icon.size();
        assert_eq!(width, 22);
        match icon {
            Svg::Battery100 | Svg::Battery80 | Svg::Battery60 | Svg::Battery40
            | Svg::Battery20 => assert_eq!(height, 8),
            _ => assert_eq!(height, 14),
        }
    }
}

#[test]
fn icon_content_is_markup_of_its_size() {
    for icon in ALL {
        let content = icon.content();
        let (width, height) = icon.size();
        assert!(content.starts_with("<svg"));
        assert!(content.contains(&format!("width=\"{width}\"")));
        assert!(content.contains(&format!("height=\"{height}\"")));
    }
}

#[test]
fn icon_renders_into_the_atlas() {
    let mut cache = GlyphCache::new();
    let t = cache.rasterize_svg(Svg::Battery100).unwrap();
    assert_eq!(t.width, 22);
    assert_eq!(t.height, 8);
    assert_eq!(t.top, 0);
    assert_eq!(t.left, 0);
    assert_eq!(t.advance, (22, 0));
    assert!(t.multicolor);
    assert_eq!(t.texture_id, 0);
    assert_eq!(t.uv_left, 0);
    assert_eq!(t.uv_bot, 0);
    // The rendered buffer covers the icon exactly, four bytes per pixel,
    // and is not blank: the renderer actually drew the description.
    let uploads = cache.take_uploads();
    assert_eq!(uploads.len(), 1);
    assert_eq!(uploads[0].pixels.len(), 22 * 8 * 4);
    assert!(uploads[0].pixels.iter().any(|&b| b != 0));
}

#[test]
fn icon_rendering_is_cached() {
    let mut cache = GlyphCache::new();
    let first = cache.rasterize_svg(Svg::BatteryCharging60).unwrap();
    let second = cache.rasterize_svg(Svg::BatteryCharging60).unwrap();
    assert_eq!(first, second);
    assert_eq!(cache.take_uploads().len(), 1);
    assert_eq!(cache.get_cached(CacheKey::Svg(Svg::BatteryCharging60)), Some(first));
}

#[test]
fn distinct_icons_pack_side_by_side() {
    let mut cache = GlyphCache::new();
    let first = cache.rasterize_svg(Svg::Battery100).unwrap();
    let second = cache.rasterize_svg(Svg::Battery60).unwrap();
    assert_eq!(first.uv_bot, second.uv_bot);
    assert_eq!(second.uv_left, first.uv_left + 22);
    assert_eq!(cache.take_uploads().len(), 2);
}

#[test]
fn characters_and_icons_share_one_atlas() {
    let mut cache = GlyphCache::new();
    let glyph = cache
        .cache_char(
            'a',
            GlyphRaster {
                width: 10,
                height: 8,
                top: 0,
                left: 0,
                advance: (10, 0),
                buffer: RasterBuffer::Rgb(vec![1u8; 10 * 8 * 3]),
            },
        )
        .unwrap();
    let icon = cache.rasterize_svg(Svg::Battery40).unwrap();
    assert_eq!(glyph.texture_id, icon.texture_id);
    assert_eq!(icon.uv_left, 10);
}

#[test]
fn every_icon_renders() {
    let mut cache = GlyphCache::new();
    for icon in ALL {
        let t = cache.rasterize_svg(icon).unwrap();
        let (width, height) = icon.size();
        assert_eq!(t.width as u32, width);
        assert_eq!(t.height as u32, height);
    }
    assert_eq!(cache.take_uploads().len(), 10);
}
