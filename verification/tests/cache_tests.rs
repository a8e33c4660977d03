use glyph_atlas::atlas::AtlasEntry;
use glyph_atlas::cache::{apply_kerning, key_code, CacheKey, GlyphCache};
use glyph_atlas::glyph::{rgb_to_rgba, GlyphRaster, RasterBuffer};
use glyph_atlas::svg::Svg;
use glyph_atlas::RasterError;

fn raster(width: i32, height: i32) -> GlyphRaster {
    GlyphRaster {
        width,
        height,
        top: 1,
        left: 2,
        advance: (width + 1, 0),
        buffer: RasterBuffer::Rgb(vec![128u8; (width * height * 3) as usize]),
    }
}

fn bad_raster() -> GlyphRaster {
    GlyphRaster {
        width: 0,
        height: 4,
        top: 0,
        left: 0,
        advance: (0, 0),
        buffer: RasterBuffer::Rgb(Vec::new()),
    }
}

#[test]
fn cache_idempotence() {
    let mut cache = GlyphCache::new();
    let first = cache.cache_char('a', raster(4, 6)).unwrap();
    // A second call for the same character returns the stored placement,
    // whatever glyph data is offered this time.
    let second = cache.cache_char('a', raster(9, 9)).unwrap();
    assert_eq!(first, second);
    // Exactly one underlying pack happened.
    let uploads = cache.take_uploads();
    assert_eq!(uploads.len(), 1);
    assert_eq!(cache.get_cached(CacheKey::Character('a')), Some(first));
}

#[test]
fn lookup_misses_without_side_effect() {
    let cache = GlyphCache::new();
    assert_eq!(cache.get_cached(CacheKey::Character('x')), None);
    assert_eq!(cache.get_cached(CacheKey::Svg(Svg::Battery100)), None);
}

#[test]
fn distinct_characters_get_distinct_placements() {
    let mut cache = GlyphCache::new();
    let a = cache.cache_char('a', raster(4, 6)).unwrap();
    let b = cache.cache_char('b', raster(4, 6)).unwrap();
    assert_eq!(a.uv_bot, b.uv_bot);
    assert!(a.uv_left < b.uv_left);
    assert_eq!(cache.take_uploads().len(), 2);
}

#[test]
fn unusable_glyph_is_refused_and_not_cached() {
    let mut cache = GlyphCache::new();
    let refused = cache.cache_char('z', bad_raster());
    assert!(matches!(refused, Err(RasterError::Rasterize)));
    assert_eq!(cache.get_cached(CacheKey::Character('z')), None);
    assert!(cache.take_uploads().is_empty());
}

#[test]
fn kerning_is_added_to_the_advance() {
    let mut cache = GlyphCache::new();
    let b = cache.cache_char('b', raster(4, 6)).unwrap();
    let adjusted = apply_kerning(b, (2, 0));
    assert_eq!(adjusted.advance.0, b.advance.0 + 2);
    assert_eq!(adjusted.advance.1, b.advance.1);
    assert_eq!(adjusted.texture_id, b.texture_id);
    assert_eq!(adjusted.uv_left, b.uv_left);
    assert_eq!(adjusted.width, b.width);
}

#[test]
fn shaping_truncates_at_first_failure() {
    // Shape a five-character string whose third character cannot be
    // rasterized: exactly the first two glyphs come out.
    let mut cache = GlyphCache::new();
    let text = ['a', 'b', 'c', 'd', 'e'];
    let mut shaped = Vec::new();
    let mut prev = ' ';
    for &c in text.iter() {
        let glyph = match cache.get_cached(CacheKey::Character(c)) {
            Some(t) => t,
            None => {
                let data = if c == 'c' { bad_raster() } else { raster(4, 6) };
                match cache.cache_char(c, data) {
                    Ok(t) => t,
                    Err(_) => break,
                }
            },
        };
        let kerning = if prev == 'a' && c == 'b' { (2, 0) } else { (0, 0) };
        shaped.push(apply_kerning(glyph, kerning));
        prev = c;
    }
    assert_eq!(shaped.len(), 2);
    // The 'b' glyph carries the stub kerning of (2, 0) on its advance.
    assert_eq!(shaped[1].advance.0, 4 + 1 + 2);
}

#[test]
fn rgb_expands_to_rgba_with_opaque_alpha() {
    let rgb = [10u8, 20, 30, 40, 50, 60];
    let rgba = rgb_to_rgba(&rgb);
    assert_eq!(rgba, vec![10u8, 20, 30, 255, 40, 50, 60, 255]);
}

#[test]
fn rgb_empty_expands_to_empty() {
    let rgb: [u8; 0] = [];
    assert_eq!(rgb_to_rgba(&rgb), Vec::<u8>::new());
}

#[test]
fn glyph_conversion_normalizes_rgb() {
    let g = GlyphRaster {
        width: 1,
        height: 1,
        top: 3,
        left: 4,
        advance: (5, 6),
        buffer: RasterBuffer::Rgb(vec![9u8, 8, 7]),
    };
    let e = AtlasEntry::from_glyph(g).unwrap();
    assert_eq!(e.buffer, vec![9u8, 8, 7, 255]);
    assert!(!e.multicolor);
    assert_eq!(e.top, 3);
    assert_eq!(e.left, 4);
    assert_eq!(e.advance, (5, 6));
}

#[test]
fn glyph_conversion_keeps_rgba() {
    let g = GlyphRaster {
        width: 1,
        height: 2,
        top: 0,
        left: 0,
        advance: (1, 0),
        buffer: RasterBuffer::Rgba(vec![1u8, 2, 3, 4, 5, 6, 7, 8]),
    };
    let e = AtlasEntry::from_glyph(g).unwrap();
    assert_eq!(e.buffer, vec![1u8, 2, 3, 4, 5, 6, 7, 8]);
    assert!(e.multicolor);
}

#[test]
fn glyph_conversion_refuses_mismatched_buffer() {
    let g = GlyphRaster {
        width: 2,
        height: 2,
        top: 0,
        left: 0,
        advance: (2, 0),
        buffer: RasterBuffer::Rgb(vec![0u8; 5]),
    };
    assert!(AtlasEntry::from_glyph(g).is_none());
}

#[test]
fn key_codes_tell_symbols_apart() {
    assert_eq!(key_code(CacheKey::Character('A')), 65);
    assert_eq!(key_code(CacheKey::Character('\u{10ffff}')), 0x10ffff);
    assert_eq!(key_code(CacheKey::Svg(Svg::BatteryCharging100)), 0x110000);
    assert_eq!(key_code(CacheKey::Svg(Svg::Battery20)), 0x110000 + 9);
    assert_ne!(
        key_code(CacheKey::Svg(Svg::Battery100)),
        key_code(CacheKey::Character('\u{10ffff}'))
    );
}

#[test]
fn kerning_wraps_at_the_advance_limit() {
    let mut cache = GlyphCache::new();
    let base = cache.cache_char('w', raster(2, 2)).unwrap();
    let mut extreme = base;
    extreme.advance = (i32::MAX, i32::MIN);
    let adjusted = apply_kerning(extreme, (1, -1));
    assert_eq!(adjusted.advance.0, i32::MIN);
    assert_eq!(adjusted.advance.1, i32::MAX);
}
