use glyph_atlas::text::GlRasterizer;
use glyph_atlas::RasterError;

#[test]
fn rasterizer_construction_reports_init_failures() {
    // Whether a matching font is installed or not, construction either
    // succeeds or fails with the initialization error, never with another
    // variant; and a fresh rasterizer shapes a short string without
    // producing more glyphs than characters.
    match GlRasterizer::new("monospace", crossfont::Size::new(12.0)) {
        Ok(mut rasterizer) => {
            let glyphs = rasterizer.rasterize_string("ab");
            assert!(glyphs.len() <= 2);
        },
        Err(e) => assert!(matches!(e, RasterError::Init)),
    }
}
