use glyph_text::error::RenderError;
use glyph_text::font::{FontCache, FontManager, FontReport, Glyph, GlyphReport, POINT_SIZE};
use glyph_text::geometry::Color;
use glyph_text::repertoire::repertoire;

/// Reports in which the glyph at position `slot` has image `first_image +
/// slot`, width `40 + slot` and height 128.
fn reports(first_image: usize) -> Vec<GlyphReport> {
    (0..128)
        .map(|slot| {
            GlyphReport::Rendered(Glyph {
                image: first_image + slot,
                width: 40 + slot as u32,
                height: 128,
            })
        })
        .collect()
}

fn built_cache() -> FontCache {
    FontManager::init().load(&FontReport::Opened(reports(0))).unwrap()
}

#[test]
fn manager_rasterizes_at_128_points_in_opaque_white() {
    let manager = FontManager::init();
    assert_eq!(manager.point_size(), 128);
    assert_eq!(POINT_SIZE, 128);
    assert_eq!(manager.tint(), Color { r: 255, g: 255, b: 255, a: 255 });
}

#[test]
fn manager_keeps_its_settings_and_rasterizes_at_full_opacity() {
    let manager = FontManager::with_settings(24, Color { r: 10, g: 20, b: 30, a: 40 });
    assert_eq!(manager.point_size(), 24);
    assert_eq!(manager.tint(), Color { r: 10, g: 20, b: 30, a: 255 });
}

#[test]
fn lookup_and_size_succeed_for_every_repertoire_character() {
    let cache = built_cache();
    for (slot, c) in repertoire().into_iter().enumerate() {
        assert_eq!(cache.glyph(c), Ok(slot));
        assert_eq!(cache.size(c), Ok((40 + slot as u32, 128)));
        assert_eq!(cache.entry(c), Ok(Glyph { image: slot, width: 40 + slot as u32, height: 128 }));
    }
}

#[test]
fn lookup_and_size_fail_outside_the_repertoire() {
    let cache = built_cache();
    for code in 0u32..0x3000 {
        let c = char::from_u32(code).unwrap();
        let inside = (0x20..=0x7F).contains(&code) || (0x2580..=0x259F).contains(&code);
        if !inside {
            assert_eq!(cache.glyph(c), Err(RenderError::GlyphNotFound { glyph: c }));
            assert_eq!(cache.size(c), Err(RenderError::GlyphNotFound { glyph: c }));
            assert_eq!(cache.entry(c), Err(RenderError::GlyphNotFound { glyph: c }));
        }
    }
}

#[test]
fn cache_boundaries_follow_the_repertoire() {
    let cache = built_cache();
    for c in ['\u{001F}', '\u{0080}', '\u{257F}', '\u{25A0}'] {
        assert_eq!(cache.glyph(c), Err(RenderError::GlyphNotFound { glyph: c }));
        assert_eq!(cache.size(c), Err(RenderError::GlyphNotFound { glyph: c }));
    }
    assert_eq!(cache.size('\u{0020}'), Ok((40, 128)));
    assert_eq!(cache.size('\u{007F}'), Ok((135, 128)));
    assert_eq!(cache.size('\u{2580}'), Ok((136, 128)));
    assert_eq!(cache.size('\u{259F}'), Ok((167, 128)));
    assert_eq!(cache.glyph('\u{0020}'), Ok(0));
    assert_eq!(cache.glyph('\u{007F}'), Ok(95));
    assert_eq!(cache.glyph('\u{2580}'), Ok(96));
    assert_eq!(cache.glyph('\u{259F}'), Ok(127));
}

#[test]
fn building_twice_reports_the_same_sizes() {
    let manager = FontManager::init();
    let first = manager.load(&FontReport::Opened(reports(0))).unwrap();
    let second = manager.load(&FontReport::Opened(reports(1000))).unwrap();
    for c in repertoire() {
        assert_eq!(first.size(c), second.size(c));
    }
    assert_eq!(first.glyph('A'), Ok(33));
    assert_eq!(second.glyph('A'), Ok(1033));
}

#[test]
fn load_fails_for_an_unreadable_font() {
    let manager = FontManager::init();
    assert!(matches!(manager.load(&FontReport::Unreadable), Err(RenderError::FontLoad)));
}

#[test]
fn load_fails_at_the_character_that_was_not_rasterized() {
    let manager = FontManager::init();
    let mut incomplete = reports(0);
    incomplete[34] = GlyphReport::Failed;
    assert!(matches!(
        manager.load(&FontReport::Opened(incomplete)),
        Err(RenderError::GlyphRaster { glyph: 'B' })
    ));
}

#[test]
fn load_names_the_first_of_several_failures() {
    let manager = FontManager::init();
    let mut incomplete = reports(0);
    incomplete[100] = GlyphReport::Failed;
    incomplete[65] = GlyphReport::Failed;
    incomplete[127] = GlyphReport::Failed;
    assert!(matches!(
        manager.load(&FontReport::Opened(incomplete)),
        Err(RenderError::GlyphRaster { glyph: 'a' })
    ));
}

#[test]
fn load_fails_in_the_block_range_too() {
    let manager = FontManager::init();
    let mut incomplete = reports(0);
    incomplete[96] = GlyphReport::Failed;
    assert!(matches!(
        manager.load(&FontReport::Opened(incomplete)),
        Err(RenderError::GlyphRaster { glyph: '\u{2580}' })
    ));
    let mut last = reports(0);
    last[127] = GlyphReport::Failed;
    assert!(matches!(
        manager.load(&FontReport::Opened(last)),
        Err(RenderError::GlyphRaster { glyph: '\u{259F}' })
    ));
}

#[test]
fn load_treats_missing_reports_as_failures() {
    let manager = FontManager::init();
    assert!(matches!(
        manager.load(&FontReport::Opened(Vec::new())),
        Err(RenderError::GlyphRaster { glyph: ' ' })
    ));
    let mut short = reports(0);
    short.truncate(127);
    assert!(matches!(
        manager.load(&FontReport::Opened(short)),
        Err(RenderError::GlyphRaster { glyph: '\u{259F}' })
    ));
    let mut stopped = reports(0);
    stopped.truncate(10);
    stopped.push(GlyphReport::Failed);
    assert!(matches!(
        manager.load(&FontReport::Opened(stopped)),
        Err(RenderError::GlyphRaster { glyph: '*' })
    ));
}

#[test]
fn load_ignores_reports_beyond_the_repertoire() {
    let manager = FontManager::init();
    let mut long = reports(0);
    long.push(GlyphReport::Failed);
    long.push(GlyphReport::Rendered(Glyph { image: 9, width: 9, height: 9 }));
    let cache = manager.load(&FontReport::Opened(long)).unwrap();
    assert_eq!(cache.size('\u{259F}'), Ok((167, 128)));
}
