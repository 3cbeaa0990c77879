use textmesh::font::{Character, Font, FontError, GlyphInput, GlyphOutline};
use textmesh::texture::Texture;

fn glyph(ch: char, advance: u32, bearing_x: i32, outline: Option<(u32, u32)>) -> GlyphInput {
    GlyphInput {
        ch,
        advance,
        bearing_x,
        outline: outline.map(|(min_x, max_x)| GlyphOutline { min_x, max_x }),
    }
}

/// A three-character set: 'A' at strip slot 0, 'B' at slot 18, and a
/// space without ink.
fn small_set() -> Vec<GlyphInput> {
    vec![
        glyph('A', 10, 1, Some((1, 8))),
        glyph('B', 12, 2, Some((20, 27))),
        glyph(' ', 6, 0, None),
    ]
}

fn build_small() -> Font {
    Font::build(&small_set(), 30, 4, Texture::new(1)).unwrap()
}

#[test]
fn build_records_one_entry_per_character() {
    let font = build_small();
    let entries = font.get_character_map();
    assert_eq!(entries.len(), 3);
    assert_eq!(entries[0].ch, 'A');
    assert_eq!(entries[1].ch, 'B');
    assert_eq!(entries[2].ch, ' ');
}

#[test]
fn build_records_exact_metrics() {
    let font = build_small();
    let a = font.get_character('A').unwrap();
    assert_eq!(
        *a,
        Character { u_min: 1, u_max: 9, width: 8, bearing_x: 1, advance: 10 }
    );
    let b = font.get_character('B').unwrap();
    assert_eq!(
        *b,
        Character { u_min: 20, u_max: 28, width: 8, bearing_x: 2, advance: 12 }
    );
}

#[test]
fn whitespace_without_ink_gets_zero_geometry_and_true_advance() {
    let font = build_small();
    let sp = font.get_character(' ').unwrap();
    assert_eq!(
        *sp,
        Character { u_min: 0, u_max: 0, width: 0, bearing_x: 0, advance: 6 }
    );
}

#[test]
fn uv_columns_lie_within_the_atlas() {
    let font = build_small();
    let width = font.get_atlas_width();
    assert_eq!(width, (10 + 8) + (12 + 8) + (6 + 8));
    for entry in font.get_character_map() {
        assert!(entry.data.u_min <= entry.data.u_max);
        assert!(entry.data.u_max <= width);
    }
}

#[test]
fn build_computes_vertical_metrics() {
    let font = build_small();
    assert_eq!(font.get_char_height(), 30);
    assert_eq!(font.get_line_distance(), 34);
}

#[test]
fn build_is_deterministic() {
    let f1 = build_small();
    let f2 = build_small();
    assert_eq!(f1.get_character_map(), f2.get_character_map());
    assert_eq!(f1.get_atlas_width(), f2.get_atlas_width());
    assert_eq!(f1.get_line_distance(), f2.get_line_distance());
}

#[test]
fn missing_outline_on_visible_character_fails_naming_it() {
    let glyphs = vec![glyph('A', 10, 1, Some((1, 8))), glyph('x', 9, 0, None)];
    let r = Font::build(&glyphs, 30, 4, Texture::new(1));
    assert_eq!(r.unwrap_err(), FontError::GlyphMissing('x'));
}

#[test]
fn first_missing_character_is_reported() {
    let glyphs = vec![glyph('x', 9, 0, None), glyph('y', 9, 0, None)];
    let r = Font::build(&glyphs, 30, 4, Texture::new(1));
    assert_eq!(r.unwrap_err(), FontError::GlyphMissing('x'));
}

#[test]
fn duplicate_character_fails_the_load() {
    let glyphs = vec![glyph('A', 10, 1, Some((1, 8))), glyph('A', 10, 1, Some((20, 21)))];
    let r = Font::build(&glyphs, 30, 4, Texture::new(1));
    assert_eq!(r.unwrap_err(), FontError::FontLoad);
}

#[test]
fn oversized_advance_fails_the_load() {
    let glyphs = vec![glyph('A', 0x10001, 1, Some((1, 8)))];
    let r = Font::build(&glyphs, 30, 4, Texture::new(1));
    assert_eq!(r.unwrap_err(), FontError::FontLoad);
}

#[test]
fn ink_outside_the_strip_fails_the_load() {
    // The strip is 18 columns wide, but the ink claims column 100.
    let glyphs = vec![glyph('A', 10, 1, Some((1, 100)))];
    let r = Font::build(&glyphs, 30, 4, Texture::new(1));
    assert_eq!(r.unwrap_err(), FontError::FontLoad);
}

#[test]
fn lookup_misses_characters_outside_the_set() {
    let font = build_small();
    assert!(font.get_character('Q').is_none());
}

#[test]
fn glyph_positions_are_prefix_sums_with_spacing() {
    let advances = vec![10u32, 12, 6];
    let (positions, total) = textmesh::font::glyph_positions(&advances).unwrap();
    assert_eq!(positions, vec![0, 18, 38]);
    assert_eq!(total, 52);
}

#[test]
fn glyph_positions_reject_oversized_advances() {
    let advances = vec![10u32, 0x10001];
    assert!(textmesh::font::glyph_positions(&advances).is_none());
}

#[test]
fn texture_handle_is_kept() {
    let font = build_small();
    assert_eq!(font.get_texture().get_id(), 1);
    assert_eq!(Texture::new(9).get_id(), 9);
}

#[test]
fn reference_constants() {
    assert_eq!(Font::default_font_size(), 32);
    assert_eq!(Font::default_spacing(), 8);
}
