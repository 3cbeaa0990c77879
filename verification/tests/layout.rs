use textmesh::font::{Font, GlyphInput, GlyphOutline};
use textmesh::geometry::Extent2;
use textmesh::text_object::{Face, TextObject, TextVertex};
use textmesh::texture::Texture;

fn glyph(ch: char, advance: u32, bearing_x: i32, outline: Option<(u32, u32)>) -> GlyphInput {
    GlyphInput {
        ch,
        advance,
        bearing_x,
        outline: outline.map(|(min_x, max_x)| GlyphOutline { min_x, max_x }),
    }
}

/// 'A': advance 10, bearing 1, ink columns 1..=8; 'B': advance 12,
/// bearing 2, ink columns 20..=27; space: advance 6 without ink.
/// Cell height 30, line distance 34.
fn small_font() -> Font {
    let glyphs = vec![
        glyph('A', 10, 1, Some((1, 8))),
        glyph('B', 12, 2, Some((20, 27))),
        glyph(' ', 6, 0, None),
    ];
    Font::build(&glyphs, 30, 4, Texture::new(1)).unwrap()
}

fn v(x: i64, y: i64, u: u32, v: u32) -> TextVertex {
    TextVertex { x, y, u, v }
}

#[test]
fn empty_text_has_no_quads_and_one_line_of_height() {
    let font = small_font();
    let (verts, faces, size) = TextObject::generate_mesh(&font, "", 32);
    assert!(verts.is_empty());
    assert!(faces.is_empty());
    assert_eq!(size, Extent2 { x: 0, y: 34 * 32 });
}

#[test]
fn two_characters_lay_out_exactly() {
    let font = small_font();
    let (verts, faces, size) = TextObject::generate_mesh(&font, "AB", 32);
    assert_eq!(verts.len(), 8);
    // Quad of 'A': left edge 1*32, width 8*32, cell height 30*32.
    assert_eq!(verts[0], v(288, 0, 9, 0));
    assert_eq!(verts[1], v(288, 960, 9, 1));
    assert_eq!(verts[2], v(32, 960, 1, 1));
    assert_eq!(verts[3], v(32, 0, 1, 0));
    // Quad of 'B': pen has advanced to 10*32.
    assert_eq!(verts[4], v(640, 0, 28, 0));
    assert_eq!(verts[5], v(640, 960, 28, 1));
    assert_eq!(verts[6], v(384, 960, 20, 1));
    assert_eq!(verts[7], v(384, 0, 20, 0));
    assert_eq!(
        faces,
        vec![
            Face { a: 0, b: 1, c: 3 },
            Face { a: 1, b: 2, c: 3 },
            Face { a: 4, b: 5, c: 7 },
            Face { a: 5, b: 6, c: 7 },
        ]
    );
    assert_eq!(size, Extent2 { x: (10 + 12) * 32, y: 34 * 32 });
}

#[test]
fn newline_moves_the_pen_one_line_down_and_back_left() {
    let font = small_font();
    let (verts, _faces, size) = TextObject::generate_mesh(&font, "A\nB", 32);
    assert_eq!(verts.len(), 8);
    // Top-left corner of the second quad: one scaled line distance down,
    // bearing-adjusted pen start of 'B'.
    assert_eq!(verts[7].y, 34 * 32);
    assert_eq!(verts[7].x, 2 * 32);
    assert_eq!(size, Extent2 { x: 12 * 32, y: 2 * 34 * 32 });
}

#[test]
fn newline_breaks_the_line_even_when_the_table_holds_it() {
    // A build may admit '\n' as a whitespace glyph; layout must still
    // treat it as a line break, never as an advancing character.
    let glyphs = vec![
        glyph('A', 10, 1, Some((1, 8))),
        glyph('B', 12, 2, Some((20, 27))),
        glyph('\n', 6, 0, None),
    ];
    let font = Font::build(&glyphs, 30, 4, Texture::new(1)).unwrap();
    let (verts, _faces, size) = TextObject::generate_mesh(&font, "A\nB", 32);
    assert_eq!(verts.len(), 8);
    assert_eq!(verts[7].y, 34 * 32);
    assert_eq!(verts[7].x, 2 * 32);
    assert_eq!(size, Extent2 { x: 12 * 32, y: 2 * 34 * 32 });
    let (nverts, _nfaces, nsize) = TextObject::generate_mesh(&font, "\n", 32);
    assert!(nverts.is_empty());
    assert_eq!(nsize, Extent2 { x: 0, y: 2 * 34 * 32 });
}

#[test]
fn characters_outside_the_table_are_skipped_silently() {
    let font = small_font();
    let with_unknown = TextObject::generate_mesh(&font, "AzB", 32);
    let without = TextObject::generate_mesh(&font, "AB", 32);
    assert_eq!(with_unknown.0, without.0);
    assert_eq!(with_unknown.1, without.1);
    assert_eq!(with_unknown.2, without.2);
}

#[test]
fn whitespace_advances_the_pen_without_geometry() {
    let font = small_font();
    let (verts, faces, size) = TextObject::generate_mesh(&font, "A B", 32);
    assert_eq!(verts.len(), 8);
    assert_eq!(faces.len(), 4);
    // 'B' starts after A's advance plus the space's advance.
    assert_eq!(verts[7].x, (10 + 6) * 32 + 2 * 32);
    assert_eq!(size, Extent2 { x: (10 + 6 + 12) * 32, y: 34 * 32 });
}

#[test]
fn whitespace_only_text_keeps_one_line_of_height() {
    let font = small_font();
    let (verts, faces, size) = TextObject::generate_mesh(&font, " ", 32);
    assert!(verts.is_empty());
    assert!(faces.is_empty());
    // The pen still advances, and the height is still one line.
    assert_eq!(size, Extent2 { x: 6 * 32, y: 34 * 32 });
}

#[test]
fn newline_only_text_spans_two_lines() {
    let font = small_font();
    let (verts, _faces, size) = TextObject::generate_mesh(&font, "\n", 32);
    assert!(verts.is_empty());
    assert_eq!(size, Extent2 { x: 0, y: 2 * 34 * 32 });
}

#[test]
fn layout_is_a_pure_function() {
    let font = small_font();
    let first = TextObject::generate_mesh(&font, "A B\nAB", 48);
    let second = TextObject::generate_mesh(&font, "A B\nAB", 48);
    assert_eq!(first.0, second.0);
    assert_eq!(first.1, second.1);
    assert_eq!(first.2, second.2);
}

#[test]
fn doubling_the_font_size_doubles_the_mesh() {
    let font = small_font();
    let reference = TextObject::generate_mesh(&font, "A B\nAB", 32);
    let doubled = TextObject::generate_mesh(&font, "A B\nAB", 64);
    assert_eq!(
        doubled.2,
        Extent2 { x: 2 * reference.2.x, y: 2 * reference.2.y }
    );
    assert_eq!(doubled.0.len(), reference.0.len());
    for (d, r) in doubled.0.iter().zip(reference.0.iter()) {
        assert_eq!(d.x, 2 * r.x);
        assert_eq!(d.y, 2 * r.y);
        assert_eq!(d.u, r.u);
        assert_eq!(d.v, r.v);
    }
    assert_eq!(doubled.1, reference.1);
}
