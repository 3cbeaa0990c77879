use textmesh::font::{Font, GlyphInput, GlyphOutline};
use textmesh::geometry::Extent2;
use textmesh::gui_object::{Alignment, Size};
use textmesh::text_object::TextObject;
use textmesh::texture::Texture;

fn glyph(ch: char, advance: u32, bearing_x: i32, outline: Option<(u32, u32)>) -> GlyphInput {
    GlyphInput {
        ch,
        advance,
        bearing_x,
        outline: outline.map(|(min_x, max_x)| GlyphOutline { min_x, max_x }),
    }
}

fn small_font() -> Font {
    let glyphs = vec![
        glyph('A', 10, 1, Some((1, 8))),
        glyph('B', 12, 2, Some((20, 27))),
        glyph(' ', 6, 0, None),
    ];
    Font::build(&glyphs, 30, 4, Texture::new(1)).unwrap()
}

#[test]
fn new_state_is_clean_and_sized() {
    let (text, verts, faces) = TextObject::new("AB".to_string(), 32, small_font());
    assert_eq!(verts.len(), 8);
    assert_eq!(faces.len(), 4);
    assert_eq!(text.get_text(), "AB");
    assert_eq!(text.get_font_size(), 32);
    assert_eq!(text.get_size(), Extent2 { x: 22 * 32, y: 34 * 32 });
    assert_eq!(text.size, Size::Auto);
    assert_eq!(text.alignment, Alignment::TopLeft);
}

#[test]
fn force_update_on_a_clean_state_is_a_no_op() {
    let (mut text, _verts, _faces) = TextObject::new("AB".to_string(), 32, small_font());
    assert!(text.force_update().is_none());
    assert!(text.force_update().is_none());
}

#[test]
fn set_text_defers_work_until_force_update() {
    let (mut text, _verts, _faces) = TextObject::new("AB".to_string(), 32, small_font());
    text.set_text("A".to_string());
    assert_eq!(text.get_text(), "A");
    // The reported size is still the cached one until the update runs.
    assert_eq!(text.get_size(), Extent2 { x: 22 * 32, y: 34 * 32 });
    let (verts, faces) = text.force_update().expect("a dirty state must regenerate");
    assert_eq!(verts.len(), 4);
    assert_eq!(faces.len(), 2);
    assert_eq!(text.get_size(), Extent2 { x: 10 * 32, y: 34 * 32 });
    // No second regeneration without an intervening mutation.
    assert!(text.force_update().is_none());
}

#[test]
fn repeated_mutations_cost_one_regeneration() {
    let (mut text, _verts, _faces) = TextObject::new("AB".to_string(), 32, small_font());
    text.set_text("A".to_string());
    text.set_font_size(64);
    text.set_text("B".to_string());
    assert!(text.force_update().is_some());
    assert!(text.force_update().is_none());
}

#[test]
fn set_font_size_rescales_on_update() {
    let (mut text, _verts, _faces) = TextObject::new("AB".to_string(), 32, small_font());
    text.set_font_size(64);
    assert_eq!(text.get_font_size(), 64);
    text.force_update().unwrap();
    assert_eq!(text.get_size(), Extent2 { x: 22 * 64, y: 34 * 64 });
}

#[test]
fn set_font_marks_dirty() {
    let (mut text, _verts, _faces) = TextObject::new("AB".to_string(), 32, small_font());
    text.set_font(small_font());
    assert!(text.force_update().is_some());
    assert_eq!(text.get_font().get_line_distance(), 34);
}

#[test]
fn manual_size_wins_over_layout_size() {
    let (text, _verts, _faces) = TextObject::new("AB".to_string(), 32, small_font());
    let text = text.with_size(Size::Manual(Extent2 { x: 5, y: 7 }));
    assert_eq!(text.get_size(), Extent2 { x: 5, y: 7 });
}

#[test]
fn builders_set_alignment_and_size_mode() {
    let (text, _verts, _faces) = TextObject::new("AB".to_string(), 32, small_font());
    let text = text.with_alignment(Alignment::BottomRight).with_size(Size::Auto);
    assert_eq!(text.alignment, Alignment::BottomRight);
    assert_eq!(text.size, Size::Auto);
}
