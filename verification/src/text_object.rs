//! Text layout and the cached text mesh.
//!
//! Layout walks a string against a font's metrics table with a pen at the
//! origin: a newline returns the pen to the left edge one line down, a
//! character missing from the table is skipped silently, and every other
//! non-whitespace character emits one textured quad. Coordinates are
//! produced in layout units — a metric at reference scale times the
//! requested font size — so the whole computation is exact and linear in
//! the requested size; dividing by [`crate::font::REFERENCE_FONT_SIZE`]
//! yields pixels.
//!
//! [`TextObject`] keeps the mutable render state of one on-screen string:
//! setters only record the change and mark the state dirty, and
//! [`TextObject::force_update`] regenerates geometry at most once however
//! many mutations preceded it.

use vstd::prelude::*;
use vstd::arithmetic::mul::{lemma_mul_inequality, lemma_mul_upper_bound};
use vstd::string::StrSliceExecFns;
use crate::font::{Character, Font, char_is_whitespace, is_whitespace_char, MAX_GLYPH_METRIC};
use crate::geometry::Extent2;
use crate::gui_object::{Alignment, Size};

verus! {

/// Cap on the requested font size, so scaled metrics cannot overflow.
pub const MAX_FONT_SIZE: u32 = 0x10000;

/// Cap on the number of characters laid out in one string.
pub const MAX_TEXT_LEN: usize = 0x1000_0000;

/// No single layout step moves the pen by more than this many layout
/// units in either axis.
pub const LAYOUT_STEP_BOUND: u64 = 0x2_0000_0000;

/// One mesh vertex: a position in layout units and a texture coordinate.
/// `u` is an atlas pixel column; `v` is 0 at the top of the atlas cell
/// and 1 at its bottom.
#[derive(Debug, Clone, Copy, PartialEq, Eq, Structural)]
pub struct TextVertex {
    pub x: i64,
    pub y: i64,
    pub u: u32,
    pub v: u32,
}

/// One triangle, as three indices into the vertex stream.
#[derive(Debug, Clone, Copy, PartialEq, Eq, Structural)]
pub struct Face {
    pub a: u32,
    pub b: u32,
    pub c: u32,
}

/// Mathematical image of a [`TextVertex`].
pub struct SpecVertex {
    pub x: int,
    pub y: int,
    pub u: int,
    pub v: int,
}

/// Mathematical image of a [`Face`].
pub struct SpecFace {
    pub a: int,
    pub b: int,
    pub c: int,
}

impl View for TextVertex {
    type V = SpecVertex;

    open spec fn view(&self) -> SpecVertex {
        SpecVertex { x: self.x as int, y: self.y as int, u: self.u as int, v: self.v as int }
    }
}

impl View for Face {
    type V = SpecFace;

    open spec fn view(&self) -> SpecFace {
        SpecFace { a: self.a as int, b: self.b as int, c: self.c as int }
    }
}

pub open spec fn verts_view(s: Seq<TextVertex>) -> Seq<SpecVertex> {
    s.map_values(|t: TextVertex| t@)
}

pub open spec fn faces_view(s: Seq<Face>) -> Seq<SpecFace> {
    s.map_values(|t: Face| t@)
}

/// The state of a layout in progress: the geometry emitted so far, the
/// pen position, and the rightmost pen position reached.
pub struct LayoutState {
    pub verts: Seq<SpecVertex>,
    pub faces: Seq<SpecFace>,
    pub x: int,
    pub y: int,
    pub max_x: int,
}

pub open spec fn layout_init() -> LayoutState {
    LayoutState { verts: Seq::empty(), faces: Seq::empty(), x: 0, y: 0, max_x: 0 }
}

/// The four vertices of one glyph quad, in the order top-right,
/// bottom-right, bottom-left, top-left.
pub open spec fn quad_verts(
    char_x: int,
    char_w: int,
    char_y: int,
    char_h: int,
    u_min: int,
    u_max: int,
) -> Seq<SpecVertex> {
    seq![
        SpecVertex { x: char_x + char_w, y: char_y, u: u_max, v: 0 },
        SpecVertex { x: char_x + char_w, y: char_y + char_h, u: u_max, v: 1 },
        SpecVertex { x: char_x, y: char_y + char_h, u: u_min, v: 1 },
        SpecVertex { x: char_x, y: char_y, u: u_min, v: 0 },
    ]
}

/// The two triangles of quad number `q`, wound over its four vertices.
pub open spec fn quad_faces(q: int) -> Seq<SpecFace> {
    seq![
        SpecFace { a: 4 * q, b: 4 * q + 1, c: 4 * q + 3 },
        SpecFace { a: 4 * q + 1, b: 4 * q + 2, c: 4 * q + 3 },
    ]
}

/// One layout step: how one character advances the state. A newline
/// always returns the pen to a fresh line, emitting nothing and
/// consuming no advance, whether or not the table holds it; any other
/// character in the table emits a quad unless it is whitespace and
/// always advances the pen; a character outside the table is skipped
/// without effect.
pub open spec fn layout_step(
    st: LayoutState,
    cmap: Map<char, Character>,
    cell: int,
    line_distance: int,
    fs: int,
    c: char,
) -> LayoutState {
    if c == '\n' {
        LayoutState {
            verts: st.verts,
            faces: st.faces,
            x: 0,
            y: st.y + line_distance * fs,
            max_x: st.max_x,
        }
    } else if cmap.contains_key(c) {
        let m = cmap[c];
        let st1 = if !char_is_whitespace(c) {
            LayoutState {
                verts: st.verts + quad_verts(
                    st.x + m.bearing_x * fs,
                    m.width * fs,
                    st.y,
                    cell * fs,
                    m.u_min as int,
                    m.u_max as int,
                ),
                faces: st.faces + quad_faces(st.verts.len() as int / 4),
                x: st.x,
                y: st.y,
                max_x: st.max_x,
            }
        } else {
            st
        };
        let x2 = st1.x + m.advance * fs;
        LayoutState {
            verts: st1.verts,
            faces: st1.faces,
            x: x2,
            y: st1.y,
            max_x: if x2 > st1.max_x {
                x2
            } else {
                st1.max_x
            },
        }
    } else {
        st
    }
}

/// The layout of a whole string: the steps of its characters folded in
/// order over the initial state.
pub open spec fn layout_run(
    cmap: Map<char, Character>,
    cell: int,
    line_distance: int,
    fs: int,
    text: Seq<char>,
) -> LayoutState
    decreases text.len(),
{
    if text.len() == 0 {
        layout_init()
    } else {
        layout_step(
            layout_run(cmap, cell, line_distance, fs, text.drop_last()),
            cmap,
            cell,
            line_distance,
            fs,
            text.last(),
        )
    }
}

/// Every metric reachable through the table is under the glyph-metric
/// cap, which bounds how far one character can move the pen.
pub open spec fn map_metrics_bounded(cmap: Map<char, Character>) -> bool {
    forall|c: char|
        cmap.contains_key(c) ==> {
            let m = #[trigger] cmap[c];
            m.advance <= MAX_GLYPH_METRIC && -(MAX_GLYPH_METRIC as int) <= m.bearing_x
                <= MAX_GLYPH_METRIC && m.width <= MAX_GLYPH_METRIC
        }
}

/// A scaled metric stays within plus or minus `cap * MAX_FONT_SIZE`.
proof fn lemma_scaled_bound(v: int, cap: int, fs: int) by (nonlinear_arith)
    requires
        -cap <= v <= cap,
        0 <= cap,
        0 <= fs <= MAX_FONT_SIZE,
    ensures
        -(cap * MAX_FONT_SIZE as int) <= v * fs <= cap * MAX_FONT_SIZE as int,
{
}

/// Pen positions stay within `len` steps of the origin, and the geometry
/// always holds four vertices and two faces per emitted quad.
pub proof fn lemma_layout_run_bounds(
    cmap: Map<char, Character>,
    cell: int,
    line_distance: int,
    fs: int,
    text: Seq<char>,
)
    requires
        map_metrics_bounded(cmap),
        0 <= cell <= MAX_GLYPH_METRIC,
        0 <= line_distance <= 2 * MAX_GLYPH_METRIC,
        0 <= fs <= MAX_FONT_SIZE,
    ensures
        ({
            let st = layout_run(cmap, cell, line_distance, fs, text);
            &&& 0 <= st.x <= text.len() * (LAYOUT_STEP_BOUND as int)
            &&& 0 <= st.y <= text.len() * (LAYOUT_STEP_BOUND as int)
            &&& 0 <= st.max_x <= text.len() * (LAYOUT_STEP_BOUND as int)
            &&& st.verts.len() == 2 * st.faces.len()
            &&& st.faces.len() % 2 == 0
            &&& st.verts.len() <= 4 * text.len()
        }),
    decreases text.len(),
{
    if text.len() > 0 {
        lemma_layout_run_bounds(cmap, cell, line_distance, fs, text.drop_last());
        let prev = layout_run(cmap, cell, line_distance, fs, text.drop_last());
        let c = text.last();
        let bound: int = LAYOUT_STEP_BOUND as int;
        assert((text.len() - 1) * bound + bound == text.len() * bound) by (nonlinear_arith);
        if c == '\n' {
            lemma_mul_upper_bound(line_distance, 2 * MAX_GLYPH_METRIC, fs, MAX_FONT_SIZE as int);
        } else if cmap.contains_key(c) {
            let m = cmap[c];
            lemma_mul_upper_bound(m.advance as int, MAX_GLYPH_METRIC as int, fs, MAX_FONT_SIZE as int);
        }
    }
}

/// Laying out the empty string emits no geometry and leaves the pen at
/// the origin, so its bounding size is zero wide and — height being
/// `pen y + line distance` — exactly one line distance at the requested
/// scale tall.
pub proof fn lemma_layout_empty(cmap: Map<char, Character>, cell: int, line_distance: int, fs: int)
    ensures
        layout_run(cmap, cell, line_distance, fs, Seq::<char>::empty()) == layout_init(),
        layout_init().verts.len() == 0,
        layout_init().faces.len() == 0,
        layout_init().max_x == 0,
        layout_init().y + line_distance * fs == line_distance * fs,
{
}

/// After a visible character and a newline, the next visible character's
/// quad starts one scaled line distance down, and its left edge is the
/// scaled bearing of that character — the pen having returned to zero.
/// The newline breaks the line whether or not the table holds it. The
/// top-left corner of the second quad is its vertex at index 7.
pub proof fn lemma_layout_second_line_origin(
    cmap: Map<char, Character>,
    cell: int,
    line_distance: int,
    fs: int,
    a: char,
    b: char,
)
    requires
        cmap.contains_key(a),
        cmap.contains_key(b),
        !char_is_whitespace(a),
        !char_is_whitespace(b),
    ensures
        ({
            let st = layout_run(cmap, cell, line_distance, fs, seq![a, '\n', b]);
            &&& st.verts.len() == 8
            &&& st.verts[7].y == line_distance * fs
            &&& st.verts[7].x == cmap[b].bearing_x * fs
        }),
{
    let s0 = Seq::<char>::empty();
    let s1 = seq![a];
    let s2 = seq![a, '\n'];
    let s3 = seq![a, '\n', b];
    assert(s1.drop_last() =~= s0);
    assert(s1.last() == a);
    assert(s2.drop_last() =~= s1);
    assert(s2.last() == '\n');
    assert(s3.drop_last() =~= s2);
    assert(s3.last() == b);
    let t0 = layout_init();
    let t1 = layout_step(t0, cmap, cell, line_distance, fs, a);
    let t2 = layout_step(t1, cmap, cell, line_distance, fs, '\n');
    let t3 = layout_step(t2, cmap, cell, line_distance, fs, b);
    assert(layout_run(cmap, cell, line_distance, fs, s0) == t0);
    assert(layout_run(cmap, cell, line_distance, fs, s1) == t1);
    assert(layout_run(cmap, cell, line_distance, fs, s2) == t2);
    assert(layout_run(cmap, cell, line_distance, fs, s3) == t3);
    assert(t1.verts.len() == 4);
    assert(t2.x == 0 && t2.y == line_distance * fs);
    assert(t3.verts.len() == 8);
    assert(t3.verts[7] == quad_verts(
        t2.x + cmap[b].bearing_x * fs,
        cmap[b].width * fs,
        t2.y,
        cell * fs,
        cmap[b].u_min as int,
        cmap[b].u_max as int,
    )[3]);
}

/// Layout is linear in the requested font size: doubling the size
/// doubles the pen track and every vertex position exactly, emits the
/// same triangles, and leaves texture coordinates unchanged. In
/// particular the bounding size at `2 * fs` is exactly twice the
/// bounding size at `fs`.
pub proof fn lemma_layout_scaling(
    cmap: Map<char, Character>,
    cell: int,
    line_distance: int,
    fs: int,
    text: Seq<char>,
)
    ensures
        ({
            let s1 = layout_run(cmap, cell, line_distance, fs, text);
            let s2 = layout_run(cmap, cell, line_distance, 2 * fs, text);
            &&& s2.x == 2 * s1.x
            &&& s2.y == 2 * s1.y
            &&& s2.max_x == 2 * s1.max_x
            &&& s2.faces == s1.faces
            &&& s2.verts.len() == s1.verts.len()
            &&& forall|k: int|
                0 <= k < s1.verts.len() ==> (#[trigger] s2.verts[k]) == (SpecVertex {
                    x: 2 * s1.verts[k].x,
                    y: 2 * s1.verts[k].y,
                    u: s1.verts[k].u,
                    v: s1.verts[k].v,
                })
        }),
    decreases text.len(),
{
    if text.len() > 0 {
        lemma_layout_scaling(cmap, cell, line_distance, fs, text.drop_last());
        let p1 = layout_run(cmap, cell, line_distance, fs, text.drop_last());
        let p2 = layout_run(cmap, cell, line_distance, 2 * fs, text.drop_last());
        let c = text.last();
        if c == '\n' {
            assert(line_distance * (2 * fs) == 2 * (line_distance * fs)) by (nonlinear_arith);
        } else if cmap.contains_key(c) {
            let m = cmap[c];
            assert(m.bearing_x * (2 * fs) == 2 * (m.bearing_x * fs)) by (nonlinear_arith);
            assert(m.width * (2 * fs) == 2 * (m.width * fs)) by (nonlinear_arith);
            assert(cell * (2 * fs) == 2 * (cell * fs)) by (nonlinear_arith);
            assert(m.advance * (2 * fs) == 2 * (m.advance * fs)) by (nonlinear_arith);
            if !char_is_whitespace(c) {
                assert(p2.verts.len() as int / 4 == p1.verts.len() as int / 4);
                let s1 = layout_run(cmap, cell, line_distance, fs, text);
                let s2 = layout_run(cmap, cell, line_distance, 2 * fs, text);
                assert forall|k: int| 0 <= k < s1.verts.len() implies (#[trigger] s2.verts[k]) == (
                SpecVertex {
                    x: 2 * s1.verts[k].x,
                    y: 2 * s1.verts[k].y,
                    u: s1.verts[k].u,
                    v: s1.verts[k].v,
                }) by {
                    if k < p1.verts.len() {
                        assert(s1.verts[k] == p1.verts[k]);
                        assert(s2.verts[k] == p2.verts[k]);
                    } else {
                        assert(s1.verts[k] == s1.verts[k]);
                    }
                }
            }
        }
    }
}

proof fn lemma_verts_view_push(s: Seq<TextVertex>, t: TextVertex)
    ensures
        verts_view(s.push(t)) == verts_view(s).push(t@),
{
    assert(verts_view(s.push(t)) =~= verts_view(s).push(t@));
}

proof fn lemma_faces_view_push(s: Seq<Face>, t: Face)
    ensures
        faces_view(s.push(t)) == faces_view(s).push(t@),
{
    assert(faces_view(s.push(t)) =~= faces_view(s).push(t@));
}

/// The mutable render state of one on-screen string: the committed text
/// and font size, the font it is laid out against, the sizing mode and
/// anchor used when it is placed, the cached bounding size of the last
/// generated geometry, and the dirty flag.
pub struct TextObject {
    text: String,
    font_size: u32,
    font: Font,
    pub size: Size,
    pub alignment: Alignment,
    must_update: bool,
    internal_size: Extent2,
}

impl TextObject {
    pub closed spec fn spec_text(&self) -> Seq<char> {
        self.text@
    }

    pub closed spec fn spec_font_size(&self) -> u32 {
        self.font_size
    }

    pub closed spec fn spec_font(&self) -> Font {
        self.font
    }

    pub closed spec fn spec_size(&self) -> Size {
        self.size
    }

    pub closed spec fn spec_alignment(&self) -> Alignment {
        self.alignment
    }

    /// Whether a mutation since the last regeneration left the cached
    /// geometry stale.
    pub closed spec fn spec_dirty(&self) -> bool {
        self.must_update
    }

    /// Bounding size of the most recently generated geometry.
    pub closed spec fn spec_internal_size(&self) -> Extent2 {
        self.internal_size
    }

    /// The bounding size layout gives the committed text: rightmost pen
    /// position reached, and one line distance per line.
    pub open spec fn spec_layout_size(&self) -> (int, int) {
        let st = layout_run(
            self.spec_font().char_map(),
            self.spec_font().spec_char_height() as int,
            self.spec_font().spec_line_distance() as int,
            self.spec_font_size() as int,
            self.spec_text(),
        );
        (st.max_x, st.y + self.spec_font().spec_line_distance() * self.spec_font_size())
    }

    /// Validity of the render state: the font is well formed, text and
    /// font size are under the layout caps, and — the cache contract —
    /// whenever the state is clean, the cached size is the bounding size
    /// of the committed text.
    pub open spec fn wf(&self) -> bool {
        &&& self.spec_font().wf()
        &&& self.spec_text().len() <= MAX_TEXT_LEN
        &&& self.spec_font_size() <= MAX_FONT_SIZE
        &&& !self.spec_dirty() ==> (
        self.spec_internal_size().x as int,
        self.spec_internal_size().y as int,
        ) == self.spec_layout_size()
    }

    /// Lays `text` out against `font` at `font_size`: the vertex and face
    /// streams of one quad per visible character, and the bounding size
    /// of the result. A pure function of its arguments.
    pub fn generate_mesh(font: &Font, text: &str, font_size: u32) -> (r: (
        Vec<TextVertex>,
        Vec<Face>,
        Extent2,
    ))
        requires
            font.wf(),
            font_size <= MAX_FONT_SIZE,
            text@.len() <= MAX_TEXT_LEN,
        ensures
            ({
                let st = layout_run(
                    font.char_map(),
                    font.spec_char_height() as int,
                    font.spec_line_distance() as int,
                    font_size as int,
                    text@,
                );
                &&& verts_view(r.0@) == st.verts
                &&& faces_view(r.1@) == st.faces
                &&& r.2.x == st.max_x
                &&& r.2.y == st.y + font.spec_line_distance() * font_size
            }),
    {
        let ghost cmap = font.char_map();
        let cell: u32 = font.get_char_height();
        let line_distance: u32 = font.get_line_distance();
        let fs: i64 = font_size as i64;
        let n: usize = text.unicode_len();
        let mut verts: Vec<TextVertex> = Vec::new();
        let mut faces: Vec<Face> = Vec::new();
        let mut x: i64 = 0;
        let mut y: i64 = 0;
        let mut max_x: i64 = 0;
        let mut i: usize = 0;
        proof {
            assert(map_metrics_bounded(cmap)) by {
                assert forall|c: char| cmap.contains_key(c) implies {
                    let m = #[trigger] cmap[c];
                    m.advance <= MAX_GLYPH_METRIC && -(MAX_GLYPH_METRIC as int) <= m.bearing_x
                        <= MAX_GLYPH_METRIC && m.width <= MAX_GLYPH_METRIC
                } by {
                    assert(crate::font::metrics_ok(cmap[c], font.spec_atlas_width() as int));
                }
            }
        }
        while i < n
            invariant
                font.wf(),
                cmap == font.char_map(),
                map_metrics_bounded(cmap),
                cell == font.spec_char_height(),
                line_distance == font.spec_line_distance(),
                fs == font_size,
                font_size <= MAX_FONT_SIZE,
                n == text@.len(),
                text@.len() <= MAX_TEXT_LEN,
                0 <= i <= n,
                ({
                    let st = layout_run(
                        cmap,
                        cell as int,
                        line_distance as int,
                        fs as int,
                        text@.take(i as int),
                    );
                    &&& verts_view(verts@) == st.verts
                    &&& faces_view(faces@) == st.faces
                    &&& x == st.x
                    &&& y == st.y
                    &&& max_x == st.max_x
                }),
            decreases n - i,
        {
            let ghost st = layout_run(
                cmap,
                cell as int,
                line_distance as int,
                fs as int,
                text@.take(i as int),
            );
            proof {
                lemma_layout_run_bounds(
                    cmap,
                    cell as int,
                    line_distance as int,
                    fs as int,
                    text@.take(i as int),
                );
                lemma_mul_inequality(i as int, MAX_TEXT_LEN as int, LAYOUT_STEP_BOUND as int);
                assert(verts@.len() == st.verts.len());
                assert(faces@.len() == st.faces.len());
            }
            let c = text.get_char(i);
            let ghost st2 = layout_step(
                st,
                cmap,
                cell as int,
                line_distance as int,
                fs as int,
                text@[i as int],
            );
            proof {
                assert(text@.take(i + 1).drop_last() =~= text@.take(i as int));
                assert(text@.take(i + 1).last() == text@[i as int]);
                assert(layout_run(cmap, cell as int, line_distance as int, fs as int, text@.take(i + 1))
                    == st2);
            }
            if c == '\n' {
                proof {
                    lemma_mul_upper_bound(
                        line_distance as int,
                        2 * MAX_GLYPH_METRIC as int,
                        fs as int,
                        MAX_FONT_SIZE as int,
                    );
                }
                x = 0;
                y = y + (line_distance as i64) * fs;
            } else {
                match font.get_character(c) {
                    Some(m_ref) => {
                        let m = *m_ref;
                        proof {
                            assert(crate::font::metrics_ok(cmap[c], font.spec_atlas_width() as int));
                            lemma_scaled_bound(m.bearing_x as int, MAX_GLYPH_METRIC as int, fs as int);
                            lemma_mul_upper_bound(
                                m.width as int,
                                MAX_GLYPH_METRIC as int,
                                fs as int,
                                MAX_FONT_SIZE as int,
                            );
                            lemma_mul_upper_bound(
                                cell as int,
                                MAX_GLYPH_METRIC as int,
                                fs as int,
                                MAX_FONT_SIZE as int,
                            );
                            lemma_mul_upper_bound(
                                m.advance as int,
                                MAX_GLYPH_METRIC as int,
                                fs as int,
                                MAX_FONT_SIZE as int,
                            );
                        }
                        if !is_whitespace_char(c) {
                            let char_x: i64 = x + (m.bearing_x as i64) * fs;
                            let char_w: i64 = (m.width as i64) * fs;
                            let char_h: i64 = (cell as i64) * fs;
                            let q: u32 = (verts.len() / 4) as u32;
                            proof {
                                assert(st.verts.len() <= 4 * text@.take(i as int).len());
                                assert(q == st.verts.len() as int / 4);
                            }
                            let v_tr = TextVertex { x: char_x + char_w, y, u: m.u_max, v: 0 };
                            let v_br = TextVertex { x: char_x + char_w, y: y + char_h, u: m.u_max, v: 1 };
                            let v_bl = TextVertex { x: char_x, y: y + char_h, u: m.u_min, v: 1 };
                            let v_tl = TextVertex { x: char_x, y, u: m.u_min, v: 0 };
                            proof {
                                lemma_verts_view_push(verts@, v_tr);
                                lemma_verts_view_push(verts@.push(v_tr), v_br);
                                lemma_verts_view_push(verts@.push(v_tr).push(v_br), v_bl);
                                lemma_verts_view_push(verts@.push(v_tr).push(v_br).push(v_bl), v_tl);
                            }
                            verts.push(v_tr);
                            verts.push(v_br);
                            verts.push(v_bl);
                            verts.push(v_tl);
                            let f1 = Face { a: 4 * q, b: 4 * q + 1, c: 4 * q + 3 };
                            let f2 = Face { a: 4 * q + 1, b: 4 * q + 2, c: 4 * q + 3 };
                            proof {
                                lemma_faces_view_push(faces@, f1);
                                lemma_faces_view_push(faces@.push(f1), f2);
                            }
                            faces.push(f1);
                            faces.push(f2);
                            proof {
                                assert(verts_view(verts@) =~= st2.verts);
                                assert(faces_view(faces@) =~= st2.faces);
                            }
                        }
                        x = x + (m.advance as i64) * fs;
                        if x > max_x {
                            max_x = x;
                        }
                    },
                    None => {},
                }
            }
            i = i + 1;
        }
        proof {
            assert(text@.take(n as int) =~= text@);
            lemma_layout_run_bounds(cmap, cell as int, line_distance as int, fs as int, text@);
            lemma_mul_inequality(n as int, MAX_TEXT_LEN as int, LAYOUT_STEP_BOUND as int);
            lemma_mul_upper_bound(
                line_distance as int,
                2 * MAX_GLYPH_METRIC as int,
                fs as int,
                MAX_FONT_SIZE as int,
            );
        }
        let bounding = Extent2 { x: max_x, y: y + (line_distance as i64) * fs };
        (verts, faces, bounding)
    }

    /// A render state for `initial_text`, laid out immediately: returns
    /// the state — clean, auto-sized, top-left anchored — together with
    /// the geometry to create its GPU mesh from.
    pub fn new(initial_text: String, font_size: u32, font: Font) -> (r: (
        TextObject,
        Vec<TextVertex>,
        Vec<Face>,
    ))
        requires
            font.wf(),
            font_size <= MAX_FONT_SIZE,
            initial_text@.len() <= MAX_TEXT_LEN,
        ensures
            ({
                let st = layout_run(
                    font.char_map(),
                    font.spec_char_height() as int,
                    font.spec_line_distance() as int,
                    font_size as int,
                    initial_text@,
                );
                &&& r.0.wf()
                &&& r.0.spec_text() == initial_text@
                &&& r.0.spec_font_size() == font_size
                &&& r.0.spec_font() == font
                &&& !r.0.spec_dirty()
                &&& r.0.spec_size() == Size::Auto
                &&& r.0.spec_alignment() == Alignment::TopLeft
                &&& verts_view(r.1@) == st.verts
                &&& faces_view(r.2@) == st.faces
                &&& r.0.spec_internal_size().x == st.max_x
                &&& r.0.spec_internal_size().y == st.y + font.spec_line_distance() * font_size
            }),
    {
        let (verts, faces, bounding) = Self::generate_mesh(&font, initial_text.as_str(), font_size);
        let text_object = TextObject {
            text: initial_text,
            font_size,
            font,
            size: Size::Auto,
            alignment: Alignment::TopLeft,
            must_update: false,
            internal_size: bounding,
        };
        (text_object, verts, faces)
    }

    /// Replaces the sizing mode; a builder used at construction time.
    pub fn with_size(self, size: Size) -> (r: TextObject)
        ensures
            r.spec_size() == size,
            r.spec_alignment() == self.spec_alignment(),
            r.spec_text() == self.spec_text(),
            r.spec_font_size() == self.spec_font_size(),
            r.spec_font() == self.spec_font(),
            r.spec_dirty() == self.spec_dirty(),
            r.spec_internal_size() == self.spec_internal_size(),
            self.wf() ==> r.wf(),
    {
        TextObject { size, ..self }
    }

    /// Replaces the anchor; a builder used at construction time.
    pub fn with_alignment(self, alignment: Alignment) -> (r: TextObject)
        ensures
            r.spec_alignment() == alignment,
            r.spec_size() == self.spec_size(),
            r.spec_text() == self.spec_text(),
            r.spec_font_size() == self.spec_font_size(),
            r.spec_font() == self.spec_font(),
            r.spec_dirty() == self.spec_dirty(),
            r.spec_internal_size() == self.spec_internal_size(),
            self.wf() ==> r.wf(),
    {
        TextObject { alignment, ..self }
    }

    pub fn get_text(&self) -> (r: &str)
        ensures
            r@ == self.spec_text(),
    {
        self.text.as_str()
    }

    /// Commits new text and marks the state dirty; no geometry work
    /// happens until the next [`TextObject::force_update`].
    pub fn set_text(&mut self, text: String)
        requires
            old(self).wf(),
            text@.len() <= MAX_TEXT_LEN,
        ensures
            final(self).wf(),
            final(self).spec_text() == text@,
            final(self).spec_dirty(),
            final(self).spec_font_size() == old(self).spec_font_size(),
            final(self).spec_font() == old(self).spec_font(),
            final(self).spec_size() == old(self).spec_size(),
            final(self).spec_alignment() == old(self).spec_alignment(),
            final(self).spec_internal_size() == old(self).spec_internal_size(),
    {
        self.text = text;
        self.must_update = true;
    }

    pub fn get_font_size(&self) -> (r: u32)
        ensures
            r == self.spec_font_size(),
    {
        self.font_size
    }

    /// Commits a new font size and marks the state dirty; no geometry
    /// work happens until the next [`TextObject::force_update`].
    pub fn set_font_size(&mut self, font_size: u32)
        requires
            old(self).wf(),
            font_size <= MAX_FONT_SIZE,
        ensures
            final(self).wf(),
            final(self).spec_font_size() == font_size,
            final(self).spec_dirty(),
            final(self).spec_text() == old(self).spec_text(),
            final(self).spec_font() == old(self).spec_font(),
            final(self).spec_size() == old(self).spec_size(),
            final(self).spec_alignment() == old(self).spec_alignment(),
            final(self).spec_internal_size() == old(self).spec_internal_size(),
    {
        self.font_size = font_size;
        self.must_update = true;
    }

    pub fn get_font(&self) -> (r: &Font)
        ensures
            *r == self.spec_font(),
    {
        &self.font
    }

    /// Commits a new font and marks the state dirty; no geometry work
    /// happens until the next [`TextObject::force_update`].
    pub fn set_font(&mut self, font: Font)
        requires
            old(self).wf(),
            font.wf(),
        ensures
            final(self).wf(),
            final(self).spec_font() == font,
            final(self).spec_dirty(),
            final(self).spec_text() == old(self).spec_text(),
            final(self).spec_font_size() == old(self).spec_font_size(),
            final(self).spec_size() == old(self).spec_size(),
            final(self).spec_alignment() == old(self).spec_alignment(),
            final(self).spec_internal_size() == old(self).spec_internal_size(),
    {
        self.font = font;
        self.must_update = true;
    }

    /// Regenerates geometry if and only if a mutation left the state
    /// dirty: then the fresh vertex and face streams are returned for the
    /// renderer to push to the GPU mesh, the cached size is refreshed,
    /// and the state is clean. On a clean state this is a no-op, so a
    /// second call without an intervening mutation returns `None`.
    pub fn force_update(&mut self) -> (r: Option<(Vec<TextVertex>, Vec<Face>)>)
        requires
            old(self).wf(),
        ensures
            final(self).wf(),
            !final(self).spec_dirty(),
            final(self).spec_text() == old(self).spec_text(),
            final(self).spec_font_size() == old(self).spec_font_size(),
            final(self).spec_font() == old(self).spec_font(),
            final(self).spec_size() == old(self).spec_size(),
            final(self).spec_alignment() == old(self).spec_alignment(),
            old(self).spec_dirty() ==> match r {
                Some(g) => {
                    let st = layout_run(
                        old(self).spec_font().char_map(),
                        old(self).spec_font().spec_char_height() as int,
                        old(self).spec_font().spec_line_distance() as int,
                        old(self).spec_font_size() as int,
                        old(self).spec_text(),
                    );
                    &&& verts_view(g.0@) == st.verts
                    &&& faces_view(g.1@) == st.faces
                    &&& final(self).spec_internal_size().x == st.max_x
                    &&& final(self).spec_internal_size().y == st.y + old(
                        self,
                    ).spec_font().spec_line_distance() * old(self).spec_font_size()
                },
                None => false,
            },
            !old(self).spec_dirty() ==> r is None && *final(self) == *old(self),
    {
        if self.must_update {
            let (verts, faces, bounding) = Self::generate_mesh(
                &self.font,
                self.text.as_str(),
                self.font_size,
            );
            self.internal_size = bounding;
            self.must_update = false;
            Some((verts, faces))
        } else {
            None
        }
    }

    /// The size this element reports for placement: the cached layout
    /// bounding size under auto sizing, the caller's fixed box under
    /// manual sizing. Neither forces a regeneration.
    pub fn get_size(&self) -> (r: Extent2)
        ensures
            r == (match self.spec_size() {
                Size::Auto => self.spec_internal_size(),
                Size::Manual(s) => s,
            }),
    {
        match self.size {
            Size::Auto => self.internal_size,
            Size::Manual(s) => s,
        }
    }
}

} // verus!
