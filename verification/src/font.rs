//! Glyph atlas building and the per-character metrics table.
//!
//! A font rasterizer reports, for every character of a fixed set, its
//! horizontal advance, side bearing, and — when the glyph has ink — the
//! pixel column span it covers once drawn into a single horizontal strip
//! at the reference size. From those plain values this module computes the
//! strip layout and the metrics table, enforcing the build policy: a
//! character without an outline is admitted with empty geometry when it is
//! whitespace and fails the whole build otherwise, and no partial table is
//! ever produced.
//!
//! Texture UV coordinates are kept as atlas pixel columns together with
//! the atlas width; dividing column by width yields the normalized
//! horizontal coordinate. Vertically the atlas is one cell tall, with
//! `v = 0` at the top of the cell and `v = 1` at the bottom.

use vstd::prelude::*;
use crate::texture::Texture;

verus! {

/// The size, in pixels, at which every glyph is rasterized; layout scales
/// metrics by `font_size / REFERENCE_FONT_SIZE`.
pub const REFERENCE_FONT_SIZE: u32 = 32;

/// Empty columns kept between neighbouring glyphs in the atlas strip.
pub const GLYPH_SPACING: u32 = 8;

/// Cap on every individual metric (advance, bearing magnitude, glyph
/// width, cell height, line gap) so that scaled positions cannot overflow.
pub const MAX_GLYPH_METRIC: u32 = 0x10000;

/// Cap on the number of characters in one atlas.
pub const MAX_GLYPH_COUNT: usize = 0x1000;

/// Upper bound on the atlas strip width implied by the two caps above.
pub const MAX_ATLAS_WIDTH: u32 = 0x2000_0000;

/// Why an atlas build failed. No partial atlas accompanies an error.
#[derive(Debug, Clone, Copy, PartialEq, Eq, Structural)]
pub enum FontError {
    /// The rasterizer's report was unusable as a whole: out-of-range
    /// metrics, ink outside the computed strip, or a repeated character.
    FontLoad,
    /// The named non-whitespace character has no renderable outline.
    GlyphMissing(char),
}

/// The pixel column span a glyph's ink covers in the atlas strip, both
/// bounds inclusive.
#[derive(Debug, Clone, Copy, PartialEq, Eq, Structural)]
pub struct GlyphOutline {
    pub min_x: u32,
    pub max_x: u32,
}

/// What the rasterizer reports for one character, positioned at its slot
/// in the atlas strip: pen metrics, and the ink span if the glyph has any.
#[derive(Debug, Clone, Copy, PartialEq, Eq, Structural)]
pub struct GlyphInput {
    pub ch: char,
    pub advance: u32,
    pub bearing_x: i32,
    pub outline: Option<GlyphOutline>,
}

/// Metrics recorded for one character, at reference scale. `u_min` and
/// `u_max` are atlas pixel columns (exclusive on the right); normalizing
/// by the atlas width yields UV coordinates.
#[derive(Debug, Clone, Copy, PartialEq, Eq, Structural)]
pub struct Character {
    pub u_min: u32,
    pub u_max: u32,
    pub width: u32,
    pub bearing_x: i32,
    pub advance: u32,
}

/// One row of the metrics table.
#[derive(Debug, Clone, Copy, PartialEq, Eq, Structural)]
pub struct CharacterEntry {
    pub ch: char,
    pub data: Character,
}

/// The whitespace characters of this crate: the ASCII blanks. A character
/// in this set may lack an outline and still build, receiving empty
/// geometry and its true advance.
pub open spec fn char_is_whitespace(c: char) -> bool {
    c == ' ' || c == '\t' || c == '\n' || c == '\r' || c == '\u{000B}' || c == '\u{000C}'
}

/// Executable twin of [`char_is_whitespace`].
pub fn is_whitespace_char(c: char) -> (r: bool)
    ensures
        r == char_is_whitespace(c),
{
    c == ' ' || c == '\t' || c == '\n' || c == '\r' || c == '\u{000B}' || c == '\u{000C}'
}

/// Width of the atlas strip for the given glyphs: every advance plus one
/// spacing gap per glyph.
pub open spec fn strip_width(glyphs: Seq<GlyphInput>) -> int
    decreases glyphs.len(),
{
    if glyphs.len() == 0 {
        0
    } else {
        strip_width(glyphs.drop_last()) + glyphs.last().advance + GLYPH_SPACING
    }
}

/// Width of the atlas strip given only the advances.
pub open spec fn advance_strip_width(advances: Seq<u32>) -> int
    decreases advances.len(),
{
    if advances.len() == 0 {
        0
    } else {
        advance_strip_width(advances.drop_last()) + advances.last() + GLYPH_SPACING
    }
}

/// Whether one rasterizer report is usable in a strip of width `atlas_w`:
/// metrics under the caps and, if there is ink, the ink inside the strip
/// and no wider than the glyph-metric cap.
pub open spec fn glyph_input_ok(g: GlyphInput, atlas_w: int) -> bool {
    &&& g.advance <= MAX_GLYPH_METRIC
    &&& -(MAX_GLYPH_METRIC as int) <= g.bearing_x <= MAX_GLYPH_METRIC
    &&& (g.outline matches Some(o) ==> o.min_x <= o.max_x && o.max_x + 1 <= atlas_w && o.max_x + 1
        - o.min_x <= MAX_GLYPH_METRIC)
}

/// No character occurs twice in the rasterizer's report.
pub open spec fn distinct_glyph_chars(glyphs: Seq<GlyphInput>) -> bool {
    forall|i: int, j: int|
        0 <= i < j < glyphs.len() ==> (#[trigger] glyphs[i]).ch != (#[trigger] glyphs[j]).ch
}

/// Whether the rasterizer's report as a whole can be loaded; when this
/// fails, the build fails with [`FontError::FontLoad`].
pub open spec fn inputs_loadable(glyphs: Seq<GlyphInput>, char_height: int, line_gap: int) -> bool {
    &&& glyphs.len() <= MAX_GLYPH_COUNT
    &&& 0 <= char_height <= MAX_GLYPH_METRIC
    &&& 0 <= line_gap <= MAX_GLYPH_METRIC
    &&& distinct_glyph_chars(glyphs)
    &&& forall|i: int|
        0 <= i < glyphs.len() ==> glyph_input_ok(#[trigger] glyphs[i], strip_width(glyphs))
}

/// A glyph is renderable when it has ink, or needs none because its
/// character is whitespace.
pub open spec fn glyph_renderable(g: GlyphInput) -> bool {
    g.outline is Some || char_is_whitespace(g.ch)
}

/// Every glyph of the report is renderable; otherwise the build fails
/// with [`FontError::GlyphMissing`].
pub open spec fn all_renderable(glyphs: Seq<GlyphInput>) -> bool {
    forall|i: int| 0 <= i < glyphs.len() ==> glyph_renderable(#[trigger] glyphs[i])
}

/// The character of the first non-renderable glyph, in report order.
pub open spec fn first_missing_char(glyphs: Seq<GlyphInput>) -> char
    decreases glyphs.len(),
{
    if glyphs.len() == 0 {
        arbitrary()
    } else if !glyph_renderable(glyphs.first()) {
        glyphs.first().ch
    } else {
        first_missing_char(glyphs.drop_first())
    }
}

/// The metrics recorded for one glyph: its ink span when it has one, or
/// empty geometry with the true pen metrics when it has none.
pub open spec fn glyph_character(g: GlyphInput) -> Character {
    match g.outline {
        Some(o) => Character {
            u_min: o.min_x,
            u_max: (o.max_x + 1) as u32,
            width: (o.max_x + 1 - o.min_x) as u32,
            bearing_x: g.bearing_x,
            advance: g.advance,
        },
        None => Character { u_min: 0, u_max: 0, width: 0, bearing_x: g.bearing_x, advance: g.advance },
    }
}

/// The metrics table a successful build produces, as a map.
pub open spec fn built_map(glyphs: Seq<GlyphInput>) -> Map<char, Character>
    decreases glyphs.len(),
{
    if glyphs.len() == 0 {
        Map::empty()
    } else {
        built_map(glyphs.drop_last()).insert(glyphs.last().ch, glyph_character(glyphs.last()))
    }
}

/// The table rows as a map from character to metrics, later rows winning;
/// with distinct characters every row is present.
pub open spec fn entries_to_map(s: Seq<CharacterEntry>) -> Map<char, Character>
    decreases s.len(),
{
    if s.len() == 0 {
        Map::empty()
    } else {
        entries_to_map(s.drop_last()).insert(s.last().ch, s.last().data)
    }
}

/// No character occurs twice among the table rows.
pub open spec fn distinct_entry_chars(s: Seq<CharacterEntry>) -> bool {
    forall|i: int, j: int| 0 <= i < j < s.len() ==> (#[trigger] s[i]).ch != (#[trigger] s[j]).ch
}

/// Bounds every metric of one table row must respect in an atlas of width
/// `atlas_w`.
pub open spec fn metrics_ok(m: Character, atlas_w: int) -> bool {
    &&& m.advance <= MAX_GLYPH_METRIC
    &&& -(MAX_GLYPH_METRIC as int) <= m.bearing_x <= MAX_GLYPH_METRIC
    &&& m.width <= MAX_GLYPH_METRIC
    &&& m.u_min <= m.u_max <= atlas_w
}

/// With distinct characters, the row map holds exactly the rows: every
/// row's character maps to its metrics, and nothing else is in the map.
pub proof fn lemma_entries_to_map_props(s: Seq<CharacterEntry>)
    requires
        distinct_entry_chars(s),
    ensures
        forall|k: int|
            0 <= k < s.len() ==> entries_to_map(s).contains_key((#[trigger] s[k]).ch)
                && entries_to_map(s)[s[k].ch] == s[k].data,
        forall|c: char|
            entries_to_map(s).contains_key(c) ==> exists|k: int|
                0 <= k < s.len() && (#[trigger] s[k]).ch == c,
    decreases s.len(),
{
    if s.len() > 0 {
        let sub = s.drop_last();
        assert(distinct_entry_chars(sub)) by {
            assert(forall|i: int, j: int|
                0 <= i < j < sub.len() ==> (#[trigger] sub[i]).ch != (#[trigger] sub[j]).ch) by {
                assert(forall|i: int| 0 <= i < sub.len() ==> sub[i] == s[i]);
            }
        }
        lemma_entries_to_map_props(sub);
        assert forall|k: int| 0 <= k < s.len() implies entries_to_map(s).contains_key(
            (#[trigger] s[k]).ch,
        ) && entries_to_map(s)[s[k].ch] == s[k].data by {
            if k < s.len() - 1 {
                assert(sub[k] == s[k]);
                assert(s[k].ch != s.last().ch);
            }
        }
        assert forall|c: char| entries_to_map(s).contains_key(c) implies exists|k: int|
            0 <= k < s.len() && (#[trigger] s[k]).ch == c by {
            if c == s.last().ch {
                assert(s[s.len() - 1].ch == c);
            } else {
                assert(entries_to_map(sub).contains_key(c));
                let k = choose|k: int| 0 <= k < sub.len() && (#[trigger] sub[k]).ch == c;
                assert(s[k].ch == c);
            }
        }
    }
}

/// The metrics table of a build holds exactly the characters of the
/// rasterizer's report: no omissions and nothing else. Together with
/// distinctness of the report this is one entry per character of the set.
pub proof fn lemma_built_map_domain(glyphs: Seq<GlyphInput>)
    ensures
        forall|c: char|
            #[trigger] built_map(glyphs).contains_key(c) <==> exists|i: int|
                0 <= i < glyphs.len() && (#[trigger] glyphs[i]).ch == c,
    decreases glyphs.len(),
{
    if glyphs.len() > 0 {
        let sub = glyphs.drop_last();
        lemma_built_map_domain(sub);
        assert forall|c: char| #[trigger] built_map(glyphs).contains_key(c) implies exists|i: int|
            0 <= i < glyphs.len() && (#[trigger] glyphs[i]).ch == c by {
            if c == glyphs.last().ch {
                assert(glyphs[glyphs.len() - 1].ch == c);
            } else {
                assert(built_map(sub).contains_key(c));
                let i = choose|i: int| 0 <= i < sub.len() && (#[trigger] sub[i]).ch == c;
                assert(glyphs[i].ch == c);
            }
        }
        assert forall|c: char|
            exists|i: int|
                0 <= i < glyphs.len() && (#[trigger] glyphs[i]).ch
                    == c implies #[trigger] built_map(glyphs).contains_key(c) by {
            let i = choose|i: int| 0 <= i < glyphs.len() && (#[trigger] glyphs[i]).ch == c;
            if i < glyphs.len() - 1 {
                assert(sub[i].ch == c);
                assert(built_map(sub).contains_key(c));
            }
        }
    }
}

/// Places each glyph in the atlas strip: glyph `i` starts at the summed
/// width of the glyphs before it. Returns the slot positions and the
/// total strip width, or `None` when the report exceeds the caps on glyph
/// count or advance.
pub fn glyph_positions(advances: &Vec<u32>) -> (r: Option<(Vec<u32>, u32)>)
    ensures
        match r {
            Some(p) => {
                &&& advances@.len() <= MAX_GLYPH_COUNT
                &&& forall|i: int| 0 <= i < advances@.len() ==> #[trigger] advances@[i] <= MAX_GLYPH_METRIC
                &&& p.0@.len() == advances@.len()
                &&& forall|i: int|
                    0 <= i < advances@.len() ==> #[trigger] p.0@[i] == advance_strip_width(
                        advances@.take(i),
                    )
                &&& p.1 == advance_strip_width(advances@)
                &&& p.1 <= MAX_ATLAS_WIDTH
            },
            None => advances@.len() > MAX_GLYPH_COUNT || exists|i: int|
                0 <= i < advances@.len() && #[trigger] advances@[i] > MAX_GLYPH_METRIC,
        },
{
    if advances.len() > MAX_GLYPH_COUNT {
        return None;
    }
    let mut positions: Vec<u32> = Vec::new();
    let mut total: u32 = 0;
    let mut i: usize = 0;
    while i < advances.len()
        invariant
            0 <= i <= advances@.len(),
            advances@.len() <= MAX_GLYPH_COUNT,
            positions@.len() == i,
            total == advance_strip_width(advances@.take(i as int)),
            total <= i * ((MAX_GLYPH_METRIC + GLYPH_SPACING) as int),
            forall|j: int| 0 <= j < i ==> #[trigger] advances@[j] <= MAX_GLYPH_METRIC,
            forall|j: int|
                0 <= j < i ==> #[trigger] positions@[j] == advance_strip_width(
                    advances@.take(j),
                ),
        decreases advances@.len() - i,
    {
        let a = advances[i];
        if a > MAX_GLYPH_METRIC {
            return None;
        }
        positions.push(total);
        proof {
            assert(advances@.take(i + 1).drop_last() =~= advances@.take(i as int));
            assert(advances@.take(i + 1).last() == advances@[i as int]);
            let k: int = (MAX_GLYPH_METRIC + GLYPH_SPACING) as int;
            assert(((i as int) + 1) * k == (i as int) * k + k) by (nonlinear_arith);
            vstd::arithmetic::mul::lemma_mul_inequality((i as int) + 1, MAX_GLYPH_COUNT as int, k);
        }
        total = total + a + GLYPH_SPACING;
        i = i + 1;
    }
    proof {
        assert(advances@.take(advances@.len() as int) =~= advances@);
        vstd::arithmetic::mul::lemma_mul_inequality(
            advances@.len() as int,
            MAX_GLYPH_COUNT as int,
            (MAX_GLYPH_METRIC + GLYPH_SPACING) as int,
        );
    }
    Some((positions, total))
}

/// If the first `i` glyphs are renderable and glyph `i` is not, then
/// glyph `i` is the first non-renderable one.
proof fn lemma_first_missing_at(glyphs: Seq<GlyphInput>, i: int)
    requires
        0 <= i < glyphs.len(),
        forall|j: int| 0 <= j < i ==> glyph_renderable(#[trigger] glyphs[j]),
        !glyph_renderable(glyphs[i]),
    ensures
        first_missing_char(glyphs) == glyphs[i].ch,
        !all_renderable(glyphs),
    decreases i,
{
    if i == 0 {
    } else {
        let sub = glyphs.drop_first();
        assert(forall|j: int| 0 <= j < i - 1 ==> #[trigger] sub[j] == glyphs[j + 1]);
        assert(sub[i - 1] == glyphs[i]);
        lemma_first_missing_at(sub, i - 1);
    }
}

/// A font atlas: the texture the glyph strip was uploaded to, the metrics
/// table, and the vertical metrics shared by all glyphs.
#[derive(Debug)]
pub struct Font {
    font_texture: Texture,
    character_map: Vec<CharacterEntry>,
    atlas_width: u32,
    char_height: u32,
    line_distance: u32,
}

impl Font {
    /// The rows of the metrics table, in build order.
    pub closed spec fn spec_entries(&self) -> Seq<CharacterEntry> {
        self.character_map@
    }

    /// The metrics table as a map from character to metrics.
    pub open spec fn char_map(&self) -> Map<char, Character> {
        entries_to_map(self.spec_entries())
    }

    pub closed spec fn spec_atlas_width(&self) -> u32 {
        self.atlas_width
    }

    /// Height of the atlas cell, which is also the height every glyph
    /// quad is laid out with.
    pub closed spec fn spec_char_height(&self) -> u32 {
        self.char_height
    }

    /// Vertical pen movement between successive lines, at reference scale.
    pub closed spec fn spec_line_distance(&self) -> u32 {
        self.line_distance
    }

    pub closed spec fn spec_texture(&self) -> Texture {
        self.font_texture
    }

    /// Well-formedness of a built atlas: distinct rows, every metric
    /// within bounds both row-wise and through the map, and the shared
    /// dimensions under their caps.
    pub open spec fn wf(&self) -> bool {
        &&& distinct_entry_chars(self.spec_entries())
        &&& forall|i: int|
            0 <= i < self.spec_entries().len() ==> metrics_ok(
                (#[trigger] self.spec_entries()[i]).data,
                self.spec_atlas_width() as int,
            )
        &&& forall|c: char|
            self.char_map().contains_key(c) ==> metrics_ok(
                #[trigger] self.char_map()[c],
                self.spec_atlas_width() as int,
            )
        &&& self.spec_char_height() <= MAX_GLYPH_METRIC
        &&& self.spec_line_distance() <= 2 * MAX_GLYPH_METRIC
        &&& self.spec_atlas_width() <= MAX_ATLAS_WIDTH
    }

    /// Builds the metrics table from the rasterizer's report, checking the
    /// whole report first: an unusable report fails with `FontLoad`, and
    /// otherwise a non-whitespace character without ink fails with
    /// `GlyphMissing` naming the first such character. On success the
    /// table holds exactly one row per reported character, in report
    /// order, and the atlas dimensions are recorded. No partial atlas is
    /// produced on failure.
    pub fn build(
        glyphs: &Vec<GlyphInput>,
        char_height: u32,
        line_gap: u32,
        font_texture: Texture,
    ) -> (r: Result<Font, FontError>)
        ensures
            r is Ok <==> inputs_loadable(glyphs@, char_height as int, line_gap as int)
                && all_renderable(glyphs@),
            match r {
                Ok(f) => {
                    &&& f.wf()
                    &&& f.char_map() == built_map(glyphs@)
                    &&& f.spec_entries().len() == glyphs@.len()
                    &&& forall|i: int|
                        0 <= i < glyphs@.len() ==> (#[trigger] f.spec_entries()[i]) == (
                        CharacterEntry {
                            ch: glyphs@[i].ch,
                            data: glyph_character(glyphs@[i]),
                        })
                    &&& f.spec_atlas_width() == strip_width(glyphs@)
                    &&& f.spec_char_height() == char_height
                    &&& f.spec_line_distance() == char_height + line_gap
                    &&& f.spec_texture() == font_texture
                },
                Err(FontError::FontLoad) => !inputs_loadable(
                    glyphs@,
                    char_height as int,
                    line_gap as int,
                ),
                Err(FontError::GlyphMissing(c)) => {
                    &&& inputs_loadable(glyphs@, char_height as int, line_gap as int)
                    &&& !all_renderable(glyphs@)
                    &&& c == first_missing_char(glyphs@)
                },
            },
    {
        if glyphs.len() > MAX_GLYPH_COUNT || char_height > MAX_GLYPH_METRIC || line_gap
            > MAX_GLYPH_METRIC {
            return Err(FontError::FontLoad);
        }
        // Strip width and per-glyph pen-metric caps.
        let mut total: u32 = 0;
        let mut i: usize = 0;
        while i < glyphs.len()
            invariant
                0 <= i <= glyphs@.len(),
                glyphs@.len() <= MAX_GLYPH_COUNT,
                total == strip_width(glyphs@.take(i as int)),
                total <= i * ((MAX_GLYPH_METRIC + GLYPH_SPACING) as int),
                forall|j: int|
                    0 <= j < i ==> (#[trigger] glyphs@[j]).advance <= MAX_GLYPH_METRIC && -(
                    MAX_GLYPH_METRIC as int) <= glyphs@[j].bearing_x <= MAX_GLYPH_METRIC,
            decreases glyphs@.len() - i,
        {
            let g = &glyphs[i];
            if g.advance > MAX_GLYPH_METRIC || g.bearing_x > MAX_GLYPH_METRIC as i32
                || g.bearing_x < -(MAX_GLYPH_METRIC as i32) {
                return Err(FontError::FontLoad);
            }
            proof {
                assert(glyphs@.take(i + 1).drop_last() =~= glyphs@.take(i as int));
                assert(glyphs@.take(i + 1).last() == glyphs@[i as int]);
                let k: int = (MAX_GLYPH_METRIC + GLYPH_SPACING) as int;
                assert(((i as int) + 1) * k == (i as int) * k + k) by (nonlinear_arith);
                vstd::arithmetic::mul::lemma_mul_inequality(
                    (i as int) + 1,
                    MAX_GLYPH_COUNT as int,
                    k,
                );
            }
            total = total + g.advance + GLYPH_SPACING;
            i = i + 1;
        }
        proof {
            assert(glyphs@.take(glyphs@.len() as int) =~= glyphs@);
            vstd::arithmetic::mul::lemma_mul_inequality(
                glyphs@.len() as int,
                MAX_GLYPH_COUNT as int,
                (MAX_GLYPH_METRIC + GLYPH_SPACING) as int,
            );
        }
        // Ink spans must lie inside the strip and fit a cell.
        let mut i: usize = 0;
        while i < glyphs.len()
            invariant
                0 <= i <= glyphs@.len(),
                total == strip_width(glyphs@),
                forall|j: int|
                    0 <= j < glyphs@.len() ==> (#[trigger] glyphs@[j]).advance <= MAX_GLYPH_METRIC
                        && -(MAX_GLYPH_METRIC as int) <= glyphs@[j].bearing_x <= MAX_GLYPH_METRIC,
                forall|j: int|
                    0 <= j < i ==> glyph_input_ok(#[trigger] glyphs@[j], strip_width(glyphs@)),
            decreases glyphs@.len() - i,
        {
            let g = &glyphs[i];
            match g.outline {
                Some(o) => {
                    if o.min_x > o.max_x || o.max_x >= total || o.max_x + 1 - o.min_x
                        > MAX_GLYPH_METRIC {
                        return Err(FontError::FontLoad);
                    }
                },
                None => {},
            }
            i = i + 1;
        }
        // No character may occur twice.
        let mut i: usize = 0;
        while i < glyphs.len()
            invariant
                0 <= i <= glyphs@.len(),
                forall|a: int, b: int|
                    0 <= a < b < i ==> (#[trigger] glyphs@[a]).ch != (#[trigger] glyphs@[b]).ch,
            decreases glyphs@.len() - i,
        {
            let mut j: usize = 0;
            while j < i
                invariant
                    0 <= j <= i < glyphs@.len(),
                    forall|a: int| 0 <= a < j ==> (#[trigger] glyphs@[a]).ch != glyphs@[i as int].ch,
                decreases i - j,
            {
                if glyphs[j].ch == glyphs[i].ch {
                    return Err(FontError::FontLoad);
                }
                j = j + 1;
            }
            i = i + 1;
        }
        assert(inputs_loadable(glyphs@, char_height as int, line_gap as int));
        // Every non-whitespace character must have ink.
        let mut i: usize = 0;
        while i < glyphs.len()
            invariant
                0 <= i <= glyphs@.len(),
                inputs_loadable(glyphs@, char_height as int, line_gap as int),
                forall|j: int| 0 <= j < i ==> glyph_renderable(#[trigger] glyphs@[j]),
            decreases glyphs@.len() - i,
        {
            let g = &glyphs[i];
            if g.outline.is_none() && !is_whitespace_char(g.ch) {
                proof {
                    lemma_first_missing_at(glyphs@, i as int);
                }
                return Err(FontError::GlyphMissing(g.ch));
            }
            i = i + 1;
        }
        assert(all_renderable(glyphs@));
        // The checks passed: record one row per glyph.
        let mut entries: Vec<CharacterEntry> = Vec::new();
        let mut i: usize = 0;
        while i < glyphs.len()
            invariant
                0 <= i <= glyphs@.len(),
                total == strip_width(glyphs@),
                forall|j: int|
                    0 <= j < glyphs@.len() ==> glyph_input_ok(
                        #[trigger] glyphs@[j],
                        strip_width(glyphs@),
                    ),
                entries@.len() == i,
                forall|j: int|
                    0 <= j < i ==> (#[trigger] entries@[j]) == (CharacterEntry {
                        ch: glyphs@[j].ch,
                        data: glyph_character(glyphs@[j]),
                    }),
                entries_to_map(entries@) == built_map(glyphs@.take(i as int)),
            decreases glyphs@.len() - i,
        {
            let g = &glyphs[i];
            let data = match g.outline {
                Some(o) => Character {
                    u_min: o.min_x,
                    u_max: o.max_x + 1,
                    width: o.max_x + 1 - o.min_x,
                    bearing_x: g.bearing_x,
                    advance: g.advance,
                },
                None => Character {
                    u_min: 0,
                    u_max: 0,
                    width: 0,
                    bearing_x: g.bearing_x,
                    advance: g.advance,
                },
            };
            let ghost old_entries = entries@;
            entries.push(CharacterEntry { ch: g.ch, data });
            proof {
                assert(entries@.drop_last() =~= old_entries);
                assert(glyphs@.take(i + 1).drop_last() =~= glyphs@.take(i as int));
                assert(glyphs@.take(i + 1).last() == glyphs@[i as int]);
            }
            i = i + 1;
        }
        proof {
            assert(glyphs@.take(glyphs@.len() as int) =~= glyphs@);
        }
        let font = Font {
            font_texture,
            character_map: entries,
            atlas_width: total,
            char_height,
            line_distance: char_height + line_gap,
        };
        proof {
            assert(distinct_entry_chars(font.spec_entries()));
            lemma_entries_to_map_props(font.spec_entries());
            assert forall|c: char| font.char_map().contains_key(c) implies metrics_ok(
                #[trigger] font.char_map()[c],
                font.spec_atlas_width() as int,
            ) by {
                let k = choose|k: int|
                    0 <= k < font.spec_entries().len() && (#[trigger] font.spec_entries()[k]).ch
                        == c;
                assert(font.char_map()[c] == font.spec_entries()[k].data);
            }
        }
        Ok(font)
    }

    /// The metrics recorded for `c`, or `None` when `c` is not in the
    /// character set this atlas was built over.
    pub fn get_character(&self, c: char) -> (r: Option<&Character>)
        requires
            self.wf(),
        ensures
            match r {
                Some(m) => self.char_map().contains_key(c) && *m == self.char_map()[c],
                None => !self.char_map().contains_key(c),
            },
    {
        proof {
            lemma_entries_to_map_props(self.spec_entries());
        }
        let mut i: usize = 0;
        while i < self.character_map.len()
            invariant
                self.wf(),
                0 <= i <= self.spec_entries().len(),
                forall|j: int| 0 <= j < i ==> (#[trigger] self.spec_entries()[j]).ch != c,
                forall|k: int|
                    0 <= k < self.spec_entries().len() ==> self.char_map().contains_key(
                        (#[trigger] self.spec_entries()[k]).ch,
                    ) && self.char_map()[self.spec_entries()[k].ch] == self.spec_entries()[k].data,
                forall|d: char|
                    self.char_map().contains_key(d) ==> exists|k: int|
                        0 <= k < self.spec_entries().len() && (#[trigger] self.spec_entries()[k]).ch
                            == d,
            decreases self.spec_entries().len() - i,
        {
            if self.character_map[i].ch == c {
                return Some(&self.character_map[i].data);
            }
            i = i + 1;
        }
        None
    }

    /// The rows of the metrics table, in build order.
    pub fn get_character_map(&self) -> (r: &Vec<CharacterEntry>)
        ensures
            r@ == self.spec_entries(),
    {
        &self.character_map
    }

    pub fn get_texture(&self) -> (r: &Texture)
        ensures
            *r == self.spec_texture(),
    {
        &self.font_texture
    }

    pub fn get_atlas_width(&self) -> (r: u32)
        ensures
            r == self.spec_atlas_width(),
    {
        self.atlas_width
    }

    pub fn get_char_height(&self) -> (r: u32)
        ensures
            r == self.spec_char_height(),
    {
        self.char_height
    }

    pub fn get_line_distance(&self) -> (r: u32)
        ensures
            r == self.spec_line_distance(),
    {
        self.line_distance
    }

    /// The reference size glyphs are rasterized at; layout divides the
    /// requested font size by this.
    pub fn default_font_size() -> (r: u32)
        ensures
            r == REFERENCE_FONT_SIZE,
    {
        REFERENCE_FONT_SIZE
    }

    /// The spacing kept between glyph slots in the atlas strip.
    pub fn default_spacing() -> (r: u32)
        ensures
            r == GLYPH_SPACING,
    {
        GLYPH_SPACING
    }
}

} // verus!
