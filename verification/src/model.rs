//! The mathematical model of a loaded font.
//!
//! A [`FontModel`] is what a backend's bytes denote: the font-wide vertical
//! metrics, the character map, the per-glyph horizontal metrics, the kerning
//! pairs and the per-glyph outlines. Every query of the capability contract
//! is specified as a function of this model alone.

use vstd::prelude::*;

verus! {

/// One outline point in font design units.
pub ghost struct PointModel {
    pub x: int,
    pub y: int,
    /// `true` for an on-curve point, `false` for a control point.
    pub on_curve: bool,
}

/// A glyph outline: closed contours, each a sequence of points.
pub type OutlineModel = Seq<Seq<PointModel>>;

/// The denotation of a loaded font.
pub ghost struct FontModel {
    /// Font-wide ascent in design units.
    pub ascent: int,
    /// Font-wide descent in design units, conventionally negative.
    pub descent: int,
    /// Font-wide line gap in design units.
    pub line_gap: int,
    /// Number of glyphs addressable in the font.
    pub glyph_count: int,
    /// Character map: `(unicode scalar value, glyph id)` entries in table order.
    pub cmap: Seq<(int, int)>,
    /// Per-glyph `(horizontal advance, left side bearing)`.
    pub metrics: Seq<(int, int)>,
    /// Kerning entries `(left glyph, right glyph, adjustment)` in table order.
    pub kern: Seq<(int, int, int)>,
    /// Per-glyph outline, `None` where the glyph has no renderable contour.
    pub outlines: Seq<Option<OutlineModel>>,
}

/// Glyph id of the first character-map entry for code `c`, or the fallback
/// id 0 when no entry maps `c`.
pub open spec fn find_code(s: Seq<(int, int)>, c: int) -> int
    decreases s.len(),
{
    if s.len() == 0 {
        0
    } else if s[0].0 == c {
        s[0].1
    } else {
        find_code(s.drop_first(), c)
    }
}

/// Adjustment of the first kerning entry for the ordered pair `(a, b)`, or 0
/// when no entry covers the pair.
pub open spec fn find_pair(s: Seq<(int, int, int)>, a: int, b: int) -> int
    decreases s.len(),
{
    if s.len() == 0 {
        0
    } else if s[0].0 == a && s[0].1 == b {
        s[0].2
    } else {
        find_pair(s.drop_first(), a, b)
    }
}

impl FontModel {
    /// Glyph id for a character: the first matching character-map entry, or
    /// the fallback id 0. Total: defined for every character.
    pub open spec fn glyph_of(self, c: int) -> int {
        find_code(self.cmap, c)
    }

    /// Horizontal advance of a glyph; 0 for an id outside the valid range.
    pub open spec fn advance_of(self, g: int) -> int {
        if 0 <= g < self.glyph_count && g < self.metrics.len() {
            self.metrics[g].0
        } else {
            0
        }
    }

    /// Left side bearing of a glyph; 0 for an id outside the valid range.
    pub open spec fn bearing_of(self, g: int) -> int {
        if 0 <= g < self.glyph_count && g < self.metrics.len() {
            self.metrics[g].1
        } else {
            0
        }
    }

    /// Kerning adjustment for an ordered glyph pair: the first matching
    /// entry, or 0 when the pair has no entry. Total: defined for every pair.
    pub open spec fn kern_of(self, a: int, b: int) -> int {
        find_pair(self.kern, a, b)
    }

    /// Outline of a glyph; `None` for an id outside the valid range and for
    /// a glyph without a renderable contour.
    pub open spec fn outline_of(self, g: int) -> Option<OutlineModel> {
        if 0 <= g < self.glyph_count && g < self.outlines.len() {
            self.outlines[g]
        } else {
            None
        }
    }
}

/// If the first `i` character-map entries miss `c` and entry `i` hits it,
/// the lookup result is entry `i`'s glyph id.
pub proof fn lemma_find_code_hit(s: Seq<(int, int)>, c: int, i: int)
    requires
        0 <= i < s.len(),
        forall|j: int| 0 <= j < i ==> s[j].0 != c,
        s[i].0 == c,
    ensures
        find_code(s, c) == s[i].1,
    decreases i,
{
    if i == 0 {
    } else {
        assert(s[0].0 != c);
        assert(forall|j: int| 0 <= j < i - 1 ==> s.drop_first()[j] == s[j + 1]);
        lemma_find_code_hit(s.drop_first(), c, i - 1);
    }
}

/// If no character-map entry matches `c`, the lookup result is the fallback 0.
pub proof fn lemma_find_code_miss(s: Seq<(int, int)>, c: int)
    requires
        forall|j: int| 0 <= j < s.len() ==> s[j].0 != c,
    ensures
        find_code(s, c) == 0,
    decreases s.len(),
{
    if s.len() == 0 {
    } else {
        assert(forall|j: int| 0 <= j < s.len() - 1 ==> s.drop_first()[j] == s[j + 1]);
        lemma_find_code_miss(s.drop_first(), c);
    }
}

/// If the first `i` kerning entries miss `(a, b)` and entry `i` hits it,
/// the lookup result is entry `i`'s adjustment.
pub proof fn lemma_find_pair_hit(s: Seq<(int, int, int)>, a: int, b: int, i: int)
    requires
        0 <= i < s.len(),
        forall|j: int| 0 <= j < i ==> !(s[j].0 == a && s[j].1 == b),
        s[i].0 == a && s[i].1 == b,
    ensures
        find_pair(s, a, b) == s[i].2,
    decreases i,
{
    if i == 0 {
    } else {
        assert(!(s[0].0 == a && s[0].1 == b));
        assert(forall|j: int| 0 <= j < i - 1 ==> s.drop_first()[j] == s[j + 1]);
        lemma_find_pair_hit(s.drop_first(), a, b, i - 1);
    }
}

/// If no kerning entry matches `(a, b)`, the lookup result is 0.
pub proof fn lemma_find_pair_miss(s: Seq<(int, int, int)>, a: int, b: int)
    requires
        forall|j: int| 0 <= j < s.len() ==> !(s[j].0 == a && s[j].1 == b),
    ensures
        find_pair(s, a, b) == 0,
    decreases s.len(),
{
    if s.len() == 0 {
    } else {
        assert(forall|j: int| 0 <= j < s.len() - 1 ==> s.drop_first()[j] == s[j + 1]);
        lemma_find_pair_miss(s.drop_first(), a, b);
    }
}

} // verus!
