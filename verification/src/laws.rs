//! The general properties of the abstraction, stated and proved once over
//! the model that every backend's contracts are written against.

use vstd::prelude::*;
use crate::font::Font;
use crate::font_ref::{lemma_borrowed_deterministic, FontRef};
use crate::font_vec::{lemma_owned_deterministic, FontVec};
use crate::model::{lemma_find_code_miss, lemma_find_pair_miss, FontModel};

verus! {

/// Determinism of the owned backend: two instances built from equal bytes
/// answer every query of the capability contract identically.
pub proof fn lemma_owned_rebuild_pure(x: FontVec, y: FontVec, c: char, a: int, b: int, g: int)
    requires
        x.spec_bytes() == y.spec_bytes(),
    ensures
        x.model().ascent == y.model().ascent,
        x.model().descent == y.model().descent,
        x.model().line_gap == y.model().line_gap,
        x.model().glyph_count == y.model().glyph_count,
        x.model().glyph_of(c as int) == y.model().glyph_of(c as int),
        x.model().advance_of(g) == y.model().advance_of(g),
        x.model().bearing_of(g) == y.model().bearing_of(g),
        x.model().kern_of(a, b) == y.model().kern_of(a, b),
        x.model().outline_of(g) == y.model().outline_of(g),
{
    lemma_owned_deterministic(x, y);
}

/// Determinism of the borrowed backend: two instances over equal bytes
/// answer every query of the capability contract identically.
pub proof fn lemma_borrowed_rebuild_pure<'x, 'y>(
    x: FontRef<'x>,
    y: FontRef<'y>,
    c: char,
    a: int,
    b: int,
    g: int,
)
    requires
        x.spec_bytes() == y.spec_bytes(),
    ensures
        x.model().ascent == y.model().ascent,
        x.model().descent == y.model().descent,
        x.model().line_gap == y.model().line_gap,
        x.model().glyph_count == y.model().glyph_count,
        x.model().glyph_of(c as int) == y.model().glyph_of(c as int),
        x.model().advance_of(g) == y.model().advance_of(g),
        x.model().bearing_of(g) == y.model().bearing_of(g),
        x.model().kern_of(a, b) == y.model().kern_of(a, b),
        x.model().outline_of(g) == y.model().outline_of(g),
{
    lemma_borrowed_deterministic(x, y);
}

/// Shared-state equivalence: whatever denotes the same model answers every
/// query identically. With the contracts of `FontArc::new`, the `From`
/// conversions and `Clone` — each of which ensures the result's model is
/// the wrapped or cloned value's — this makes a shared handle, any of its
/// clones, and the backend it wraps interchangeable for every query.
pub proof fn lemma_equal_models_answer_alike(
    m1: FontModel,
    m2: FontModel,
    c: char,
    a: int,
    b: int,
    g: int,
)
    requires
        m1 == m2,
    ensures
        m1.ascent == m2.ascent,
        m1.descent == m2.descent,
        m1.line_gap == m2.line_gap,
        m1.glyph_count == m2.glyph_count,
        m1.glyph_of(c as int) == m2.glyph_of(c as int),
        m1.advance_of(g) == m2.advance_of(g),
        m1.bearing_of(g) == m2.bearing_of(g),
        m1.kern_of(a, b) == m2.kern_of(a, b),
        m1.outline_of(g) == m2.outline_of(g),
{
}

/// A character no character-map entry covers gets the designated fallback
/// glyph id 0 — the lookup is total and never fails.
pub proof fn lemma_unmapped_char_is_fallback(m: FontModel, c: char)
    requires
        forall|j: int| 0 <= j < m.cmap.len() ==> m.cmap[j].0 != c as int,
    ensures
        m.glyph_of(c as int) == 0,
{
    lemma_find_code_miss(m.cmap, c as int);
}

/// A glyph id outside the valid range has no outline: the query yields the
/// empty-result marker, never a failure.
pub proof fn lemma_outline_outside_range_is_absent(m: FontModel, g: int)
    requires
        g < 0 || g >= m.glyph_count,
    ensures
        m.outline_of(g) is None,
{
}

/// An ordered glyph pair no kerning entry covers gets adjustment 0 — the
/// lookup is total and never fails.
pub proof fn lemma_unkerned_pair_is_zero(m: FontModel, a: int, b: int)
    requires
        forall|j: int| 0 <= j < m.kern.len() ==> !(m.kern[j].0 == a && m.kern[j].1 == b),
    ensures
        m.kern_of(a, b) == 0,
{
    lemma_find_pair_miss(m.kern, a, b);
}

} // verus!
