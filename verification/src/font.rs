//! The font capability contract and the types it speaks of.

use vstd::prelude::*;
use crate::model::FontModel;
use crate::outline::{opt_outline, Outline};

verus! {

/// An opaque, backend-assigned identifier for one glyph within a font.
/// Unique within a font; not portable across fonts.
#[derive(Clone, Copy, PartialEq, Eq, Structural, Debug, Hash)]
pub struct GlyphId(pub u16);

impl View for GlyphId {
    type V = int;

    open spec fn view(&self) -> int {
        self.0 as int
    }
}

/// The part of the font bytes that construction could not accept.
#[derive(Clone, Copy, PartialEq, Eq, Structural, Debug)]
pub enum FontFault {
    /// The table directory is truncated or a directory entry points outside
    /// the bytes.
    Directory,
    /// The vertical-metrics table is missing or too short.
    Metrics,
    /// The glyph-count table is missing or too short.
    GlyphCount,
    /// The character-map table is missing or shorter than its entry count.
    CharMap,
    /// The horizontal-metrics table is missing or shorter than one entry
    /// per glyph.
    HMetrics,
    /// A kerning table is present but shorter than its entry count.
    Kerning,
    /// An outline table is present but too short for its offsets.
    Outlines,
}

/// The single construction-time error: the bytes are not a valid font.
/// Raised only when a mandatory table cannot be located or parsed; no query
/// method ever raises it. The fault names the part that was rejected.
#[derive(Clone, Copy, PartialEq, Eq, Structural, Debug)]
pub struct InvalidFont {
    pub fault: FontFault,
}

/// The capability contract every backend implements.
///
/// All query methods are total and pure: they are specified as functions of
/// the backend's model alone, so repeated calls with equal arguments return
/// equal results, and no query can fail. Absent things have designated
/// results: the fallback glyph id 0, a zero adjustment or advance, `None`
/// for a glyph without an outline.
pub trait Font {
    /// The model this backend's bytes denote.
    spec fn model(&self) -> FontModel;

    /// Font-wide ascent in design units.
    fn ascent(&self) -> (r: i32)
        ensures
            r as int == self.model().ascent,
    ;

    /// Font-wide descent in design units, conventionally negative.
    fn descent(&self) -> (r: i32)
        ensures
            r as int == self.model().descent,
    ;

    /// Font-wide line gap in design units.
    fn line_gap(&self) -> (r: i32)
        ensures
            r as int == self.model().line_gap,
    ;

    /// Glyph id for a character; the fallback id 0 when the character is
    /// unmapped. Never fails.
    fn glyph_id(&self, c: char) -> (r: GlyphId)
        ensures
            r@ == self.model().glyph_of(c as int),
    ;

    /// Horizontal advance of a glyph; 0 for an id outside the valid range.
    fn h_advance(&self, id: GlyphId) -> (r: i32)
        ensures
            r as int == self.model().advance_of(id@),
    ;

    /// Left side bearing of a glyph; 0 for an id outside the valid range.
    fn h_side_bearing(&self, id: GlyphId) -> (r: i32)
        ensures
            r as int == self.model().bearing_of(id@),
    ;

    /// Kerning adjustment between an ordered glyph pair; 0 when the pair has
    /// no entry. Never fails.
    fn kern(&self, first: GlyphId, second: GlyphId) -> (r: i32)
        ensures
            r as int == self.model().kern_of(first@, second@),
    ;

    /// The glyph's contour geometry, or `None` for a glyph with no
    /// renderable outline and for an id outside the valid range.
    fn outline(&self, glyph: GlyphId) -> (r: Option<Outline>)
        ensures
            opt_outline(r) == self.model().outline_of(glyph@),
    ;

    /// Number of glyphs addressable in the font.
    fn glyph_count(&self) -> (r: usize)
        ensures
            r as int == self.model().glyph_count,
    ;
}

} // verus!
