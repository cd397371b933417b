//! The shared type-erasing handle over any concrete backend.

use vstd::prelude::*;
use vstd::string::StringExecFns;
use std::sync::Arc;
use crate::font::{Font, FontFault, GlyphId, InvalidFont};
use crate::font_ref::FontRef;
use crate::font_vec::FontVec;
use crate::model::FontModel;
use crate::outline::Outline;
use crate::parse::{spec_check, spec_model};

verus! {

/// The closed set of concrete backends a shared handle can wrap: font
/// bytes borrowed for the whole program, or owned outright. Dispatching
/// over the variants keeps every capability call one indirection away
/// from the wrapped backend.
pub enum FontKind {
    /// A borrowed backend over a buffer that outlives every handle.
    Borrowed(FontRef<'static>),
    /// An owned backend.
    Owned(FontVec),
}

impl Font for FontKind {
    closed spec fn model(&self) -> FontModel {
        match self {
            FontKind::Borrowed(f) => f.model(),
            FontKind::Owned(f) => f.model(),
        }
    }

    fn ascent(&self) -> (r: i32) {
        match self {
            FontKind::Borrowed(f) => f.ascent(),
            FontKind::Owned(f) => f.ascent(),
        }
    }

    fn descent(&self) -> (r: i32) {
        match self {
            FontKind::Borrowed(f) => f.descent(),
            FontKind::Owned(f) => f.descent(),
        }
    }

    fn line_gap(&self) -> (r: i32) {
        match self {
            FontKind::Borrowed(f) => f.line_gap(),
            FontKind::Owned(f) => f.line_gap(),
        }
    }

    fn glyph_id(&self, c: char) -> (r: GlyphId) {
        match self {
            FontKind::Borrowed(f) => f.glyph_id(c),
            FontKind::Owned(f) => f.glyph_id(c),
        }
    }

    fn h_advance(&self, id: GlyphId) -> (r: i32) {
        match self {
            FontKind::Borrowed(f) => f.h_advance(id),
            FontKind::Owned(f) => f.h_advance(id),
        }
    }

    fn h_side_bearing(&self, id: GlyphId) -> (r: i32) {
        match self {
            FontKind::Borrowed(f) => f.h_side_bearing(id),
            FontKind::Owned(f) => f.h_side_bearing(id),
        }
    }

    fn kern(&self, first: GlyphId, second: GlyphId) -> (r: i32) {
        match self {
            FontKind::Borrowed(f) => f.kern(first, second),
            FontKind::Owned(f) => f.kern(first, second),
        }
    }

    fn outline(&self, glyph: GlyphId) -> (r: Option<Outline>) {
        match self {
            FontKind::Borrowed(f) => f.outline(glyph),
            FontKind::Owned(f) => f.outline(glyph),
        }
    }

    fn glyph_count(&self) -> (r: usize) {
        match self {
            FontKind::Borrowed(f) => f.glyph_count(),
            FontKind::Owned(f) => f.glyph_count(),
        }
    }
}

/// Relies on `std::sync::Arc::clone`: the result is a new handle to the
/// same allocation, holding the same value; only the atomic reference
/// count changes.
#[verifier::external_body]
fn clone_arc(a: &Arc<FontKind>) -> (r: Arc<FontKind>)
    ensures
        r == *a,
{
    Arc::clone(a)
}

/// A `Font` implementor that wraps one concrete backend in an atomically
/// reference-counted allocation: a cheaply cloneable, type-erasing handle.
/// The wrapped instance is immutable and is dropped only when the last
/// handle referencing it is dropped.
pub struct FontArc(Arc<FontKind>);

impl FontArc {
    /// Moves a concrete backend behind a shared handle, at zero parsing
    /// cost: queries on the handle answer as the backend would.
    pub fn new(font: FontKind) -> (r: FontArc)
        ensures
            r.model() == font.model(),
    {
        FontArc(Arc::new(font))
    }

    /// What inspection shows of a handle: only that it is a font handle.
    /// The wrapped backend's internal structure is deliberately opaque at
    /// this layer.
    pub fn label(&self) -> (r: String)
        ensures
            r@ == "FontArc"@,
    {
        String::from_str("FontArc")
    }

    /// Creates a shared handle from owned data, through the owned backend.
    /// Succeeds exactly when the bytes pass [`spec_check`].
    pub fn try_from_vec(data: Vec<u8>) -> (r: Result<FontArc, InvalidFont>)
        ensures
            r matches Ok(f) ==> spec_check(data@) is Ok && f.model() == spec_model(data@),
            r matches Err(e) ==> spec_check(data@) == Err::<(), FontFault>(e.fault),
            (r is Ok) <==> (spec_check(data@) is Ok),
    {
        match FontVec::try_from_vec(data) {
            Ok(f) => Ok(FontArc::new(FontKind::Owned(f))),
            Err(e) => Err(e),
        }
    }

    /// Creates a shared handle from a byte slice that lives for the whole
    /// program, through the borrowed backend. Succeeds exactly when the
    /// bytes pass [`spec_check`].
    pub fn try_from_slice(data: &'static [u8]) -> (r: Result<FontArc, InvalidFont>)
        ensures
            r matches Ok(f) ==> spec_check(data@) is Ok && f.model() == spec_model(data@),
            r matches Err(e) ==> spec_check(data@) == Err::<(), FontFault>(e.fault),
            (r is Ok) <==> (spec_check(data@) is Ok),
    {
        match FontRef::try_from_slice(data) {
            Ok(f) => Ok(FontArc::new(FontKind::Borrowed(f))),
            Err(e) => Err(e),
        }
    }
}

impl Clone for FontArc {
    /// A clone shares the same backend instance, so both handles denote
    /// the same model and answer every query identically; dropping either
    /// leaves the other valid.
    fn clone(&self) -> (r: FontArc)
        ensures
            r.model() == self.model(),
    {
        FontArc(clone_arc(&self.0))
    }
}

impl From<FontVec> for FontArc {
    /// Converting an owned backend into a shared handle costs no parsing:
    /// the instance moves behind the reference-counted allocation and the
    /// handle answers every query as the backend did.
    fn from(font: FontVec) -> (r: FontArc)
        ensures
            r.model() == font.model(),
    {
        FontArc::new(FontKind::Owned(font))
    }
}

impl vstd::std_specs::convert::FromSpecImpl<FontVec> for FontArc {
    closed spec fn obeys_from_spec() -> bool {
        false
    }

    closed spec fn from_spec(font: FontVec) -> FontArc {
        arbitrary()
    }
}

impl From<FontRef<'static>> for FontArc {
    /// Converting a borrowed backend into a shared handle costs no
    /// parsing: the instance moves behind the reference-counted allocation
    /// and the handle answers every query as the backend did.
    fn from(font: FontRef<'static>) -> (r: FontArc)
        ensures
            r.model() == font.model(),
    {
        FontArc::new(FontKind::Borrowed(font))
    }
}

impl vstd::std_specs::convert::FromSpecImpl<FontRef<'static>> for FontArc {
    closed spec fn obeys_from_spec() -> bool {
        false
    }

    closed spec fn from_spec(font: FontRef<'static>) -> FontArc {
        arbitrary()
    }
}

impl From<Arc<FontKind>> for FontArc {
    /// Adopts a reference-counted backend pointer directly as a shared
    /// handle, without re-wrapping it.
    fn from(font: Arc<FontKind>) -> (r: FontArc)
        ensures
            r.model() == (*font).model(),
    {
        FontArc(font)
    }
}

impl vstd::std_specs::convert::FromSpecImpl<Arc<FontKind>> for FontArc {
    closed spec fn obeys_from_spec() -> bool {
        true
    }

    closed spec fn from_spec(font: Arc<FontKind>) -> FontArc {
        FontArc(font)
    }
}

impl Font for FontArc {
    closed spec fn model(&self) -> FontModel {
        (*self.0).model()
    }

    fn ascent(&self) -> (r: i32) {
        (*self.0).ascent()
    }

    fn descent(&self) -> (r: i32) {
        (*self.0).descent()
    }

    fn line_gap(&self) -> (r: i32) {
        (*self.0).line_gap()
    }

    fn glyph_id(&self, c: char) -> (r: GlyphId) {
        (*self.0).glyph_id(c)
    }

    fn h_advance(&self, id: GlyphId) -> (r: i32) {
        (*self.0).h_advance(id)
    }

    fn h_side_bearing(&self, id: GlyphId) -> (r: i32) {
        (*self.0).h_side_bearing(id)
    }

    fn kern(&self, first: GlyphId, second: GlyphId) -> (r: i32) {
        (*self.0).kern(first, second)
    }

    fn outline(&self, glyph: GlyphId) -> (r: Option<Outline>) {
        (*self.0).outline(glyph)
    }

    fn glyph_count(&self) -> (r: usize) {
        (*self.0).glyph_count()
    }
}

} // verus!
