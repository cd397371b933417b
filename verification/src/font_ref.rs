//! The borrowed backend: zero-copy over an external byte buffer.

use vstd::prelude::*;
use crate::font::{Font, FontFault, GlyphId, InvalidFont};
use crate::model::FontModel;
use crate::outline::{extract_outline, Outline};
use crate::parse::{build_index, idx_wf, spec_check, spec_model, TableIndex};
use crate::query::{lemma_wf, lookup_advance, lookup_bearing, lookup_glyph, lookup_kern};

verus! {

/// A backend whose font bytes are held by reference, with a lifetime tied
/// to the external buffer. No bytes are copied: beyond the small fixed-size
/// table index built at construction, every query reads the original slice.
pub struct FontRef<'a> {
    data: &'a [u8],
    idx: TableIndex,
}

impl<'a> FontRef<'a> {
    #[verifier::type_invariant]
    spec fn inv(self) -> bool {
        idx_wf(self.idx, self.data@)
    }

    /// The bytes this backend was built from.
    pub closed spec fn spec_bytes(self) -> Seq<u8> {
        self.data@
    }

    /// Validates `data` as a font and builds the borrowed backend over it.
    /// Succeeds exactly when the bytes pass [`spec_check`]; on failure the
    /// error reports the rejected part and no backend exists.
    pub fn try_from_slice(data: &'a [u8]) -> (r: Result<FontRef<'a>, InvalidFont>)
        ensures
            r matches Ok(f) ==> spec_check(data@) is Ok && f.model() == spec_model(data@)
                && f.spec_bytes() == data@,
            r matches Err(e) ==> spec_check(data@) == Err::<(), FontFault>(e.fault),
            (r is Ok) <==> (spec_check(data@) is Ok),
    {
        match build_index(data) {
            Ok(idx) => Ok(FontRef { data, idx }),
            Err(e) => Err(e),
        }
    }
}

/// Two borrowed backends over equal bytes denote the same model, so every
/// query of the capability contract answers identically on both.
pub proof fn lemma_borrowed_deterministic<'a, 'b>(a: FontRef<'a>, b: FontRef<'b>)
    requires
        a.spec_bytes() == b.spec_bytes(),
    ensures
        a.model() == b.model(),
{
}

impl<'a> Font for FontRef<'a> {
    closed spec fn model(&self) -> FontModel {
        spec_model(self.data@)
    }

    fn ascent(&self) -> (r: i32) {
        proof {
            use_type_invariant(&*self);
            lemma_wf(self.idx, self.data@);
        }
        self.idx.ascent
    }

    fn descent(&self) -> (r: i32) {
        proof {
            use_type_invariant(&*self);
            lemma_wf(self.idx, self.data@);
        }
        self.idx.descent
    }

    fn line_gap(&self) -> (r: i32) {
        proof {
            use_type_invariant(&*self);
            lemma_wf(self.idx, self.data@);
        }
        self.idx.line_gap
    }

    fn glyph_id(&self, c: char) -> (r: GlyphId) {
        proof {
            use_type_invariant(&*self);
        }
        GlyphId(lookup_glyph(self.data, &self.idx, c))
    }

    fn h_advance(&self, id: GlyphId) -> (r: i32) {
        proof {
            use_type_invariant(&*self);
        }
        lookup_advance(self.data, &self.idx, id.0) as i32
    }

    fn h_side_bearing(&self, id: GlyphId) -> (r: i32) {
        proof {
            use_type_invariant(&*self);
        }
        lookup_bearing(self.data, &self.idx, id.0)
    }

    fn kern(&self, first: GlyphId, second: GlyphId) -> (r: i32) {
        proof {
            use_type_invariant(&*self);
        }
        lookup_kern(self.data, &self.idx, first.0, second.0)
    }

    fn outline(&self, glyph: GlyphId) -> (r: Option<Outline>) {
        proof {
            use_type_invariant(&*self);
        }
        extract_outline(self.data, &self.idx, glyph.0)
    }

    fn glyph_count(&self) -> (r: usize) {
        proof {
            use_type_invariant(&*self);
            lemma_wf(self.idx, self.data@);
        }
        self.idx.glyph_count as usize
    }
}

} // verus!
