//! Shared query logic: both backends answer every query by reading their
//! bytes through these functions, against the model the bytes denote.

use vstd::prelude::*;
use crate::bytes::{read_i16, read_u16, read_u32};
use crate::model::{
    lemma_find_code_hit, lemma_find_code_miss, lemma_find_pair_hit, lemma_find_pair_miss,
    FontModel,
};
use crate::parse::{
    cmap_total, dir_ok, glyph_total, has_tbl, idx_wf, index_of, kern_total, lemma_table_bounds,
    spec_model, tbl_len, tbl_off, TableIndex, TAG_CHAR_MAP, TAG_GLYPH_COUNT, TAG_H_METRICS,
    TAG_KERNING, TAG_METRICS, TAG_OUTLINES,
};

verus! {

/// What a well-formed index gives every query: the index fields name the
/// tables the bytes locate, and the located tables lie inside the bytes.
pub(crate) proof fn lemma_wf(idx: TableIndex, d: Seq<u8>)
    requires
        idx_wf(idx, d),
    ensures
        dir_ok(d),
        idx.ascent as int == spec_model(d).ascent,
        idx.descent as int == spec_model(d).descent,
        idx.line_gap as int == spec_model(d).line_gap,
        idx.glyph_count as int == glyph_total(d),
        idx.cmap_off as int == tbl_off(d, TAG_CHAR_MAP as int),
        idx.cmap_count as int == cmap_total(d),
        idx.cmap_off + 2 + 6 * (idx.cmap_count as int) <= d.len(),
        idx.hmtx_off as int == tbl_off(d, TAG_H_METRICS as int),
        idx.hmtx_off + 4 * (idx.glyph_count as int) <= d.len(),
        idx.has_kern == has_tbl(d, TAG_KERNING as int),
        idx.has_kern ==> idx.kern_off as int == tbl_off(d, TAG_KERNING as int),
        idx.has_kern ==> idx.kern_count as int == kern_total(d),
        idx.has_kern ==> idx.kern_off + 2 + 6 * (idx.kern_count as int) <= d.len(),
        idx.has_outl == has_tbl(d, TAG_OUTLINES as int),
        idx.has_outl ==> idx.outl_off as int == tbl_off(d, TAG_OUTLINES as int),
        idx.has_outl ==> idx.outl_len as int == tbl_len(d, TAG_OUTLINES as int),
        idx.has_outl ==> idx.outl_off + idx.outl_len <= d.len(),
        idx.has_outl ==> 4 * (idx.glyph_count as int + 1) <= idx.outl_len as int,
        spec_model(d).cmap.len() == idx.cmap_count as int,
        spec_model(d).metrics.len() == idx.glyph_count as int,
        spec_model(d).glyph_count == idx.glyph_count as int,
        !idx.has_kern ==> spec_model(d).kern.len() == 0,
        idx.has_kern ==> spec_model(d).kern.len() == idx.kern_count as int,
{
    assert(idx == index_of(d));
    lemma_table_bounds(d, TAG_METRICS as int);
    lemma_table_bounds(d, TAG_GLYPH_COUNT as int);
    lemma_table_bounds(d, TAG_CHAR_MAP as int);
    lemma_table_bounds(d, TAG_H_METRICS as int);
    if has_tbl(d, TAG_KERNING as int) {
        lemma_table_bounds(d, TAG_KERNING as int);
    }
    if has_tbl(d, TAG_OUTLINES as int) {
        lemma_table_bounds(d, TAG_OUTLINES as int);
    }
}

/// Character-map lookup: the first entry for `c`, or the fallback id 0.
pub(crate) fn lookup_glyph(d: &[u8], idx: &TableIndex, c: char) -> (r: u16)
    requires
        idx_wf(*idx, d@),
    ensures
        r as int == spec_model(d@).glyph_of(c as int),
{
    proof {
        lemma_wf(*idx, d@);
    }
    let n_bytes: usize = d.len();
    let ghost m = spec_model(d@);
    let cu = c as u32;
    let mut i: usize = 0;
    while i < idx.cmap_count as usize
        invariant
            idx_wf(*idx, d@),
            n_bytes == d@.len(),
            idx.cmap_off + 2 + 6 * (idx.cmap_count as int) <= n_bytes,
            m == spec_model(d@),
            m.cmap.len() == idx.cmap_count as int,
            i <= idx.cmap_count as usize,
            cu as int == c as int,
            forall|k: int| 0 <= k < i ==> m.cmap[k].0 != c as int,
        decreases idx.cmap_count as int - i as int,
    {
        let code = read_u32(d, idx.cmap_off + 2 + 6 * i);
        if code == cu {
            let g = read_u16(d, idx.cmap_off + 2 + 6 * i + 4);
            proof {
                assert(m.cmap[i as int] == (code as int, g as int));
                lemma_find_code_hit(m.cmap, c as int, i as int);
            }
            return g;
        }
        proof {
            assert(m.cmap[i as int].0 != c as int);
        }
        i += 1;
    }
    proof {
        lemma_find_code_miss(m.cmap, c as int);
    }
    0
}

/// Horizontal advance of a glyph; 0 for an id outside the valid range.
pub(crate) fn lookup_advance(d: &[u8], idx: &TableIndex, gid: u16) -> (r: u16)
    requires
        idx_wf(*idx, d@),
    ensures
        r as int == spec_model(d@).advance_of(gid as int),
{
    proof {
        lemma_wf(*idx, d@);
    }
    // Binding the runtime length bounds the read offsets by `usize::MAX`.
    let n_bytes: usize = d.len();
    if gid < idx.glyph_count {
        let r = read_u16(d, idx.hmtx_off + 4 * (gid as usize));
        proof {
            assert(spec_model(d@).metrics[gid as int].0 == r as int);
        }
        r
    } else {
        0
    }
}

/// Left side bearing of a glyph; 0 for an id outside the valid range.
pub(crate) fn lookup_bearing(d: &[u8], idx: &TableIndex, gid: u16) -> (r: i32)
    requires
        idx_wf(*idx, d@),
    ensures
        r as int == spec_model(d@).bearing_of(gid as int),
{
    proof {
        lemma_wf(*idx, d@);
    }
    // Binding the runtime length bounds the read offsets by `usize::MAX`.
    let n_bytes: usize = d.len();
    if gid < idx.glyph_count {
        let r = read_i16(d, idx.hmtx_off + 4 * (gid as usize) + 2);
        proof {
            assert(spec_model(d@).metrics[gid as int].1 == r as int);
        }
        r
    } else {
        0
    }
}

/// Kerning lookup: the first entry for the ordered pair `(a, b)`, or 0.
pub(crate) fn lookup_kern(d: &[u8], idx: &TableIndex, a: u16, b: u16) -> (r: i32)
    requires
        idx_wf(*idx, d@),
    ensures
        r as int == spec_model(d@).kern_of(a as int, b as int),
{
    proof {
        lemma_wf(*idx, d@);
    }
    let n_bytes: usize = d.len();
    let ghost m = spec_model(d@);
    if !idx.has_kern {
        proof {
            lemma_find_pair_miss(m.kern, a as int, b as int);
        }
        return 0;
    }
    let mut i: usize = 0;
    while i < idx.kern_count as usize
        invariant
            idx_wf(*idx, d@),
            n_bytes == d@.len(),
            idx.has_kern,
            idx.kern_off + 2 + 6 * (idx.kern_count as int) <= n_bytes,
            m == spec_model(d@),
            m.kern.len() == idx.kern_count as int,
            i <= idx.kern_count as usize,
            forall|k: int| 0 <= k < i ==> !(m.kern[k].0 == a as int && m.kern[k].1 == b as int),
        decreases idx.kern_count as int - i as int,
    {
        let left = read_u16(d, idx.kern_off + 2 + 6 * i);
        let right = read_u16(d, idx.kern_off + 2 + 6 * i + 2);
        if left == a && right == b {
            let v = read_i16(d, idx.kern_off + 2 + 6 * i + 4);
            proof {
                assert(m.kern[i as int] == (left as int, right as int, v as int));
                lemma_find_pair_hit(m.kern, a as int, b as int, i as int);
            }
            return v;
        }
        proof {
            assert(!(m.kern[i as int].0 == a as int && m.kern[i as int].1 == b as int));
        }
        i += 1;
    }
    proof {
        lemma_find_pair_miss(m.kern, a as int, b as int);
    }
    0
}

} // verus!
