//! The binary font format and its validation.
//!
//! A font starts with a table directory: a 16-bit table count followed by
//! 12-byte entries, each a 4-byte tag, a 32-bit offset and a 32-bit length.
//! Construction checks that every entry lies inside the bytes and that the
//! mandatory tables are present and long enough; the result is a small
//! fixed-size [`TableIndex`] from which every query is answered. What a
//! valid font's bytes denote is defined by [`spec_model`]; when and why
//! construction rejects bytes is defined by [`spec_check`].

use vstd::prelude::*;
use crate::bytes::{be16, be32, read_i16, read_u16, read_u32, sbe16};
use crate::font::{FontFault, InvalidFont};
use crate::model::FontModel;
use crate::model::OutlineModel;
use crate::outline::decode_glyph;

verus! {

/// Tag of the mandatory vertical-metrics table, `"hhea"`.
pub const TAG_METRICS: u32 = 0x68686561;

/// Tag of the mandatory glyph-count table, `"maxp"`.
pub const TAG_GLYPH_COUNT: u32 = 0x6D617870;

/// Tag of the mandatory character-map table, `"cmap"`.
pub const TAG_CHAR_MAP: u32 = 0x636D6170;

/// Tag of the mandatory horizontal-metrics table, `"hmtx"`.
pub const TAG_H_METRICS: u32 = 0x686D7478;

/// Tag of the optional kerning table, `"kern"`.
pub const TAG_KERNING: u32 = 0x6B65726E;

/// Tag of the optional outline table, `"outl"`.
pub const TAG_OUTLINES: u32 = 0x6F75746C;

/// Number of directory entries.
pub open spec fn dir_count(d: Seq<u8>) -> int {
    be16(d, 0)
}

/// Tag of directory entry `j`.
pub open spec fn entry_tag(d: Seq<u8>, j: int) -> int {
    be32(d, 2 + 12 * j)
}

/// Byte offset of the table of directory entry `j`.
pub open spec fn entry_off(d: Seq<u8>, j: int) -> int {
    be32(d, 2 + 12 * j + 4)
}

/// Byte length of the table of directory entry `j`.
pub open spec fn entry_len(d: Seq<u8>, j: int) -> int {
    be32(d, 2 + 12 * j + 8)
}

/// Directory entry `j` points inside the bytes.
pub open spec fn entry_ok(d: Seq<u8>, j: int) -> bool {
    entry_off(d, j) + entry_len(d, j) <= d.len()
}

/// The directory itself is complete and every entry points inside the bytes.
pub open spec fn dir_ok(d: Seq<u8>) -> bool {
    &&& d.len() >= 2
    &&& 2 + 12 * dir_count(d) <= d.len()
    &&& forall|j: int| 0 <= j < dir_count(d) ==> entry_ok(d, j)
}

/// Index of the first directory entry at or after `j` whose tag is `tag`.
pub open spec fn find_tag(d: Seq<u8>, tag: int, j: int) -> Option<int>
    decreases dir_count(d) - j,
{
    if j < 0 || j >= dir_count(d) {
        None
    } else if entry_tag(d, j) == tag {
        Some(j)
    } else {
        find_tag(d, tag, j + 1)
    }
}

/// The directory has an entry for `tag`.
pub open spec fn has_tbl(d: Seq<u8>, tag: int) -> bool {
    find_tag(d, tag, 0) is Some
}

/// Offset of the first table tagged `tag`, 0 when there is none.
pub open spec fn tbl_off(d: Seq<u8>, tag: int) -> int {
    match find_tag(d, tag, 0) {
        Some(j) => entry_off(d, j),
        None => 0,
    }
}

/// Length of the first table tagged `tag`, 0 when there is none.
pub open spec fn tbl_len(d: Seq<u8>, tag: int) -> int {
    match find_tag(d, tag, 0) {
        Some(j) => entry_len(d, j),
        None => 0,
    }
}

/// Number of glyphs the font declares.
pub open spec fn glyph_total(d: Seq<u8>) -> int {
    be16(d, tbl_off(d, TAG_GLYPH_COUNT as int))
}

/// Number of character-map entries.
pub open spec fn cmap_total(d: Seq<u8>) -> int {
    be16(d, tbl_off(d, TAG_CHAR_MAP as int))
}

/// Number of kerning entries.
pub open spec fn kern_total(d: Seq<u8>) -> int {
    be16(d, tbl_off(d, TAG_KERNING as int))
}

/// Whether bytes are accepted as a font, and the fault reported when they
/// are not. Construction of any backend succeeds exactly when this is `Ok`.
pub open spec fn spec_check(d: Seq<u8>) -> Result<(), FontFault> {
    if !dir_ok(d) {
        Err(FontFault::Directory)
    } else if !has_tbl(d, TAG_METRICS as int) || tbl_len(d, TAG_METRICS as int) < 6 {
        Err(FontFault::Metrics)
    } else if !has_tbl(d, TAG_GLYPH_COUNT as int) || tbl_len(d, TAG_GLYPH_COUNT as int) < 2 {
        Err(FontFault::GlyphCount)
    } else if !has_tbl(d, TAG_CHAR_MAP as int) || tbl_len(d, TAG_CHAR_MAP as int) < 2 || tbl_len(
        d,
        TAG_CHAR_MAP as int,
    ) < 2 + 6 * cmap_total(d) {
        Err(FontFault::CharMap)
    } else if !has_tbl(d, TAG_H_METRICS as int) || tbl_len(d, TAG_H_METRICS as int) < 4
        * glyph_total(d) {
        Err(FontFault::HMetrics)
    } else if has_tbl(d, TAG_KERNING as int) && (tbl_len(d, TAG_KERNING as int) < 2 || tbl_len(
        d,
        TAG_KERNING as int,
    ) < 2 + 6 * kern_total(d)) {
        Err(FontFault::Kerning)
    } else if has_tbl(d, TAG_OUTLINES as int) && tbl_len(d, TAG_OUTLINES as int) < 4 * (
    glyph_total(d) + 1) {
        Err(FontFault::Outlines)
    } else {
        Ok(())
    }
}

/// Outline of glyph `g`: the outline table holds `glyph_total + 1` 32-bit
/// offsets into the data that follows them; glyph `g`'s entry spans the
/// `g`-th to the `g+1`-th offset. An empty span, a span outside the table
/// or malformed contour data all denote the absence of an outline.
pub open spec fn spec_glyph_outline(d: Seq<u8>, g: int) -> Option<OutlineModel> {
    if !has_tbl(d, TAG_OUTLINES as int) {
        None
    } else {
        let o = tbl_off(d, TAG_OUTLINES as int);
        let l = tbl_len(d, TAG_OUTLINES as int);
        let ng = glyph_total(d);
        let base = o + 4 * (ng + 1);
        let s = be32(d, o + 4 * g);
        let e = be32(d, o + 4 * (g + 1));
        if e < s || e > l - 4 * (ng + 1) {
            None
        } else if s == e {
            None
        } else {
            decode_glyph(d, base + s, base + e)
        }
    }
}

/// The model that valid font bytes denote.
pub open spec fn spec_model(d: Seq<u8>) -> FontModel {
    FontModel {
        ascent: sbe16(d, tbl_off(d, TAG_METRICS as int)),
        descent: sbe16(d, tbl_off(d, TAG_METRICS as int) + 2),
        line_gap: sbe16(d, tbl_off(d, TAG_METRICS as int) + 4),
        glyph_count: glyph_total(d),
        cmap: Seq::new(
            cmap_total(d) as nat,
            |i: int|
                (
                    be32(d, tbl_off(d, TAG_CHAR_MAP as int) + 2 + 6 * i),
                    be16(d, tbl_off(d, TAG_CHAR_MAP as int) + 2 + 6 * i + 4),
                ),
        ),
        metrics: Seq::new(
            glyph_total(d) as nat,
            |i: int|
                (
                    be16(d, tbl_off(d, TAG_H_METRICS as int) + 4 * i),
                    sbe16(d, tbl_off(d, TAG_H_METRICS as int) + 4 * i + 2),
                ),
        ),
        kern: if has_tbl(d, TAG_KERNING as int) {
            Seq::new(
                kern_total(d) as nat,
                |i: int|
                    (
                        be16(d, tbl_off(d, TAG_KERNING as int) + 2 + 6 * i),
                        be16(d, tbl_off(d, TAG_KERNING as int) + 2 + 6 * i + 2),
                        sbe16(d, tbl_off(d, TAG_KERNING as int) + 2 + 6 * i + 4),
                    ),
            )
        } else {
            Seq::empty()
        },
        outlines: Seq::new(glyph_total(d) as nat, |g: int| spec_glyph_outline(d, g)),
    }
}

/// The small fixed-size index a backend keeps beside its bytes: extracted
/// font-wide scalars and the offsets of the tables that queries read.
pub(crate) struct TableIndex {
    pub(crate) ascent: i32,
    pub(crate) descent: i32,
    pub(crate) line_gap: i32,
    pub(crate) glyph_count: u16,
    pub(crate) cmap_off: usize,
    pub(crate) cmap_count: u16,
    pub(crate) hmtx_off: usize,
    pub(crate) has_kern: bool,
    pub(crate) kern_off: usize,
    pub(crate) kern_count: u16,
    pub(crate) has_outl: bool,
    pub(crate) outl_off: usize,
    pub(crate) outl_len: usize,
}

/// The index that valid font bytes determine.
pub(crate) open spec fn index_of(d: Seq<u8>) -> TableIndex {
    TableIndex {
        ascent: sbe16(d, tbl_off(d, TAG_METRICS as int)) as i32,
        descent: sbe16(d, tbl_off(d, TAG_METRICS as int) + 2) as i32,
        line_gap: sbe16(d, tbl_off(d, TAG_METRICS as int) + 4) as i32,
        glyph_count: glyph_total(d) as u16,
        cmap_off: tbl_off(d, TAG_CHAR_MAP as int) as usize,
        cmap_count: cmap_total(d) as u16,
        hmtx_off: tbl_off(d, TAG_H_METRICS as int) as usize,
        has_kern: has_tbl(d, TAG_KERNING as int),
        kern_off: if has_tbl(d, TAG_KERNING as int) {
            tbl_off(d, TAG_KERNING as int) as usize
        } else {
            0
        },
        kern_count: if has_tbl(d, TAG_KERNING as int) {
            kern_total(d) as u16
        } else {
            0
        },
        has_outl: has_tbl(d, TAG_OUTLINES as int),
        outl_off: if has_tbl(d, TAG_OUTLINES as int) {
            tbl_off(d, TAG_OUTLINES as int) as usize
        } else {
            0
        },
        outl_len: if has_tbl(d, TAG_OUTLINES as int) {
            tbl_len(d, TAG_OUTLINES as int) as usize
        } else {
            0
        },
    }
}

/// An index is the one its bytes determine, and the bytes are a valid font.
pub(crate) open spec fn idx_wf(idx: TableIndex, d: Seq<u8>) -> bool {
    spec_check(d) == Ok::<(), FontFault>(()) && idx == index_of(d)
}

/// A found tag names an in-range directory entry bearing that tag.
proof fn lemma_find_tag_some(d: Seq<u8>, tag: int, j0: int, j: int)
    requires
        find_tag(d, tag, j0) == Some(j),
    ensures
        j0 <= j < dir_count(d),
        entry_tag(d, j) == tag,
    decreases dir_count(d) - j0,
{
    if entry_tag(d, j0) == tag {
    } else {
        lemma_find_tag_some(d, tag, j0 + 1, j);
    }
}

/// In a well-formed directory, a present table lies inside the bytes.
pub proof fn lemma_table_bounds(d: Seq<u8>, tag: int)
    requires
        dir_ok(d),
        has_tbl(d, tag),
    ensures
        0 <= tbl_off(d, tag),
        0 <= tbl_len(d, tag),
        tbl_off(d, tag) + tbl_len(d, tag) <= d.len(),
{
    let j = find_tag(d, tag, 0)->Some_0;
    lemma_find_tag_some(d, tag, 0, j);
    assert(entry_ok(d, j));
}

/// Locates the first directory entry tagged `tag` and returns its table's
/// offset and length.
fn find_table(d: &[u8], tag: u32) -> (r: Option<(usize, usize)>)
    requires
        dir_ok(d@),
    ensures
        r matches Some(t) ==> has_tbl(d@, tag as int) && t.0 as int == tbl_off(d@, tag as int)
            && t.1 as int == tbl_len(d@, tag as int) && t.0 + t.1 <= d@.len(),
        r is None <==> !has_tbl(d@, tag as int),
{
    let n_bytes: usize = d.len();
    let n = read_u16(d, 0);
    let mut j: usize = 0;
    while j < n as usize
        invariant
            dir_ok(d@),
            n as int == dir_count(d@),
            n_bytes == d@.len(),
            j <= n as usize,
            find_tag(d@, tag as int, 0) == find_tag(d@, tag as int, j as int),
        decreases n as int - j as int,
    {
        let t = read_u32(d, 2 + 12 * j);
        assert(t as int == entry_tag(d@, j as int));
        if t == tag {
            assert(find_tag(d@, tag as int, j as int) == Some(j as int));
            let off = read_u32(d, 2 + 12 * j + 4);
            let len = read_u32(d, 2 + 12 * j + 8);
            proof {
                assert(entry_ok(d@, j as int));
            }
            return Some((off as usize, len as usize));
        }
        assert(find_tag(d@, tag as int, j as int) == find_tag(d@, tag as int, j as int + 1));
        j += 1;
    }
    assert(find_tag(d@, tag as int, j as int) is None);
    None
}

/// Validates the bytes and builds the table index, reporting the first
/// fault found in the order [`spec_check`] defines.
pub(crate) fn build_index(d: &[u8]) -> (r: Result<TableIndex, InvalidFont>)
    ensures
        r matches Ok(idx) ==> spec_check(d@) == Ok::<(), FontFault>(()) && idx == index_of(d@),
        r matches Err(e) ==> spec_check(d@) == Err::<(), FontFault>(e.fault),
{
    let n_bytes: usize = d.len();
    if n_bytes < 2 {
        return Err(InvalidFont { fault: FontFault::Directory });
    }
    let n = read_u16(d, 0);
    if 12 * (n as usize) > n_bytes - 2 {
        return Err(InvalidFont { fault: FontFault::Directory });
    }
    let mut j: usize = 0;
    while j < n as usize
        invariant
            n_bytes == d@.len(),
            n_bytes >= 2,
            n as int == dir_count(d@),
            2 + 12 * (n as int) <= n_bytes,
            j <= n as usize,
            forall|k: int| 0 <= k < j ==> entry_ok(d@, k),
        decreases n as int - j as int,
    {
        let off = read_u32(d, 2 + 12 * j + 4);
        let ln = read_u32(d, 2 + 12 * j + 8);
        if off as usize > n_bytes || ln as usize > n_bytes - off as usize {
            assert(!entry_ok(d@, j as int));
            return Err(InvalidFont { fault: FontFault::Directory });
        }
        assert(entry_ok(d@, j as int));
        j += 1;
    }
    assert(dir_ok(d@));
    let (h_off, h_len) = match find_table(d, TAG_METRICS) {
        Some(t) => t,
        None => {
            return Err(InvalidFont { fault: FontFault::Metrics });
        },
    };
    if h_len < 6 {
        return Err(InvalidFont { fault: FontFault::Metrics });
    }
    let ascent = read_i16(d, h_off);
    let descent = read_i16(d, h_off + 2);
    let line_gap = read_i16(d, h_off + 4);
    let (m_off, m_len) = match find_table(d, TAG_GLYPH_COUNT) {
        Some(t) => t,
        None => {
            return Err(InvalidFont { fault: FontFault::GlyphCount });
        },
    };
    if m_len < 2 {
        return Err(InvalidFont { fault: FontFault::GlyphCount });
    }
    let ng = read_u16(d, m_off);
    let (c_off, c_len) = match find_table(d, TAG_CHAR_MAP) {
        Some(t) => t,
        None => {
            return Err(InvalidFont { fault: FontFault::CharMap });
        },
    };
    if c_len < 2 {
        return Err(InvalidFont { fault: FontFault::CharMap });
    }
    let cc = read_u16(d, c_off);
    if 6 * (cc as usize) > c_len - 2 {
        return Err(InvalidFont { fault: FontFault::CharMap });
    }
    let (x_off, x_len) = match find_table(d, TAG_H_METRICS) {
        Some(t) => t,
        None => {
            return Err(InvalidFont { fault: FontFault::HMetrics });
        },
    };
    if 4 * (ng as usize) > x_len {
        return Err(InvalidFont { fault: FontFault::HMetrics });
    }
    let (has_kern, kern_off, kern_count) = match find_table(d, TAG_KERNING) {
        Some((k_off, k_len)) => {
            if k_len < 2 {
                return Err(InvalidFont { fault: FontFault::Kerning });
            }
            let kc = read_u16(d, k_off);
            if 6 * (kc as usize) > k_len - 2 {
                return Err(InvalidFont { fault: FontFault::Kerning });
            }
            (true, k_off, kc)
        },
        None => (false, 0usize, 0u16),
    };
    let (has_outl, outl_off, outl_len) = match find_table(d, TAG_OUTLINES) {
        Some((o_off, o_len)) => {
            if 4 * (ng as usize + 1) > o_len {
                return Err(InvalidFont { fault: FontFault::Outlines });
            }
            (true, o_off, o_len)
        },
        None => (false, 0usize, 0usize),
    };
    let idx = TableIndex {
        ascent,
        descent,
        line_gap,
        glyph_count: ng,
        cmap_off: c_off,
        cmap_count: cc,
        hmtx_off: x_off,
        has_kern,
        kern_off,
        kern_count,
        has_outl,
        outl_off,
        outl_len,
    };
    assert(spec_check(d@) == Ok::<(), FontFault>(()));
    assert(idx == index_of(d@));
    Ok(idx)
}

} // verus!
