//! Glyph outlines and the decoding of outline table entries.
//!
//! A glyph's outline entry holds a contour count followed by the contours,
//! each a point count followed by 5-byte points: signed 16-bit `x` and `y`
//! big-endian, then one flag byte (non-zero marks an on-curve point). The
//! decode functions here are the specification of that layout; the exec
//! decoder in this module is proved against them.

use vstd::prelude::*;
use crate::bytes::{be16, read_i16, read_u16, read_u32, sbe16};
use crate::model::{OutlineModel, PointModel};
use crate::parse::{idx_wf, spec_glyph_outline, spec_model, TableIndex};
use crate::query::lemma_wf;

verus! {

/// One outline point in font design units.
#[derive(Clone, Copy, PartialEq, Eq, Structural, Debug)]
pub struct Point {
    pub x: i32,
    pub y: i32,
    /// `true` for an on-curve point, `false` for a control point.
    pub on_curve: bool,
}

impl View for Point {
    type V = PointModel;

    open spec fn view(&self) -> PointModel {
        PointModel { x: self.x as int, y: self.y as int, on_curve: self.on_curve }
    }
}

/// One closed contour of an outline.
#[derive(Clone, Debug)]
pub struct Contour {
    pub points: Vec<Point>,
}

impl View for Contour {
    type V = Seq<PointModel>;

    open spec fn view(&self) -> Seq<PointModel> {
        self.points@.map_values(|p: Point| p@)
    }
}

/// A glyph's contour geometry in font design units.
#[derive(Clone, Debug)]
pub struct Outline {
    pub contours: Vec<Contour>,
}

impl View for Outline {
    type V = OutlineModel;

    open spec fn view(&self) -> OutlineModel {
        self.contours@.map_values(|c: Contour| c@)
    }
}

/// The model of an optional outline result.
pub open spec fn opt_outline(r: Option<Outline>) -> Option<OutlineModel> {
    match r {
        Some(o) => Some(o@),
        None => None,
    }
}

/// The point stored in the 5 bytes starting at `q`.
pub open spec fn point_at(d: Seq<u8>, q: int) -> PointModel {
    PointModel { x: sbe16(d, q), y: sbe16(d, q + 2), on_curve: d[q + 4] != 0 }
}

/// Decodes `n` contours starting at `pos`, strictly inside `[pos, end)`.
/// Returns the contours and the position after them, or `None` when the
/// bytes do not hold `n` well-formed contours.
pub open spec fn decode_contours(d: Seq<u8>, pos: int, end: int, n: int) -> Option<
    (Seq<Seq<PointModel>>, int),
>
    decreases n,
{
    if n <= 0 {
        Some((Seq::empty(), pos))
    } else if pos + 2 > end {
        None
    } else {
        let m = be16(d, pos);
        if pos + 2 + 5 * m > end {
            None
        } else {
            let pts = Seq::new(m as nat, |i: int| point_at(d, pos + 2 + 5 * i));
            match decode_contours(d, pos + 2 + 5 * m, end, n - 1) {
                None => None,
                Some((rest, p)) => Some((seq![pts] + rest, p)),
            }
        }
    }
}

/// Decodes one glyph's outline entry occupying exactly `[start, end)`:
/// a contour count followed by that many contours, with no bytes left over.
pub open spec fn decode_glyph(d: Seq<u8>, start: int, end: int) -> Option<OutlineModel> {
    if start + 2 > end {
        None
    } else {
        match decode_contours(d, start + 2, end, be16(d, start)) {
            Some((cs, p)) => if p == end {
                Some(cs)
            } else {
                None
            },
            None => None,
        }
    }
}

/// The models of a sequence of contours.
pub open spec fn contours_of(s: Seq<Contour>) -> Seq<Seq<PointModel>> {
    s.map_values(|c: Contour| c@)
}

/// Decodes one glyph's outline entry occupying `[start, end)` of the bytes,
/// exactly as [`decode_glyph`] defines it.
fn decode_glyph_exec(d: &[u8], start: usize, end: usize) -> (r: Option<Outline>)
    requires
        start <= end,
        end <= d@.len(),
    ensures
        opt_outline(r) == decode_glyph(d@, start as int, end as int),
{
    let ghost target = decode_contours(
        d@,
        start as int + 2,
        end as int,
        be16(d@, start as int),
    );
    if end - start < 2 {
        return None;
    }
    let nc = read_u16(d, start);
    let mut acc: Vec<Contour> = Vec::new();
    let mut pos: usize = start + 2;
    let mut i: usize = 0;
    while i < nc as usize
        invariant
            end <= d@.len(),
            start + 2 <= pos <= end,
            i <= nc as usize,
            nc as int == be16(d@, start as int),
            target == decode_contours(d@, start as int + 2, end as int, nc as int),
            (decode_contours(d@, pos as int, end as int, nc as int - i as int) is None) ==> (
            target is None),
            decode_contours(d@, pos as int, end as int, nc as int - i as int) matches Some(rp)
                ==> target == Some((contours_of(acc@) + rp.0, rp.1)),
        decreases nc as int - i as int,
    {
        let ghost remaining = decode_contours(d@, pos as int, end as int, nc as int - i as int);
        if end - pos < 2 {
            proof {
                assert(remaining is None);
            }
            return None;
        }
        let m = read_u16(d, pos);
        if 5 * (m as usize) > end - pos - 2 {
            proof {
                assert(remaining is None);
            }
            return None;
        }
        let ghost spec_pts = Seq::new(m as nat, |q: int| point_at(d@, pos as int + 2 + 5 * q));
        let mut pts: Vec<Point> = Vec::new();
        let mut k: usize = 0;
        while k < m as usize
            invariant
                end <= d@.len(),
                pos + 2 + 5 * (m as int) <= end,
                k <= m as usize,
                pts@.len() == k,
                forall|q: int| 0 <= q < k ==> pts@[q]@ == point_at(d@, pos as int + 2 + 5 * q),
            decreases m as int - k as int,
        {
            let x = read_i16(d, pos + 2 + 5 * k);
            let y = read_i16(d, pos + 2 + 5 * k + 2);
            let f = d[pos + 2 + 5 * k + 4];
            pts.push(Point { x, y, on_curve: f != 0 });
            k += 1;
        }
        let contour = Contour { points: pts };
        proof {
            assert(contour@ =~= spec_pts);
        }
        let ghost old_acc = acc@;
        let ghost old_pos = pos as int;
        acc.push(contour);
        pos = pos + 2 + 5 * (m as usize);
        i += 1;
        proof {
            let rest = decode_contours(d@, pos as int, end as int, nc as int - i as int);
            assert(remaining == match rest {
                None => None::<(Seq<Seq<PointModel>>, int)>,
                Some((cs, p)) => Some((seq![spec_pts] + cs, p)),
            });
            assert(contours_of(acc@) =~= contours_of(old_acc).push(spec_pts));
            match rest {
                None => {},
                Some((cs, p)) => {
                    assert(contours_of(old_acc) + (seq![spec_pts] + cs) =~= contours_of(acc@)
                        + cs);
                },
            }
        }
    }
    proof {
        assert(decode_contours(d@, pos as int, end as int, 0) == Some(
            (Seq::<Seq<PointModel>>::empty(), pos as int),
        ));
        assert(contours_of(acc@) + Seq::<Seq<PointModel>>::empty() =~= contours_of(acc@));
        assert(target == Some((contours_of(acc@), pos as int)));
    }
    if pos != end {
        return None;
    }
    Some(Outline { contours: acc })
}

/// Outline of a glyph, read from the outline table; `None` for an id
/// outside the valid range, a missing table, an empty or out-of-table span
/// and malformed contour data.
pub(crate) fn extract_outline(d: &[u8], idx: &TableIndex, gid: u16) -> (r: Option<Outline>)
    requires
        idx_wf(*idx, d@),
    ensures
        opt_outline(r) == spec_model(d@).outline_of(gid as int),
{
    proof {
        lemma_wf(*idx, d@);
    }
    let n_bytes: usize = d.len();
    if gid >= idx.glyph_count {
        return None;
    }
    proof {
        assert(spec_model(d@).outlines[gid as int] == spec_glyph_outline(d@, gid as int));
    }
    if !idx.has_outl {
        return None;
    }
    let o = idx.outl_off;
    let ngp1 = idx.glyph_count as usize + 1;
    let s = read_u32(d, o + 4 * (gid as usize));
    let e = read_u32(d, o + 4 * (gid as usize) + 4);
    let cap = idx.outl_len - 4 * ngp1;
    if e < s || (e as usize) > cap {
        return None;
    }
    if s == e {
        return None;
    }
    let base = o + 4 * ngp1;
    decode_glyph_exec(d, base + s as usize, base + e as usize)
}

} // verus!
