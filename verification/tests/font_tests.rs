use ab_glyph::parse::{
    TAG_CHAR_MAP, TAG_GLYPH_COUNT, TAG_H_METRICS, TAG_KERNING, TAG_METRICS, TAG_OUTLINES,
};
use ab_glyph::{Font, FontArc, FontFault, FontKind, FontRef, FontVec, GlyphId, Point};
use std::sync::Arc;

fn push_u16(v: &mut Vec<u8>, x: u16) {
    v.extend_from_slice(&x.to_be_bytes());
}

fn push_u32(v: &mut Vec<u8>, x: u32) {
    v.extend_from_slice(&x.to_be_bytes());
}

fn push_i16(v: &mut Vec<u8>, x: i16) {
    v.extend_from_slice(&x.to_be_bytes());
}

fn build_font(tables: &[(u32, Vec<u8>)]) -> Vec<u8> {
    let mut out: Vec<u8> = Vec::new();
    push_u16(&mut out, tables.len() as u16);
    let mut off: u32 = 2 + 12 * tables.len() as u32;
    for (tag, body) in tables {
        push_u32(&mut out, *tag);
        push_u32(&mut out, off);
        push_u32(&mut out, body.len() as u32);
        off += body.len() as u32;
    }
    for (_, body) in tables {
        out.extend_from_slice(body);
    }
    out
}

fn metrics_table() -> Vec<u8> {
    let mut t: Vec<u8> = Vec::new();
    push_i16(&mut t, 800);
    push_i16(&mut t, -201);
    push_i16(&mut t, 90);
    t
}

fn glyph_count_table(ng: u16) -> Vec<u8> {
    let mut t: Vec<u8> = Vec::new();
    push_u16(&mut t, ng);
    t
}

fn char_map_table(entries: &[(u32, u16)]) -> Vec<u8> {
    let mut t: Vec<u8> = Vec::new();
    push_u16(&mut t, entries.len() as u16);
    for (code, gid) in entries {
        push_u32(&mut t, *code);
        push_u16(&mut t, *gid);
    }
    t
}

fn h_metrics_table(entries: &[(u16, i16)]) -> Vec<u8> {
    let mut t: Vec<u8> = Vec::new();
    for (adv, lsb) in entries {
        push_u16(&mut t, *adv);
        push_i16(&mut t, *lsb);
    }
    t
}

fn kerning_table(entries: &[(u16, u16, i16)]) -> Vec<u8> {
    let mut t: Vec<u8> = Vec::new();
    push_u16(&mut t, entries.len() as u16);
    for (a, b, v) in entries {
        push_u16(&mut t, *a);
        push_u16(&mut t, *b);
        push_i16(&mut t, *v);
    }
    t
}

// One triangle contour for glyph 1; glyphs 0 and 2 have no outline.
fn outline_table() -> Vec<u8> {
    let mut glyph1: Vec<u8> = Vec::new();
    push_u16(&mut glyph1, 1);
    push_u16(&mut glyph1, 3);
    for (x, y, f) in [(0i16, 0i16, 1u8), (100, 0, 1), (50, 120, 0)] {
        push_i16(&mut glyph1, x);
        push_i16(&mut glyph1, y);
        glyph1.push(f);
    }
    let mut t: Vec<u8> = Vec::new();
    let end = glyph1.len() as u32;
    for loca in [0u32, 0, end, end] {
        push_u32(&mut t, loca);
    }
    t.extend_from_slice(&glyph1);
    t
}

fn sample_font() -> Vec<u8> {
    build_font(&[
        (TAG_METRICS, metrics_table()),
        (TAG_GLYPH_COUNT, glyph_count_table(3)),
        (TAG_CHAR_MAP, char_map_table(&[('A' as u32, 1), ('B' as u32, 2)])),
        (TAG_H_METRICS, h_metrics_table(&[(500, 50), (600, 60), (700, 70)])),
        (TAG_KERNING, kerning_table(&[(1, 2, -15)])),
        (TAG_OUTLINES, outline_table()),
    ])
}

#[test]
fn descent_matches_reference() {
    let font = FontArc::try_from_vec(sample_font()).unwrap();
    assert_eq!(font.descent(), -201);
    assert_eq!(font.ascent(), 800);
    assert_eq!(font.line_gap(), 90);
}

#[test]
fn rebuilding_from_same_bytes_answers_alike() {
    let a = FontVec::try_from_vec(sample_font()).unwrap();
    let b = FontVec::try_from_vec(sample_font()).unwrap();
    assert_eq!(a.glyph_count(), b.glyph_count());
    assert_eq!(a.ascent(), b.ascent());
    assert_eq!(a.glyph_id('A'), b.glyph_id('A'));
    assert_eq!(a.h_advance(GlyphId(1)), b.h_advance(GlyphId(1)));
    assert_eq!(a.h_side_bearing(GlyphId(2)), b.h_side_bearing(GlyphId(2)));
    assert_eq!(a.kern(GlyphId(1), GlyphId(2)), b.kern(GlyphId(1), GlyphId(2)));
    let oa = a.outline(GlyphId(1)).unwrap();
    let ob = b.outline(GlyphId(1)).unwrap();
    assert_eq!(oa.contours.len(), ob.contours.len());
    assert_eq!(oa.contours[0].points, ob.contours[0].points);
}

#[test]
fn borrowed_backend_matches_owned() {
    let bytes = sample_font();
    let owned = FontVec::try_from_vec(bytes.clone()).unwrap();
    let borrowed = FontRef::try_from_slice(&bytes).unwrap();
    assert_eq!(owned.glyph_count(), borrowed.glyph_count());
    assert_eq!(owned.descent(), borrowed.descent());
    assert_eq!(owned.glyph_id('B'), borrowed.glyph_id('B'));
    assert_eq!(owned.h_advance(GlyphId(0)), borrowed.h_advance(GlyphId(0)));
    assert_eq!(
        owned.kern(GlyphId(1), GlyphId(2)),
        borrowed.kern(GlyphId(1), GlyphId(2))
    );
}

#[test]
fn cloned_handle_answers_like_the_original() {
    let font = FontArc::try_from_vec(sample_font()).unwrap();
    let copy = font.clone();
    assert_eq!(font.glyph_count(), copy.glyph_count());
    assert_eq!(font.descent(), copy.descent());
    assert_eq!(font.glyph_id('A'), copy.glyph_id('A'));
    assert_eq!(
        font.kern(GlyphId(1), GlyphId(2)),
        copy.kern(GlyphId(1), GlyphId(2))
    );
    drop(font);
    assert_eq!(copy.glyph_count(), 3);
    assert_eq!(copy.glyph_id('B'), GlyphId(2));
}

#[test]
fn unmapped_char_gets_fallback_id() {
    let font = FontArc::try_from_vec(sample_font()).unwrap();
    assert_eq!(font.glyph_id('Z'), GlyphId(0));
    assert_eq!(font.glyph_id('\u{1F600}'), GlyphId(0));
    assert_eq!(font.glyph_id('A'), GlyphId(1));
    assert_eq!(font.glyph_id('B'), GlyphId(2));
}

#[test]
fn outline_out_of_range_is_none() {
    let font = FontArc::try_from_vec(sample_font()).unwrap();
    assert!(font.outline(GlyphId(3)).is_none());
    assert!(font.outline(GlyphId(99)).is_none());
    assert!(font.outline(GlyphId(u16::MAX)).is_none());
}

#[test]
fn outline_geometry_is_decoded_exactly() {
    let font = FontArc::try_from_vec(sample_font()).unwrap();
    assert!(font.outline(GlyphId(0)).is_none());
    assert!(font.outline(GlyphId(2)).is_none());
    let o = font.outline(GlyphId(1)).unwrap();
    assert_eq!(o.contours.len(), 1);
    let pts = &o.contours[0].points;
    assert_eq!(pts.len(), 3);
    assert_eq!(pts[0], Point { x: 0, y: 0, on_curve: true });
    assert_eq!(pts[1], Point { x: 100, y: 0, on_curve: true });
    assert_eq!(pts[2], Point { x: 50, y: 120, on_curve: false });
}

#[test]
fn kern_without_entry_is_zero() {
    let font = FontArc::try_from_vec(sample_font()).unwrap();
    assert_eq!(font.kern(GlyphId(2), GlyphId(1)), 0);
    assert_eq!(font.kern(GlyphId(0), GlyphId(0)), 0);
    assert_eq!(font.kern(GlyphId(1), GlyphId(2)), -15);
}

#[test]
fn kern_without_table_is_zero() {
    let bytes = build_font(&[
        (TAG_METRICS, metrics_table()),
        (TAG_GLYPH_COUNT, glyph_count_table(3)),
        (TAG_CHAR_MAP, char_map_table(&[('A' as u32, 1)])),
        (TAG_H_METRICS, h_metrics_table(&[(500, 50), (600, 60), (700, 70)])),
    ]);
    let font = FontArc::try_from_vec(bytes).unwrap();
    assert_eq!(font.kern(GlyphId(1), GlyphId(2)), 0);
    assert!(font.outline(GlyphId(1)).is_none());
}

#[test]
fn advance_and_bearing_are_read_exactly() {
    let font = FontArc::try_from_vec(sample_font()).unwrap();
    assert_eq!(font.h_advance(GlyphId(0)), 500);
    assert_eq!(font.h_advance(GlyphId(1)), 600);
    assert_eq!(font.h_advance(GlyphId(2)), 700);
    assert_eq!(font.h_side_bearing(GlyphId(0)), 50);
    assert_eq!(font.h_side_bearing(GlyphId(1)), 60);
    assert_eq!(font.h_side_bearing(GlyphId(2)), 70);
    assert_eq!(font.h_advance(GlyphId(3)), 0);
    assert_eq!(font.h_side_bearing(GlyphId(3)), 0);
}

#[test]
fn owned_into_shared_keeps_glyph_count() {
    let owned = FontVec::try_from_vec(sample_font()).unwrap();
    let before = owned.glyph_count();
    let shared = FontArc::from(owned);
    assert_eq!(shared.glyph_count(), before);
    assert_eq!(shared.glyph_count(), 3);
}

#[test]
fn new_wraps_any_backend_kind() {
    let owned = FontVec::try_from_vec(sample_font()).unwrap();
    let shared = FontArc::new(FontKind::Owned(owned));
    assert_eq!(shared.glyph_count(), 3);
    assert_eq!(shared.descent(), -201);
}

#[test]
fn shared_pointer_is_adopted_directly() {
    let owned = FontVec::try_from_vec(sample_font()).unwrap();
    let ptr: Arc<FontKind> = Arc::new(FontKind::Owned(owned));
    let shared = FontArc::from(ptr);
    assert_eq!(shared.glyph_count(), 3);
    assert_eq!(shared.h_advance(GlyphId(1)), 600);
}

#[test]
fn static_slice_backend_through_shared_handle() {
    let leaked: &'static [u8] = Box::leak(sample_font().into_boxed_slice());
    let font = FontArc::try_from_slice(leaked).unwrap();
    assert_eq!(font.descent(), -201);
    assert_eq!(font.glyph_id('A'), GlyphId(1));
    let borrowed = FontRef::try_from_slice(leaked).unwrap();
    let font2 = FontArc::from(borrowed);
    assert_eq!(font2.glyph_count(), font.glyph_count());
}

fn fault_of(r: Result<FontArc, ab_glyph::InvalidFont>) -> FontFault {
    match r {
        Err(e) => e.fault,
        Ok(_) => panic!("expected the bytes to be rejected"),
    }
}

#[test]
fn empty_bytes_are_rejected() {
    let err = FontVec::try_from_vec(Vec::new()).err().expect("expected rejection");
    assert_eq!(err.fault, FontFault::Directory);
    assert_eq!(fault_of(FontArc::try_from_vec(vec![0u8])), FontFault::Directory);
}

#[test]
fn truncated_directory_is_rejected() {
    let mut bytes = sample_font();
    bytes.truncate(40);
    assert_eq!(fault_of(FontArc::try_from_vec(bytes)), FontFault::Directory);
}

#[test]
fn each_missing_mandatory_table_is_reported() {
    let hhea = (TAG_METRICS, metrics_table());
    let maxp = (TAG_GLYPH_COUNT, glyph_count_table(3));
    let cmap = (TAG_CHAR_MAP, char_map_table(&[('A' as u32, 1)]));
    let hmtx = (
        TAG_H_METRICS,
        h_metrics_table(&[(500, 50), (600, 60), (700, 70)]),
    );
    let cases: Vec<(Vec<(u32, Vec<u8>)>, FontFault)> = vec![
        (
            vec![maxp.clone(), cmap.clone(), hmtx.clone()],
            FontFault::Metrics,
        ),
        (
            vec![hhea.clone(), cmap.clone(), hmtx.clone()],
            FontFault::GlyphCount,
        ),
        (
            vec![hhea.clone(), maxp.clone(), hmtx.clone()],
            FontFault::CharMap,
        ),
        (
            vec![hhea.clone(), maxp.clone(), cmap.clone()],
            FontFault::HMetrics,
        ),
    ];
    for (tables, fault) in cases {
        assert_eq!(fault_of(FontArc::try_from_vec(build_font(&tables))), fault);
    }
}

#[test]
fn short_tables_are_rejected() {
    let r = FontArc::try_from_vec(build_font(&[
        (TAG_METRICS, vec![0u8; 4]),
        (TAG_GLYPH_COUNT, glyph_count_table(1)),
        (TAG_CHAR_MAP, char_map_table(&[])),
        (TAG_H_METRICS, h_metrics_table(&[(1, 1)])),
    ]));
    assert_eq!(fault_of(r), FontFault::Metrics);

    let r = FontArc::try_from_vec(build_font(&[
        (TAG_METRICS, metrics_table()),
        (TAG_GLYPH_COUNT, glyph_count_table(2)),
        (TAG_CHAR_MAP, char_map_table(&[])),
        (TAG_H_METRICS, h_metrics_table(&[(1, 1)])),
    ]));
    assert_eq!(fault_of(r), FontFault::HMetrics);

    let r = FontArc::try_from_vec(build_font(&[
        (TAG_METRICS, metrics_table()),
        (TAG_GLYPH_COUNT, glyph_count_table(1)),
        (TAG_CHAR_MAP, char_map_table(&[])),
        (TAG_H_METRICS, h_metrics_table(&[(1, 1)])),
        (TAG_KERNING, vec![0u8, 2]),
    ]));
    assert_eq!(fault_of(r), FontFault::Kerning);

    let r = FontArc::try_from_vec(build_font(&[
        (TAG_METRICS, metrics_table()),
        (TAG_GLYPH_COUNT, glyph_count_table(1)),
        (TAG_CHAR_MAP, char_map_table(&[])),
        (TAG_H_METRICS, h_metrics_table(&[(1, 1)])),
        (TAG_OUTLINES, vec![0u8; 7]),
    ]));
    assert_eq!(fault_of(r), FontFault::Outlines);
}

#[test]
fn directory_entry_past_the_end_is_rejected() {
    let mut bytes = sample_font();
    // Shorten the declared font so the last table's entry points past the end.
    bytes.truncate(bytes.len() - 1);
    assert_eq!(fault_of(FontArc::try_from_vec(bytes)), FontFault::Directory);
}

#[test]
fn malformed_outline_entry_is_absent_not_an_error() {
    // The outline span for glyph 0 claims 1 contour of 9 points but holds
    // only 5 bytes: decoding fails, so the glyph simply has no outline.
    let mut bad: Vec<u8> = Vec::new();
    push_u16(&mut bad, 1);
    push_u16(&mut bad, 9);
    bad.push(0);
    let mut t: Vec<u8> = Vec::new();
    for loca in [0u32, bad.len() as u32] {
        push_u32(&mut t, loca);
    }
    t.extend_from_slice(&bad);
    let font = FontArc::try_from_vec(build_font(&[
        (TAG_METRICS, metrics_table()),
        (TAG_GLYPH_COUNT, glyph_count_table(1)),
        (TAG_CHAR_MAP, char_map_table(&[])),
        (TAG_H_METRICS, h_metrics_table(&[(1, 1)])),
        (TAG_OUTLINES, t),
    ]))
    .unwrap();
    assert!(font.outline(GlyphId(0)).is_none());
}

#[test]
fn first_directory_entry_for_a_tag_wins() {
    let mut other = Vec::new();
    push_i16(&mut other, 555);
    push_i16(&mut other, -5);
    push_i16(&mut other, 5);
    let font = FontArc::try_from_vec(build_font(&[
        (TAG_METRICS, metrics_table()),
        (TAG_METRICS, other),
        (TAG_GLYPH_COUNT, glyph_count_table(1)),
        (TAG_CHAR_MAP, char_map_table(&[])),
        (TAG_H_METRICS, h_metrics_table(&[(1, 1)])),
    ]))
    .unwrap();
    assert_eq!(font.ascent(), 800);
    assert_eq!(font.descent(), -201);
}

#[test]
fn supplementary_plane_char_is_mapped() {
    let font = FontArc::try_from_vec(build_font(&[
        (TAG_METRICS, metrics_table()),
        (TAG_GLYPH_COUNT, glyph_count_table(3)),
        (TAG_CHAR_MAP, char_map_table(&[(0x1F600, 2)])),
        (TAG_H_METRICS, h_metrics_table(&[(1, 1), (2, 2), (3, 3)])),
    ]))
    .unwrap();
    assert_eq!(font.glyph_id('\u{1F600}'), GlyphId(2));
    assert_eq!(font.glyph_id('A'), GlyphId(0));
}

#[test]
fn first_kerning_entry_for_a_pair_wins() {
    let font = FontArc::try_from_vec(build_font(&[
        (TAG_METRICS, metrics_table()),
        (TAG_GLYPH_COUNT, glyph_count_table(3)),
        (TAG_CHAR_MAP, char_map_table(&[])),
        (TAG_H_METRICS, h_metrics_table(&[(1, 1), (2, 2), (3, 3)])),
        (TAG_KERNING, kerning_table(&[(1, 2, -7), (1, 2, 30)])),
    ]))
    .unwrap();
    assert_eq!(font.kern(GlyphId(1), GlyphId(2)), -7);
}

#[test]
fn handle_label_names_only_the_handle() {
    let font = FontArc::try_from_vec(sample_font()).unwrap();
    assert_eq!(font.label(), "FontArc");
}

#[test]
fn first_char_map_entry_wins() {
    let font = FontArc::try_from_vec(build_font(&[
        (TAG_METRICS, metrics_table()),
        (TAG_GLYPH_COUNT, glyph_count_table(3)),
        (
            TAG_CHAR_MAP,
            char_map_table(&[('A' as u32, 2), ('A' as u32, 1)]),
        ),
        (TAG_H_METRICS, h_metrics_table(&[(1, 1), (2, 2), (3, 3)])),
    ]))
    .unwrap();
    assert_eq!(font.glyph_id('A'), GlyphId(2));
}
