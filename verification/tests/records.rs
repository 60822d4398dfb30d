use shapediff::glyphs::{
    canonical_records, results_equal, GlyphInfoRec, GlyphPosRec, GlyphShaping, ShapeError,
};

fn info(gid: u32, cluster: u32) -> GlyphInfoRec {
    GlyphInfoRec { gid, cluster }
}

fn pos(x_advance: i32, y_advance: i32, x_offset: i32, y_offset: i32) -> GlyphPosRec {
    GlyphPosRec { x_advance, y_advance, x_offset, y_offset }
}

#[test]
fn from_parts_keeps_the_five_fields() {
    let r = GlyphShaping::from_parts(&info(42, 1), &pos(500, 7, -3, 11));
    assert_eq!(r.gid, 42);
    assert_eq!(r.cluster, 1);
    assert_eq!(r.x_advance, 500);
    assert_eq!(r.x_offset, -3);
    assert_eq!(r.y_offset, 11);
}

#[test]
fn canonical_records_projects_every_glyph() {
    let infos = vec![info(10, 0), info(20, 1), info(30, 1)];
    let positions = vec![pos(100, 0, 0, 0), pos(200, 5, 1, -1), pos(300, 0, 2, 3)];
    let recs = canonical_records(&infos, &positions).unwrap();
    assert_eq!(recs.len(), 3);
    for i in 0..3 {
        assert_eq!(recs[i].gid, infos[i].gid);
        assert_eq!(recs[i].cluster, infos[i].cluster);
        assert_eq!(recs[i].x_advance, positions[i].x_advance);
        assert_eq!(recs[i].x_offset, positions[i].x_offset);
        assert_eq!(recs[i].y_offset, positions[i].y_offset);
    }
}

#[test]
fn canonical_records_of_nothing_is_empty() {
    let recs = canonical_records(&vec![], &vec![]).unwrap();
    assert!(recs.is_empty());
}

#[test]
fn mismatched_lengths_are_a_shaper_contract_violation() {
    let infos = vec![info(1, 0), info(2, 1)];
    let positions = vec![pos(1, 0, 0, 0), pos(2, 0, 0, 0), pos(3, 0, 0, 0)];
    let err = canonical_records(&infos, &positions).unwrap_err();
    assert_eq!(err, ShapeError::LengthMismatch { infos: 2, positions: 3 });
}

#[test]
fn equality_is_reflexive() {
    let a = canonical_records(&vec![info(5, 0)], &vec![pos(9, 0, 0, 0)]).unwrap();
    assert!(results_equal(&a, &a));
}

#[test]
fn equality_is_symmetric() {
    let a = canonical_records(&vec![info(5, 0)], &vec![pos(9, 0, 0, 0)]).unwrap();
    let b = canonical_records(&vec![info(6, 0)], &vec![pos(9, 0, 0, 0)]).unwrap();
    assert_eq!(results_equal(&a, &b), results_equal(&b, &a));
    assert!(!results_equal(&a, &b));
}

#[test]
fn results_of_different_length_differ() {
    let a = canonical_records(&vec![info(5, 0)], &vec![pos(9, 0, 0, 0)]).unwrap();
    let b = canonical_records(&vec![], &vec![]).unwrap();
    assert!(!results_equal(&a, &b));
}

#[test]
fn each_kept_field_is_seen_by_the_comparison() {
    let base_i = info(42, 0);
    let base_p = pos(500, 0, 10, -10);
    let base = vec![GlyphShaping::from_parts(&base_i, &base_p)];
    let variants = [
        GlyphShaping::from_parts(&info(999, 0), &base_p),
        GlyphShaping::from_parts(&info(42, 1), &base_p),
        GlyphShaping::from_parts(&base_i, &pos(501, 0, 10, -10)),
        GlyphShaping::from_parts(&base_i, &pos(500, 0, 11, -10)),
        GlyphShaping::from_parts(&base_i, &pos(500, 0, 10, -9)),
    ];
    for v in variants {
        assert!(!results_equal(&base, &vec![v]));
    }
}

#[test]
fn y_advance_is_not_seen_by_the_comparison() {
    let i = info(42, 0);
    let a = vec![GlyphShaping::from_parts(&i, &pos(500, 0, 10, -10))];
    let b = vec![GlyphShaping::from_parts(&i, &pos(500, 777, 10, -10))];
    assert!(results_equal(&a, &b));
}
