//! Canonical glyph records: the comparable representation of a shaping
//! result, and its projection from the shaper's raw output.

use vstd::prelude::*;

verus! {

/// The per-glyph information half of the shaper's output: the glyph
/// identifier chosen by the shaper and the cluster index it attached.
#[derive(Clone, Copy, Debug, PartialEq, Eq, Structural)]
pub struct GlyphInfoRec {
    pub gid: u32,
    pub cluster: u32,
}

/// The per-glyph positioning half of the shaper's output, in font units.
#[derive(Clone, Copy, Debug, PartialEq, Eq, Structural)]
pub struct GlyphPosRec {
    pub x_advance: i32,
    pub y_advance: i32,
    pub x_offset: i32,
    pub y_offset: i32,
}

/// The canonical unit of shaping output. Exactly five integer fields;
/// `y_advance` and the shaper's buffer-internal flags are deliberately
/// dropped, so two results that differ only there compare equal.
#[derive(Clone, Copy, Debug, PartialEq, Eq, Structural)]
pub struct GlyphShaping {
    pub gid: u32,
    pub cluster: u32,
    pub x_advance: i32,
    pub x_offset: i32,
    pub y_offset: i32,
}

/// What the canonical record keeps of one (info, position) pair.
pub open spec fn record_of(info: GlyphInfoRec, pos: GlyphPosRec) -> GlyphShaping {
    GlyphShaping {
        gid: info.gid,
        cluster: info.cluster,
        x_advance: pos.x_advance,
        x_offset: pos.x_offset,
        y_offset: pos.y_offset,
    }
}

impl GlyphShaping {
    /// Project one (info, position) pair to its canonical record.
    pub fn from_parts(info: &GlyphInfoRec, pos: &GlyphPosRec) -> (r: GlyphShaping)
        ensures
            r == record_of(*info, *pos),
    {
        GlyphShaping {
            gid: info.gid,
            cluster: info.cluster,
            x_advance: pos.x_advance,
            x_offset: pos.x_offset,
            y_offset: pos.y_offset,
        }
    }
}

/// A violation of the shaper's documented contract: the per-glyph info
/// sequence and the per-glyph position sequence must have equal length.
/// Meeting this error indicates a bug in the shaping library, not bad input.
#[derive(Clone, Copy, Debug, PartialEq, Eq, Structural)]
pub enum ShapeError {
    LengthMismatch { infos: usize, positions: usize },
}

/// The canonical shaping result for a whole string: each (info, position)
/// pair at one index, projected to its record, in order.
pub open spec fn records_of(infos: Seq<GlyphInfoRec>, positions: Seq<GlyphPosRec>) -> Seq<
    GlyphShaping,
> {
    infos.map(|i: int, info: GlyphInfoRec| record_of(info, positions[i]))
}

/// Combine the two halves of the shaper's output into the canonical record
/// sequence. Fails exactly when the halves disagree on length.
pub fn canonical_records(infos: &Vec<GlyphInfoRec>, positions: &Vec<GlyphPosRec>) -> (r: Result<
    Vec<GlyphShaping>,
    ShapeError,
>)
    ensures
        r is Ok <==> infos@.len() == positions@.len(),
        r matches Ok(recs) ==> recs@ == records_of(infos@, positions@),
        r matches Err(e) ==> e == (ShapeError::LengthMismatch {
            infos: infos@.len() as usize,
            positions: positions@.len() as usize,
        }),
{
    if infos.len() != positions.len() {
        return Err(ShapeError::LengthMismatch { infos: infos.len(), positions: positions.len() });
    }
    let n = infos.len();
    let mut recs: Vec<GlyphShaping> = Vec::new();
    let mut k: usize = 0;
    while k < n
        invariant
            n == infos@.len() == positions@.len(),
            k <= n,
            recs@ == records_of(infos@, positions@).take(k as int),
        decreases n - k,
    {
        recs.push(GlyphShaping::from_parts(&infos[k], &positions[k]));
        proof {
            assert(recs@ =~= records_of(infos@, positions@).take(k as int + 1));
        }
        k = k + 1;
    }
    proof {
        assert(recs@ =~= records_of(infos@, positions@));
    }
    Ok(recs)
}

/// The canonical result has exactly one record per shaper-reported glyph,
/// and the record at each index carries that glyph's kept fields.
pub proof fn lemma_projection_totality(infos: Seq<GlyphInfoRec>, positions: Seq<GlyphPosRec>)
    requires
        infos.len() == positions.len(),
    ensures
        records_of(infos, positions).len() == infos.len(),
        forall|i: int|
            0 <= i < infos.len() ==> #[trigger] records_of(infos, positions)[i] == record_of(
                infos[i],
                positions[i],
            ),
{
}

/// Decide whether two canonical shaping results are equal: identical length
/// and an equal record at every position.
pub fn results_equal(a: &Vec<GlyphShaping>, b: &Vec<GlyphShaping>) -> (r: bool)
    ensures
        r <==> a@ == b@,
{
    if a.len() != b.len() {
        return false;
    }
    let n = a.len();
    let mut k: usize = 0;
    while k < n
        invariant
            n == a@.len() == b@.len(),
            k <= n,
            forall|i: int| 0 <= i < k ==> a@[i] == b@[i],
        decreases n - k,
    {
        if a[k] != b[k] {
            return false;
        }
        k = k + 1;
    }
    proof {
        assert(a@ =~= b@);
    }
    true
}

/// Equality of canonical results is reflexive and symmetric: a result never
/// differs from itself, and which of two results stands first does not
/// affect whether they differ. Whether the whole run enjoys the same two
/// properties rests in addition on the shaper's determinism, which the
/// library assumes of its external collaborator and cannot state.
pub proof fn lemma_difference_reflexive_symmetric(a: Seq<GlyphShaping>, b: Seq<GlyphShaping>)
    ensures
        a == a,
        (a != b) <==> (b != a),
{
}

/// Two records are equal exactly when the five kept fields are equal:
/// a change in any kept field of either half shows up in the record.
pub proof fn lemma_record_field_sensitivity(
    i1: GlyphInfoRec,
    p1: GlyphPosRec,
    i2: GlyphInfoRec,
    p2: GlyphPosRec,
)
    ensures
        record_of(i1, p1) == record_of(i2, p2) <==> (i1.gid == i2.gid && i1.cluster == i2.cluster
            && p1.x_advance == p2.x_advance && p1.x_offset == p2.x_offset && p1.y_offset
            == p2.y_offset),
{
}

/// Two positions that agree on everything but `y_advance` project to the
/// same canonical record: the comparison is insensitive to `y_advance`.
pub proof fn lemma_y_advance_ignored(info: GlyphInfoRec, p1: GlyphPosRec, p2: GlyphPosRec)
    requires
        p1.x_advance == p2.x_advance,
        p1.x_offset == p2.x_offset,
        p1.y_offset == p2.y_offset,
    ensures
        record_of(info, p1) == record_of(info, p2),
{
}

} // verus!
