//! The shaping adapter: the one place where the library calls the HarfBuzz
//! shaper, and the canonicalization of what comes back.
//!
//! The shaper is an external collaborator. A font handle is opaque and the
//! shaped output depends on it, so nothing is promised about the records a
//! call returns; everything downstream of the call is verified for every
//! possible output.

use crate::glyphs::{
    canonical_records, results_equal, GlyphInfoRec, GlyphPosRec, GlyphShaping, ShapeError,
};
use vstd::prelude::*;

verus! {

/// Declares harfbuzz_rs::Font, the opaque handle to a loaded font face,
/// so that it can appear in signatures. The library never looks inside it.
#[verifier::external_type_specification]
#[verifier::external_body]
pub struct ExFont<'a>(harfbuzz_rs::Font<'a>);

/// Relies on harfbuzz_rs: `UnicodeBuffer::new` and `add_str` fill a fresh
/// buffer with the text; `shape` runs the HarfBuzz shaper over it with the
/// given font and no extra features (script, language and direction are
/// auto-detected); `GlyphBuffer::get_glyph_infos` and `get_glyph_positions`
/// hand out the two halves of the result, copied here field by field.
/// The output depends on the font, which is opaque, so nothing is promised.
#[verifier::external_body]
fn shape_raw(font: &harfbuzz_rs::Font<'_>, text: &str) -> (Vec<GlyphInfoRec>, Vec<GlyphPosRec>) {
    let buffer = harfbuzz_rs::UnicodeBuffer::new().add_str(text);
    let out = harfbuzz_rs::shape(font, buffer, &[]);
    let infos = out.get_glyph_infos().iter().map(
        |i| GlyphInfoRec { gid: i.codepoint, cluster: i.cluster },
    ).collect();
    let positions = out.get_glyph_positions().iter().map(
        |p| GlyphPosRec {
            x_advance: p.x_advance,
            y_advance: p.y_advance,
            x_offset: p.x_offset,
            y_offset: p.y_offset,
        },
    ).collect();
    (infos, positions)
}

/// Shape `text` with `font` and reduce the output to its canonical record
/// sequence. Fails exactly when the shaper hands back info and position
/// sequences of differing length, which its documented contract rules out;
/// the records themselves depend on the opaque font, so no more is stated.
pub fn shape_canonical(font: &harfbuzz_rs::Font<'_>, text: &str) -> Result<
    Vec<GlyphShaping>,
    ShapeError,
> {
    let (infos, positions) = shape_raw(font, text);
    canonical_records(&infos, &positions)
}

/// Shape `text` with both fonts and decide whether the two canonical
/// results differ. `Ok(true)` reports a shaping difference; an error is a
/// shaper contract violation from either font's shaping call.
pub fn shapes_differ(reference: &harfbuzz_rs::Font<'_>, other: &harfbuzz_rs::Font<'_>, text: &str)
    -> Result<bool, ShapeError> {
    let a = match shape_canonical(reference, text) {
        Ok(v) => v,
        Err(e) => {
            return Err(e);
        },
    };
    let b = match shape_canonical(other, text) {
        Ok(v) => v,
        Err(e) => {
            return Err(e);
        },
    };
    Ok(!results_equal(&a, &b))
}

} // verus!
