//! Differential comparison of text-shaping output between two fonts.
//!
//! The library enumerates every two-character string of printable ASCII,
//! shapes each with a reference font and a candidate font through the
//! HarfBuzz shaper, reduces each shaping result to a canonical sequence of
//! glyph records, and reports the strings whose canonical results differ.

pub mod compare;
pub mod generator;
pub mod glyphs;
pub mod shaping;
