//! The comparator: run the whole test set against two fonts, collect the
//! strings whose canonical shaping differs, and format the report lines.

use crate::generator::{is_test_pair, lemma_pair_index_inverse, pair_index, test_strings};
use crate::glyphs::ShapeError;
use crate::shaping::shapes_differ;
use vstd::prelude::*;
use vstd::string::StringExecFns;

verus! {

/// The outcome of a full comparison run. `differing` holds every test
/// string reported so far, in generator order; `failure`, when set, is the
/// shaper contract violation that stopped the run early. The strings found
/// before the failure are kept.
#[derive(Debug)]
pub struct ComparisonReport {
    pub differing: Vec<String>,
    pub failure: Option<ShapeError>,
}

/// Shape every test string with both fonts and collect the ones whose
/// canonical results differ. Every reported string is a test pair, each
/// appears at most once, and they come in generator order.
pub fn run_comparison(reference: &harfbuzz_rs::Font<'_>, other: &harfbuzz_rs::Font<'_>) -> (r:
    ComparisonReport)
    ensures
        forall|k: int|
            0 <= k < r.differing@.len() ==> is_test_pair((#[trigger] r.differing@[k])@),
        forall|k1: int, k2: int|
            0 <= k1 < k2 < r.differing@.len() ==> pair_index(r.differing@[k1]@) < pair_index(
                r.differing@[k2]@,
            ),
{
    let tests = test_strings();
    let mut differing: Vec<String> = Vec::new();
    let mut i: usize = 0;
    while i < tests.len()
        invariant
            tests@.len() == crate::generator::pair_count(),
            forall|j: int|
                0 <= j < tests@.len() ==> (#[trigger] tests@[j])@ == crate::generator::pair_seq(j),
            i <= tests@.len(),
            forall|k: int|
                0 <= k < differing@.len() ==> is_test_pair((#[trigger] differing@[k])@)
                    && pair_index(differing@[k]@) < i,
            forall|k1: int, k2: int|
                0 <= k1 < k2 < differing@.len() ==> pair_index(differing@[k1]@) < pair_index(
                    differing@[k2]@,
                ),
        decreases tests@.len() - i,
    {
        let s = &tests[i];
        proof {
            lemma_pair_index_inverse(i as int);
        }
        match shapes_differ(reference, other, s.as_str()) {
            Ok(true) => {
                differing.push(s.clone());
            },
            Ok(false) => {},
            Err(e) => {
                return ComparisonReport { differing, failure: Some(e) };
            },
        }
        i = i + 1;
    }
    ComparisonReport { differing, failure: None }
}

/// The report line for one differing input: the test string surrounded by
/// single quotes, after the phrase naming a shaping difference.
pub fn report_line(text: &str) -> (r: String)
    ensures
        r@ == "Different shaping for '"@ + text@ + "'"@,
{
    let mut line = String::from_str("Different shaping for '");
    line.append(text);
    line.append("'");
    line
}

} // verus!
