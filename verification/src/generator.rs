//! The test-string generator: every two-character string over printable
//! ASCII (U+0020 through U+007E), in lexicographic order of the two
//! character codes.

use vstd::prelude::*;

verus! {

/// Relies on String::push: appends the given character to the end of the
/// string, as its documentation states.
pub assume_specification[ String::push ](s: &mut String, ch: char)
    ensures
        final(s)@ == old(s)@.push(ch),
;

/// How many test strings the generator produces: one per ordered pair of
/// the 95 printable ASCII characters.
pub open spec fn pair_count() -> int {
    9025
}

/// The first character of the test string at position `i`.
pub open spec fn pair_char1(i: int) -> char {
    ((0x20 + i / 95) as u8) as char
}

/// The second character of the test string at position `i`.
pub open spec fn pair_char2(i: int) -> char {
    ((0x20 + i % 95) as u8) as char
}

/// The test string at position `i` of the enumeration.
pub open spec fn pair_seq(i: int) -> Seq<char> {
    seq![pair_char1(i), pair_char2(i)]
}

/// Build the two-character string holding exactly `c1` then `c2`.
pub fn pair_string(c1: char, c2: char) -> (r: String)
    ensures
        r@ == seq![c1, c2],
{
    let mut s = String::new();
    s.push(c1);
    s.push(c2);
    proof {
        assert(s@ =~= seq![c1, c2]);
    }
    s
}

/// Produce the full test set: 9 025 two-character strings, the Cartesian
/// product of the printable ASCII range with itself, first character
/// outermost, both ascending.
pub fn test_strings() -> (r: Vec<String>)
    ensures
        r@.len() == pair_count(),
        forall|i: int| 0 <= i < pair_count() ==> (#[trigger] r@[i])@ == pair_seq(i),
{
    let mut out: Vec<String> = Vec::new();
    let mut i: usize = 0;
    while i < 9025
        invariant
            i <= 9025,
            out@.len() == i,
            forall|j: int| 0 <= j < i ==> (#[trigger] out@[j])@ == pair_seq(j),
        decreases 9025 - i,
    {
        let c1: u8 = 0x20 + (i / 95) as u8;
        let c2: u8 = 0x20 + (i % 95) as u8;
        out.push(pair_string(c1 as char, c2 as char));
        i = i + 1;
    }
    out
}

/// True of exactly the character sequences the generator produces: two
/// characters, both in the printable ASCII range.
pub open spec fn is_test_pair(s: Seq<char>) -> bool {
    s.len() == 2 && 0x20 <= s[0] as int <= 0x7e && 0x20 <= s[1] as int <= 0x7e
}

/// The position in the enumeration at which a test pair is produced.
pub open spec fn pair_index(s: Seq<char>) -> int {
    (s[0] as int - 0x20) * 95 + (s[1] as int - 0x20)
}

/// `pair_index` inverts the enumeration: the string produced at position
/// `i` is a test pair and maps back to `i`.
pub proof fn lemma_pair_index_inverse(i: int)
    requires
        0 <= i < pair_count(),
    ensures
        is_test_pair(pair_seq(i)),
        pair_index(pair_seq(i)) == i,
{
    assert(i == 95 * (i / 95) + i % 95);
    assert(pair_char1(i) as int == 0x20 + i / 95);
    assert(pair_char2(i) as int == 0x20 + i % 95);
}

/// No test string occurs twice: distinct positions of the enumeration hold
/// distinct strings.
pub proof fn lemma_pairs_distinct(i: int, j: int)
    requires
        0 <= i < pair_count(),
        0 <= j < pair_count(),
        i != j,
    ensures
        pair_seq(i) != pair_seq(j),
{
    assert(i == 95 * (i / 95) + i % 95);
    assert(j == 95 * (j / 95) + j % 95);
    if pair_char1(i) == pair_char1(j) && pair_char2(i) == pair_char2(j) {
        assert(pair_char1(i) as u8 == pair_char1(j) as u8);
        assert(pair_char2(i) as u8 == pair_char2(j) as u8);
        assert(i / 95 == j / 95);
        assert(i % 95 == j % 95);
        assert(false);
    }
    assert(pair_seq(i)[0] == pair_char1(i));
    assert(pair_seq(j)[0] == pair_char1(j));
    assert(pair_seq(i)[1] == pair_char2(i));
    assert(pair_seq(j)[1] == pair_char2(j));
}

/// Every two-character string over printable ASCII appears somewhere in the
/// enumeration.
pub proof fn lemma_pairs_complete(c1: char, c2: char)
    requires
        0x20 <= c1 as int <= 0x7e,
        0x20 <= c2 as int <= 0x7e,
    ensures
        exists|i: int| 0 <= i < pair_count() && pair_seq(i) == seq![c1, c2],
{
    let i = (c1 as int - 0x20) * 95 + (c2 as int - 0x20);
    assert(0 <= i < 9025) by (nonlinear_arith)
        requires
            i == (c1 as int - 0x20) * 95 + (c2 as int - 0x20),
            0 <= c1 as int - 0x20 < 95,
            0 <= c2 as int - 0x20 < 95,
    ;
    assert(i / 95 == c1 as int - 0x20 && i % 95 == c2 as int - 0x20) by (nonlinear_arith)
        requires
            i == (c1 as int - 0x20) * 95 + (c2 as int - 0x20),
            0 <= c1 as int - 0x20 < 95,
            0 <= c2 as int - 0x20 < 95,
    ;
    assert(pair_char1(i) == c1);
    assert(pair_char2(i) == c2);
    assert(pair_seq(i) =~= seq![c1, c2]);
}

} // verus!
