//! Candidate generation.
//!
//! The search space is the set of zero-padded `HHMMSS` strings of a 24-hour
//! clock: hours 0-23, minutes 0-59, seconds 0-59, giving exactly 86,400
//! distinct six-digit candidates. Enumeration order is hour-major,
//! minute-next, second-minor, but callers must not rely on the order for
//! correctness.

use vstd::prelude::*;
use vstd::arithmetic::div_mod::{
    lemma_fundamental_div_mod, lemma_fundamental_div_mod_converse, lemma_mod_bound,
};

verus! {

/// The decimal digit character for `d` (meaningful for 0 <= d <= 9).
pub open spec fn digit_char(d: int) -> char {
    if d == 0 {
        '0'
    } else if d == 1 {
        '1'
    } else if d == 2 {
        '2'
    } else if d == 3 {
        '3'
    } else if d == 4 {
        '4'
    } else if d == 5 {
        '5'
    } else if d == 6 {
        '6'
    } else if d == 7 {
        '7'
    } else if d == 8 {
        '8'
    } else {
        '9'
    }
}

/// Whether `c` is a decimal digit character.
pub open spec fn is_digit_char(c: char) -> bool {
    exists|d: int| 0 <= d < 10 && c == digit_char(d)
}

/// Two-digit zero-padded decimal rendering of `v` (meaningful for 0 <= v < 100).
pub open spec fn two_digits(v: int) -> Seq<char> {
    seq![digit_char(v / 10), digit_char(v % 10)]
}

/// The six-character `HHMMSS` rendering of a clock time.
pub open spec fn hhmmss_chars(h: int, m: int, s: int) -> Seq<char> {
    two_digits(h) + two_digits(m) + two_digits(s)
}

/// The candidate at position `i` of the hour-major enumeration, where
/// `i == 3600 * hour + 60 * minute + second`.
pub open spec fn candidate_at(i: int) -> Seq<char> {
    hhmmss_chars(i / 3600, (i % 3600) / 60, (i % 3600) % 60)
}

/// The digit characters are pairwise distinct.
proof fn lemma_digit_char_injective(a: int, b: int)
    requires
        0 <= a < 10,
        0 <= b < 10,
        digit_char(a) == digit_char(b),
    ensures
        a == b,
{
}

/// Splitting a two-digit value into its digits stays within digit range.
proof fn lemma_digit_split_bounds(v: int)
    requires
        0 <= v < 100,
    ensures
        0 <= v / 10 < 10,
        0 <= v % 10 < 10,
        v == 10 * (v / 10) + v % 10,
{
    lemma_fundamental_div_mod(v, 10);
    lemma_mod_bound(v, 10);
}

/// The two-digit rendering determines the value it renders.
proof fn lemma_two_digits_injective(a: int, b: int)
    requires
        0 <= a < 100,
        0 <= b < 100,
        two_digits(a) == two_digits(b),
    ensures
        a == b,
{
    lemma_digit_split_bounds(a);
    lemma_digit_split_bounds(b);
    assert(two_digits(a)[0] == two_digits(b)[0]);
    assert(two_digits(a)[1] == two_digits(b)[1]);
    lemma_digit_char_injective(a / 10, b / 10);
    lemma_digit_char_injective(a % 10, b % 10);
}

/// The `HHMMSS` rendering determines the clock time it renders.
proof fn lemma_hhmmss_injective(h1: int, m1: int, s1: int, h2: int, m2: int, s2: int)
    requires
        0 <= h1 < 24,
        0 <= m1 < 60,
        0 <= s1 < 60,
        0 <= h2 < 24,
        0 <= m2 < 60,
        0 <= s2 < 60,
        hhmmss_chars(h1, m1, s1) == hhmmss_chars(h2, m2, s2),
    ensures
        h1 == h2,
        m1 == m2,
        s1 == s2,
{
    let x = hhmmss_chars(h1, m1, s1);
    let y = hhmmss_chars(h2, m2, s2);
    assert(two_digits(h1) =~= seq![x[0], x[1]]);
    assert(two_digits(m1) =~= seq![x[2], x[3]]);
    assert(two_digits(s1) =~= seq![x[4], x[5]]);
    assert(two_digits(h2) =~= seq![y[0], y[1]]);
    assert(two_digits(m2) =~= seq![y[2], y[3]]);
    assert(two_digits(s2) =~= seq![y[4], y[5]]);
    lemma_two_digits_injective(h1, h2);
    lemma_two_digits_injective(m1, m2);
    lemma_two_digits_injective(s1, s2);
}

/// Coverage: the candidate at index `3600*h + 60*m + s` is exactly the
/// `HHMMSS` rendering of that clock time, so every hour 00-23, minute
/// 00-59, second 00-59 appears in the enumeration.
pub proof fn lemma_candidate_at_decomposes(h: int, m: int, s: int)
    requires
        0 <= h < 24,
        0 <= m < 60,
        0 <= s < 60,
    ensures
        candidate_at(3600 * h + 60 * m + s) == hhmmss_chars(h, m, s),
{
    let i = 3600 * h + 60 * m + s;
    lemma_fundamental_div_mod_converse(i, 3600, h, 60 * m + s);
    lemma_fundamental_div_mod_converse(60 * m + s, 60, m, s);
}

/// The index decomposition of a candidate position is within clock ranges
/// and recomposes to the position itself.
proof fn lemma_index_components(i: int)
    requires
        0 <= i < 86400,
    ensures
        0 <= i / 3600 < 24,
        0 <= (i % 3600) / 60 < 60,
        0 <= (i % 3600) % 60 < 60,
        i == 3600 * (i / 3600) + 60 * ((i % 3600) / 60) + (i % 3600) % 60,
{
    lemma_fundamental_div_mod(i, 3600);
    lemma_mod_bound(i, 3600);
    lemma_fundamental_div_mod(i % 3600, 60);
    lemma_mod_bound(i % 3600, 60);
}

/// Distinctness: no two positions of the enumeration carry the same
/// candidate string, so the generator yields 86,400 distinct candidates
/// and each clock time appears exactly once.
pub proof fn lemma_candidates_distinct(i: int, j: int)
    requires
        0 <= i < 86400,
        0 <= j < 86400,
        i != j,
    ensures
        candidate_at(i) != candidate_at(j),
{
    lemma_index_components(i);
    lemma_index_components(j);
    if candidate_at(i) == candidate_at(j) {
        lemma_hhmmss_injective(
            i / 3600,
            (i % 3600) / 60,
            (i % 3600) % 60,
            j / 3600,
            (j % 3600) / 60,
            (j % 3600) % 60,
        );
    }
}

/// Shape: every candidate is exactly six decimal digit characters.
pub proof fn lemma_candidate_shape(i: int)
    requires
        0 <= i < 86400,
    ensures
        candidate_at(i).len() == 6,
        forall|k: int| 0 <= k < 6 ==> is_digit_char(#[trigger] candidate_at(i)[k]),
{
    lemma_index_components(i);
    lemma_digit_split_bounds(i / 3600);
    lemma_digit_split_bounds((i % 3600) / 60);
    lemma_digit_split_bounds((i % 3600) % 60);
    let c = candidate_at(i);
    assert(c[0] == digit_char(i / 3600 / 10));
    assert(c[1] == digit_char(i / 3600 % 10));
    assert(c[2] == digit_char((i % 3600) / 60 / 10));
    assert(c[3] == digit_char((i % 3600) / 60 % 10));
    assert(c[4] == digit_char((i % 3600) % 60 / 10));
    assert(c[5] == digit_char((i % 3600) % 60 % 10));
}

/// The one-character string for digit `d`.
fn digit_str(d: u8) -> (r: &'static str)
    requires
        d < 10,
    ensures
        r@ =~= seq![digit_char(d as int)],
{
    if d == 0 {
        proof {
            reveal_strlit("0");
        }
        "0"
    } else if d == 1 {
        proof {
            reveal_strlit("1");
        }
        "1"
    } else if d == 2 {
        proof {
            reveal_strlit("2");
        }
        "2"
    } else if d == 3 {
        proof {
            reveal_strlit("3");
        }
        "3"
    } else if d == 4 {
        proof {
            reveal_strlit("4");
        }
        "4"
    } else if d == 5 {
        proof {
            reveal_strlit("5");
        }
        "5"
    } else if d == 6 {
        proof {
            reveal_strlit("6");
        }
        "6"
    } else if d == 7 {
        proof {
            reveal_strlit("7");
        }
        "7"
    } else if d == 8 {
        proof {
            reveal_strlit("8");
        }
        "8"
    } else {
        proof {
            reveal_strlit("9");
        }
        "9"
    }
}

/// Append the two-digit zero-padded rendering of `v` to `out`.
fn push_two_digits(out: &mut String, v: u8)
    requires
        v < 100,
    ensures
        final(out)@ == old(out)@ + two_digits(v as int),
{
    proof {
        lemma_digit_split_bounds(v as int);
    }
    let tens: u8 = v / 10;
    let ones: u8 = v % 10;
    out.append(digit_str(tens));
    out.append(digit_str(ones));
    proof {
        assert(out@ =~= old(out)@ + two_digits(v as int));
    }
}

/// Build the `HHMMSS` candidate string for one clock time.
fn candidate_string(h: u8, m: u8, s: u8) -> (r: String)
    requires
        h < 24,
        m < 60,
        s < 60,
    ensures
        r@ == hhmmss_chars(h as int, m as int, s as int),
{
    let mut z = String::new();
    push_two_digits(&mut z, h);
    push_two_digits(&mut z, m);
    push_two_digits(&mut z, s);
    proof {
        assert(z@ =~= hhmmss_chars(h as int, m as int, s as int));
    }
    z
}

/// Produce the full candidate sequence: all 86,400 `HHMMSS` strings in
/// hour-major, minute-next, second-minor order. Pure and deterministic:
/// the result is the same on every call.
pub fn generate_z_values() -> (r: Vec<String>)
    ensures
        r@.len() == 86400,
        forall|i: int| 0 <= i < 86400 ==> (#[trigger] r@[i])@ == candidate_at(i),
{
    let mut out: Vec<String> = Vec::new();
    let mut h: u8 = 0;
    while h < 24
        invariant
            h <= 24,
            out@.len() == 3600 * (h as int),
            forall|i: int| 0 <= i < out@.len() ==> (#[trigger] out@[i])@ == candidate_at(i),
        decreases 24 - h,
    {
        let mut m: u8 = 0;
        while m < 60
            invariant
                h < 24,
                m <= 60,
                out@.len() == 3600 * (h as int) + 60 * (m as int),
                forall|i: int| 0 <= i < out@.len() ==> (#[trigger] out@[i])@ == candidate_at(i),
            decreases 60 - m,
        {
            let mut s: u8 = 0;
            while s < 60
                invariant
                    h < 24,
                    m < 60,
                    s <= 60,
                    out@.len() == 3600 * (h as int) + 60 * (m as int) + s as int,
                    forall|i: int| 0 <= i < out@.len() ==> (#[trigger] out@[i])@ == candidate_at(
                        i,
                    ),
                decreases 60 - s,
            {
                let z = candidate_string(h, m, s);
                proof {
                    lemma_candidate_at_decomposes(h as int, m as int, s as int);
                }
                out.push(z);
                s = s + 1;
            }
            m = m + 1;
        }
        h = h + 1;
    }
    out
}

} // verus!
