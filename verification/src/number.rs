//! Decimal number texts.
//!
//! The bus carries volume levels and step counts as JSON numbers, possibly
//! fractional. Their decimal text — an optional minus sign, digits, and an
//! optional fraction — is parsed here into whole hundredths, the resolution
//! of the volume model: one hundredth of a percentage point is one basis
//! point of full scale. Fraction digits beyond the second are truncated,
//! and magnitudes are saturated at one hundred million hundredths: any
//! saturated value lies far beyond full scale, so the volume arithmetic
//! clamps it to the same boundary the exact value would reach. A text in
//! exponent notation does not parse and is treated as malformed.

use vstd::prelude::*;
use crate::volume::clamp_int;

verus! {

/// Whether a character is a decimal digit.
pub open spec fn spec_is_digit(c: char) -> bool {
    48 <= c as u32 <= 57
}

/// The value of a decimal digit character.
pub open spec fn spec_digit_val(c: char) -> int {
    c as u32 - 48
}

/// Whether a text consists of decimal digits only.
pub open spec fn spec_all_digits(s: Seq<char>) -> bool {
    forall|i: int| 0 <= i < s.len() ==> spec_is_digit(s[i])
}

/// The value of a digit text, most significant digit first.
pub open spec fn spec_digits_val(s: Seq<char>) -> int
    decreases s.len(),
{
    if s.len() == 0 {
        0
    } else {
        spec_digits_val(s.drop_last()) * 10 + spec_digit_val(s.last())
    }
}

/// The index of the first decimal point in a text, or its length when it
/// has none.
pub open spec fn spec_first_dot(s: Seq<char>) -> int
    decreases s.len(),
{
    if s.len() == 0 {
        0
    } else if s[0] == '.' {
        0
    } else {
        1 + spec_first_dot(s.drop_first())
    }
}

/// The hundredths contributed by a fraction text: the first digit counts
/// tenths, the second hundredths, the rest truncate.
pub open spec fn spec_frac_centi(s: Seq<char>) -> int {
    if s.len() == 0 {
        0
    } else if s.len() == 1 {
        spec_digit_val(s[0]) * 10
    } else {
        spec_digit_val(s[0]) * 10 + spec_digit_val(s[1])
    }
}

/// The exact magnitude of an unsigned decimal text in hundredths: digits,
/// then optionally a decimal point followed by at least one digit. A text
/// with no digits before the point, or with another character in a digit
/// group, does not parse.
pub open spec fn spec_magnitude_centi(s: Seq<char>) -> Option<int> {
    let dot = spec_first_dot(s);
    let whole = s.subrange(0, dot);
    if whole.len() < 1 || !spec_all_digits(whole) {
        None
    } else if dot == s.len() {
        Some(spec_digits_val(whole) * 100)
    } else {
        let frac = s.subrange(dot + 1, s.len() as int);
        if frac.len() < 1 || !spec_all_digits(frac) {
            None
        } else {
            Some(spec_digits_val(whole) * 100 + spec_frac_centi(frac))
        }
    }
}

/// The exact value of a decimal text in hundredths: an optional minus
/// sign, then a magnitude.
pub open spec fn spec_number_centi(s: Seq<char>) -> Option<int> {
    if s.len() >= 1 && s[0] == '-' {
        match spec_magnitude_centi(s.drop_first()) {
            Some(m) => Some(-m),
            None => None,
        }
    } else {
        spec_magnitude_centi(s)
    }
}

/// What the parser returns: the exact value in hundredths, saturated at
/// one hundred million on either side — never a rejection of a well-formed
/// text, however long.
pub open spec fn spec_centi_clamped(s: Seq<char>) -> Option<i64> {
    match spec_number_centi(s) {
        Some(m) => Some(clamp_int(m, -100000000, 100000000) as i64),
        None => None,
    }
}

/// The first decimal point of a text is at the first position that holds
/// one.
proof fn lemma_first_dot_at(s: Seq<char>, k: int)
    requires
        0 <= k <= s.len(),
        forall|i: int| 0 <= i < k ==> s[i] != '.',
        k < s.len() ==> s[k] == '.',
    ensures
        spec_first_dot(s) == k,
    decreases k,
{
    if k > 0 {
        lemma_first_dot_at(s.drop_first(), k - 1);
    }
}

/// A digit text's value is never negative.
proof fn lemma_digits_val_nonneg(s: Seq<char>)
    requires
        spec_all_digits(s),
    ensures
        spec_digits_val(s) >= 0,
    decreases s.len(),
{
    if s.len() > 0 {
        lemma_digits_val_nonneg(s.drop_last());
    }
}

/// A magnitude, where it parses, is never negative.
proof fn lemma_magnitude_nonneg(s: Seq<char>)
    ensures
        (match spec_magnitude_centi(s) {
            Some(m) => m >= 0,
            None => true,
        }),
{
    let dot = spec_first_dot(s);
    let whole = s.subrange(0, dot);
    if whole.len() >= 1 && spec_all_digits(whole) {
        lemma_digits_val_nonneg(whole);
        if dot < s.len() {
            let frac = s.subrange(dot + 1, s.len() as int);
            if frac.len() >= 1 && spec_all_digits(frac) {
                assert(spec_is_digit(frac[0]));
                if frac.len() >= 2 {
                    assert(spec_is_digit(frac[1]));
                }
            }
        }
    }
}

/// Whether a character is a decimal digit.
fn is_digit(c: char) -> (r: bool)
    ensures
        r == spec_is_digit(c),
{
    let u = c as u32;
    48 <= u && u <= 57
}

/// Parse the digit run `s[from..to]`, saturating at one hundred million.
fn digits_val(s: &str, from: usize, to: usize) -> (r: Option<i64>)
    requires
        from <= to <= s@.len(),
    ensures
        r is Some <==> spec_all_digits(s@.subrange(from as int, to as int)),
        r matches Some(v) ==> v as int == clamp_int(
            spec_digits_val(s@.subrange(from as int, to as int)),
            0,
            100000000,
        ) && spec_digits_val(s@.subrange(from as int, to as int)) >= 0,
{
    let mut i: usize = from;
    let mut acc: i64 = 0;
    proof {
        assert(s@.subrange(from as int, from as int) =~= Seq::<char>::empty());
    }
    while i < to
        invariant
            from <= i <= to <= s@.len(),
            spec_all_digits(s@.subrange(from as int, i as int)),
            0 <= acc <= 100000000,
            acc as int == clamp_int(
                spec_digits_val(s@.subrange(from as int, i as int)),
                0,
                100000000,
            ),
            spec_digits_val(s@.subrange(from as int, i as int)) >= 0,
        decreases to - i,
    {
        let c = s.get_char(i);
        if !is_digit(c) {
            proof {
                assert(!spec_is_digit(s@.subrange(from as int, to as int)[i - from]));
            }
            return None;
        }
        let d: i64 = (c as u32 - 48) as i64;
        proof {
            assert(s@.subrange(from as int, i + 1).drop_last() =~= s@.subrange(
                from as int,
                i as int,
            ));
            assert(s@.subrange(from as int, i + 1).last() == s@[i as int]);
        }
        acc = acc * 10 + d;
        if acc > 100000000 {
            acc = 100000000;
        }
        i = i + 1;
    }
    Some(acc)
}

/// Find the first decimal point at or after `from`.
fn find_dot(s: &str, from: usize) -> (dot: usize)
    requires
        from <= s@.len(),
    ensures
        from <= dot <= s@.len(),
        spec_first_dot(s@.subrange(from as int, s@.len() as int)) == dot - from,
        dot < s@.len() ==> s@[dot as int] == '.',
        forall|i: int| from <= i < dot ==> s@[i] != '.',
{
    let n = s.unicode_len();
    let mut dot: usize = from;
    while dot < n && s.get_char(dot) != '.'
        invariant
            from <= dot <= n == s@.len(),
            forall|i: int| from <= i < dot ==> s@[i] != '.',
        decreases n - dot,
    {
        dot = dot + 1;
    }
    proof {
        let body = s@.subrange(from as int, s@.len() as int);
        lemma_first_dot_at(body, dot - from);
    }
    dot
}

/// Parse the magnitude `s[from..]` as a decimal text, in hundredths,
/// saturated at one hundred million.
#[verifier::loop_isolation(false)]
fn magnitude_centi(s: &str, from: usize) -> (r: Option<i64>)
    requires
        from <= s@.len(),
    ensures
        r is Some <==> spec_magnitude_centi(s@.subrange(from as int, s@.len() as int)) is Some,
        r matches Some(v) ==> (spec_magnitude_centi(s@.subrange(from as int, s@.len() as int))
            matches Some(m) && v as int == clamp_int(m, 0, 100000000)),
{
    let n = s.unicode_len();
    let ghost body = s@.subrange(from as int, s@.len() as int);
    let dot = find_dot(s, from);
    proof {
        assert(body.subrange(0, dot - from) =~= s@.subrange(from as int, dot as int));
    }
    if dot == from {
        return None;
    }
    let whole = match digits_val(s, from, dot) {
        Some(v) => v,
        None => {
            return None;
        },
    };
    if dot == n {
        let capped: i64 = if whole >= 1000001 {
            100000000
        } else {
            whole * 100
        };
        return Some(capped);
    }
    proof {
        assert(body.subrange(dot - from + 1, body.len() as int) =~= s@.subrange(
            dot + 1,
            s@.len() as int,
        ));
    }
    // a decimal point must be followed by at least one digit
    if dot + 1 == n {
        return None;
    }
    let mut j: usize = dot + 1;
    proof {
        assert(s@.subrange(dot + 1, j as int) =~= Seq::<char>::empty());
    }
    while j < n
        invariant
            dot + 1 <= j <= n == s@.len(),
            spec_all_digits(s@.subrange(dot + 1, j as int)),
        decreases n - j,
    {
        let c = s.get_char(j);
        if !is_digit(c) {
            proof {
                assert(!spec_is_digit(s@.subrange(dot + 1, s@.len() as int)[j - dot - 1]));
            }
            return None;
        }
        proof {
            assert(s@.subrange(dot + 1, j + 1) =~= s@.subrange(dot + 1, j as int).push(
                s@[j as int],
            ));
        }
        j = j + 1;
    }
    let ghost frac = s@.subrange(dot + 1, s@.len() as int);
    let f1: i64 = (s.get_char(dot + 1) as u32 - 48) as i64;
    let f2: i64 = if dot + 2 < n {
        (s.get_char(dot + 2) as u32 - 48) as i64
    } else {
        0
    };
    proof {
        assert(frac[0] == s@[dot + 1]);
        if dot + 2 < n {
            assert(frac[1] == s@[dot + 2]);
        }
        assert(spec_frac_centi(frac) == f1 * 10 + f2);
    }
    let raw: i64 = whole * 100 + f1 * 10 + f2;
    let capped: i64 = if raw > 100000000 {
        100000000
    } else {
        raw
    };
    Some(capped)
}

/// Parse a decimal number text into whole hundredths: an optional minus
/// sign, whole-part digits, and an optional fraction truncated past the
/// second digit, the magnitude saturated at one hundred million. Any other
/// shape — an empty text, a stray character, an exponent, a bare or
/// trailing decimal point — does not parse.
pub fn number_centi(s: &str) -> (r: Option<i64>)
    ensures
        r == spec_centi_clamped(s@),
{
    let n = s.unicode_len();
    if n >= 1 && s.get_char(0) == '-' {
        proof {
            assert(s@.drop_first() =~= s@.subrange(1, s@.len() as int));
            lemma_magnitude_nonneg(s@.subrange(1, s@.len() as int));
        }
        match magnitude_centi(s, 1) {
            Some(m) => Some(-m),
            None => None,
        }
    } else {
        proof {
            assert(s@ =~= s@.subrange(0, s@.len() as int));
            lemma_magnitude_nonneg(s@);
        }
        magnitude_centi(s, 0)
    }
}

} // verus!
