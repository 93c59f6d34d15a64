//! Decimal literals: which texts count as a number.
//!
//! The grammar is
//!
//! ```text
//! Literal  ::= Sign? Mantissa Exponent?
//! Mantissa ::= Digit+ | Digit+ '.' Digit* | Digit* '.' Digit+
//! Exponent ::= ('e' | 'E') Sign? Digit+
//! Sign     ::= '+' | '-'
//! Digit    ::= '0' ..= '9'
//! ```
//!
//! The empty text is no literal, and neither are the names of the infinities
//! and of the value that is not a number.

use crate::text::{join, join_lines};
use vstd::prelude::*;

verus! {

/// `0` to `9`.
pub open spec fn is_digit(c: char) -> bool {
    '0' <= c && c <= '9'
}

/// `+` or `-`.
pub open spec fn is_sign(c: char) -> bool {
    c == '+' || c == '-'
}

/// `e` or `E`, which opens an exponent.
pub open spec fn is_exp_mark(c: char) -> bool {
    c == 'e' || c == 'E'
}

/// Every character is a digit; true of the empty sequence.
pub open spec fn all_digits(s: Seq<char>) -> bool {
    forall|i: int| 0 <= i < s.len() ==> is_digit(#[trigger] s[i])
}

/// Digits around at most one point, with at least one digit.
pub open spec fn is_mantissa(s: Seq<char>) -> bool {
    ||| s.len() > 0 && all_digits(s)
    ||| exists|k: int|
        #![trigger s[k]]
        0 <= k < s.len() && s[k] == '.' && s.len() > 1 && all_digits(s.take(k)) && all_digits(
            s.skip(k + 1),
        )
}

/// An exponent mark, an optional sign, then at least one digit.
pub open spec fn is_exponent(s: Seq<char>) -> bool {
    &&& s.len() >= 2
    &&& is_exp_mark(s[0])
    &&& {
        let digits = if is_sign(s[1]) {
            s.skip(2)
        } else {
            s.skip(1)
        };
        digits.len() > 0 && all_digits(digits)
    }
}

/// A mantissa, then an optional exponent.
pub open spec fn is_unsigned_literal(s: Seq<char>) -> bool {
    exists|k: int|
        #![trigger s.take(k)]
        0 < k <= s.len() && is_mantissa(s.take(k)) && (k == s.len() || is_exponent(s.skip(k)))
}

/// An optional sign, then an unsigned literal.
pub open spec fn is_decimal_literal(s: Seq<char>) -> bool {
    if s.len() > 0 && is_sign(s[0]) {
        is_unsigned_literal(s.skip(1))
    } else {
        is_unsigned_literal(s)
    }
}

/// The characters of a string slice, in order.
pub fn chars_of(s: &str) -> (v: Vec<char>)
    ensures
        v@ == s@,
{
    let mut v: Vec<char> = Vec::new();
    for c in it: s.chars()
        invariant
            it.seq() == s@,
            v@ == s@.take(it.index() as int),
    {
        v.push(c);
    }
    v
}

fn digit(c: char) -> (b: bool)
    ensures
        b == is_digit(c),
{
    '0' <= c && c <= '9'
}

fn sign(c: char) -> (b: bool)
    ensures
        b == is_sign(c),
{
    c == '+' || c == '-'
}

/// The end of the longest run of digits that starts at `from`.
fn digits_end(v: &[char], from: usize) -> (end: usize)
    requires
        from <= v.len(),
    ensures
        from <= end <= v.len(),
        forall|i: int| from <= i < end ==> is_digit(#[trigger] v@[i]),
        end < v.len() ==> !is_digit(v@[end as int]),
{
    let mut i: usize = from;
    while i < v.len() && digit(v[i])
        invariant
            from <= i <= v.len(),
            forall|j: int| from <= j < i ==> is_digit(#[trigger] v@[j]),
        decreases v.len() - i,
    {
        i += 1;
    }
    i
}

/// The end of the mantissa that starts at `from` and runs up to an exponent
/// mark or to the end of `v`, if there is one.
fn mantissa_end(v: &[char], from: usize) -> (end: Option<usize>)
    requires
        from <= v.len(),
    ensures
        end matches Some(m) ==> from < m <= v.len() && is_mantissa(
            v@.subrange(from as int, m as int),
        ),
        forall|k: int|
            from < k <= v.len() && #[trigger] is_mantissa(v@.subrange(from as int, k)) && (k
                == v.len() || is_exp_mark(v@[k])) ==> end == Some(k as usize),
{
    let n: usize = v.len();
    let whole: usize = digits_end(v, from);
    let (m, digits): (usize, usize) = if whole < n && v[whole] == '.' {
        let frac: usize = digits_end(v, whole + 1);
        (frac, frac - from - 1)
    } else {
        (whole, whole - from)
    };
    let end = if digits == 0 {
        None
    } else {
        Some(m)
    };
    proof {
        let s = v@;
        if digits > 0 {
            let t = s.subrange(from as int, m as int);
            if whole < n && s[whole as int] == '.' {
                let k = whole - from;
                assert(t[k] == '.');
                assert(all_digits(t.take(k)));
                assert(all_digits(t.skip(k + 1)));
            } else {
                assert(all_digits(t));
            }
        }
        assert forall|k: int|
            from < k <= n && #[trigger] is_mantissa(s.subrange(from as int, k)) && (k == n
                || is_exp_mark(s[k])) implies end == Some(k as usize) by {
            let t = s.subrange(from as int, k);
            if t.len() > 0 && all_digits(t) {
                // digits only: the run that `whole` ends reaches up to `k`
                assert(forall|i: int| from <= i < k ==> is_digit(s[i])) by {
                    assert forall|i: int| from <= i < k implies is_digit(s[i]) by {
                        assert(t[i - from] == s[i]);
                    }
                }
                if whole < k {
                    assert(is_digit(s[whole as int]));
                }
                assert(whole == k);
            } else {
                let d = choose|d: int|
                    #![trigger t[d]]
                    0 <= d < t.len() && t[d] == '.' && t.len() > 1 && all_digits(t.take(d))
                        && all_digits(t.skip(d + 1));
                let dot = from + d;
                assert(s[dot] == '.');
                assert forall|i: int| from <= i < dot implies is_digit(s[i]) by {
                    assert(t.take(d)[i - from] == s[i]);
                }
                if whole < dot {
                    assert(is_digit(s[whole as int]));
                }
                assert(whole == dot);
                assert forall|i: int| dot < i < k implies is_digit(s[i]) by {
                    assert(t.skip(d + 1)[i - dot - 1] == s[i]);
                }
                if m < k {
                    assert(is_digit(s[m as int]));
                }
                assert(m == k);
            }
        }
    }
    end
}

/// Whether an exponent starts at `from` and runs to the end of `v`.
fn exponent_from(v: &[char], from: usize) -> (ok: bool)
    requires
        from <= v.len(),
    ensures
        ok == is_exponent(v@.skip(from as int)),
{
    let n: usize = v.len();
    if n - from < 2 {
        return false;
    }
    let mark = v[from];
    if !(mark == 'e' || mark == 'E') {
        assert(v@.skip(from as int)[0] == mark);
        return false;
    }
    let start: usize = if sign(v[from + 1]) {
        from + 2
    } else {
        from + 1
    };
    let end: usize = digits_end(v, start);
    proof {
        let s = v@;
        let t = s.skip(from as int);
        assert(t[0] == s[from as int]);
        assert(t[1] == s[from + 1]);
        let digits = t.skip(start - from);
        assert(digits =~= s.skip(start as int));
        if end == n {
            assert forall|i: int| 0 <= i < digits.len() implies is_digit(#[trigger] digits[i]) by {
                assert(digits[i] == s[start + i]);
            }
        } else {
            assert(digits[end - start] == s[end as int]);
        }
    }
    end == n && end > start
}

/// Whether `v` spells a decimal literal.
pub fn is_literal(v: &[char]) -> (ok: bool)
    ensures
        ok == is_decimal_literal(v@),
{
    let n: usize = v.len();
    let from: usize = if n > 0 && sign(v[0]) {
        1
    } else {
        0
    };
    let ghost s = v@;
    let ghost t = s.skip(from as int);
    match mantissa_end(v, from) {
        None => {
            proof {
                assert forall|k: int| 0 < k <= t.len() && is_mantissa(#[trigger] t.take(k)) && (k
                    == t.len() || is_exponent(t.skip(k))) implies false by {
                    assert(t.take(k) =~= s.subrange(from as int, from + k));
                    if k < t.len() {
                        assert(t.skip(k)[0] == s[from + k]);
                    }
                }
            }
            false
        },
        Some(m) => {
            let ok = m == n || exponent_from(v, m);
            proof {
                let k = m - from;
                assert(t.take(k) =~= s.subrange(from as int, m as int));
                assert(t.skip(k) =~= s.skip(m as int));
                if !ok {
                    assert forall|j: int| 0 < j <= t.len() && is_mantissa(#[trigger] t.take(j))
                        && (j == t.len() || is_exponent(t.skip(j))) implies false by {
                        assert(t.take(j) =~= s.subrange(from as int, from + j));
                        if j < t.len() {
                            assert(t.skip(j)[0] == s[from + j]);
                        }
                        assert(j == k);
                    }
                }
            }
            ok
        },
    }
}

/// Whether the lines, joined by line feeds, spell a decimal literal.
pub fn is_float(lines: &[String]) -> (ok: bool)
    ensures
        ok == is_decimal_literal(join_lines(lines.deep_view())),
{
    let text = join(lines);
    let v = chars_of(text.as_str());
    is_literal(v.as_slice())
}

} // verus!
