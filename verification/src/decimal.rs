//! Base-10 unsigned parsing of an issue-number segment.
//!
//! The parse is strict: no sign characters, no surrounding whitespace, and
//! the value must fit in `u64`. Every way the parse can fail is classified.

use vstd::prelude::*;

verus! {

/// Why a segment failed to parse as a decimal number.
#[derive(Clone, Copy, Debug, PartialEq, Eq, Structural)]
pub enum ParseFailure {
    /// The segment is empty.
    Empty,
    /// The segment holds a character outside `'0'..='9'`.
    NonDigit,
    /// The digits denote a value above `u64::MAX`.
    Overflow,
}

/// Whether `c` is an ASCII decimal digit.
pub open spec fn is_digit(c: char) -> bool {
    '0' as int <= c as int <= '9' as int
}

/// The numeric value of a digit; meaningful only when `is_digit(c)`.
pub open spec fn digit_value(c: char) -> nat {
    ((c as int) - ('0' as int)) as nat
}

/// Whether every character of `s` is a decimal digit.
pub open spec fn all_digits(s: Seq<char>) -> bool {
    forall|i: int| 0 <= i < s.len() ==> is_digit(s[i])
}

/// The number denoted by a digit sequence, most significant digit first.
pub open spec fn digits_value(s: Seq<char>) -> nat
    decreases s.len(),
{
    if s.len() == 0 {
        0
    } else {
        digits_value(s.drop_last()) * 10 + digit_value(s.last())
    }
}

/// The meaning of a strict base-10 `u64` parse of `s`: the denoted value if
/// `s` is a non-empty, all-digit sequence whose value fits in `u64`, and the
/// reason for failure otherwise. An empty segment is reported as `Empty`, a
/// stray character as `NonDigit`, and a too-large value as `Overflow`.
pub open spec fn parse_u64(s: Seq<char>) -> Result<u64, ParseFailure> {
    if s.len() == 0 {
        Err(ParseFailure::Empty)
    } else if !all_digits(s) {
        Err(ParseFailure::NonDigit)
    } else if digits_value(s) > u64::MAX {
        Err(ParseFailure::Overflow)
    } else {
        Ok(digits_value(s) as u64)
    }
}

/// Parse `s` as a strict base-10 `u64`, classifying every failure.
pub fn parse_decimal(s: &str) -> (r: Result<u64, ParseFailure>)
    ensures
        r == parse_u64(s@),
{
    let n = s.unicode_len();
    if n == 0 {
        return Err(ParseFailure::Empty);
    }
    let mut acc: u64 = 0;
    let mut too_big: bool = false;
    let mut i: usize = 0;
    while i < n
        invariant
            0 < n == s@.len(),
            i <= n,
            forall|k: int| 0 <= k < i ==> is_digit(s@[k]),
            !too_big ==> acc == digits_value(s@.take(i as int)),
            too_big ==> digits_value(s@.take(i as int)) > u64::MAX,
        decreases n - i,
    {
        let c = s.get_char(i);
        let u: u32 = c as u32;
        if u < '0' as u32 || u > '9' as u32 {
            return Err(ParseFailure::NonDigit);
        }
        let d: u64 = (u - '0' as u32) as u64;
        proof {
            assert(s@.take(i + 1).drop_last() =~= s@.take(i as int));
            assert(s@.take(i + 1).last() == s@[i as int]);
            assert(digits_value(s@.take(i + 1))
                == digits_value(s@.take(i as int)) * 10 + digit_value(s@[i as int]));
            assert(digit_value(s@[i as int]) == d);
        }
        if too_big {
            proof {
                let v = digits_value(s@.take(i as int));
                assert(v * 10 + d as nat > u64::MAX) by {
                    assert(v * 10 >= v) by (nonlinear_arith)
                        requires v >= 0,
                    ;
                };
            }
        } else if acc > (u64::MAX - d) / 10 {
            proof {
                assert(acc * 10 + d > u64::MAX) by (nonlinear_arith)
                    requires
                        acc > (u64::MAX - d) / 10,
                        0 <= d <= 9,
                ;
            }
            too_big = true;
        } else {
            proof {
                assert(acc * 10 + d <= u64::MAX) by (nonlinear_arith)
                    requires
                        acc <= (u64::MAX - d) / 10,
                        0 <= d <= 9,
                ;
            }
            acc = acc * 10 + d;
        }
        i += 1;
    }
    proof {
        assert(s@.take(n as int) =~= s@);
    }
    if too_big {
        Err(ParseFailure::Overflow)
    } else {
        Ok(acc)
    }
}

} // verus!
