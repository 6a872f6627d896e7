//! Strict single-value integer header codec.
//!
//! The host's header-parsing layer hands over every raw byte-string supplied
//! under one header name; this codec accepts exactly one occurrence holding
//! exactly one base-10 unsigned integer, with no sign, no separators and no
//! surrounding garbage. Every deviation — absent, duplicated, malformed or
//! out of range — collapses to `None`.

use vstd::prelude::*;

verus! {

/// An ASCII decimal digit, `'0'` through `'9'`.
pub open spec fn is_ascii_digit(b: u8) -> bool {
    48 <= b <= 57
}

/// Every byte of `s` is an ASCII decimal digit.
pub open spec fn all_ascii_digits(s: Seq<u8>) -> bool {
    forall|i: int| 0 <= i < s.len() ==> is_ascii_digit(#[trigger] s[i])
}

/// The number denoted by a sequence of ASCII decimal digits, most
/// significant digit first.
pub open spec fn decimal_value(s: Seq<u8>) -> nat
    recommends
        all_ascii_digits(s),
    decreases s.len(),
{
    if s.len() == 0 {
        0
    } else {
        (10 * decimal_value(s.drop_last()) + (s.last() - 48)) as nat
    }
}

/// The wire grammar `1*DIGIT`, restricted to values that fit the supported
/// 64-bit width: at least one byte, digits only, no overflow.
pub open spec fn valid_decimal(s: Seq<u8>) -> bool {
    &&& s.len() >= 1
    &&& all_ascii_digits(s)
    &&& decimal_value(s) <= u64::MAX
}

/// What parsing one raw value yields: the denoted number exactly when the
/// value satisfies the wire grammar, and nothing otherwise.
pub open spec fn spec_parse_decimal(s: Seq<u8>) -> Option<u64> {
    if valid_decimal(s) {
        Some(decimal_value(s) as u64)
    } else {
        None
    }
}

/// What decoding a whole header-value set yields: only a set of exactly one
/// occurrence is acceptable; zero and more-than-one are invalid, not merged.
pub open spec fn spec_decode(values: Seq<Seq<u8>>) -> Option<u64> {
    if values.len() == 1 {
        spec_parse_decimal(values[0])
    } else {
        None
    }
}

/// The denoted number only grows as digits are appended: the value of a
/// prefix never exceeds the value of the whole digit string.
proof fn lemma_decimal_value_prefix_le(s: Seq<u8>, i: int)
    requires
        0 <= i <= s.len(),
        all_ascii_digits(s),
    ensures
        decimal_value(s.take(i)) <= decimal_value(s),
    decreases s.len() - i,
{
    if i < s.len() {
        assert(s.take(i + 1).drop_last() =~= s.take(i));
        assert(decimal_value(s.take(i)) <= decimal_value(s.take(i + 1)));
        lemma_decimal_value_prefix_le(s, i + 1);
    } else {
        assert(s.take(i) =~= s);
    }
}

/// Parses one raw header value as a strict base-10 unsigned integer.
///
/// Returns `Some` exactly when the value is one or more ASCII decimal digits
/// denoting a number that fits in 64 bits, and then returns that number.
pub fn parse_decimal(s: &[u8]) -> (r: Option<u64>)
    ensures
        r == spec_parse_decimal(s@),
{
    if s.len() == 0 {
        return None;
    }
    let ghost sv: Seq<u8> = s@;
    let mut acc: u64 = 0;
    let mut i: usize = 0;
    while i < s.len()
        invariant
            0 <= i <= sv.len(),
            sv == s@,
            all_ascii_digits(sv.take(i as int)),
            acc == decimal_value(sv.take(i as int)),
        decreases sv.len() - i,
    {
        let b = s[i];
        if b < 48 || b > 57 {
            assert(!is_ascii_digit(sv[i as int]));
            return None;
        }
        let d = (b - 48) as u64;
        proof {
            assert(sv.take(i + 1).drop_last() =~= sv.take(i as int));
            assert(decimal_value(sv.take(i + 1)) == 10 * acc + d);
        }
        let shifted = match acc.checked_mul(10) {
            Some(x) => x,
            None => {
                proof {
                    if all_ascii_digits(sv) {
                        lemma_decimal_value_prefix_le(sv, i + 1);
                    }
                }
                return None;
            },
        };
        let next = match shifted.checked_add(d) {
            Some(x) => x,
            None => {
                proof {
                    if all_ascii_digits(sv) {
                        lemma_decimal_value_prefix_le(sv, i + 1);
                    }
                }
                return None;
            },
        };
        acc = next;
        i = i + 1;
    }
    proof {
        assert(sv.take(i as int) =~= sv);
    }
    Some(acc)
}

/// Decodes the full set of raw values supplied under one header name.
///
/// Returns `Some` exactly when the set holds one occurrence and that
/// occurrence parses as a strict decimal integer; zero occurrences,
/// duplicates and malformed values all yield `None` alike.
pub fn decode(values: &Vec<Vec<u8>>) -> (r: Option<u64>)
    ensures
        r == spec_decode(values.deep_view()),
{
    proof {
        assert(values.deep_view().len() == values@.len());
    }
    if values.len() == 1 {
        proof {
            assert(values.deep_view()[0] =~= values@[0]@);
        }
        parse_decimal(values[0].as_slice())
    } else {
        None
    }
}

} // verus!
