//! Verified parsing of the decimal strings exchanges put in their wire
//! messages: plain digit runs (timestamps) and decimal numbers with an
//! optional point (prices and sizes).

use vstd::prelude::*;

use crate::types::Decimal;

verus! {

/// Whether `c` is a decimal digit.
pub open spec fn is_digit(c: char) -> bool {
    '0' <= c && c <= '9'
}

/// The numeric value of a digit character.
pub open spec fn digit_val(c: char) -> int {
    c as int - '0' as int
}

/// Whether every character of `s` is a decimal digit.
pub open spec fn all_digits(s: Seq<char>) -> bool {
    forall|i: int| 0 <= i < s.len() ==> is_digit(#[trigger] s[i])
}

/// The number a run of digits denotes, most significant first.
pub open spec fn dec_value(s: Seq<char>) -> int
    decreases s.len(),
{
    if s.len() == 0 {
        0
    } else {
        dec_value(s.drop_last()) * 10 + digit_val(s.last())
    }
}

/// A digit run denotes a number that is not negative.
pub proof fn lemma_dec_value_nonneg(s: Seq<char>)
    requires
        all_digits(s),
    ensures
        dec_value(s) >= 0,
    decreases s.len(),
{
    if s.len() > 0 {
        assert(all_digits(s.drop_last()));
        lemma_dec_value_nonneg(s.drop_last());
    }
}

/// Extending a digit run never shrinks the number it denotes.
pub proof fn lemma_dec_value_prefix(s: Seq<char>, i: int)
    requires
        all_digits(s),
        0 <= i <= s.len(),
    ensures
        dec_value(s) >= dec_value(s.subrange(0, i)),
    decreases s.len() - i,
{
    if i == s.len() {
        assert(s.subrange(0, i) =~= s);
    } else {
        let shorter = s.subrange(0, i);
        let longer = s.subrange(0, i + 1);
        assert(longer.drop_last() =~= shorter);
        assert(longer.last() == s[i]);
        assert(all_digits(shorter));
        lemma_dec_value_nonneg(shorter);
        lemma_dec_value_prefix(s, i + 1);
    }
}

/// Parse a nonempty run of digits, rejecting anything else and any value
/// that does not fit the result type.
pub fn parse_digits(s: &str) -> (r: Option<i64>)
    ensures
        r matches Some(v) ==> s@.len() > 0 && all_digits(s@) && dec_value(s@) <= i64::MAX && v
            == dec_value(s@),
        r is None ==> !(s@.len() > 0 && all_digits(s@) && dec_value(s@) <= i64::MAX),
{
    let n = s.unicode_len();
    if n == 0 {
        return None;
    }
    let mut acc: i64 = 0;
    let mut i: usize = 0;
    while i < n
        invariant
            0 <= i <= n,
            n == s@.len(),
            all_digits(s@.subrange(0, i as int)),
            acc == dec_value(s@.subrange(0, i as int)),
            acc >= 0,
        decreases n - i,
    {
        let c = s.get_char(i);
        if !('0' <= c && c <= '9') {
            assert(!is_digit(s@[i as int]));
            return None;
        }
        let d: i64 = (c as u32 - 48) as i64;
        proof {
            assert(s@.subrange(0, i + 1 as int).drop_last() =~= s@.subrange(0, i as int));
            assert(s@.subrange(0, i + 1 as int).last() == s@[i as int]);
        }
        let widened = match acc.checked_mul(10) {
            Some(w) => w,
            None => {
                proof {
                    if all_digits(s@) {
                        lemma_dec_value_prefix(s@, i + 1 as int);
                    }
                }
                return None;
            },
        };
        acc = match widened.checked_add(d) {
            Some(a) => a,
            None => {
                proof {
                    if all_digits(s@) {
                        lemma_dec_value_prefix(s@, i + 1 as int);
                    }
                }
                return None;
            },
        };
        i = i + 1;
    }
    proof {
        assert(s@.subrange(0, n as int) =~= s@);
    }
    Some(acc)
}

/// The digits of a decimal string once the point at position `i` is taken
/// out; `i == s.len()` stands for a string with no point.
pub open spec fn decimal_digits(s: Seq<char>, i: int) -> Seq<char> {
    if i < s.len() {
        s.subrange(0, i) + s.subrange(i + 1, s.len() as int)
    } else {
        s
    }
}

/// How many digits of the string sit after the point at position `i`.
pub open spec fn decimal_scale(s: Seq<char>, i: int) -> int {
    if i < s.len() {
        s.len() - i - 1
    } else {
        0
    }
}

/// Whether splitting `s` at point position `i` exhibits it as a well-formed
/// decimal string whose value fits the [`Decimal`] representation.
pub open spec fn decimal_split_ok(s: Seq<char>, i: int) -> bool {
    &&& 0 <= i <= s.len()
    &&& (i < s.len() ==> s[i] == '.')
    &&& all_digits(decimal_digits(s, i))
    &&& decimal_digits(s, i).len() > 0
    &&& dec_value(decimal_digits(s, i)) <= i64::MAX
    &&& decimal_scale(s, i) <= u32::MAX
}

/// The [`Decimal`] a split denotes.
pub open spec fn decimal_at(s: Seq<char>, i: int) -> Decimal {
    Decimal {
        mantissa: dec_value(decimal_digits(s, i)) as i64,
        scale: decimal_scale(s, i) as u32,
    }
}

/// At most one position splits a string into a well-formed decimal, so the
/// split named in [`parse_decimal`]'s contract pins its result completely.
pub proof fn lemma_decimal_split_unique(s: Seq<char>, i: int, j: int)
    requires
        decimal_split_ok(s, i),
        decimal_split_ok(s, j),
    ensures
        i == j,
{
    if i < j {
        assert(decimal_digits(s, j)[i] == s[i]);
        assert(!is_digit(s[i]));
    } else if j < i {
        assert(decimal_digits(s, i)[j] == s[j]);
        assert(!is_digit(s[j]));
    }
}

/// Parse a decimal string — digits with at most one point among them — into
/// its exact plain representation, rejecting every other shape.
pub fn parse_decimal(s: &str) -> (r: Option<Decimal>)
    ensures
        r matches Some(d) ==> exists|i: int| #[trigger]
            decimal_split_ok(s@, i) && d == decimal_at(s@, i),
        r is None ==> forall|i: int| !#[trigger] decimal_split_ok(s@, i),
{
    let n = s.unicode_len();
    let mut p: usize = 0;
    while p < n && !(s.get_char(p) == '.')
        invariant
            0 <= p <= n,
            n == s@.len(),
            forall|j: int| 0 <= j < p ==> s@[j] != '.',
        decreases n - p,
    {
        p = p + 1;
    }
    if p == n {
        // No point anywhere: the digits are the whole string.
        match parse_digits(s) {
            Some(v) => {
                proof {
                    assert(decimal_digits(s@, n as int) =~= s@);
                    assert(decimal_split_ok(s@, n as int));
                }
                Some(Decimal { mantissa: v, scale: 0 })
            },
            None => {
                proof {
                    assert forall|i: int| !#[trigger] decimal_split_ok(s@, i) by {
                        if 0 <= i < s@.len() {
                            assert(s@[i] != '.');
                        } else if i == s@.len() {
                            assert(decimal_digits(s@, i) =~= s@);
                        }
                    }
                }
                None
            },
        }
    } else {
        let int_part = s.substring_char(0, p);
        let frac_part = s.substring_char(p + 1, n);
        let combined: String = int_part.to_owned().concat(frac_part);
        proof {
            assert(combined@ =~= decimal_digits(s@, p as int));
        }
        let scale_len = n - p - 1;
        let scale_fits = scale_len <= u32::MAX as usize;
        let parsed = parse_digits(combined.as_str());
        match parsed {
            Some(v) if scale_fits => {
                proof {
                    assert(decimal_split_ok(s@, p as int));
                }
                Some(Decimal { mantissa: v, scale: scale_len as u32 })
            },
            _ => {
                proof {
                    assert forall|i: int| !#[trigger] decimal_split_ok(s@, i) by {
                        lemma_only_first_point_splits(s@, p as int, i);
                    }
                }
                None
            },
        }
    }
}

/// Once the first point of `s` sits at `p` and the split there is refused,
/// no other position splits `s` into a well-formed decimal either: any other
/// candidate keeps that point among its digits.
proof fn lemma_only_first_point_splits(s: Seq<char>, p: int, i: int)
    requires
        0 <= p < s.len(),
        s[p] == '.',
        forall|j: int| 0 <= j < p ==> s[j] != '.',
        !decimal_split_ok(s, p),
    ensures
        !decimal_split_ok(s, i),
{
    if i != p && 0 <= i <= s.len() {
        if i < p {
            // A split before the first point is not at a point at all.
            assert(s[i] != '.');
        } else {
            // A split after the first point keeps that point in its digits.
            if i < s.len() {
                assert(decimal_digits(s, i)[p] == s[p]);
                assert(!is_digit(decimal_digits(s, i)[p]));
            } else {
                assert(decimal_digits(s, i)[p] == s[p]);
                assert(!is_digit(decimal_digits(s, i)[p]));
            }
        }
    }
}

} // verus!
