//! Character-level helpers: decimal integers as `str::parse::<i64>` reads them.

use vstd::prelude::*;

verus! {

/// An ASCII decimal digit.
pub open spec fn is_digit(c: char) -> bool {
    '0' <= c && c <= '9'
}

/// Every character of `s` is an ASCII decimal digit.
pub open spec fn all_digits(s: Seq<char>) -> bool {
    forall|i: int| 0 <= i < s.len() ==> is_digit(#[trigger] s[i])
}

/// The value of a digit.
pub open spec fn digit_value(c: char) -> int {
    (c as int) - ('0' as int)
}

/// The value of a string of digits, most significant first.
pub open spec fn digits_value(s: Seq<char>) -> int
    decreases s.len(),
{
    if s.len() == 0 {
        0
    } else {
        digits_value(s.drop_last()) * 10 + digit_value(s.last())
    }
}

/// The integer that a string denotes in the syntax of `i64::from_str`:
/// an optional `+` or `-`, then at least one ASCII digit, nothing else.
pub open spec fn decimal_value(s: Seq<char>) -> Option<int> {
    if s.len() > 0 && (s[0] == '-' || s[0] == '+') {
        let d = s.drop_first();
        if d.len() > 0 && all_digits(d) {
            if s[0] == '-' {
                Some(-digits_value(d))
            } else {
                Some(digits_value(d))
            }
        } else {
            None
        }
    } else if s.len() > 0 && all_digits(s) {
        Some(digits_value(s))
    } else {
        None
    }
}

/// What `s.parse::<i64>()` gives, with `None` for an error: the denoted
/// integer when it is well formed and fits in an `i64`.
pub open spec fn parsed_i64(s: Seq<char>) -> Option<i64> {
    match decimal_value(s) {
        Some(v) => if i64::MIN <= v && v <= i64::MAX {
            Some(v as i64)
        } else {
            None
        },
        None => None,
    }
}

proof fn lemma_digits_value_nonneg(s: Seq<char>)
    requires
        all_digits(s),
    ensures
        digits_value(s) >= 0,
    decreases s.len(),
{
    if s.len() > 0 {
        assert(all_digits(s.drop_last())) by {
            assert forall|i: int| 0 <= i < s.drop_last().len() implies is_digit(
                #[trigger] s.drop_last()[i],
            ) by {
                assert(s.drop_last()[i] == s[i]);
            }
        }
        lemma_digits_value_nonneg(s.drop_last());
        assert(is_digit(s[s.len() - 1]));
    }
}

/// Reads a decimal `i64` exactly as `str::parse::<i64>` does; `None` where
/// it would return an error.
pub fn parse_i64(s: &str) -> (res: Option<i64>)
    ensures
        res == parsed_i64(s@),
{
    let n = s.unicode_len();
    if n == 0 {
        return None;
    }
    let first = s.get_char(0);
    let negative = first == '-';
    let start: usize = if first == '-' || first == '+' { 1 } else { 0 };
    if start == n {
        return None;
    }
    let ghost d = s@.subrange(start as int, n as int);
    let bound: i128 = 9223372036854775808;
    let mut acc: i128 = 0;
    let mut too_big: bool = false;
    let mut i: usize = start;
    while i < n
        invariant
            start <= i <= n,
            n == s@.len(),
            start < n,
            start <= 1,
            start == 1 <==> (s@[0] == '-' || s@[0] == '+'),
            d == s@.subrange(start as int, n as int),
            all_digits(s@.subrange(start as int, i as int)),
            too_big ==> digits_value(s@.subrange(start as int, i as int)) > bound,
            !too_big ==> acc == digits_value(s@.subrange(start as int, i as int)),
            !too_big ==> 0 <= acc <= bound,
            bound == 9223372036854775808,
        decreases n - i,
    {
        let c = s.get_char(i);
        let ghost prev = s@.subrange(start as int, i as int);
        let ghost next = s@.subrange(start as int, i + 1);
        assert(next.drop_last() =~= prev);
        assert(next.last() == c);
        if !('0' <= c && c <= '9') {
            proof {
                assert(d[i - start] == c);
                assert(!all_digits(d));
                if start == 1 {
                    assert(d =~= s@.drop_first());
                } else {
                    assert(d =~= s@);
                }
            }
            return None;
        }
        proof {
            assert forall|j: int| 0 <= j < next.len() implies is_digit(#[trigger] next[j]) by {
                if j < prev.len() {
                    assert(next[j] == prev[j]);
                }
            }
            lemma_digits_value_nonneg(prev);
        }
        if !too_big {
            let dv: i128 = (c as u32 - '0' as u32) as i128;
            acc = acc * 10 + dv;
            if acc > bound {
                too_big = true;
            }
        }
        i = i + 1;
    }
    proof {
        assert(s@.subrange(start as int, n as int) =~= d);
        if start == 1 {
            assert(d =~= s@.drop_first());
        } else {
            assert(d =~= s@);
        }
    }
    if too_big {
        return None;
    }
    if negative {
        let v: i128 = -acc;
        Some(v as i64)
    } else {
        if acc == bound {
            return None;
        }
        Some(acc as i64)
    }
}

/// Whether two strings are equal.
pub fn equals(a: &str, b: &str) -> (res: bool)
    ensures
        res == (a@ == b@),
{
    a.to_owned() == b.to_owned()
}

} // verus!
