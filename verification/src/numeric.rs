//! Parsing a decimal numeral into a `u64`, exactly as the standard library's
//! `str::parse::<u64>` accepts it: an optional leading `+`, then one or more
//! ASCII digits, rejected on overflow.

use vstd::prelude::*;

verus! {

/// Is `c` an ASCII decimal digit?
pub open spec fn is_digit(c: char) -> bool {
    48 <= c as u32 <= 57
}

/// The numeric value of a digit.
pub open spec fn digit_value(c: char) -> int {
    c as u32 - 48
}

/// Does `s` consist of digits only?
pub open spec fn all_digits(s: Seq<char>) -> bool {
    forall|i: int| 0 <= i < s.len() ==> is_digit(#[trigger] s[i])
}

/// The value of a digit string, most significant digit first.
pub open spec fn digits_value(s: Seq<char>) -> int
    decreases s.len(),
{
    if s.len() == 0 {
        0
    } else {
        digits_value(s.drop_last()) * 10 + digit_value(s.last())
    }
}

/// What `str::parse::<u64>` returns on `s`: the value of the digits after an
/// optional leading `+`, or nothing when the shape is wrong or the value does
/// not fit.
pub open spec fn spec_parse_u64(s: Seq<char>) -> Option<u64> {
    let body = if s.len() >= 1 && s[0] == '+' {
        s.subrange(1, s.len() as int)
    } else {
        s
    };
    if body.len() > 0 && all_digits(body) && digits_value(body) <= u64::MAX {
        Some(digits_value(body) as u64)
    } else {
        None
    }
}

/// The value of a digit string never goes down when digits are appended.
proof fn lemma_digits_value_nonneg(s: Seq<char>)
    requires
        all_digits(s),
    ensures
        digits_value(s) >= 0,
    decreases s.len(),
{
    if s.len() > 0 {
        lemma_digits_value_nonneg(s.drop_last());
    }
}

/// A prefix of a digit string is worth no more than the whole string.
proof fn lemma_digits_value_prefix(s: Seq<char>, i: int)
    requires
        all_digits(s),
        0 <= i <= s.len(),
    ensures
        digits_value(s.subrange(0, i)) <= digits_value(s),
    decreases s.len() - i,
{
    if i < s.len() {
        lemma_digits_value_prefix(s, i + 1);
        let shorter = s.subrange(0, i);
        let longer = s.subrange(0, i + 1);
        assert(longer.drop_last() =~= shorter);
        lemma_digits_value_nonneg(shorter);
        assert(digits_value(shorter) <= digits_value(shorter) * 10 + digit_value(longer.last()));
    } else {
        assert(s.subrange(0, i) =~= s);
    }
}

/// Parses `s` as the standard library's `str::parse::<u64>` would.
#[verifier::loop_isolation(false)]
pub fn parse_u64(s: &str) -> (r: Option<u64>)
    ensures
        r == spec_parse_u64(s@),
{
    let n = s.unicode_len();
    let start: usize = if n >= 1 && s.get_char(0) == '+' {
        1
    } else {
        0
    };
    let ghost body = if start == 1 {
        s@.subrange(1, s@.len() as int)
    } else {
        s@
    };
    if start == n {
        return None;
    }
    let mut acc: u64 = 0;
    let mut i: usize = start;
    while i < n
        invariant
            start <= i <= n,
            all_digits(body.subrange(0, i - start)),
            acc == digits_value(body.subrange(0, i - start)),
        decreases n - i,
    {
        let c = s.get_char(i);
        let d = c as u32;
        assert(body[i - start] == s@[i as int]);
        if d < 48 || d > 57 {
            assert(!all_digits(body));
            return None;
        }
        let digit: u64 = (d - 48) as u64;
        let ghost upto = body.subrange(0, i + 1 - start);
        proof {
            assert(upto.drop_last() =~= body.subrange(0, i - start));
            assert(upto.last() == body[i - start]);
            assert(digits_value(upto) == acc * 10 + digit);
        }
        let stepped = match acc.checked_mul(10) {
            Some(t) => t.checked_add(digit),
            None => None,
        };
        match stepped {
            Some(next) => {
                acc = next;
            },
            None => {
                proof {
                    assert(digits_value(upto) > u64::MAX);
                    if all_digits(body) {
                        lemma_digits_value_prefix(body, i + 1 - start);
                        assert(digits_value(body) > u64::MAX);
                    }
                }
                return None;
            },
        }
        i = i + 1;
    }
    proof {
        assert(body.subrange(0, i - start) =~= body);
    }
    Some(acc)
}

} // verus!
