//! Decimal numbers in text: digits, optionally a point and more digits.

use vstd::prelude::*;
use vstd::string::StrSliceExecFns;

verus! {

/// An ASCII decimal digit.
pub open spec fn is_digit(c: char) -> bool {
    '0' <= c && c <= '9'
}

/// The value of a digit character.
pub open spec fn digit_value(c: char) -> nat {
    (c as int - '0' as int) as nat
}

/// Every character of `s` is a digit.
pub open spec fn all_digits(s: Seq<char>) -> bool {
    forall|j: int| 0 <= j < s.len() ==> is_digit(#[trigger] s[j])
}

/// The value of the digit string `s` (0 when empty).
pub open spec fn digits_value(s: Seq<char>) -> nat
    decreases s.len(),
{
    if s.len() == 0 {
        0
    } else {
        digits_value(s.drop_last()) * 10 + digit_value(s.last())
    }
}

/// `k` is the length of the run of digits that starts `s`.
pub open spec fn is_digit_run(s: Seq<char>, k: int) -> bool {
    &&& 0 <= k <= s.len()
    &&& forall|j: int| 0 <= j < k ==> is_digit(#[trigger] s[j])
    &&& (k == s.len() || !is_digit(s[k]))
}

/// The length of the run of digits that starts `s`.
pub open spec fn digit_run(s: Seq<char>) -> int {
    choose|k: int| is_digit_run(s, k)
}

/// `s` split at its leading digits and read as a decimal number: the value
/// of the whole part, and whether the fraction holds a non-zero digit.
/// `None` unless `s` is one or more digits, optionally followed by a point
/// and one or more digits.
pub open spec fn decimal_parts(s: Seq<char>) -> Option<(nat, bool)> {
    let k = digit_run(s);
    let fraction = s.skip(k + 1);
    if k == 0 {
        None
    } else if k == s.len() {
        Some((digits_value(s), false))
    } else if s[k] == '.' && fraction.len() > 0 && all_digits(fraction) {
        Some((digits_value(s.take(k)), exists|j: int| 0 <= j < fraction.len() && fraction[j] != '0'))
    } else {
        None
    }
}

/// `n` limited to the range of `u64`.
pub open spec fn saturate(n: nat) -> u64 {
    if n > u64::MAX { u64::MAX } else { n as u64 }
}

proof fn lemma_digit_run_unique(s: Seq<char>, k: int)
    requires
        is_digit_run(s, k),
    ensures
        digit_run(s) == k,
{
    let c = digit_run(s);
    assert(is_digit_run(s, c));
    if c < k {
        assert(is_digit(s[c]));
    } else if k < c {
        assert(is_digit(s[k]));
    }
}

/// The leading run of digits of `s`, with its value limited to `u64`.
fn leading_digits(s: &str) -> (r: (usize, u64))
    ensures
        r.0 <= s@.len(),
        is_digit_run(s@, r.0 as int),
        r.0 as int == digit_run(s@),
        r.1 == saturate(digits_value(s@.take(r.0 as int))),
{
    let n = s.unicode_len();
    let mut i: usize = 0;
    let mut v: u64 = 0;
    while i < n
        invariant
            n == s@.len(),
            i <= n,
            forall|j: int| 0 <= j < i ==> is_digit(#[trigger] s@[j]),
            v == saturate(digits_value(s@.take(i as int))),
        ensures
            i <= n,
            forall|j: int| 0 <= j < i ==> is_digit(#[trigger] s@[j]),
            v == saturate(digits_value(s@.take(i as int))),
            i == n || !is_digit(s@[i as int]),
        decreases n - i,
    {
        let c = s.get_char(i);
        if !('0' <= c && c <= '9') {
            break;
        }
        let d = (c as u32 - '0' as u32) as u64;
        proof {
            assert(s@.take(i + 1).drop_last() =~= s@.take(i as int));
            assert(s@.take(i + 1).last() == c);
        }
        if v > (u64::MAX - d) / 10 {
            v = u64::MAX;
        } else {
            v = v * 10 + d;
        }
        i = i + 1;
    }
    proof {
        lemma_digit_run_unique(s@, i as int);
    }
    (i, v)
}

/// Reads `s` as a decimal number: the whole part, limited to `u64`, and
/// whether the fraction holds a non-zero digit.
pub fn parse_decimal(s: &str) -> (r: Option<(u64, bool)>)
    ensures
        r == match decimal_parts(s@) {
            Some((whole, nonzero)) => Some((saturate(whole), nonzero)),
            None => None::<(u64, bool)>,
        },
{
    let n = s.unicode_len();
    let (k, whole) = leading_digits(s);
    if k == 0 {
        return None;
    }
    if k == n {
        proof {
            assert(s@.take(k as int) =~= s@);
        }
        return Some((whole, false));
    }
    if s.get_char(k) != '.' || k + 1 == n {
        return None;
    }
    let ghost fraction = s@.skip(k + 1);
    let mut i: usize = k + 1;
    let mut nonzero = false;
    while i < n
        invariant
            n == s@.len(),
            k < i <= n,
            k as int == digit_run(s@),
            s@[k as int] == '.',
            fraction == s@.skip(k + 1),
            forall|j: int| k + 1 <= j < i ==> is_digit(#[trigger] s@[j]),
            nonzero == exists|j: int| k + 1 <= j < i && s@[j] != '0',
        decreases n - i,
    {
        let c = s.get_char(i);
        if !('0' <= c && c <= '9') {
            proof {
                assert(fraction[i - (k + 1)] == s@[i as int]);
                assert(!is_digit(fraction[i - (k + 1)]));
                assert(!all_digits(fraction));
            }
            return None;
        }
        if c != '0' {
            nonzero = true;
        }
        i = i + 1;
    }
    proof {
        assert forall|j: int| 0 <= j < fraction.len() implies is_digit(#[trigger] fraction[j]) by {
            assert(fraction[j] == s@[j + k + 1]);
        }
        if nonzero {
            let j = choose|j: int| k + 1 <= j < n && s@[j] != '0';
            assert(fraction[j - (k + 1)] != '0');
        }
        if exists|j: int| 0 <= j < fraction.len() && fraction[j] != '0' {
            let j = choose|j: int| 0 <= j < fraction.len() && fraction[j] != '0';
            assert(s@[j + k + 1] != '0');
        }
    }
    Some((whole, nonzero))
}

} // verus!
