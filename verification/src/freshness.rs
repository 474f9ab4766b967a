//! How long a token is taken to be good: two hours from the moment the
//! platform says it issued it.
use vstd::prelude::*;
use vstd::string::StrSliceExecFns;

verus! {

/// The time for which a token is used without renewal, in milliseconds.
pub const VALIDITY_MS: u64 = 7_200_000;

/// Nanoseconds in a millisecond.
pub const NANOS_PER_MS: u128 = 1_000_000;

/// Whether a character is a decimal digit.
pub open spec fn is_digit(c: char) -> bool {
    '0' <= c && c <= '9'
}

/// The number that a decimal digit stands for.
pub open spec fn digit_value(c: char) -> int {
    c as u32 - '0' as u32
}

/// Whether every character of a text is a decimal digit.
pub open spec fn all_digits(s: Seq<char>) -> bool {
    forall|i: int| 0 <= i < s.len() ==> is_digit(#[trigger] s[i])
}

/// The number that a text of decimal digits stands for.
pub open spec fn digits_value(s: Seq<char>) -> int
    decreases s.len(),
{
    if s.len() == 0 {
        0
    } else {
        digits_value(s.drop_last()) * 10 + digit_value(s.last())
    }
}

/// A text without the plus sign that it may start with.
pub open spec fn unsigned_part(s: Seq<char>) -> Seq<char> {
    if s.len() > 0 && s[0] == '+' {
        s.drop_first()
    } else {
        s
    }
}

/// The number that a text stands for, as `u64` reads one: an optional plus
/// sign, then at least one decimal digit and nothing else, with a value that
/// fits. Any other text stands for no number.
pub open spec fn parsed_u64(s: Seq<char>) -> Option<u64> {
    let d = unsigned_part(s);
    if d.len() > 0 && all_digits(d) && digits_value(d) <= u64::MAX {
        Some(digits_value(d) as u64)
    } else {
        None
    }
}

/// Whether a token issued at `issued_ms`, in milliseconds since the epoch,
/// is past its time at `now_ns`, in nanoseconds since the epoch: whether now
/// is strictly later than two hours after the issue.
pub open spec fn is_stale(issued_ms: u64, now_ns: u128) -> bool {
    now_ns > (issued_ms + VALIDITY_MS) * NANOS_PER_MS
}

/// The value of a text of digits is at least that of each of its prefixes.
proof fn lemma_prefix_value(s: Seq<char>, n: int)
    requires
        0 <= n <= s.len(),
        all_digits(s),
    ensures
        0 <= digits_value(s.take(n)) <= digits_value(s),
    decreases s.len() - n,
{
    if n == s.len() {
        assert(s.take(n) =~= s);
        lemma_value_not_negative(s);
    } else {
        lemma_prefix_value(s, n + 1);
        let t = s.take(n + 1);
        assert(t.drop_last() =~= s.take(n));
        assert(t.last() == s[n]);
        assert(is_digit(s[n]));
        lemma_value_not_negative(s.take(n));
    }
}

/// The value of a text of digits is not negative.
proof fn lemma_value_not_negative(s: Seq<char>)
    requires
        all_digits(s),
    ensures
        0 <= digits_value(s),
    decreases s.len(),
{
    if s.len() > 0 {
        assert(is_digit(s.last()));
        assert(all_digits(s.drop_last())) by {
            assert forall|i: int| 0 <= i < s.drop_last().len() implies is_digit(
                #[trigger] s.drop_last()[i],
            ) by {
                assert(s.drop_last()[i] == s[i]);
            }
        }
        lemma_value_not_negative(s.drop_last());
    }
}

/// Reads a text as a `u64`, as the standard library does.
pub fn parse_u64(s: &str) -> (r: Option<u64>)
    ensures
        r == parsed_u64(s@),
{
    if !s.is_ascii() {
        proof {
            let k = choose|k: int| 0 <= k < s@.len() && !('\0' <= #[trigger] s@[k] <= '\u{7f}');
            let d = unsigned_part(s@);
            if d.len() == s@.len() {
                assert(!is_digit(d[k]));
            } else {
                assert(k >= 1);
                assert(d[k - 1] == s@[k]);
                assert(!is_digit(d[k - 1]));
            }
        }
        return None;
    }
    let n = s.unicode_len();
    let start: usize = if n > 0 && s.get_ascii(0) == 43u8 {
        1
    } else {
        0
    };
    let ghost d = unsigned_part(s@);
    assert(d =~= s@.skip(start as int)) by {
        if n > 0 {
            assert('\0' <= s@[0] <= '\u{7f}');
        }
    }
    if start == n {
        return None;
    }
    let mut acc: u64 = 0;
    let mut i: usize = start;
    while i < n
        invariant
            start <= i <= n,
            n == s@.len(),
            s.is_ascii(),
            d == s@.skip(start as int),
            d == unsigned_part(s@),
            all_digits(d.take(i - start)),
            acc == digits_value(d.take(i - start)),
        decreases n - i,
    {
        let b = s.get_ascii(i);
        let ghost c = s@[i as int];
        assert('\0' <= c <= '\u{7f}');
        assert(d[i - start] == c);
        if b < 48u8 || b > 57u8 {
            assert(!is_digit(d[i - start]));
            return None;
        }
        assert(is_digit(c));
        let digit: u64 = (b - 48u8) as u64;
        assert(digit == digit_value(c));
        let ghost next = d.take(i - start + 1);
        assert(next.drop_last() =~= d.take(i - start));
        assert(next.last() == c);
        assert(all_digits(next)) by {
            assert forall|j: int| 0 <= j < next.len() implies is_digit(#[trigger] next[j]) by {
                if j < i - start {
                    assert(d.take(i - start)[j] == next[j]);
                }
            }
        }
        if acc > (u64::MAX - digit) / 10 {
            proof {
                assert(digits_value(next) > u64::MAX);
                if all_digits(d) {
                    lemma_prefix_value(d, i - start + 1);
                }
            }
            return None;
        }
        acc = acc * 10 + digit;
        i += 1;
    }
    assert(d.take(n - start) =~= d);
    Some(acc)
}

/// Whether a token issued at `issued_ms` is past its time at `now_ns`.
pub fn past_validity(issued_ms: u64, now_ns: u128) -> (r: bool)
    ensures
        r == is_stale(issued_ms, now_ns),
{
    let bound: u128 = (issued_ms as u128 + VALIDITY_MS as u128) * NANOS_PER_MS;
    now_ns > bound
}

/// A token is good for exactly two hours: up to and including the last
/// nanosecond of the second hour it is not stale, and from the next one on
/// it is.
pub proof fn lemma_validity_window(issued_ms: u64, now_ns: u128)
    ensures
        now_ns <= issued_ms * 1_000_000 + 7_200_000_000_000 ==> !is_stale(issued_ms, now_ns),
        now_ns > issued_ms * 1_000_000 + 7_200_000_000_000 ==> is_stale(issued_ms, now_ns),
{
}

} // verus!
