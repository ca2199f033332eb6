//! Field-level decoding of venue wire text.
//!
//! Venues transmit numeric values and timestamps as text; these functions
//! perform the required coercions exactly: decimal text to a `Decimal`,
//! epoch-millisecond text to an instant, and side tokens to the canonical
//! two-valued `Side`. Each function rejects malformed text rather than
//! guessing, so one malformed record can fail alone.

use vstd::prelude::*;
use crate::model::{Decimal, Side};

verus! {

/// An ASCII decimal digit.
pub open spec fn is_digit(c: char) -> bool {
    48 <= c as int <= 57
}

/// Numeric value of one digit character.
pub open spec fn digit_val(c: char) -> int {
    c as int - 48
}

/// Every character of `s` is a digit.
pub open spec fn all_digits(s: Seq<char>) -> bool {
    forall|i: int| 0 <= i < s.len() ==> is_digit(s[i])
}

/// Value of a digit string read most-significant first.
pub open spec fn digits_val(s: Seq<char>) -> int
    decreases s.len(),
{
    if s.len() == 0 {
        0
    } else {
        digits_val(s.drop_last()) * 10 + digit_val(s.last())
    }
}

/// Text that denotes a `u64`: nonempty, all digits, within range.
pub open spec fn valid_u64_text(s: Seq<char>) -> bool {
    s.len() > 0 && all_digits(s) && digits_val(s) <= u64::MAX
}

proof fn lemma_digits_val_nonneg(s: Seq<char>)
    requires
        all_digits(s),
    ensures
        digits_val(s) >= 0,
    decreases s.len(),
{
    if s.len() > 0 {
        assert(all_digits(s.drop_last()));
        lemma_digits_val_nonneg(s.drop_last());
    }
}

/// Extending a digit string can only grow its value.
proof fn lemma_digits_val_prefix(s: Seq<char>, j: int)
    requires
        0 <= j <= s.len(),
        all_digits(s),
    ensures
        digits_val(s.take(j)) <= digits_val(s),
    decreases s.len() - j,
{
    if j < s.len() {
        assert(s.take(j + 1).drop_last() =~= s.take(j));
        assert(s.take(j + 1).last() == s[j]);
        assert(all_digits(s.take(j)));
        lemma_digits_val_nonneg(s.take(j));
        lemma_digits_val_prefix(s, j + 1);
    } else {
        assert(s.take(j) =~= s);
    }
}

/// Parse a nonempty all-digit string as a `u64`.
pub fn parse_u64_digits(s: &str) -> (r: Option<u64>)
    ensures
        r is Some <==> valid_u64_text(s@),
        r is Some ==> r->0 == digits_val(s@),
{
    let n = s.unicode_len();
    if n == 0 {
        return None;
    }
    let mut acc: u64 = 0;
    let mut i: usize = 0;
    while i < n
        invariant
            0 <= i <= n,
            n == s@.len(),
            all_digits(s@.take(i as int)),
            acc == digits_val(s@.take(i as int)),
        decreases n - i,
    {
        let c = s.get_char(i);
        let v = c as u32;
        if v < 48 || v > 57 {
            assert(!is_digit(s@[i as int]));
            return None;
        }
        let d = (v - 48) as u64;
        let shifted = match acc.checked_mul(10) {
            Some(m) => m.checked_add(d),
            None => None,
        };
        match shifted {
            Some(next) => {
                proof {
                    assert(s@.take(i as int + 1).drop_last() =~= s@.take(i as int));
                    assert(s@.take(i as int + 1).last() == s@[i as int]);
                }
                acc = next;
                i = i + 1;
            },
            None => {
                proof {
                    assert(s@.take(i as int + 1).drop_last() =~= s@.take(i as int));
                    assert(s@.take(i as int + 1).last() == s@[i as int]);
                    assert(digits_val(s@.take(i as int + 1)) > u64::MAX);
                    if all_digits(s@) {
                        lemma_digits_val_prefix(s@, i as int + 1);
                    }
                }
                return None;
            },
        }
    }
    proof {
        assert(s@.take(n as int) =~= s@);
    }
    Some(acc)
}

/// Position of the first `.` in `s` at or after `i`, if any.
pub open spec fn find_dot(s: Seq<char>, i: int) -> Option<int>
    decreases s.len() - i when 0 <= i <= s.len()
{
    if i >= s.len() {
        None
    } else if s[i] == '.' {
        Some(i)
    } else {
        find_dot(s, i + 1)
    }
}

/// What decimal text denotes, if well formed: either a plain digit
/// string, or integer digits, one dot, and fraction digits, provided the
/// combined digits fit a `u64` mantissa.
pub open spec fn spec_parse_decimal(s: Seq<char>) -> Option<Decimal> {
    match find_dot(s, 0) {
        None => if valid_u64_text(s) {
            Some(Decimal { mantissa: digits_val(s) as u64, scale: 0 })
        } else {
            None
        },
        Some(k) => {
            let ip = s.take(k);
            let fp = s.skip(k + 1);
            if ip.len() >= 1 && fp.len() >= 1 && valid_u64_text(ip + fp) && fp.len()
                <= u32::MAX {
                Some(Decimal { mantissa: digits_val(ip + fp) as u64, scale: fp.len() as u32 })
            } else {
                None
            }
        },
    }
}

/// Parse decimal text (`"100.5"`, `"42"`) into an exact `Decimal`.
pub fn parse_decimal(s: &str) -> (r: Option<Decimal>)
    ensures
        r == spec_parse_decimal(s@),
{
    let n = s.unicode_len();
    let mut i: usize = 0;
    let mut dot: Option<usize> = None;
    while i < n
        invariant
            0 <= i <= n,
            n == s@.len(),
            dot is None ==> find_dot(s@, 0) == find_dot(s@, i as int),
            dot is Some ==> find_dot(s@, 0) == Some(dot->0 as int) && dot->0 < n,
        decreases n - i,
    {
        if dot.is_none() {
            let c = s.get_char(i);
            if c == '.' {
                dot = Some(i);
            }
        }
        i = i + 1;
    }
    match dot {
        None => {
            assert(find_dot(s@, n as int) is None);
            match parse_u64_digits(s) {
                Some(m) => Some(Decimal { mantissa: m, scale: 0 }),
                None => None,
            }
        },
        Some(k) => {
            let ip = s.substring_char(0, k);
            let fp = s.substring_char(k + 1, n);
            if ip.unicode_len() == 0 || fp.unicode_len() == 0 {
                return None;
            }
            let flen = fp.unicode_len();
            if flen > u32::MAX as usize {
                return None;
            }
            let cat = String::from_str(ip).concat(fp);
            proof {
                assert(cat@ =~= s@.take(k as int) + s@.skip(k as int + 1));
            }
            match parse_u64_digits(cat.as_str()) {
                Some(m) => Some(Decimal { mantissa: m, scale: flen as u32 }),
                None => None,
            }
        },
    }
}

/// Text that denotes an epoch-millisecond instant: a nonempty digit
/// string whose value fits an `i64`.
pub open spec fn valid_epoch_ms_text(s: Seq<char>) -> bool {
    s.len() > 0 && all_digits(s) && digits_val(s) <= i64::MAX
}

/// Parse epoch-millisecond text into an absolute instant (milliseconds
/// since the Unix epoch).
pub fn parse_epoch_ms(s: &str) -> (r: Option<i64>)
    ensures
        r is Some <==> valid_epoch_ms_text(s@),
        r is Some ==> r->0 == digits_val(s@),
{
    match parse_u64_digits(s) {
        Some(v) => {
            if v <= i64::MAX as u64 {
                Some(v as i64)
            } else {
                None
            }
        },
        None => {
            proof {
                if valid_epoch_ms_text(s@) {
                    assert(valid_u64_text(s@));
                }
            }
            None
        },
    }
}

/// Compare two string slices by their characters.
pub fn eq_str(a: &str, b: &str) -> (r: bool)
    ensures
        r <==> a@ == b@,
{
    let na = a.unicode_len();
    let nb = b.unicode_len();
    if na != nb {
        return false;
    }
    let mut i: usize = 0;
    while i < na
        invariant
            0 <= i <= na,
            na == a@.len(),
            na == b@.len(),
            forall|j: int| 0 <= j < i ==> a@[j] == b@[j],
        decreases na - i,
    {
        if a.get_char(i) != b.get_char(i) {
            assert(a@[i as int] != b@[i as int]);
            return false;
        }
        i = i + 1;
    }
    proof {
        assert(a@ =~= b@);
    }
    true
}

/// The canonical meaning of a venue side token.
pub open spec fn spec_parse_side(s: Seq<char>) -> Option<Side> {
    if s == "buy"@ {
        Some(Side::Buy)
    } else if s == "sell"@ {
        Some(Side::Sell)
    } else {
        None
    }
}

/// Map a venue side token to the canonical side.
pub fn parse_side(s: &str) -> (r: Option<Side>)
    ensures
        r == spec_parse_side(s@),
{
    if eq_str(s, "buy") {
        Some(Side::Buy)
    } else if eq_str(s, "sell") {
        Some(Side::Sell)
    } else {
        None
    }
}

} // verus!
