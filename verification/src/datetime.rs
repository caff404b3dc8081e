//! RFC 3339 date-time syntax.
//!
//! Event dates in RDAP must be full RFC 3339 date-times: a calendar
//! date, the letter `T`, a time, an optional fraction, and either `Z` or
//! a numeric offset. The calendar is checked for real: month lengths
//! and the leap-year rule included.

use vstd::prelude::*;

use crate::addr::{spec_dec_value, spec_digit_val, spec_is_digit};

verus! {

/// The Gregorian leap-year rule.
pub open spec fn spec_leap_year(y: int) -> bool {
    y % 4 == 0 && (y % 100 != 0 || y % 400 == 0)
}

/// The number of days in a month of a year.
pub open spec fn spec_days_in_month(y: int, m: int) -> int {
    if m == 2 {
        if spec_leap_year(y) {
            29
        } else {
            28
        }
    } else if m == 4 || m == 6 || m == 9 || m == 11 {
        30
    } else {
        31
    }
}

/// The value of the two digits at `i` and `i + 1`.
pub open spec fn spec_two_digits(s: Seq<char>, i: int) -> int {
    spec_digit_val(s[i]) * 10 + spec_digit_val(s[i + 1])
}

/// True when a time-zone offset stands at `k` and runs to the end of
/// the string: `Z` (either case), or a sign with hours and minutes.
pub open spec fn spec_valid_offset(s: Seq<char>, k: int) -> bool {
    ||| (k == s.len() - 1 && (s[k] == 'Z' || s[k] == 'z'))
    ||| {
        &&& k + 6 == s.len()
        &&& (s[k] == '+' || s[k] == '-')
        &&& spec_is_digit(s[k + 1]) && spec_is_digit(s[k + 2])
        &&& s[k + 3] == ':'
        &&& spec_is_digit(s[k + 4]) && spec_is_digit(s[k + 5])
        &&& spec_two_digits(s, k + 1) <= 23
        &&& spec_two_digits(s, k + 4) <= 59
    }
}

/// True when the fixed `YYYY-MM-DDThh:mm:ss` part is well-formed and
/// names a real calendar date and time.
pub open spec fn spec_valid_datetime_head(s: Seq<char>) -> bool {
    &&& s.len() >= 20
    &&& spec_is_digit(s[0]) && spec_is_digit(s[1]) && spec_is_digit(s[2]) && spec_is_digit(s[3])
    &&& s[4] == '-'
    &&& spec_is_digit(s[5]) && spec_is_digit(s[6])
    &&& s[7] == '-'
    &&& spec_is_digit(s[8]) && spec_is_digit(s[9])
    &&& s[10] == 'T' || s[10] == 't'
    &&& spec_is_digit(s[11]) && spec_is_digit(s[12])
    &&& s[13] == ':'
    &&& spec_is_digit(s[14]) && spec_is_digit(s[15])
    &&& s[16] == ':'
    &&& spec_is_digit(s[17]) && spec_is_digit(s[18])
    &&& 1 <= spec_two_digits(s, 5) <= 12
    &&& 1 <= spec_two_digits(s, 8)
    &&& spec_two_digits(s, 8) <= spec_days_in_month(spec_dec_value(s.take(4)), spec_two_digits(s, 5))
    &&& spec_two_digits(s, 11) <= 23
    &&& spec_two_digits(s, 14) <= 59
    &&& spec_two_digits(s, 17) <= 60
}

/// True when the whole string is an RFC 3339 date-time: the fixed head,
/// an optional fraction of one or more digits, and an offset.
pub open spec fn spec_valid_rfc3339(s: Seq<char>) -> bool {
    &&& spec_valid_datetime_head(s)
    &&& if s.len() > 19 && s[19] == '.' {
        exists|j: int| 21 <= j < s.len() && (forall|x: int| 20 <= x < j ==> spec_is_digit(s[x]))
            && spec_valid_offset(s, j)
    } else {
        spec_valid_offset(s, 19)
    }
}

/// Reads the two digits at `i` and `i + 1`.
fn two_digits(s: &str, i: usize) -> (r: Option<u32>)
    requires
        i + 2 <= s@.len(),
        s@.len() <= usize::MAX,
    ensures
        r is Some <==> spec_is_digit(s@[i as int]) && spec_is_digit(s@[i as int + 1]),
        r matches Some(v) ==> v == spec_two_digits(s@, i as int) && v <= 99,
{
    let c1 = s.get_char(i);
    let c2 = s.get_char(i + 1);
    if !('0' <= c1 && c1 <= '9') || !('0' <= c2 && c2 <= '9') {
        return None;
    }
    Some(((c1 as u32) - 48) * 10 + ((c2 as u32) - 48))
}

/// Returns true if the string is an RFC 3339 date-time.
pub fn is_rfc3339(s: &str) -> (r: bool)
    ensures
        r == spec_valid_rfc3339(s@),
{
    let n = s.unicode_len();
    if n < 20 {
        return false;
    }
    let year_digits = two_digits(s, 0);
    let year_digits2 = two_digits(s, 2);
    let (y_hi, y_lo) = match (year_digits, year_digits2) {
        (Some(a), Some(b)) => (a, b),
        _ => {
            return false;
        },
    };
    let year = y_hi * 100 + y_lo;
    proof {
        assert(s@.take(1).drop_last() =~= s@.take(0));
        assert(s@.take(1).last() == s@[0]);
        assert(s@.take(0).len() == 0);
        assert(spec_dec_value(s@.take(0)) == 0);
        assert(spec_dec_value(s@.take(1)) == spec_digit_val(s@[0]));
        assert(s@.take(2).drop_last() =~= s@.take(1));
        assert(s@.take(2).last() == s@[1]);
        assert(spec_dec_value(s@.take(2)) == spec_digit_val(s@[0]) * 10 + spec_digit_val(s@[1]));
        assert(s@.take(3).drop_last() =~= s@.take(2));
        assert(s@.take(3).last() == s@[2]);
        assert(spec_dec_value(s@.take(3)) == (spec_digit_val(s@[0]) * 10 + spec_digit_val(s@[1]))
            * 10 + spec_digit_val(s@[2]));
        assert(s@.take(4).drop_last() =~= s@.take(3));
        assert(s@.take(4).last() == s@[3]);
        assert(spec_dec_value(s@.take(4)) == ((spec_digit_val(s@[0]) * 10 + spec_digit_val(s@[1]))
            * 10 + spec_digit_val(s@[2])) * 10 + spec_digit_val(s@[3]));
    }
    if s.get_char(4) != '-' {
        return false;
    }
    let month = match two_digits(s, 5) {
        Some(m) => m,
        None => {
            return false;
        },
    };
    if s.get_char(7) != '-' {
        return false;
    }
    let day = match two_digits(s, 8) {
        Some(d) => d,
        None => {
            return false;
        },
    };
    let sep = s.get_char(10);
    if sep != 'T' && sep != 't' {
        return false;
    }
    let hour = match two_digits(s, 11) {
        Some(h) => h,
        None => {
            return false;
        },
    };
    if s.get_char(13) != ':' {
        return false;
    }
    let minute = match two_digits(s, 14) {
        Some(m) => m,
        None => {
            return false;
        },
    };
    if s.get_char(16) != ':' {
        return false;
    }
    let second = match two_digits(s, 17) {
        Some(x) => x,
        None => {
            return false;
        },
    };
    if month < 1 || month > 12 {
        return false;
    }
    let dim: u32 = if month == 2 {
        if year % 4 == 0 && (year % 100 != 0 || year % 400 == 0) {
            29
        } else {
            28
        }
    } else if month == 4 || month == 6 || month == 9 || month == 11 {
        30
    } else {
        31
    };
    if day < 1 || day > dim {
        return false;
    }
    if hour > 23 || minute > 59 || second > 60 {
        return false;
    }
    // The head is good; now the fraction and the offset.
    if s.get_char(19) == '.' {
        let mut j: usize = 20;
        loop
            invariant
                n == s@.len(),
                20 <= j <= n,
                forall|x: int| 20 <= x < j ==> spec_is_digit(s@[x]),
            ensures
                20 <= j <= n,
                forall|x: int| 20 <= x < j ==> spec_is_digit(s@[x]),
                j < n ==> !spec_is_digit(s@[j as int]),
            decreases n - j,
        {
            if j >= n {
                break;
            }
            let c = s.get_char(j);
            if !('0' <= c && c <= '9') {
                break;
            }
            j += 1;
        }
        if j == 20 {
            // No fraction digit: with a witness `j`, position 20 would
            // be a digit, yet an offset may not begin with one.
            proof {
                assert forall|w: int|
                    !(21 <= w < s@.len() && (forall|x: int| 20 <= x < w ==> spec_is_digit(s@[x]))
                        && spec_valid_offset(s@, w)) by {
                    if 21 <= w < s@.len() && (forall|x: int| 20 <= x < w ==> spec_is_digit(s@[x]))
                        && spec_valid_offset(s@, w) {
                        assert(spec_is_digit(s@[20]));
                        assert(!spec_is_digit(s@[20]));
                    }
                }
            }
            return false;
        }
        if j >= n {
            // Digits to the end: no room for an offset.
            proof {
                assert forall|w: int|
                    !(21 <= w < s@.len() && (forall|x: int| 20 <= x < w ==> spec_is_digit(s@[x]))
                        && spec_valid_offset(s@, w)) by {}
            }
            return false;
        }
        let off = offset_at(s, j);
        proof {
            // Any witness stops where the digits stop: an offset begins
            // with `Z`, `z`, `+` or `-`, never with a digit, and no
            // digit may stand between a witness and the digit run's end.
            assert forall|w: int|
                21 <= w < s@.len() && (forall|x: int| 20 <= x < w ==> spec_is_digit(s@[x]))
                    && spec_valid_offset(s@, w) implies w == j as int by {
                if w < j as int {
                    assert(spec_is_digit(s@[w]));
                    assert(!spec_valid_offset(s@, w));
                } else if w > j as int {
                    assert(spec_is_digit(s@[j as int]));
                }
            }
        }
        off
    } else {
        offset_at(s, 19)
    }
}

/// Returns true if a time-zone offset stands at `k` and closes the
/// string.
fn offset_at(s: &str, k: usize) -> (r: bool)
    requires
        k < s@.len(),
    ensures
        r == spec_valid_offset(s@, k as int),
{
    let n = s.unicode_len();
    let c = s.get_char(k);
    if c == 'Z' || c == 'z' {
        return k == n - 1;
    }
    if c != '+' && c != '-' {
        return false;
    }
    if n - k != 6 {
        return false;
    }
    let hh = match two_digits(s, k + 1) {
        Some(h) => h,
        None => {
            return false;
        },
    };
    if s.get_char(k + 3) != ':' {
        return false;
    }
    let mm = match two_digits(s, k + 4) {
        Some(m) => m,
        None => {
            return false;
        },
    };
    hh <= 23 && mm <= 59
}

} // verus!
