//! Calendar dates and the exchange's `YYYYMMDDHHmmss` timestamp format.

use vstd::prelude::*;
use vstd::string::*;
use crate::text::{digits_val, is_dec_digit, lemma_digits_val_step};

verus! {

/// A calendar date, held as plain year, month and day numbers.
#[derive(Debug, Clone, Copy, PartialEq, Eq, Structural)]
pub struct Date {
    pub year: u16,
    pub month: u8,
    pub day: u8,
}

/// A naive (timezone-less) date and time.
#[derive(Debug, Clone, Copy, PartialEq, Eq, Structural)]
pub struct DateTime {
    pub date: Date,
    pub hour: u8,
    pub minute: u8,
    pub second: u8,
}

pub open spec fn is_leap_year(y: int) -> bool {
    y % 4 == 0 && (y % 100 != 0 || y % 400 == 0)
}

pub open spec fn spec_days_in_month(y: int, m: int) -> int {
    if m == 2 {
        if is_leap_year(y) {
            29
        } else {
            28
        }
    } else if m == 4 || m == 6 || m == 9 || m == 11 {
        30
    } else {
        31
    }
}

impl Date {
    /// A real calendar date with a four-digit year.
    pub open spec fn wf(self) -> bool {
        &&& self.year <= 9999
        &&& 1 <= self.month <= 12
        &&& 1 <= self.day <= spec_days_in_month(self.year as int, self.month as int)
    }
}

impl DateTime {
    pub open spec fn wf(self) -> bool {
        &&& self.date.wf()
        &&& self.hour <= 23
        &&& self.minute <= 59
        &&& self.second <= 59
    }
}

fn days_in_month(y: u32, m: u32) -> (r: u32)
    ensures
        r == spec_days_in_month(y as int, m as int),
{
    if m == 2 {
        if y % 4 == 0 && (y % 100 != 0 || y % 400 == 0) {
            29
        } else {
            28
        }
    } else if m == 4 || m == 6 || m == 9 || m == 11 {
        30
    } else {
        31
    }
}

/// The value of the two digits of `s` starting at `i`.
pub open spec fn two_digit_val(s: Seq<char>, i: int) -> int {
    digits_val(s.subrange(i, i + 2))
}

/// The value of the four digits of `s` starting at `i`.
pub open spec fn four_digit_val(s: Seq<char>, i: int) -> int {
    digits_val(s.subrange(i, i + 4))
}

proof fn lemma_two_digit_val(s: Seq<char>, i: int)
    requires
        0 <= i,
        i + 2 <= s.len(),
    ensures
        two_digit_val(s, i) == (s[i] as u32 - 48) * 10 + (s[i + 1] as u32 - 48),
{
    let t = s.subrange(i, i + 2);
    let t1 = s.subrange(i, i + 1);
    assert(t.last() == s[i + 1]);
    assert(t.drop_last() =~= t1);
    assert(t1.last() == s[i]);
    assert(t1.drop_last() =~= s.subrange(i, i));
    assert(s.subrange(i, i).len() == 0);
    assert(digits_val(t1.drop_last()) == 0);
    assert(digits_val(t1) == digits_val(t1.drop_last()) * 10 + (t1.last() as u32 - 48));
    assert(digits_val(t1) == s[i] as u32 - 48);
}

proof fn lemma_four_digit_val(s: Seq<char>, i: int)
    requires
        0 <= i,
        i + 4 <= s.len(),
    ensures
        four_digit_val(s, i) == (s[i] as u32 - 48) * 1000 + (s[i + 1] as u32 - 48) * 100 + (s[i
            + 2] as u32 - 48) * 10 + (s[i + 3] as u32 - 48),
{
    let t = s.subrange(i, i + 4);
    let t3 = s.subrange(i, i + 3);
    assert(t.last() == s[i + 3]);
    assert(t.drop_last() =~= t3);
    assert(t3.last() == s[i + 2]);
    assert(t3.drop_last() =~= s.subrange(i, i + 2));
    lemma_two_digit_val(s, i);
    assert(digits_val(t3) == two_digit_val(s, i) * 10 + (s[i + 2] as u32 - 48));
}

/// `parse_date_from_sse` in spec form: fourteen digits `YYYYMMDDHHmmss`
/// naming a real calendar date and time, else nothing.
pub open spec fn spec_parse_datetime(s: Seq<char>) -> Option<DateTime> {
    if s.len() == 14 && (forall|i: int| 0 <= i < 14 ==> is_dec_digit(s[i])) {
        let dt = DateTime {
            date: Date {
                year: four_digit_val(s, 0) as u16,
                month: two_digit_val(s, 4) as u8,
                day: two_digit_val(s, 6) as u8,
            },
            hour: two_digit_val(s, 8) as u8,
            minute: two_digit_val(s, 10) as u8,
            second: two_digit_val(s, 12) as u8,
        };
        if dt.wf() {
            Some(dt)
        } else {
            None
        }
    } else {
        None
    }
}

fn digit_at(s: &str, i: usize) -> (r: Option<u32>)
    requires
        i < s@.len(),
    ensures
        match r {
            Some(d) => is_dec_digit(s@[i as int]) && d == s@[i as int] as u32 - 48 && d <= 9,
            None => !is_dec_digit(s@[i as int]),
        },
{
    let u = s.get_char(i) as u32;
    if 48 <= u && u <= 57 {
        Some(u - 48)
    } else {
        None
    }
}

fn two_digits_at(s: &str, i: usize) -> (r: Option<u32>)
    requires
        i + 2 <= s@.len(),
        s@.len() <= usize::MAX,
    ensures
        match r {
            Some(v) => is_dec_digit(s@[i as int]) && is_dec_digit(s@[i + 1]) && v
                == two_digit_val(s@, i as int) && v <= 99,
            None => !(is_dec_digit(s@[i as int]) && is_dec_digit(s@[i + 1])),
        },
{
    proof {
        lemma_two_digit_val(s@, i as int);
    }
    match (digit_at(s, i), digit_at(s, i + 1)) {
        (Some(a), Some(b)) => Some(a * 10 + b),
        _ => None,
    }
}

/// Parses the exchange's fourteen-digit timestamp, validating that the
/// components name a real date and time.
pub fn parse_date_from_sse(s: &str) -> (r: Option<DateTime>)
    ensures
        r == spec_parse_datetime(s@),
        r matches Some(dt) ==> dt.wf(),
{
    let n = s.unicode_len();
    if n != 14 {
        return None;
    }
    proof {
        lemma_four_digit_val(s@, 0);
    }
    let (y, mo, d, h, mi, se) = match (
        digit_at(s, 0),
        digit_at(s, 1),
        digit_at(s, 2),
        digit_at(s, 3),
        two_digits_at(s, 4),
        two_digits_at(s, 6),
        two_digits_at(s, 8),
        two_digits_at(s, 10),
        two_digits_at(s, 12),
    ) {
        (Some(y0), Some(y1), Some(y2), Some(y3), Some(mo), Some(d), Some(h), Some(mi), Some(se)) => (
            y0 * 1000 + y1 * 100 + y2 * 10 + y3,
            mo,
            d,
            h,
            mi,
            se,
        ),
        _ => {
            return None;
        },
    };
    let ok = 1 <= mo && mo <= 12 && 1 <= d && d <= days_in_month(y, mo) && h <= 23 && mi <= 59 && se
        <= 59;
    if ok {
        Some(
            DateTime {
                date: Date { year: y as u16, month: mo as u8, day: d as u8 },
                hour: h as u8,
                minute: mi as u8,
                second: se as u8,
            },
        )
    } else {
        None
    }
}

} // verus!
