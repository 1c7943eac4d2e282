//! Snapshot capture times: the compact `YYYYMMDDHHMMSS` calendar
//! string of the archive's index protocol, parsed and ordered here.

use vstd::prelude::*;

verus! {

/// One calendar instant, UTC, second precision.
///
/// Chronological order of two instants is lexicographic order of the
/// field tuple, which is what [`Timestamp::after`] decides.
#[derive(Clone, Copy, Debug, PartialEq, Eq, Structural)]
pub struct Timestamp {
    pub year: i32,
    pub month: u8,
    pub day: u8,
    pub hour: u8,
    pub minute: u8,
    pub second: u8,
}

/// Leap years of the proleptic Gregorian calendar.
pub open spec fn is_leap_year(year: int) -> bool {
    year % 4 == 0 && (year % 100 != 0 || year % 400 == 0)
}

/// How many days the given month of the given year has.
pub open spec fn days_in_month(year: int, month: int) -> int {
    if month == 2 {
        if is_leap_year(year) {
            29
        } else {
            28
        }
    } else if month == 4 || month == 6 || month == 9 || month == 11 {
        30
    } else {
        31
    }
}

impl Timestamp {
    /// The fields name an instant that exists on the calendar.
    pub open spec fn calendar_valid(self) -> bool {
        &&& 1 <= self.month <= 12
        &&& 1 <= self.day <= days_in_month(self.year as int, self.month as int)
        &&& self.hour <= 23
        &&& self.minute <= 59
        &&& self.second <= 59
    }

    /// The fields are each within their positional range, month and
    /// day counted from one; weaker than [`Timestamp::calendar_valid`].
    pub open spec fn fields_in_range(self) -> bool {
        &&& 1 <= self.month <= 12
        &&& 1 <= self.day <= 31
        &&& self.hour <= 23
        &&& self.minute <= 59
        &&& self.second <= 59
    }

    /// Strictly later on the timeline: lexicographic over the fields.
    pub open spec fn after_spec(self, other: Timestamp) -> bool {
        if self.year != other.year {
            self.year > other.year
        } else if self.month != other.month {
            self.month > other.month
        } else if self.day != other.day {
            self.day > other.day
        } else if self.hour != other.hour {
            self.hour > other.hour
        } else if self.minute != other.minute {
            self.minute > other.minute
        } else {
            self.second > other.second
        }
    }

    /// Whether `self` is strictly later than `other`.
    pub fn after(&self, other: &Timestamp) -> (r: bool)
        ensures
            r == self.after_spec(*other),
    {
        if self.year != other.year {
            self.year > other.year
        } else if self.month != other.month {
            self.month > other.month
        } else if self.day != other.day {
            self.day > other.day
        } else if self.hour != other.hour {
            self.hour > other.hour
        } else if self.minute != other.minute {
            self.minute > other.minute
        } else {
            self.second > other.second
        }
    }
}

/// A decimal digit character.
pub open spec fn is_digit(c: char) -> bool {
    48 <= c as int <= 57
}

/// The numeric value of a digit character.
pub open spec fn digit_val(c: char) -> int {
    c as int - 48
}

/// All fourteen places of a timestamp string hold digits.
pub open spec fn all_digits(s: Seq<char>) -> bool {
    forall|i: int| 0 <= i < s.len() ==> is_digit(#[trigger] s[i])
}

/// The value of the two-digit field starting at `i`.
pub open spec fn two_digits(s: Seq<char>, i: int) -> int {
    digit_val(s[i]) * 10 + digit_val(s[i + 1])
}

/// The value of the four-digit field starting at `i`.
pub open spec fn four_digits(s: Seq<char>, i: int) -> int {
    digit_val(s[i]) * 1000 + digit_val(s[i + 1]) * 100 + digit_val(s[i + 2]) * 10 + digit_val(
        s[i + 3],
    )
}

/// What a timestamp string denotes: `Some` exactly for fourteen
/// digits `YYYYMMDDHHMMSS` naming an instant that exists on the
/// calendar, and then the instant's fields.
pub open spec fn timestamp_of(s: Seq<char>) -> Option<Timestamp> {
    if s.len() == 14 && all_digits(s) {
        let t = Timestamp {
            year: four_digits(s, 0) as i32,
            month: two_digits(s, 4) as u8,
            day: two_digits(s, 6) as u8,
            hour: two_digits(s, 8) as u8,
            minute: two_digits(s, 10) as u8,
            second: two_digits(s, 12) as u8,
        };
        if t.calendar_valid() {
            Some(t)
        } else {
            None
        }
    } else {
        None
    }
}

/// Leap-year test for the non-negative years a timestamp string can name.
fn is_leap_year_exec(year: i32) -> (r: bool)
    requires
        year >= 0,
    ensures
        r == is_leap_year(year as int),
{
    year % 4 == 0 && (year % 100 != 0 || year % 400 == 0)
}

/// Day count of a month, for non-negative years.
fn days_in_month_exec(year: i32, month: u8) -> (r: u8)
    requires
        year >= 0,
    ensures
        r == days_in_month(year as int, month as int),
{
    if month == 2 {
        if is_leap_year_exec(year) {
            29
        } else {
            28
        }
    } else if month == 4 || month == 6 || month == 9 || month == 11 {
        30
    } else {
        31
    }
}

/// Parses a `YYYYMMDDHHMMSS` string; `None` on anything malformed,
/// be it length, a non-digit, or a field outside the calendar.
pub fn parse_timestamp(s: &str) -> (r: Option<Timestamp>)
    ensures
        r == timestamp_of(s@),
{
    if s.unicode_len() != 14 {
        return None;
    }
    let mut digits: Vec<u8> = Vec::new();
    let mut i: usize = 0;
    while i < 14
        invariant
            s@.len() == 14,
            i <= 14,
            digits@.len() == i,
            forall|k: int|
                0 <= k < i ==> is_digit(s@[k]) && digits@[k] == digit_val(#[trigger] s@[k]),
        decreases 14 - i,
    {
        let c = s.get_char(i);
        let v = c as u32;
        if v < 48 || v > 57 {
            assert(!is_digit(s@[i as int]));
            return None;
        }
        digits.push((v - 48) as u8);
        i = i + 1;
    }
    assert(all_digits(s@));
    let year: i32 = digits[0] as i32 * 1000 + digits[1] as i32 * 100 + digits[2] as i32 * 10
        + digits[3] as i32;
    let month: u8 = digits[4] * 10 + digits[5];
    let day: u8 = digits[6] * 10 + digits[7];
    let hour: u8 = digits[8] * 10 + digits[9];
    let minute: u8 = digits[10] * 10 + digits[11];
    let second: u8 = digits[12] * 10 + digits[13];
    let t = Timestamp { year, month, day, hour, minute, second };
    if month < 1 || month > 12 {
        return None;
    }
    if day < 1 || day > days_in_month_exec(year, month) {
        return None;
    }
    if hour > 23 || minute > 59 || second > 59 {
        return None;
    }
    Some(t)
}

} // verus!
