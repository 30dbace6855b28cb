//! The time of an observation, read from and written to the pattern `YYYYMMDDHHmm`.

use vstd::prelude::*;
use crate::digits::{
    char_digit_value, char_is_digit, digit_char, digit_text, digit_value, digits_value, is_digit,
};

verus! {

/// The number of characters of a timestamp's text.
pub const TIMESTAMP_LEN: usize = 12;

/// A point in time to the minute, in the proleptic Gregorian calendar.
pub ghost struct Moment {
    pub year: int,
    pub month: int,
    pub day: int,
    pub hour: int,
    pub minute: int,
}

/// Whether `year` has a 29th of February.
pub open spec fn is_leap_year(year: int) -> bool {
    year % 4 == 0 && (year % 100 != 0 || year % 400 == 0)
}

/// The number of days of the month `month` of the year `year`.
pub open spec fn days_in_month(year: int, month: int) -> int {
    if month == 2 {
        if is_leap_year(year) {
            29
        } else {
            28
        }
    } else if month == 4 || month == 6 || month == 9 || month == 11 {
        30
    } else {
        31
    }
}

/// Whether the calendar has the given day.
pub open spec fn date_exists(year: int, month: int, day: int) -> bool {
    1 <= month <= 12 && 1 <= day <= days_in_month(year, month)
}

impl Moment {
    /// Whether this is a minute of a day that the calendar has, in a year of four
    /// digits.
    pub open spec fn valid(self) -> bool {
        &&& 0 <= self.year <= 9999
        &&& date_exists(self.year, self.month, self.day)
        &&& 0 <= self.hour < 24
        &&& 0 <= self.minute < 60
    }
}

/// Asks `chrono::NaiveDate::from_ymd_opt` whether the calendar has the given day;
/// the call is not verified here. It is taken to return a date exactly where the
/// month is one of the twelve and the day is one of that month's days, by the
/// Gregorian rule for leap years. The year is kept to four digits, well within
/// the range of `NaiveDate`, so that no date is refused for its year.
#[verifier::external_body]
fn calendar_has(year: i32, month: u32, day: u32) -> (r: bool)
    requires
        0 <= year <= 9999,
    ensures
        r == date_exists(year as int, month as int, day as int),
{
    chrono::NaiveDate::from_ymd_opt(year, month, day).is_some()
}

/// The last `width` decimal digits of `n`, with leading zeros.
pub open spec fn padded(n: nat, width: nat) -> Seq<char>
    decreases width,
{
    if width == 0 {
        Seq::empty()
    } else {
        padded(n / 10, (width - 1) as nat).push(digit_char((n % 10) as int))
    }
}

/// The text of a moment: year, month, day, hour and minute, each with leading
/// zeros, with nothing between them.
pub open spec fn formatted(m: Moment) -> Seq<char> {
    padded(m.year as nat, 4) + padded(m.month as nat, 2) + padded(m.day as nat, 2) + padded(
        m.hour as nat,
        2,
    ) + padded(m.minute as nat, 2)
}

/// Whether every character of `s` is a decimal digit.
pub open spec fn all_digits(s: Seq<char>) -> bool {
    forall|i: int| 0 <= i < s.len() ==> is_digit(#[trigger] s[i])
}

/// The number that the digits `s[from..to]` spell.
pub open spec fn number_at(s: Seq<char>, from: int, to: int) -> int {
    digits_value(s.subrange(from, to)) as int
}

/// The moment that the text `s` denotes: twelve digits that spell year, month,
/// day, hour and minute of a valid moment. Any other text denotes none.
pub open spec fn parsed_timestamp(s: Seq<char>) -> Option<Moment> {
    if s.len() == TIMESTAMP_LEN && all_digits(s) {
        let m = Moment {
            year: number_at(s, 0, 4),
            month: number_at(s, 4, 6),
            day: number_at(s, 6, 8),
            hour: number_at(s, 8, 10),
            minute: number_at(s, 10, 12),
        };
        if m.valid() {
            Some(m)
        } else {
            None
        }
    } else {
        None
    }
}

/// Padding yields `width` digits that spell `n`, where `n` has no more digits.
pub proof fn lemma_padded(n: nat, width: nat)
    ensures
        padded(n, width).len() == width,
        all_digits(padded(n, width)),
        n < crate::digits::pow10(width) ==> digits_value(padded(n, width)) == n,
    decreases width,
{
    if width > 0 {
        lemma_padded(n / 10, (width - 1) as nat);
        let s = padded(n, width);
        assert(s.drop_last() =~= padded(n / 10, (width - 1) as nat));
        assert(digit_value(digit_char((n % 10) as int)) == n % 10);
        assert(is_digit(s.last()));
        assert forall|i: int| 0 <= i < s.len() implies is_digit(#[trigger] s[i]) by {
            if i < s.len() - 1 {
                assert(s[i] == s.drop_last()[i]);
            }
        }
    }
}

/// The text of a valid moment denotes that moment.
pub proof fn lemma_format_then_parse(m: Moment)
    requires
        m.valid(),
    ensures
        parsed_timestamp(formatted(m)) == Some(m),
{
    let s = formatted(m);
    lemma_padded(m.year as nat, 4);
    lemma_padded(m.month as nat, 2);
    lemma_padded(m.day as nat, 2);
    lemma_padded(m.hour as nat, 2);
    lemma_padded(m.minute as nat, 2);
    reveal_with_fuel(crate::digits::pow10, 5);
    assert(s.len() == 12);
    assert(s.subrange(0, 4) =~= padded(m.year as nat, 4));
    assert(s.subrange(4, 6) =~= padded(m.month as nat, 2));
    assert(s.subrange(6, 8) =~= padded(m.day as nat, 2));
    assert(s.subrange(8, 10) =~= padded(m.hour as nat, 2));
    assert(s.subrange(10, 12) =~= padded(m.minute as nat, 2));
    assert(all_digits(s));
}

/// Digits of the given width are the padding of the number that they spell.
pub proof fn lemma_padded_digits(d: Seq<char>)
    requires
        all_digits(d),
    ensures
        padded(digits_value(d), d.len()) == d,
    decreases d.len(),
{
    if d.len() > 0 {
        let init = d.drop_last();
        assert forall|i: int| 0 <= i < init.len() implies is_digit(#[trigger] init[i]) by {
            assert(init[i] == d[i]);
        }
        lemma_padded_digits(init);
        assert(is_digit(d.last()));
        let n = digits_value(d);
        assert(n == digits_value(init) * 10 + digit_value(d.last()));
        assert(n / 10 == digits_value(init));
        assert(n % 10 == digit_value(d.last()));
        assert(digit_char(digit_value(d.last())) == d.last());
        assert(padded(n, d.len()) =~= d);
    }
}

/// Text that denotes a moment is the text of that moment.
pub proof fn lemma_parse_then_format(s: Seq<char>)
    requires
        parsed_timestamp(s) is Some,
    ensures
        formatted(parsed_timestamp(s)->Some_0) == s,
{
    assert forall|i: int| 0 <= i < 4 implies is_digit(#[trigger] s.subrange(0, 4)[i]) by {
        assert(s.subrange(0, 4)[i] == s[i]);
    }
    assert forall|i: int| 0 <= i < 2 implies is_digit(#[trigger] s.subrange(4, 6)[i]) by {
        assert(s.subrange(4, 6)[i] == s[i + 4]);
    }
    assert forall|i: int| 0 <= i < 2 implies is_digit(#[trigger] s.subrange(6, 8)[i]) by {
        assert(s.subrange(6, 8)[i] == s[i + 6]);
    }
    assert forall|i: int| 0 <= i < 2 implies is_digit(#[trigger] s.subrange(8, 10)[i]) by {
        assert(s.subrange(8, 10)[i] == s[i + 8]);
    }
    assert forall|i: int| 0 <= i < 2 implies is_digit(#[trigger] s.subrange(10, 12)[i]) by {
        assert(s.subrange(10, 12)[i] == s[i + 10]);
    }
    lemma_padded_digits(s.subrange(0, 4));
    lemma_padded_digits(s.subrange(4, 6));
    lemma_padded_digits(s.subrange(6, 8));
    lemma_padded_digits(s.subrange(8, 10));
    lemma_padded_digits(s.subrange(10, 12));
    assert(s =~= s.subrange(0, 4) + s.subrange(4, 6) + s.subrange(6, 8) + s.subrange(8, 10)
        + s.subrange(10, 12));
}

/// The time of an observation, to the minute.
#[derive(Clone, Copy, Debug, PartialEq, Eq)]
pub struct Timestamp {
    year: u16,
    month: u8,
    day: u8,
    hour: u8,
    minute: u8,
}

impl View for Timestamp {
    type V = Moment;

    closed spec fn view(&self) -> Moment {
        Moment {
            year: self.year as int,
            month: self.month as int,
            day: self.day as int,
            hour: self.hour as int,
            minute: self.minute as int,
        }
    }
}

/// Reads the `width` digits of `s` that start at `start`.
fn read_fixed(s: &str, start: usize, width: usize) -> (r: Option<u32>)
    requires
        s@.len() == TIMESTAMP_LEN,
        start + width <= TIMESTAMP_LEN,
        width <= 4,
    ensures
        r is Some <==> all_digits(s@.subrange(start as int, start + width)),
        r matches Some(n) ==> n == number_at(s@, start as int, start + width) && n < 10000,
{
    let mut n: u32 = 0;
    let mut i: usize = 0;
    proof {
        assert(s@.subrange(start as int, start as int) =~= Seq::<char>::empty());
        reveal_with_fuel(crate::digits::pow10, 5);
    }
    while i < width
        invariant
            s@.len() == TIMESTAMP_LEN,
            start + width <= TIMESTAMP_LEN,
            width <= 4,
            i <= width,
            all_digits(s@.subrange(start as int, start + i)),
            n == number_at(s@, start as int, start + i),
            n < crate::digits::pow10(i as nat),
        decreases width - i,
    {
        let c: char = s.get_char(start + i);
        proof {
            let before = s@.subrange(start as int, start + i);
            let after = s@.subrange(start as int, start + i + 1);
            assert(after.drop_last() =~= before);
            assert(after.last() == c);
            reveal_with_fuel(crate::digits::pow10, 5);
        }
        if !char_is_digit(c) {
            proof {
                let whole = s@.subrange(start as int, start + width);
                assert(whole[i as int] == c);
            }
            return None;
        }
        let d: i64 = char_digit_value(c);
        n = n * 10 + d as u32;
        i += 1;
        proof {
            let after = s@.subrange(start as int, start + i);
            assert forall|j: int| 0 <= j < after.len() implies is_digit(#[trigger] after[j]) by {
                if j < after.len() - 1 {
                    assert(after[j] == after.drop_last()[j]);
                }
            }
        }
    }
    Some(n)
}

/// Appends the last `width` decimal digits of `n` to `out`, with leading zeros.
fn append_padded(out: &mut String, n: u32, width: u8)
    ensures
        final(out)@ == old(out)@ + padded(n as nat, width as nat),
    decreases width,
{
    if width > 0 {
        append_padded(out, n / 10, width - 1);
        out.append(digit_text((n % 10) as u8));
        assert(out@ =~= old(out)@ + padded(n as nat, width as nat));
    } else {
        assert(out@ =~= old(out)@ + padded(n as nat, width as nat));
    }
}

impl Timestamp {
    #[verifier::type_invariant]
    spec fn is_valid(self) -> bool {
        self@.valid()
    }

    /// Reads a timestamp from text of the pattern `YYYYMMDDHHmm`.
    pub fn parse(s: &str) -> (r: Option<Timestamp>)
        ensures
            match r {
                Some(t) => parsed_timestamp(s@) == Some(t@),
                None => parsed_timestamp(s@) is None,
            },
    {
        if s.unicode_len() != TIMESTAMP_LEN {
            return None;
        }
        let year = read_fixed(s, 0, 4);
        let month = read_fixed(s, 4, 2);
        let day = read_fixed(s, 6, 2);
        let hour = read_fixed(s, 8, 2);
        let minute = read_fixed(s, 10, 2);
        proof {
            let t = s@;
            if all_digits(t) {
                assert forall|i: int| 0 <= i < 4 implies is_digit(#[trigger] t.subrange(0, 4)[i]) by {
                    assert(t.subrange(0, 4)[i] == t[i]);
                }
                assert forall|i: int| 0 <= i < 2 implies is_digit(#[trigger] t.subrange(4, 6)[i]) by {
                    assert(t.subrange(4, 6)[i] == t[i + 4]);
                }
                assert forall|i: int| 0 <= i < 2 implies is_digit(#[trigger] t.subrange(6, 8)[i]) by {
                    assert(t.subrange(6, 8)[i] == t[i + 6]);
                }
                assert forall|i: int| 0 <= i < 2 implies is_digit(#[trigger] t.subrange(8, 10)[i]) by {
                    assert(t.subrange(8, 10)[i] == t[i + 8]);
                }
                assert forall|i: int| 0 <= i < 2 implies is_digit(#[trigger] t.subrange(10, 12)[i]) by {
                    assert(t.subrange(10, 12)[i] == t[i + 10]);
                }
            }
            if all_digits(t.subrange(0, 4)) && all_digits(t.subrange(4, 6)) && all_digits(
                t.subrange(6, 8),
            ) && all_digits(t.subrange(8, 10)) && all_digits(t.subrange(10, 12)) {
                assert forall|i: int| 0 <= i < t.len() implies is_digit(#[trigger] t[i]) by {
                    if i < 4 {
                        assert(t[i] == t.subrange(0, 4)[i]);
                    } else if i < 6 {
                        assert(t[i] == t.subrange(4, 6)[i - 4]);
                    } else if i < 8 {
                        assert(t[i] == t.subrange(6, 8)[i - 6]);
                    } else if i < 10 {
                        assert(t[i] == t.subrange(8, 10)[i - 8]);
                    } else {
                        assert(t[i] == t.subrange(10, 12)[i - 10]);
                    }
                }
            }
        }
        match (year, month, day, hour, minute) {
            (Some(year), Some(month), Some(day), Some(hour), Some(minute)) => {
                if calendar_has(year as i32, month, day) && hour < 24 && minute < 60 {
                    Some(
                        Timestamp {
                            year: year as u16,
                            month: month as u8,
                            day: day as u8,
                            hour: hour as u8,
                            minute: minute as u8,
                        },
                    )
                } else {
                    None
                }
            },
            _ => None,
        }
    }

    /// Writes the timestamp in the pattern `YYYYMMDDHHmm`.
    pub fn format(&self) -> (r: String)
        ensures
            r@ == formatted(self@),
            parsed_timestamp(r@) == Some(self@),
    {
        proof {
            use_type_invariant(self);
            lemma_format_then_parse(self@);
        }
        let mut out = String::new();
        append_padded(&mut out, self.year as u32, 4);
        append_padded(&mut out, self.month as u32, 2);
        append_padded(&mut out, self.day as u32, 2);
        append_padded(&mut out, self.hour as u32, 2);
        append_padded(&mut out, self.minute as u32, 2);
        assert(out@ =~= formatted(self@));
        out
    }

    /// The year, from 0 to 9999.
    pub fn year(&self) -> (r: u16)
        ensures
            r == self@.year,
    {
        self.year
    }

    /// The month, from 1 to 12.
    pub fn month(&self) -> (r: u8)
        ensures
            r == self@.month,
    {
        self.month
    }

    /// The day of the month, from 1.
    pub fn day(&self) -> (r: u8)
        ensures
            r == self@.day,
    {
        self.day
    }

    /// The hour, from 0 to 23.
    pub fn hour(&self) -> (r: u8)
        ensures
            r == self@.hour,
    {
        self.hour
    }

    /// The minute, from 0 to 59.
    pub fn minute(&self) -> (r: u8)
        ensures
            r == self@.minute,
    {
        self.minute
    }
}

} // verus!
