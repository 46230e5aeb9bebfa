//! Calendar dates and UTC timestamps in the proleptic Gregorian calendar,
//! and the long date text ("March 4, 2023") rendered from them.

use chrono::TimeZone;
use vstd::prelude::*;

verus! {

/// The earliest year a date may carry.
pub const MIN_YEAR: i32 = -262143;

/// The latest year a date may carry.
pub const MAX_YEAR: i32 = 262142;

/// Whether `year` has a 29th of February. Year 0 is 1 BCE.
pub open spec fn is_leap_year(year: int) -> bool {
    year % 4 == 0 && (year % 100 != 0 || year % 400 == 0)
}

/// The number of days of `month` (1 to 12) in `year`.
pub open spec fn days_in_month(year: int, month: int) -> int {
    if month == 2 {
        if is_leap_year(year) {
            29
        } else {
            28
        }
    } else if month == 4 || month == 6 || month == 9 || month == 11 {
        30
    } else {
        31
    }
}

/// Whether the three numbers name a day that exists, in a year within range.
pub open spec fn is_calendar_date(year: int, month: int, day: int) -> bool {
    &&& MIN_YEAR <= year <= MAX_YEAR
    &&& 1 <= month <= 12
    &&& 1 <= day <= days_in_month(year, month)
}

/// Whether the three numbers name a second of a day; leap seconds are not represented.
pub open spec fn is_time_of_day(hour: int, minute: int, second: int) -> bool {
    &&& 0 <= hour < 24
    &&& 0 <= minute < 60
    &&& 0 <= second < 60
}

/// Whether `year` has a 29th of February.
pub fn leap_year(year: i32) -> (leap: bool)
    ensures
        leap == is_leap_year(year as int),
{
    // 2147484000 is a multiple of 400, so the shifted year has the same
    // remainders as the year, and it is not negative.
    let shifted: i64 = year as i64 + 2147484000;
    assert(shifted % 4 == (year as int) % 4 && shifted % 100 == (year as int) % 100 && shifted
        % 400 == (year as int) % 400) by {
        assert(2147484000 == 4 * 536871000 && 2147484000 == 100 * 21474840 && 2147484000 == 400
            * 5368710);
        vstd::arithmetic::div_mod::lemma_mod_multiples_vanish(536871000, year as int, 4);
        vstd::arithmetic::div_mod::lemma_mod_multiples_vanish(21474840, year as int, 100);
        vstd::arithmetic::div_mod::lemma_mod_multiples_vanish(5368710, year as int, 400);
    }
    shifted % 4 == 0 && (shifted % 100 != 0 || shifted % 400 == 0)
}

/// The number of days of `month` in `year`, if there is such a month.
pub fn month_length(year: i32, month: u32) -> (days: Option<u32>)
    ensures
        days is Some <==> 1 <= month <= 12,
        days matches Some(n) ==> n == days_in_month(year as int, month as int),
{
    if month < 1 || month > 12 {
        None
    } else if month == 2 {
        if leap_year(year) {
            Some(29)
        } else {
            Some(28)
        }
    } else if month == 4 || month == 6 || month == 9 || month == 11 {
        Some(30)
    } else {
        Some(31)
    }
}

/// The character of the decimal digit `d` (0 to 9).
pub open spec fn digit_char(d: int) -> char {
    if d == 0 {
        '0'
    } else if d == 1 {
        '1'
    } else if d == 2 {
        '2'
    } else if d == 3 {
        '3'
    } else if d == 4 {
        '4'
    } else if d == 5 {
        '5'
    } else if d == 6 {
        '6'
    } else if d == 7 {
        '7'
    } else if d == 8 {
        '8'
    } else {
        '9'
    }
}

/// `n` in decimal, without sign or leading zeros.
pub open spec fn decimal_text(n: nat) -> Seq<char>
    decreases n,
{
    if n < 10 {
        seq![digit_char(n as int)]
    } else {
        decimal_text(n / 10).push(digit_char((n % 10) as int))
    }
}

/// `n` in decimal, filled with zeros on the left up to `width` characters.
pub open spec fn zero_padded(n: nat, width: nat) -> Seq<char> {
    let digits = decimal_text(n);
    if digits.len() >= width {
        digits
    } else {
        Seq::new((width - digits.len()) as nat, |i: int| '0') + digits
    }
}

/// The year as it is written in a date: four digits at least; a sign
/// goes before it when the year is negative or has more than four digits.
pub open spec fn year_text(year: int) -> Seq<char> {
    if year < 0 {
        seq!['-'] + zero_padded((-year) as nat, 4)
    } else if year > 9999 {
        seq!['+'] + zero_padded(year as nat, 4)
    } else {
        zero_padded(year as nat, 4)
    }
}

/// The English name of `month` (1 to 12).
pub open spec fn month_name(month: int) -> Seq<char> {
    if month == 1 {
        "January"@
    } else if month == 2 {
        "February"@
    } else if month == 3 {
        "March"@
    } else if month == 4 {
        "April"@
    } else if month == 5 {
        "May"@
    } else if month == 6 {
        "June"@
    } else if month == 7 {
        "July"@
    } else if month == 8 {
        "August"@
    } else if month == 9 {
        "September"@
    } else if month == 10 {
        "October"@
    } else if month == 11 {
        "November"@
    } else {
        "December"@
    }
}

/// The long form of a date: the month's name, the day without padding,
/// a comma and the year, as in "March 4, 2023".
pub open spec fn long_date_text(year: int, month: int, day: int) -> Seq<char> {
    month_name(month) + " "@ + decimal_text(day as nat) + ", "@ + year_text(year)
}

/// The day of a long date is written without padding: one digit up to the
/// ninth of a month, two from the tenth, and never a zero in front.
pub proof fn lemma_day_is_unpadded(day: int)
    requires
        1 <= day <= 31,
    ensures
        decimal_text(day as nat) == if day < 10 {
            seq![digit_char(day)]
        } else {
            seq![digit_char(day / 10), digit_char(day % 10)]
        },
        decimal_text(day as nat)[0] != '0',
{
    reveal_with_fuel(decimal_text, 2);
    if day >= 10 {
        assert(decimal_text(day as nat) =~= seq![digit_char(day / 10), digit_char(day % 10)]);
    }
}

/// From year 0 to year 9999 the year of a long date has four digits and no sign.
pub proof fn lemma_common_year_has_four_digits(year: int)
    requires
        0 <= year <= 9999,
    ensures
        year_text(year) == seq![
            digit_char(year / 1000),
            digit_char(year / 100 % 10),
            digit_char(year / 10 % 10),
            digit_char(year % 10),
        ],
{
    reveal_with_fuel(decimal_text, 4);
    let digits = decimal_text(year as nat);
    let wanted = seq![
        digit_char(year / 1000),
        digit_char(year / 100 % 10),
        digit_char(year / 10 % 10),
        digit_char(year % 10),
    ];
    if year < 10 {
        assert(digits.len() == 1);
    } else if year < 100 {
        assert(digits.len() == 2);
    } else if year < 1000 {
        assert(digits.len() == 3);
    } else {
        assert(digits.len() == 4);
    }
    assert(year_text(year) =~= wanted);
}

/// The pattern of the long date text: month name, day without padding, comma, year.
pub const LONG_DATE_PATTERN: &'static str = "%B %-e, %Y";

/// What a [`CalendarDate`] stands for.
pub ghost struct DateView {
    pub year: int,
    pub month: int,
    pub day: int,
}

impl DateView {
    /// Whether the day exists.
    pub open spec fn is_valid(self) -> bool {
        is_calendar_date(self.year, self.month, self.day)
    }
}

/// A day of the proleptic Gregorian calendar. Every value names a day that exists.
#[derive(Clone, Copy, Debug, PartialEq, Eq)]
pub struct CalendarDate {
    year: i32,
    month: u32,
    day: u32,
}

impl View for CalendarDate {
    type V = DateView;

    closed spec fn view(&self) -> DateView {
        DateView { year: self.year as int, month: self.month as int, day: self.day as int }
    }
}

impl CalendarDate {
    #[verifier::type_invariant]
    spec fn exists_in_calendar(self) -> bool {
        is_calendar_date(self.year as int, self.month as int, self.day as int)
    }

    /// The date of the given year, month and day, if there is such a day.
    pub fn new(year: i32, month: u32, day: u32) -> (date: Option<CalendarDate>)
        ensures
            date is Some <==> is_calendar_date(year as int, month as int, day as int),
            date matches Some(d) ==> d@ == (DateView {
                year: year as int,
                month: month as int,
                day: day as int,
            }),
    {
        if year < MIN_YEAR || year > MAX_YEAR || day < 1 {
            return None;
        }
        match month_length(year, month) {
            Some(days) => if day <= days {
                Some(CalendarDate { year, month, day })
            } else {
                None
            },
            None => None,
        }
    }

    /// The year; 0 is 1 BCE.
    pub fn year(&self) -> (year: i32)
        ensures
            year == self@.year,
            self@.is_valid(),
    {
        proof {
            use_type_invariant(self);
        }
        self.year
    }

    /// The month, from 1 to 12.
    pub fn month(&self) -> (month: u32)
        ensures
            month == self@.month,
            self@.is_valid(),
    {
        proof {
            use_type_invariant(self);
        }
        self.month
    }

    /// The day of the month, from 1.
    pub fn day(&self) -> (day: u32)
        ensures
            day == self@.day,
            self@.is_valid(),
    {
        proof {
            use_type_invariant(self);
        }
        self.day
    }
}

/// What a [`UtcTimestamp`] stands for.
pub ghost struct TimestampView {
    pub date: DateView,
    pub hour: int,
    pub minute: int,
    pub second: int,
}

impl TimestampView {
    /// Whether the day exists and the time is a second of a day.
    pub open spec fn is_valid(self) -> bool {
        self.date.is_valid() && is_time_of_day(self.hour, self.minute, self.second)
    }
}

/// A second of a day, in UTC. Every value names a second that exists.
#[derive(Clone, Copy, Debug, PartialEq, Eq)]
pub struct UtcTimestamp {
    date: CalendarDate,
    hour: u32,
    minute: u32,
    second: u32,
}

impl View for UtcTimestamp {
    type V = TimestampView;

    closed spec fn view(&self) -> TimestampView {
        TimestampView {
            date: self.date@,
            hour: self.hour as int,
            minute: self.minute as int,
            second: self.second as int,
        }
    }
}

/// Renders a UTC date and time with `chrono::DateTime::<Utc>::format`, after
/// `chrono::TimeZone::with_ymd_and_hms` made the value from the six numbers.
///
/// Trusted, from chrono's source: for a day and a time that exist the value
/// is made; under the long date pattern the text is the English month name
/// (`%B`), a space, the day of the month without padding (`%-e`), a comma and
/// a space, and the year (`%Y`): zero-padded to four digits, with a sign in
/// front when it is negative or above 9999. The time of day does not appear.
#[verifier::external_body]
fn format_utc(
    year: i32,
    month: u32,
    day: u32,
    hour: u32,
    minute: u32,
    second: u32,
    pattern: &str,
) -> (text: String)
    requires
        is_calendar_date(year as int, month as int, day as int),
        is_time_of_day(hour as int, minute as int, second as int),
        pattern@ == LONG_DATE_PATTERN@,
    ensures
        text@ == long_date_text(year as int, month as int, day as int),
{
    let moment = chrono::Utc.with_ymd_and_hms(year, month, day, hour, minute, second).unwrap();
    moment.format(pattern).to_string()
}

impl UtcTimestamp {
    #[verifier::type_invariant]
    spec fn exists_in_day(self) -> bool {
        is_time_of_day(self.hour as int, self.minute as int, self.second as int)
    }

    /// The timestamp of the given date and time, if there is such a second.
    pub fn new(year: i32, month: u32, day: u32, hour: u32, minute: u32, second: u32) -> (stamp:
        Option<UtcTimestamp>)
        ensures
            stamp is Some <==> is_calendar_date(year as int, month as int, day as int)
                && is_time_of_day(hour as int, minute as int, second as int),
            stamp matches Some(t) ==> t@ == (TimestampView {
                date: DateView { year: year as int, month: month as int, day: day as int },
                hour: hour as int,
                minute: minute as int,
                second: second as int,
            }),
    {
        if hour >= 24 || minute >= 60 || second >= 60 {
            return None;
        }
        match CalendarDate::new(year, month, day) {
            Some(date) => Some(UtcTimestamp { date, hour, minute, second }),
            None => None,
        }
    }

    /// The day.
    pub fn date(&self) -> (date: CalendarDate)
        ensures
            date@ == self@.date,
            self@.is_valid(),
    {
        proof {
            use_type_invariant(self);
            use_type_invariant(&self.date);
        }
        self.date
    }

    /// The hour of the day, from 0 to 23.
    pub fn hour(&self) -> (hour: u32)
        ensures
            hour == self@.hour,
            self@.is_valid(),
    {
        proof {
            use_type_invariant(self);
            use_type_invariant(&self.date);
        }
        self.hour
    }

    /// The minute of the hour, from 0 to 59.
    pub fn minute(&self) -> (minute: u32)
        ensures
            minute == self@.minute,
            self@.is_valid(),
    {
        proof {
            use_type_invariant(self);
            use_type_invariant(&self.date);
        }
        self.minute
    }

    /// The second of the minute, from 0 to 59.
    pub fn second(&self) -> (second: u32)
        ensures
            second == self@.second,
            self@.is_valid(),
    {
        proof {
            use_type_invariant(self);
            use_type_invariant(&self.date);
        }
        self.second
    }

    /// The date as users read it, such as "March 4, 2023".
    pub fn long_date(&self) -> (text: String)
        ensures
            self@.is_valid(),
            text@ == long_date_text(self@.date.year, self@.date.month, self@.date.day),
    {
        proof {
            use_type_invariant(self);
            use_type_invariant(&self.date);
        }
        format_utc(
            self.date.year,
            self.date.month,
            self.date.day,
            self.hour,
            self.minute,
            self.second,
            LONG_DATE_PATTERN,
        )
    }
}

} // verus!
