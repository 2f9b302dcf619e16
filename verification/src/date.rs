//! Calendar dates, and the decimal text of their fields.

use chrono::Datelike;
use vstd::prelude::*;

verus! {

/// The first year that a [`CalendarDate`] can hold. The range of years is
/// that of chrono's `NaiveDate`, which formats the dates.
pub const MIN_YEAR: i32 = -262143;

/// The last year that a [`CalendarDate`] can hold.
pub const MAX_YEAR: i32 = 262142;

/// Whether `year` is a leap year of the proleptic Gregorian calendar.
pub open spec fn is_leap_year(year: int) -> bool {
    year % 4 == 0 && (year % 100 != 0 || year % 400 == 0)
}

/// The number of days of `month` (1 to 12) in `year`.
pub open spec fn days_in_month(year: int, month: int) -> int {
    if month == 2 {
        if is_leap_year(year) {
            29
        } else {
            28
        }
    } else if month == 4 || month == 6 || month == 9 || month == 11 {
        30
    } else {
        31
    }
}

/// Whether year, month and day name a day of the calendar within the
/// supported years.
pub open spec fn valid_ymd(year: int, month: int, day: int) -> bool {
    &&& MIN_YEAR <= year <= MAX_YEAR
    &&& 1 <= month <= 12
    &&& 1 <= day <= days_in_month(year, month)
}

/// The mathematical content of a [`CalendarDate`].
pub struct DateView {
    pub year: int,
    pub month: int,
    pub day: int,
}

impl DateView {
    /// Whether the three fields name a day of the calendar.
    pub open spec fn valid(self) -> bool {
        valid_ymd(self.year, self.month, self.day)
    }
}

/// A day of the proleptic Gregorian calendar: year, month (1 to 12) and day of
/// the month. Every value is a day that exists.
#[derive(Debug, Clone, Copy, PartialEq, Eq)]
pub struct CalendarDate {
    year: i32,
    month: u32,
    day: u32,
}

impl View for CalendarDate {
    type V = DateView;

    closed spec fn view(&self) -> DateView {
        DateView { year: self.year as int, month: self.month as int, day: self.day as int }
    }
}

impl CalendarDate {
    /// The invariant of the type: the fields name a day that exists.
    #[verifier::type_invariant]
    pub open spec fn wf(self) -> bool {
        self@.valid()
    }

    /// The date of the given year, month and day, if there is such a day.
    pub fn from_ymd_opt(year: i32, month: u32, day: u32) -> (date: Option<CalendarDate>)
        ensures
            date is Some <==> valid_ymd(year as int, month as int, day as int),
            date matches Some(d) ==> d@ == (DateView {
                year: year as int,
                month: month as int,
                day: day as int,
            }),
    {
        if year < MIN_YEAR || year > MAX_YEAR || month < 1 || month > 12 || day < 1 {
            return None;
        }
        let length: u32 = month_length(year, month);
        if day > length {
            return None;
        }
        Some(CalendarDate { year, month, day })
    }

    pub fn year(&self) -> (year: i32)
        ensures
            year == self@.year,
    {
        self.year
    }

    pub fn month(&self) -> (month: u32)
        ensures
            month == self@.month,
            1 <= month <= 12,
    {
        proof {
            use_type_invariant(self);
        }
        self.month
    }

    pub fn day(&self) -> (day: u32)
        ensures
            day == self@.day,
            1 <= day <= 31,
    {
        proof {
            use_type_invariant(self);
        }
        self.day
    }
}

/// The length of a month, computed on a year shifted by a multiple of 400 so
/// that the remainders are taken of a positive number.
fn month_length(year: i32, month: u32) -> (length: u32)
    requires
        MIN_YEAR <= year <= MAX_YEAR,
        1 <= month <= 12,
    ensures
        length == days_in_month(year as int, month as int),
{
    if month == 2 {
        let shifted: i32 = year + 262400;
        if shifted % 4 == 0 && (shifted % 100 != 0 || shifted % 400 == 0) {
            29
        } else {
            28
        }
    } else if month == 4 || month == 6 || month == 9 || month == 11 {
        30
    } else {
        31
    }
}

/// The character of one decimal digit, 0 to 9.
pub open spec fn digit(value: int) -> char {
    if value <= 0 {
        '0'
    } else if value == 1 {
        '1'
    } else if value == 2 {
        '2'
    } else if value == 3 {
        '3'
    } else if value == 4 {
        '4'
    } else if value == 5 {
        '5'
    } else if value == 6 {
        '6'
    } else if value == 7 {
        '7'
    } else if value == 8 {
        '8'
    } else {
        '9'
    }
}

/// A number below 100 as exactly two digits.
pub open spec fn two_digits(value: int) -> Seq<char> {
    seq![digit(value / 10), digit(value % 10)]
}

/// A natural number in decimal, without leading zeros.
pub open spec fn decimal(value: int) -> Seq<char>
    decreases value,
{
    if value < 10 {
        seq![digit(value)]
    } else {
        decimal(value / 10).push(digit(value % 10))
    }
}

/// A natural number in decimal, filled with zeros on the left up to `width`
/// digits; longer numbers are not cut.
pub open spec fn zero_padded(value: int, width: int) -> Seq<char> {
    let digits = decimal(value);
    if digits.len() >= width {
        digits
    } else {
        Seq::new((width - digits.len()) as nat, |i: int| '0') + digits
    }
}

/// A year as text: four digits from 0 to 9999, otherwise a sign and at least
/// four digits.
pub open spec fn year_text(year: int) -> Seq<char> {
    if 0 <= year <= 9999 {
        zero_padded(year, 4)
    } else if year < 0 {
        seq!['-'] + zero_padded(-year, 4)
    } else {
        seq!['+'] + zero_padded(year, 4)
    }
}

/// Month and day as four digits, `MMDD`.
pub open spec fn month_day_text(date: DateView) -> Seq<char> {
    two_digits(date.month) + two_digits(date.day)
}

/// The date as `YYYY-MM-DD`.
pub open spec fn iso_date_text(date: DateView) -> Seq<char> {
    year_text(date.year) + seq!['-'] + two_digits(date.month) + seq!['-'] + two_digits(date.day)
}

/// Formats a date with chrono: `NaiveDate::format` with a strftime pattern,
/// rendered by `to_string`. Only the two patterns of this crate are admitted;
/// chrono fails on a malformed pattern. Trusted: `%m` and `%d` give month and
/// day as two digits each; `%Y` gives the year as four digits, and with a sign
/// in front when it lies outside 0 to 9999; other characters are copied.
#[verifier::external_body]
pub(crate) fn format_with_pattern(date: &CalendarDate, pattern: &str) -> (text: String)
    requires
        date.wf(),
        pattern@ == "%m%d"@ || pattern@ == "%Y-%m-%d"@,
    ensures
        pattern@ == "%m%d"@ ==> text@ == month_day_text(date@),
        pattern@ == "%Y-%m-%d"@ ==> text@ == iso_date_text(date@),
{
    let naive = chrono::NaiveDate::from_ymd_opt(date.year, date.month, date.day).unwrap();
    naive.format(pattern).to_string()
}

/// The current date by chrono: `Local::now().date_naive()`, the day that the
/// machine's clock shows in its own time zone. Trusted: chrono only hands out
/// days that exist, within its range of years. Two calls may differ. chrono
/// gives up when the clock stands before 1970.
#[verifier::external_body]
pub(crate) fn local_today() -> (date: CalendarDate)
    ensures
        date.wf(),
{
    let now = chrono::Local::now().date_naive();
    CalendarDate { year: now.year(), month: now.month(), day: now.day() }
}

/// Whether a character is a decimal digit.
pub open spec fn is_digit(c: char) -> bool {
    c == '0' || c == '1' || c == '2' || c == '3' || c == '4' || c == '5' || c == '6' || c == '7'
        || c == '8' || c == '9'
}

/// Whether a text holds nothing but digits, hyphens and plus signs.
pub open spec fn is_plain(text: Seq<char>) -> bool {
    forall|i: int|
        0 <= i < text.len() ==> is_digit(#[trigger] text[i]) || text[i] == '-' || text[i] == '+'
}

/// The decimal text of a natural number holds digits only, and at least one.
pub proof fn lemma_decimal_is_plain(value: int)
    requires
        0 <= value,
    ensures
        decimal(value).len() >= 1,
        forall|i: int| 0 <= i < decimal(value).len() ==> is_digit(#[trigger] decimal(value)[i]),
    decreases value,
{
    if value >= 10 {
        lemma_decimal_is_plain(value / 10);
    }
}

/// The two texts of a date hold nothing but digits, hyphens and a sign: no
/// names of months or weekdays, nothing that a locale could change. The short
/// text is always four characters long.
pub proof fn lemma_date_text_is_plain(date: DateView)
    requires
        date.valid(),
    ensures
        month_day_text(date).len() == 4,
        is_plain(month_day_text(date)),
        is_plain(iso_date_text(date)),
{
    let year = if date.year < 0 {
        -date.year
    } else {
        date.year
    };
    lemma_decimal_is_plain(year);
    let padded = zero_padded(year, 4);
    assert forall|i: int| 0 <= i < padded.len() implies is_digit(#[trigger] padded[i]) by {
        let digits = decimal(year);
        if digits.len() < 4 {
            if i >= 4 - digits.len() {
                assert(padded[i] == digits[i - (4 - digits.len())]);
            }
        }
    }
    let text = iso_date_text(date);
    let head = year_text(date.year);
    assert forall|i: int| 0 <= i < head.len() implies is_digit(#[trigger] head[i]) || head[i] == '-'
        || head[i] == '+' by {
        if !(0 <= date.year <= 9999) {
            if i > 0 {
                assert(head[i] == padded[i - 1]);
            }
        }
    }
    assert forall|i: int| 0 <= i < text.len() implies is_digit(#[trigger] text[i]) || text[i] == '-'
        || text[i] == '+' by {
        if i < head.len() {
            assert(text[i] == head[i]);
        }
    }
}

} // verus!
