//! Calendar dates, and the date of birth built from `YYYYMMDD` text.
use crate::error::{AppError, AppResult, ErrorKind};
use crate::normalized_string::{normalize_outcome, NormalizedString};
use chrono::Datelike;
use vstd::prelude::*;

verus! {

/// A date of the proleptic Gregorian calendar.
#[derive(Clone, Copy, Debug, PartialEq, Eq, Structural)]
pub struct CalendarDate {
    pub year: i32,
    pub month: u32,
    pub day: u32,
}

/// Gregorian leap years.
pub open spec fn is_leap_year(y: int) -> bool {
    (y % 4 == 0 && y % 100 != 0) || y % 400 == 0
}

/// The number of days of month `m` of year `y`.
pub open spec fn days_in_month(y: int, m: int) -> int {
    if m == 2 {
        if is_leap_year(y) {
            29
        } else {
            28
        }
    } else if m == 4 || m == 6 || m == 9 || m == 11 {
        30
    } else {
        31
    }
}

/// An existing day, in the range of years that dates can hold.
pub open spec fn valid_ymd(y: int, m: int, d: int) -> bool {
    -262143 <= y <= 262142 && 1 <= m <= 12 && 1 <= d <= days_in_month(y, m)
}

impl CalendarDate {
    /// The date exists.
    pub open spec fn wf(self) -> bool {
        valid_ymd(self.year as int, self.month as int, self.day as int)
    }

    /// `self` comes strictly before `other`.
    pub open spec fn before(self, other: CalendarDate) -> bool {
        self.year < other.year || (self.year == other.year && (self.month < other.month || (
        self.month == other.month && self.day < other.day)))
    }

    /// The date `year`-`month`-`day`, where it exists.
    pub fn new(year: i32, month: u32, day: u32) -> (r: Option<CalendarDate>)
        ensures
            r == date_if_valid(year, month, day),
    {
        from_ymd_opt(year, month, day)
    }

    /// Whether `self` comes strictly before `other`.
    pub fn is_before(&self, other: &CalendarDate) -> (r: bool)
        ensures
            r == self.before(*other),
    {
        self.year < other.year || (self.year == other.year && (self.month < other.month || (
        self.month == other.month && self.day < other.day)))
    }
}

/// The date `y`-`m`-`d` if it exists.
pub open spec fn date_if_valid(y: i32, m: u32, d: u32) -> Option<CalendarDate> {
    if valid_ymd(y as int, m as int, d as int) {
        Some(CalendarDate { year: y, month: m, day: d })
    } else {
        None
    }
}

/// Relies on chrono's `NaiveDate::from_ymd_opt`: a date exactly when the
/// day exists and the year lies in chrono's range.
#[verifier::external_body]
fn from_ymd_opt(year: i32, month: u32, day: u32) -> (r: Option<CalendarDate>)
    ensures
        r == date_if_valid(year, month, day),
{
    match chrono::NaiveDate::from_ymd_opt(year, month, day) {
        Some(d) => Some(CalendarDate { year: d.year(), month: d.month(), day: d.day() }),
        None => None,
    }
}

/// Relies on chrono's `Local::now` and `DateTime::date_naive`: today's date in
/// the local time zone, an existing date.
#[verifier::external_body]
fn today() -> (r: CalendarDate)
    ensures
        r.wf(),
{
    let d = chrono::Local::now().date_naive();
    CalendarDate { year: d.year(), month: d.month(), day: d.day() }
}

/// The year, month and day that chrono's `NaiveDate::parse_from_str` reads
/// from text `s` with format `fmt`, where it reads a date.
pub uninterp spec fn ymd_parse_of(s: Seq<char>, fmt: Seq<char>) -> Option<(i32, u32, u32)>;

/// The date of a parsed triple.
pub open spec fn date_of_triple(t: Option<(i32, u32, u32)>) -> Option<CalendarDate> {
    match t {
        Some(t) => Some(CalendarDate { year: t.0, month: t.1, day: t.2 }),
        None => None,
    }
}

/// An ASCII decimal digit.
pub open spec fn is_digit(c: char) -> bool {
    '0' <= c <= '9'
}

/// The value of the decimal digits `s`.
pub open spec fn digits_value(s: Seq<char>) -> int
    decreases s.len(),
{
    if s.len() == 0 {
        0
    } else {
        digits_value(s.drop_last()) * 10 + (s.last() as int - '0' as int)
    }
}

/// Eight ASCII digits.
pub open spec fn is_eight_digits(s: Seq<char>) -> bool {
    s.len() == 8 && forall|i: int| 0 <= i < 8 ==> is_digit(#[trigger] s[i])
}

/// The date that eight digits spell as `YYYYMMDD`, if it exists.
pub open spec fn date_of_digits(s: Seq<char>) -> Option<CalendarDate> {
    let y = digits_value(s.subrange(0, 4));
    let m = digits_value(s.subrange(4, 6));
    let d = digits_value(s.subrange(6, 8));
    if valid_ymd(y, m, d) {
        Some(CalendarDate { year: y as i32, month: m as u32, day: d as u32 })
    } else {
        None
    }
}

/// Relies on chrono's `NaiveDate::parse_from_str`: it returns only existing
/// dates, depends on its arguments alone, and with the format `%Y%m%d` reads
/// eight ASCII digits as four of year, two of month and two of day.
#[verifier::external_body]
fn parse_from_str(s: &str, fmt: &str) -> (r: Option<CalendarDate>)
    ensures
        r == date_of_triple(ymd_parse_of(s@, fmt@)),
        r is Some ==> r.unwrap().wf(),
        fmt@ == "%Y%m%d"@ && is_eight_digits(s@) ==> r == date_of_digits(s@),
{
    match chrono::NaiveDate::parse_from_str(s, fmt) {
        Ok(d) => Some(CalendarDate { year: d.year(), month: d.month(), day: d.day() }),
        Err(_) => None,
    }
}

/// The name of a date of birth in error details.
pub open spec fn birth_date_label() -> Seq<char> {
    "誕生日(birth_date)"@
}

/// Detail of the error for text that is no `YYYYMMDD` date.
pub open spec fn format_message() -> Seq<char> {
    "誕生日(birth_date)は`YYYYmmdd`形式で入力してください。"@
}

/// Detail of the error for a date after today.
pub open spec fn future_message() -> Seq<char> {
    "誕生日(birth_date)は未来日を指定できません。"@
}

/// Detail of the error for a date from which no age follows.
pub open spec fn invalid_message() -> Seq<char> {
    "誕生日(birth_date)の値が不正です。"@
}

/// What a parsed date gives as a date of birth on `today`.
pub open spec fn validate_outcome(parsed: Option<CalendarDate>, today: CalendarDate) -> Result<
    CalendarDate,
    (ErrorKind, Option<Seq<char>>),
> {
    match parsed {
        None => Err((ErrorKind::UnprocessableContent, Some(format_message()))),
        Some(d) => if today.before(d) {
            Err((ErrorKind::UnprocessableContent, Some(future_message())))
        } else {
            Ok(d)
        },
    }
}

/// What text `input` gives as a date of birth on `today`: it is normalized as
/// text of exactly eight characters, then read as `YYYYMMDD`.
pub open spec fn parse_outcome(input: Seq<char>, required: bool, today: CalendarDate) -> Result<
    Option<CalendarDate>,
    (ErrorKind, Option<Seq<char>>),
> {
    match normalize_outcome(input, required, birth_date_label(), Some(8usize), Some(8usize)) {
        Err(e) => Err(e),
        Ok(None) => Ok(None),
        Ok(Some(t)) => match validate_outcome(date_of_triple(ymd_parse_of(t, "%Y%m%d"@)), today) {
            Ok(d) => Ok(Some(d)),
            Err(e) => Err(e),
        },
    }
}

/// This year's anniversary of a birth: Feb 28 where the day does not exist.
pub open spec fn anniversary(birth: CalendarDate, year: i32) -> CalendarDate {
    if valid_ymd(year as int, birth.month as int, birth.day as int) {
        CalendarDate { year, month: birth.month, day: birth.day }
    } else {
        CalendarDate { year, month: 2, day: 28 }
    }
}

/// Age in whole years on `today`.
pub open spec fn age_on_spec(birth: CalendarDate, today: CalendarDate) -> int {
    (today.year - birth.year) - (if today.before(anniversary(birth, today.year)) {
        1int
    } else {
        0int
    })
}

/// What asking the age on `today` gives.
pub open spec fn age_outcome(birth: CalendarDate, today: CalendarDate) -> Result<
    u32,
    (ErrorKind, Option<Seq<char>>),
> {
    if age_on_spec(birth, today) >= 0 {
        Ok(age_on_spec(birth, today) as u32)
    } else {
        Err((ErrorKind::UnprocessableContent, Some(invalid_message())))
    }
}

/// The model of an age result.
pub open spec fn age_view(r: AppResult<u32>) -> Result<u32, (ErrorKind, Option<Seq<char>>)> {
    match r {
        Ok(a) => Ok(a),
        Err(e) => Err(e@),
    }
}

/// A date of birth: an existing date.
#[derive(Debug, Clone, Copy, PartialEq, Eq, Structural)]
pub struct BirthDate(CalendarDate);

/// The model of a date-of-birth result.
pub open spec fn birth_view(r: AppResult<Option<BirthDate>>) -> Result<
    Option<CalendarDate>,
    (ErrorKind, Option<Seq<char>>),
> {
    match r {
        Ok(Some(b)) => Ok(Some(b@)),
        Ok(None) => Ok(None),
        Err(e) => Err(e@),
    }
}

impl View for BirthDate {
    type V = CalendarDate;

    closed spec fn view(&self) -> CalendarDate {
        self.0
    }
}

impl BirthDate {
    #[verifier::type_invariant]
    spec fn inv(&self) -> bool {
        self.0.wf()
    }

    /// Reads a date of birth from `YYYYMMDD` text, as of today's date.
    pub fn new(input: &str, required: bool) -> (r: AppResult<Option<BirthDate>>)
        ensures
            exists|t: CalendarDate| t.wf() && birth_view(r) == parse_outcome(input@, required, t),
    {
        let t = today();
        let r = Self::new_on(input, required, t);
        assert(t.wf() && birth_view(r) == parse_outcome(input@, required, t));
        r
    }

    /// Reads a date of birth from `YYYYMMDD` text, as of `today`: the text is
    /// normalized as exactly eight characters, must spell an existing date,
    /// and the date must not be after `today`.
    pub fn new_on(input: &str, required: bool, today: CalendarDate) -> (r: AppResult<
        Option<BirthDate>,
    >)
        ensures
            birth_view(r) == parse_outcome(input@, required, today),
    {
        let ns = NormalizedString::new(input, required, "誕生日(birth_date)", Some(8), Some(8));
        match ns {
            Err(e) => Err(e),
            Ok(None) => Ok(None),
            Ok(Some(ns)) => {
                let parsed = parse_from_str(ns.as_str(), "%Y%m%d");
                match Self::validate(parsed, today) {
                    Ok(b) => Ok(Some(b)),
                    Err(e) => Err(e),
                }
            },
        }
    }

    /// Validates a parsed date: none is a format error, and a date after
    /// `today` is refused.
    pub fn validate(parsed: Option<CalendarDate>, today: CalendarDate) -> (r: AppResult<BirthDate>)
        requires
            parsed is Some ==> parsed.unwrap().wf(),
        ensures
            match r {
                Ok(b) => validate_outcome(parsed, today) == Ok::<
                    CalendarDate,
                    (ErrorKind, Option<Seq<char>>),
                >(b@),
                Err(e) => validate_outcome(parsed, today) == Err::<
                    CalendarDate,
                    (ErrorKind, Option<Seq<char>>),
                >(e@),
            },
    {
        match parsed {
            None => Err(
                AppError::UnprocessableContent(
                    Some(String::from_str("誕生日(birth_date)は`YYYYmmdd`形式で入力してください。")),
                ),
            ),
            Some(d) => {
                if today.is_before(&d) {
                    Err(
                        AppError::UnprocessableContent(
                            Some(String::from_str("誕生日(birth_date)は未来日を指定できません。")),
                        ),
                    )
                } else {
                    Ok(BirthDate(d))
                }
            },
        }
    }

    /// The date.
    pub fn as_naive_date(&self) -> (r: &CalendarDate)
        ensures
            *r == self@,
            r.wf(),
    {
        proof {
            use_type_invariant(self);
        }
        &self.0
    }

    /// A date of birth from a date read back from a trusted store, with no
    /// comparison with today.
    pub fn from_naive_date(bd: CalendarDate) -> (r: BirthDate)
        requires
            bd.wf(),
        ensures
            r@ == bd,
    {
        BirthDate(bd)
    }

    /// Age in whole years as of today's date.
    pub fn calculate_to_age(&self) -> (r: AppResult<u32>)
        ensures
            exists|t: CalendarDate| t.wf() && age_view(r) == age_outcome(self@, t),
    {
        let t = today();
        let r = self.age_on(t);
        assert(t.wf() && age_view(r) == age_outcome(self@, t));
        r
    }

    /// Age in whole years on `today`: the difference of the years, less one
    /// where this year's anniversary (Feb 28 for Feb 29 in a common year) is
    /// still to come; a negative age is an error.
    pub fn age_on(&self, today: CalendarDate) -> (r: AppResult<u32>)
        requires
            today.wf(),
        ensures
            age_view(r) == age_outcome(self@, today),
    {
        proof {
            use_type_invariant(self);
        }
        let b = self.0;
        let mut age: i32 = today.year - b.year;
        let anniversary = match from_ymd_opt(today.year, b.month, b.day) {
            Some(d) => d,
            None => {
                if b.month == 2 && b.day == 29 {
                    match from_ymd_opt(today.year, 2, 28) {
                        Some(d) => d,
                        None => {
                            return Err(
                                AppError::UnprocessableContent(
                                    Some(String::from_str("誕生日(birth_date)の値が不正です。")),
                                ),
                            );
                        },
                    }
                } else {
                    return Err(
                        AppError::UnprocessableContent(
                            Some(String::from_str("誕生日(birth_date)の値が不正です。")),
                        ),
                    );
                }
            },
        };
        if today.is_before(&anniversary) {
            age = age - 1;
        }
        if age < 0 {
            return Err(
                AppError::UnprocessableContent(
                    Some(String::from_str("誕生日(birth_date)の値が不正です。")),
                ),
            );
        }
        Ok(age as u32)
    }
}

/// Born on Feb 29, one is as old on Mar 1 of a common year as on Feb 28 of
/// that year, the day that stands in for the anniversary.
pub proof fn lemma_leap_day_age(birth: CalendarDate, year: i32)
    requires
        birth.wf(),
        birth.month == 2,
        birth.day == 29,
        !is_leap_year(year as int),
        -262143 <= year <= 262142,
    ensures
        age_on_spec(birth, CalendarDate { year, month: 3, day: 1 }) == age_on_spec(
            birth,
            CalendarDate { year, month: 2, day: 28 },
        ),
{
}

} // verus!
