//! Instants in UTC, and the date arithmetic that schedules the next
//! occurrence of a recurring task.

use chrono::Datelike;
use chrono::Timelike;
use vstd::prelude::*;

verus! {

/// The earliest year that a [`Timestamp`] may carry.
pub const MIN_YEAR: i32 = -262143;

/// The latest year that a [`Timestamp`] may carry.
pub const MAX_YEAR: i32 = 262142;

/// An instant in UTC, held as its calendar date and its time of day.
///
/// `nanosecond` counts from the start of the second; values from one
/// billion up stand for a leap second, as chrono represents it.
#[derive(Clone, Copy, Debug, PartialEq, Eq, Structural)]
pub struct Timestamp {
    pub year: i32,
    pub month: u32,
    pub day: u32,
    pub hour: u32,
    pub minute: u32,
    pub second: u32,
    pub nanosecond: u32,
}

/// How often a recurring task comes back.
#[derive(Clone, Copy, Debug, PartialEq, Eq, Structural)]
pub enum Frequency {
    Daily,
    Weekly,
    Monthly,
    Yearly,
}

/// What `str::to_lowercase` makes of a text.
pub uninterp spec fn lowercase_of(s: Seq<char>) -> Seq<char>;

/// Relies on `str::to_lowercase`, whose result depends on the text alone.
#[verifier::external_body]
fn to_lowercase(s: &str) -> (r: String)
    ensures
        r@ == lowercase_of(s@),
{
    s.to_lowercase()
}

/// The frequency whose lower-case name is `s`.
pub open spec fn frequency_named(s: Seq<char>) -> Option<Frequency> {
    if s == "daily"@ {
        Some(Frequency::Daily)
    } else if s == "weekly"@ {
        Some(Frequency::Weekly)
    } else if s == "monthly"@ {
        Some(Frequency::Monthly)
    } else if s == "yearly"@ {
        Some(Frequency::Yearly)
    } else {
        None
    }
}

impl Frequency {
    /// The lower-case name of the frequency.
    pub open spec fn name(self) -> Seq<char> {
        match self {
            Frequency::Daily => "daily"@,
            Frequency::Weekly => "weekly"@,
            Frequency::Monthly => "monthly"@,
            Frequency::Yearly => "yearly"@,
        }
    }

    /// The lower-case name of the frequency.
    pub fn to_string(&self) -> (r: String)
        ensures
            r@ == self.name(),
    {
        match self {
            Frequency::Daily => "daily".to_owned(),
            Frequency::Weekly => "weekly".to_owned(),
            Frequency::Monthly => "monthly".to_owned(),
            Frequency::Yearly => "yearly".to_owned(),
        }
    }

    /// The frequency whose name is exactly `s`.
    pub fn from_lowercase_name(s: &String) -> (r: Option<Frequency>)
        ensures
            r == frequency_named(s@),
    {
        if *s == "daily".to_owned() {
            Some(Frequency::Daily)
        } else if *s == "weekly".to_owned() {
            Some(Frequency::Weekly)
        } else if *s == "monthly".to_owned() {
            Some(Frequency::Monthly)
        } else if *s == "yearly".to_owned() {
            Some(Frequency::Yearly)
        } else {
            None
        }
    }

    /// The frequency named `s`, in any case; `Err` with a message where
    /// `s` names none.
    pub fn try_from(s: String) -> (r: Result<Frequency, String>)
        ensures
            r is Ok <==> frequency_named(lowercase_of(s@)) is Some,
            r matches Ok(f) ==> frequency_named(lowercase_of(s@)) == Some(f),
            r matches Err(e) ==> e@ == "Invalid frequency: "@ + s@,
    {
        let lower = to_lowercase(s.as_str());
        match Frequency::from_lowercase_name(&lower) {
            Some(f) => Ok(f),
            None => Err("Invalid frequency: ".to_owned().concat(s.as_str())),
        }
    }
}

/// Gregorian leap years.
pub open spec fn leap_year(y: int) -> bool {
    y % 4 == 0 && (y % 100 != 0 || y % 400 == 0)
}

/// The number of days in month `m` (1 to 12) of year `y`.
pub open spec fn month_length(y: int, m: int) -> int {
    if m == 2 {
        if leap_year(y) {
            29
        } else {
            28
        }
    } else if m == 4 || m == 6 || m == 9 || m == 11 {
        30
    } else {
        31
    }
}

pub open spec fn year_in_range(y: int) -> bool {
    MIN_YEAR <= y <= MAX_YEAR
}

/// A date that exists in the calendar (its year may lie outside the range).
pub open spec fn valid_date(y: int, m: int, d: int) -> bool {
    1 <= m <= 12 && 1 <= d <= month_length(y, m)
}

/// The calendar day after `(y, m, d)`.
pub open spec fn next_day(y: int, m: int, d: int) -> (int, int, int) {
    if d < month_length(y, m) {
        (y, m, d + 1)
    } else if m < 12 {
        (y, m + 1, 1)
    } else {
        (y + 1, 1, 1)
    }
}

/// The date `n` days after `(y, m, d)`.
pub open spec fn days_later(y: int, m: int, d: int, n: nat) -> (int, int, int)
    decreases n,
{
    if n == 0 {
        (y, m, d)
    } else {
        let t = next_day(y, m, d);
        days_later(t.0, t.1, t.2, (n - 1) as nat)
    }
}

/// The date `n` months after `(y, m, d)`, its day clamped to the last day
/// of the month reached.
pub open spec fn months_later(y: int, m: int, d: int, n: nat) -> (int, int, int) {
    let total = (m - 1) + n;
    let y2 = y + total / 12;
    let m2 = total % 12 + 1;
    (y2, m2, if d <= month_length(y2, m2) { d } else { month_length(y2, m2) })
}

/// The date `n` years after `(y, m, d)`, the 29th of February becoming the
/// 28th in a year that is not a leap year.
pub open spec fn years_later(y: int, m: int, d: int, n: nat) -> (int, int, int) {
    let y2 = y + n;
    (y2, m, if d <= month_length(y2, m) { d } else { month_length(y2, m) })
}

/// The date that `interval` steps of `frequency` lead to from `(y, m, d)`.
pub open spec fn advance_date(y: int, m: int, d: int, frequency: Frequency, interval: nat) -> (
    int,
    int,
    int,
) {
    match frequency {
        Frequency::Daily => days_later(y, m, d, interval),
        Frequency::Weekly => days_later(y, m, d, 7 * interval),
        Frequency::Monthly => months_later(y, m, d, interval),
        Frequency::Yearly => years_later(y, m, d, interval),
    }
}

/// The next occurrence after `base`: the date advanced by `interval` steps of
/// `frequency`, the time of day kept; `None` where that date leaves the range
/// of years.
pub open spec fn next_due(base: Timestamp, frequency: Frequency, interval: nat) -> Option<Timestamp> {
    let t = advance_date(base.year as int, base.month as int, base.day as int, frequency, interval);
    if year_in_range(t.0) {
        Some(Timestamp { year: t.0 as i32, month: t.1 as u32, day: t.2 as u32, ..base })
    } else {
        None
    }
}

impl Timestamp {
    /// A real instant: a date that exists, within the range of years, and a
    /// time of day.
    pub open spec fn wf(self) -> bool {
        &&& year_in_range(self.year as int)
        &&& valid_date(self.year as int, self.month as int, self.day as int)
        &&& self.hour < 24
        &&& self.minute < 60
        &&& self.second < 60
        &&& self.nanosecond < 2_000_000_000
    }

    /// The instant as one integer that orders real instants as time does:
    /// each field weighs more than all less significant fields can add.
    pub open spec fn rank(self) -> int {
        ((((((self.year as int) * 12 + (self.month as int - 1)) * 31 + (self.day as int - 1)) * 24
            + self.hour as int) * 60 + self.minute as int) * 60 + self.second as int) * 2_000_000_000
            + self.nanosecond as int
    }

    /// `self` comes strictly before `other`.
    pub open spec fn before(self, other: Timestamp) -> bool {
        self.rank() < other.rank()
    }

    /// The rank of the instant.
    pub fn rank_value(&self) -> (r: i128)
        ensures
            r == self.rank(),
            -316_912_650_057_057_350_374_175_801_344 < r < 316_912_650_057_057_350_374_175_801_344,
    {
        let y = self.year as i128;
        let a = y * 12 + (self.month as i128 - 1);
        assert(-1_099_511_627_776 < a < 1_099_511_627_776);
        let b = a * 31 + (self.day as i128 - 1);
        assert(-70_368_744_177_664 < b < 70_368_744_177_664);
        let c = b * 24 + self.hour as i128;
        assert(-4_503_599_627_370_496 < c < 4_503_599_627_370_496);
        let d = c * 60 + self.minute as i128;
        assert(-576_460_752_303_423_488 < d < 576_460_752_303_423_488);
        let e = d * 60 + self.second as i128;
        assert(-73_786_976_294_838_206_464 < e < 73_786_976_294_838_206_464);
        e * 2_000_000_000 + self.nanosecond as i128
    }

    /// Whether `self` comes strictly before `other`.
    pub fn is_before(&self, other: &Timestamp) -> (r: bool)
        ensures
            r == self.before(*other),
    {
        self.rank_value() < other.rank_value()
    }
}

/// Whether `year` is a leap year.
pub fn is_leap_year(year: i32) -> (r: bool)
    requires
        year_in_range(year as int),
    ensures
        r == leap_year(year as int),
{
    let shifted: u32 = (year as i64 + 400_000) as u32;
    assert(shifted as int == year as int + 400 * 1000);
    assert(shifted % 4 == (year as int) % 4);
    assert(shifted % 100 == (year as int) % 100);
    assert(shifted % 400 == (year as int) % 400);
    shifted % 4 == 0 && (shifted % 100 != 0 || shifted % 400 == 0)
}

/// The number of days in `month` of `year`.
pub fn days_in_month(year: i32, month: u32) -> (r: u32)
    requires
        year_in_range(year as int),
        1 <= month <= 12,
    ensures
        r as int == month_length(year as int, month as int),
{
    if month == 2 {
        if is_leap_year(year) {
            29
        } else {
            28
        }
    } else if month == 4 || month == 6 || month == 9 || month == 11 {
        30
    } else {
        31
    }
}

/// The day after a date that exists is a date that exists.
proof fn lemma_next_day_valid(y: int, m: int, d: int)
    requires
        valid_date(y, m, d),
    ensures
        valid_date(next_day(y, m, d).0, next_day(y, m, d).1, next_day(y, m, d).2),
        next_day(y, m, d).0 >= y,
{
}

/// Counting days forward from a date that exists reaches a date that exists,
/// in the same year or a later one.
proof fn lemma_days_later_valid(y: int, m: int, d: int, n: nat)
    requires
        valid_date(y, m, d),
    ensures
        valid_date(days_later(y, m, d, n).0, days_later(y, m, d, n).1, days_later(y, m, d, n).2),
        days_later(y, m, d, n).0 >= y,
    decreases n,
{
    if n > 0 {
        let t = next_day(y, m, d);
        lemma_next_day_valid(y, m, d);
        lemma_days_later_valid(t.0, t.1, t.2, (n - 1) as nat);
    }
}

/// Relies on chrono's `NaiveDate::checked_add_days` (with `from_ymd_opt` to
/// build the date): the date `n` days later, or `None` where that date lies
/// beyond chrono's last year.
#[verifier::external_body]
fn checked_add_days(year: i32, month: u32, day: u32, n: u64) -> (r: Option<(i32, u32, u32)>)
    requires
        year_in_range(year as int),
        valid_date(year as int, month as int, day as int),
    ensures
        r is Some <==> year_in_range(days_later(year as int, month as int, day as int, n as nat).0),
        r matches Some(t) ==> (t.0 as int, t.1 as int, t.2 as int) == days_later(
            year as int,
            month as int,
            day as int,
            n as nat,
        ),
{
    match chrono::NaiveDate::from_ymd_opt(year, month, day) {
        Some(date) => match date.checked_add_days(chrono::Days::new(n)) {
            Some(later) => Some((later.year(), later.month(), later.day())),
            None => None,
        },
        None => None,
    }
}

/// Relies on chrono's `Utc::now`: the current instant in UTC, read through
/// chrono's `Datelike` and `Timelike` accessors, whose values describe a
/// date in chrono's range and a time of day.
#[verifier::external_body]
pub(crate) fn now() -> (r: Timestamp)
    ensures
        r.wf(),
{
    let t = chrono::Utc::now();
    Timestamp {
        year: t.year(),
        month: t.month(),
        day: t.day(),
        hour: t.hour(),
        minute: t.minute(),
        second: t.second(),
        nanosecond: t.nanosecond(),
    }
}

/// What chrono's `DateTime::parse_from_rfc3339` makes of a text, taken to
/// UTC: the instant it writes, or `None` where the text is no RFC 3339
/// date and time.
pub uninterp spec fn rfc3339_instant(s: Seq<char>) -> Option<Timestamp>;

/// Relies on chrono's `DateTime::parse_from_rfc3339`, whose result depends
/// on the text alone; chrono keeps the instant in UTC within its range of
/// dates, so the fields read back describe a real instant.
#[verifier::external_body]
fn parse_rfc3339_str(s: &str) -> (r: Option<Timestamp>)
    ensures
        r == rfc3339_instant(s@),
        r matches Some(t) ==> t.wf(),
{
    match chrono::DateTime::parse_from_rfc3339(s) {
        Ok(d) => {
            let t = d.with_timezone(&chrono::Utc);
            Some(Timestamp {
                year: t.year(),
                month: t.month(),
                day: t.day(),
                hour: t.hour(),
                minute: t.minute(),
                second: t.second(),
                nanosecond: t.nanosecond(),
            })
        },
        Err(_) => None,
    }
}

/// The instant written in `s` (RFC 3339), or `None` where `s` is no such
/// text.
pub fn parse_timestamp(s: &String) -> (r: Option<Timestamp>)
    ensures
        r == rfc3339_instant(s@),
        r matches Some(t) ==> t.wf(),
{
    parse_rfc3339_str(s.as_str())
}

/// What [`parse_optional_timestamp`] makes of an optional text.
pub open spec fn optional_instant(s: Option<String>) -> Result<Option<Timestamp>, ()> {
    match s {
        None => Ok(None),
        Some(t) => match rfc3339_instant(t@) {
            Some(v) => Ok(Some(v)),
            None => Err(()),
        },
    }
}

/// The instant written in `s`, if a text is given.
///
/// `Ok(None)` where no text is given, `Err(())` where the text is no
/// RFC 3339 date and time.
pub fn parse_optional_timestamp(s: &Option<String>) -> (r: Result<Option<Timestamp>, ()>)
    ensures
        r == optional_instant(*s),
        r matches Ok(Some(t)) ==> t.wf(),
{
    match s {
        None => Ok(None),
        Some(t) => match parse_timestamp(t) {
            Some(v) => Ok(Some(v)),
            None => Err(()),
        },
    }
}

/// The next occurrence after `base` for a series that repeats every
/// `interval` steps of `frequency`.
///
/// Daily and weekly steps count whole days; monthly and yearly steps keep
/// the day of the month where the month reached has it, and take that
/// month's last day otherwise. The time of day is kept. `None` only where
/// the result would fall after the last representable year.
pub fn compute_next_due(base: Timestamp, frequency: Frequency, interval: u32) -> (r: Option<
    Timestamp,
>)
    requires
        base.wf(),
    ensures
        r == next_due(base, frequency, interval as nat),
        r matches Some(t) ==> t.wf(),
{
    let ghost target = advance_date(
        base.year as int,
        base.month as int,
        base.day as int,
        frequency,
        interval as nat,
    );
    match frequency {
        Frequency::Daily | Frequency::Weekly => {
            let n: u64 = match frequency {
                Frequency::Daily => interval as u64,
                _ => interval as u64 * 7,
            };
            assert(target == days_later(base.year as int, base.month as int, base.day as int, n as nat));
            proof {
                lemma_days_later_valid(base.year as int, base.month as int, base.day as int, n as nat);
            }
            match checked_add_days(base.year, base.month, base.day, n) {
                Some(t) => Some(Timestamp { year: t.0, month: t.1, day: t.2, ..base }),
                None => None,
            }
        },
        Frequency::Monthly => {
            let total: u64 = (base.month - 1) as u64 + interval as u64;
            let year: i64 = base.year as i64 + (total / 12) as i64;
            let month: u32 = (total % 12) as u32 + 1;
            if year > MAX_YEAR as i64 {
                None
            } else {
                let last = days_in_month(year as i32, month);
                let day = if base.day <= last {
                    base.day
                } else {
                    last
                };
                Some(Timestamp { year: year as i32, month, day, ..base })
            }
        },
        Frequency::Yearly => {
            let year: i64 = base.year as i64 + interval as i64;
            if year > MAX_YEAR as i64 {
                None
            } else {
                let last = days_in_month(year as i32, base.month);
                let day = if base.day <= last {
                    base.day
                } else {
                    last
                };
                Some(Timestamp { year: year as i32, day, ..base })
            }
        },
    }
}

/// Scheduling is deterministic: the next occurrence depends on the base
/// instant, the frequency and the interval alone, so two computations on
/// the same inputs agree.
pub proof fn lemma_next_due_deterministic(
    base1: Timestamp,
    frequency1: Frequency,
    interval1: nat,
    base2: Timestamp,
    frequency2: Frequency,
    interval2: nat,
)
    requires
        base1 == base2,
        frequency1 == frequency2,
        interval1 == interval2,
    ensures
        next_due(base1, frequency1, interval1) == next_due(base2, frequency2, interval2),
{
}

/// The next occurrence keeps the time of day of its base instant.
pub proof fn lemma_next_due_keeps_time_of_day(base: Timestamp, frequency: Frequency, interval: nat)
    requires
        next_due(base, frequency, interval) is Some,
    ensures
        next_due(base, frequency, interval)->0.hour == base.hour,
        next_due(base, frequency, interval)->0.minute == base.minute,
        next_due(base, frequency, interval)->0.second == base.second,
        next_due(base, frequency, interval)->0.nanosecond == base.nanosecond,
{
}

} // verus!
