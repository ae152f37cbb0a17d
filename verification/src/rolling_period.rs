//! Rolling monthly period arithmetic shared by every usage counter
//! (Tavily credits, DeepSeek spend). Pure functions: persistence stays with
//! the caller.
use chrono::{Datelike, NaiveDate};
use vstd::prelude::*;

use crate::text::{decimal, is_digit, is_ws, lemma_decimal, lemma_trimmed_identity, trim_str, trimmed};

verus! {

/// First year a calendar date can have (that of `chrono::NaiveDate::MIN`).
pub const MIN_YEAR: i32 = -262143;

/// Last year a calendar date can have (that of `chrono::NaiveDate::MAX`).
pub const MAX_YEAR: i32 = 262142;

/// Proleptic Gregorian leap year.
pub open spec fn is_leap_year(y: int) -> bool {
    y % 4 == 0 && (y % 100 != 0 || y % 400 == 0)
}

/// Number of days of month `m` of year `y`.
pub open spec fn days_in_month(y: int, m: int) -> int {
    if m == 2 {
        if is_leap_year(y) {
            29
        } else {
            28
        }
    } else if m == 4 || m == 6 || m == 9 || m == 11 {
        30
    } else {
        31
    }
}

/// `(y, m, d)` names an existing calendar day in the representable range.
pub open spec fn valid_ymd(y: int, m: int, d: int) -> bool {
    &&& MIN_YEAR <= y <= MAX_YEAR
    &&& 1 <= m <= 12
    &&& 1 <= d <= days_in_month(y, m)
}

/// A calendar date (proleptic Gregorian).
#[derive(Clone, Copy, Debug, PartialEq, Eq, Structural)]
pub struct Date {
    pub year: i32,
    pub month: u32,
    pub day: u32,
}

/// Result of checking a period against today's date.
#[derive(Clone, Copy, Debug, PartialEq, Eq, Structural)]
pub struct Rollover {
    /// End (exclusive) of the period that just expired.
    pub expired_end: Date,
    /// Start of the period containing `today`.
    pub new_start: Date,
}

impl Date {
    /// The fields name an existing day.
    pub open spec fn wf(self) -> bool {
        valid_ymd(self.year as int, self.month as int, self.day as int)
    }

    /// The date `year-month-day`, when that day exists.
    pub fn from_ymd_opt(year: i32, month: u32, day: u32) -> (r: Option<Date>)
        ensures
            r is Some <==> valid_ymd(year as int, month as int, day as int),
            r matches Some(d) ==> d == (Date { year, month, day }),
    {
        naive_date_from_ymd(year, month, day)
    }
}

/// `a` comes strictly before `b`.
pub open spec fn date_before(a: Date, b: Date) -> bool {
    ||| a.year < b.year
    ||| a.year == b.year && a.month < b.month
    ||| a.year == b.year && a.month == b.month && a.day < b.day
}

/// Whether `a` comes strictly before `b`.
pub fn is_before(a: &Date, b: &Date) -> (r: bool)
    ensures
        r == date_before(*a, *b),
{
    a.year < b.year || (a.year == b.year && (a.month < b.month || (a.month == b.month && a.day
        < b.day)))
}

/// Months counted from year 0.
pub open spec fn month_index(d: Date) -> int {
    d.year * 12 + d.month
}

/// December of the last representable year: no month follows it.
pub open spec fn in_last_month(d: Date) -> bool {
    d.year == MAX_YEAR && d.month == 12
}

/// The same day one calendar month later, clamped to the last day of that month.
pub open spec fn month_after(d: Date) -> Date {
    let y: int = if d.month == 12 {
        d.year + 1
    } else {
        d.year as int
    };
    let m: int = if d.month == 12 {
        1
    } else {
        d.month + 1
    };
    let last: int = days_in_month(y, m);
    Date { year: y as i32, month: m as u32, day: (if d.day <= last { d.day as int } else { last }) as u32 }
}

/// `month_after` applied `k` times.
pub open spec fn months_after(d: Date, k: nat) -> Date
    decreases k,
{
    if k == 0 {
        d
    } else {
        month_after(months_after(d, (k - 1) as nat))
    }
}

/// The day before `d`, unless `d` is the first representable day.
pub open spec fn day_before(d: Date) -> Option<Date> {
    if d.day > 1 {
        Some(Date { year: d.year, month: d.month, day: (d.day - 1) as u32 })
    } else if d.month > 1 {
        Some(
            Date {
                year: d.year,
                month: (d.month - 1) as u32,
                day: days_in_month(d.year as int, d.month - 1) as u32,
            },
        )
    } else if d.year > MIN_YEAR {
        Some(Date { year: (d.year - 1) as i32, month: 12, day: 31 })
    } else {
        None
    }
}

/// `chrono::NaiveDate::from_ymd_opt`: the date `year-month-day` when that day
/// exists and its year lies in chrono's range, else `None`; the date read back
/// through `Datelike` has the given fields.
#[verifier::external_body]
fn naive_date_from_ymd(year: i32, month: u32, day: u32) -> (r: Option<Date>)
    ensures
        r is Some <==> valid_ymd(year as int, month as int, day as int),
        r matches Some(d) ==> d == (Date { year, month, day }),
{
    match NaiveDate::from_ymd_opt(year, month, day) {
        Some(nd) => Some(Date { year: nd.year(), month: nd.month(), day: nd.day() }),
        None => None,
    }
}

/// `chrono::NaiveDate::pred_opt`: the previous calendar day, `None` for the
/// first representable one.
#[verifier::external_body]
fn naive_date_pred(d: Date) -> (r: Option<Date>)
    requires
        d.wf(),
    ensures
        r == day_before(d),
{
    match NaiveDate::from_ymd_opt(d.year, d.month, d.day) {
        Some(nd) => match nd.pred_opt() {
            Some(p) => Some(Date { year: p.year(), month: p.month(), day: p.day() }),
            None => None,
        },
        None => None,
    }
}

/// `s` left-padded with `0` to `width` characters.
pub open spec fn zero_padded(s: Seq<char>, width: nat) -> Seq<char> {
    if s.len() >= width {
        s
    } else {
        Seq::new((width - s.len()) as nat, |i: int| '0') + s
    }
}

/// chrono's `%Y`: four digits for years 0 to 9999, otherwise a sign and at
/// least four digits.
pub open spec fn year_text(y: int) -> Seq<char> {
    if 0 <= y <= 9999 {
        zero_padded(decimal(y as nat), 4)
    } else if y < 0 {
        seq!['-'] + zero_padded(decimal((0 - y) as nat), 4)
    } else {
        seq!['+'] + zero_padded(decimal(y as nat), 4)
    }
}

/// The `%Y-%m-%d` text of a date.
pub open spec fn ymd_text(d: Date) -> Seq<char> {
    year_text(d.year as int) + seq!['-'] + zero_padded(decimal(d.month as nat), 2) + seq!['-']
        + zero_padded(decimal(d.day as nat), 2)
}

/// What `chrono::NaiveDate::parse_from_str(text, "%Y-%m-%d")` yields, as
/// `(year, month, day)`.
pub uninterp spec fn ymd_parsed(text: Seq<char>) -> Option<(i32, u32, u32)>;

/// The date of a parsed `(year, month, day)`.
pub open spec fn date_of(t: Option<(i32, u32, u32)>) -> Option<Date> {
    match t {
        Some(p) => Some(Date { year: p.0, month: p.1, day: p.2 }),
        None => None,
    }
}

/// The characters `%Y-%m-%d` parsing can consume: digits, the `-` separators,
/// a sign before the year, and whitespace, which chrono skips before each number.
pub open spec fn ymd_char(c: char) -> bool {
    is_digit(c) || c == '-' || c == '+' || is_ws(c)
}

/// A text made of `ymd_char`s only, with at least one digit.
pub open spec fn ymd_shaped(text: Seq<char>) -> bool {
    &&& forall|i: int| 0 <= i < text.len() ==> ymd_char(#[trigger] text[i])
    &&& exists|i: int| 0 <= i < text.len() && is_digit(#[trigger] text[i])
}

/// `chrono::NaiveDate::parse_from_str(text, "%Y-%m-%d")`, `None` on error.
/// Stated: a parsed date exists; only a text of digits, `-`, `+` and
/// whitespace holding at least one digit parses (each number needs a digit,
/// and any other character is neither a number, a separator nor skipped
/// whitespace); and the `%Y-%m-%d` text of an existing date parses back to it.
/// Which other texts of that shape chrono accepts is left unsaid.
#[verifier::external_body]
fn naive_date_parse_ymd(text: &str) -> (r: Option<Date>)
    ensures
        r == date_of(ymd_parsed(text@)),
        r matches Some(d) ==> d.wf(),
        r is Some ==> ymd_shaped(text@),
        forall|d: Date| d.wf() && text@ == ymd_text(d) ==> r == Some(d),
{
    match NaiveDate::parse_from_str(text, "%Y-%m-%d") {
        Ok(nd) => Some(Date { year: nd.year(), month: nd.month(), day: nd.day() }),
        Err(_) => None,
    }
}

/// `chrono::NaiveDate::format("%Y-%m-%d")` rendered to a string.
#[verifier::external_body]
fn naive_date_format_ymd(d: Date) -> (r: String)
    requires
        d.wf(),
    ensures
        r@ == ymd_text(d),
{
    match NaiveDate::from_ymd_opt(d.year, d.month, d.day) {
        Some(nd) => nd.format("%Y-%m-%d").to_string(),
        None => String::new(),
    }
}

/// The stored `YYYY-MM-DD` text of a period start.
pub fn format_period_date(d: Date) -> (r: String)
    requires
        d.wf(),
    ensures
        r@ == ymd_text(d),
{
    naive_date_format_ymd(d)
}

/// The `%Y-%m-%d` text of a date begins and ends with a non-blank character.
pub proof fn lemma_ymd_text_unpadded(d: Date)
    requires
        d.wf(),
    ensures
        trimmed(ymd_text(d)) == ymd_text(d),
{
    let y: int = d.year as int;
    let t = ymd_text(d);
    let yd: nat = if y < 0 {
        (0 - y) as nat
    } else {
        y as nat
    };
    lemma_decimal(yd);
    lemma_decimal(d.day as nat);
    let yt = year_text(y);
    let dd = zero_padded(decimal(d.day as nat), 2);
    if decimal(yd).len() < 4 {
        assert(zero_padded(decimal(yd), 4)[0] == '0');
    }
    if y < 0 || y > 9999 {
        assert(yt[0] == '-' || yt[0] == '+');
    }
    assert(t[0] == yt[0]);
    if decimal(d.day as nat).len() < 2 {
        assert(dd.last() == decimal(d.day as nat).last());
    }
    assert(t.last() == dd.last());
    lemma_trimmed_identity(t);
}

/// Parse a stored `YYYY-MM-DD` period start (surrounding whitespace ignored).
pub fn parse_period_start(value: &str) -> (r: Option<Date>)
    ensures
        r == date_of(ymd_parsed(trimmed(value@))),
        r matches Some(d) ==> d.wf(),
        r is Some ==> ymd_shaped(trimmed(value@)),
        forall|d: Date| d.wf() && value@ == ymd_text(d) ==> r == Some(d),
{
    let t = trim_str(value);
    let r = naive_date_parse_ymd(t.as_str());
    proof {
        assert forall|d: Date| d.wf() && value@ == ymd_text(d) implies r == Some(d) by {
            lemma_ymd_text_unpadded(d);
        }
    }
    r
}

/// Add one calendar month, clamping to the last day of the target month.
pub fn add_one_month(date: Date) -> (r: Date)
    requires
        date.wf(),
        !in_last_month(date),
    ensures
        r == month_after(date),
        r.wf(),
{
    let (year, month): (i32, u32) = if date.month == 12 {
        (date.year + 1, 1u32)
    } else {
        (date.year, date.month + 1)
    };
    match naive_date_from_ymd(year, month, date.day) {
        Some(d) => d,
        None => {
            let last_day = last_day_of_month(year, month);
            match naive_date_from_ymd(year, month, last_day) {
                Some(d) => d,
                None => {
                    proof {
                        assert(false);
                    }
                    date
                },
            }
        },
    }
}

/// Last day of month `month` of `year` (28 when the following month cannot be
/// represented).
fn last_day_of_month(year: i32, month: u32) -> (r: u32)
    requires
        MIN_YEAR <= year <= MAX_YEAR,
        1 <= month <= 12,
    ensures
        r == (if year == MAX_YEAR && month == 12 {
            28
        } else {
            days_in_month(year as int, month as int)
        }),
{
    let (next_year, next_month): (i32, u32) = if month == 12 {
        (year + 1, 1u32)
    } else {
        (year, month + 1)
    };
    match naive_date_from_ymd(next_year, next_month, 1) {
        Some(first) => match naive_date_pred(first) {
            Some(d) => d.day,
            None => 28,
        },
        None => 28,
    }
}

/// End (exclusive) of the period starting at `start`: one calendar month later.
pub fn period_end(start: Date) -> (r: Date)
    requires
        start.wf(),
        !in_last_month(start),
    ensures
        r == month_after(start),
        r.wf(),
{
    add_one_month(start)
}

/// What `rollover(start, today)` returns: `None` while `today` is inside the
/// period starting at `start`; otherwise the end of that period and the start,
/// a whole number of monthly steps after it, of the period containing `today`.
pub open spec fn rollover_spec(start: Date, today: Date, r: Option<Rollover>) -> bool {
    match r {
        None => date_before(today, month_after(start)),
        Some(ro) => {
            &&& !date_before(today, month_after(start))
            &&& ro.expired_end == month_after(start)
            &&& exists|k: nat| ro.new_start == #[trigger] months_after(ro.expired_end, k)
            &&& ro.new_start.wf()
            &&& !date_before(ro.new_start, ro.expired_end)
            &&& !date_before(today, ro.new_start)
            &&& date_before(today, month_after(ro.new_start))
        },
    }
}

/// `month_after` moves forward by exactly one month.
proof fn lemma_month_after(d: Date)
    requires
        d.wf(),
        !in_last_month(d),
    ensures
        month_after(d).wf(),
        month_index(month_after(d)) == month_index(d) + 1,
        date_before(d, month_after(d)),
{
}

/// If `today` is past the end of the period starting at `start`, return the
/// rollover with the new start advanced by whole months so that it contains `today`.
pub fn rollover(start: Date, today: Date) -> (r: Option<Rollover>)
    requires
        start.wf(),
        today.wf(),
        !in_last_month(start),
        in_last_month(today) ==> date_before(today, month_after(start)),
    ensures
        rollover_spec(start, today, r),
{
    let expired_end = period_end(start);
    if is_before(&today, &expired_end) {
        return None;
    }
    let mut new_start = expired_end;
    let ghost mut k: nat = 0;
    loop
        invariant
            new_start.wf(),
            expired_end.wf(),
            expired_end == month_after(start),
            !date_before(today, expired_end),
            !date_before(new_start, expired_end),
            !date_before(today, new_start),
            new_start == months_after(expired_end, k),
            today.wf(),
            in_last_month(today) ==> date_before(today, month_after(start)),
        ensures
            new_start.wf(),
            new_start == months_after(expired_end, k),
            !date_before(today, new_start),
            !date_before(new_start, expired_end),
            date_before(today, month_after(new_start)),
        decreases month_index(today) - month_index(new_start),
    {
        let next = add_one_month(new_start);
        proof {
            lemma_month_after(new_start);
        }
        if is_before(&today, &next) {
            break;
        }
        new_start = next;
        proof {
            k = k + 1;
        }
    }
    let r = Rollover { expired_end, new_start };
    proof {
        assert(r.new_start == months_after(r.expired_end, k));
    }
    Some(r)
}

/// Rolling over again on the same day changes nothing: the new period
/// already contains `today`.
pub proof fn law_rollover_is_settled(start: Date, today: Date, ro: Rollover, again: Option<Rollover>)
    requires
        rollover_spec(start, today, Some(ro)),
        rollover_spec(ro.new_start, today, again),
    ensures
        again is None,
{
}

} // verus!
