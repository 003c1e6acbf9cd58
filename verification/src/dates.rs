//! Calendar values the client shows: a logical day is held as its number of
//! days from the common era (chrono's `num_days_from_ce`), so moving a day
//! back or forth is integer arithmetic; chrono renders and parses.

use chrono::Datelike;
use vstd::prelude::*;

use crate::text::{push_decimal, push_str, string_of};

verus! {

/// The earliest and latest day numbers chrono can represent lie within
/// these bounds.
pub open spec fn day_in_range(day: int) -> bool {
    -100_000_000 < day < 100_000_000
}

/// Calls `chrono::Local::now()` and takes its date's day number. The
/// result depends on the clock; what holds of every outcome is that it is a
/// date chrono can represent.
#[verifier::external_body]
pub(crate) fn local_today() -> (d: i32)
    ensures
        day_in_range(d as int),
{
    chrono::Local::now().date_naive().num_days_from_ce()
}

/// Calls `chrono::Utc::now()` and takes its Unix timestamp in seconds. The
/// result depends on the clock, so nothing is stated of it.
#[verifier::external_body]
pub(crate) fn now_unix() -> (t: i64) {
    chrono::Utc::now().timestamp()
}

/// What chrono renders as `%Y-%m-%d` for a day number, if it is a date.
pub uninterp spec fn day_text(day: int) -> Option<Seq<char>>;

/// Calls `NaiveDate::from_num_days_from_ce_opt` and formats the date as
/// `%Y-%m-%d`; the text is named `day_text`.
#[verifier::external_body]
pub(crate) fn format_day(day: i32) -> (r: Option<String>)
    ensures
        r is Some == day_text(day as int) is Some,
        r is Some ==> r->0@ == day_text(day as int)->0,
{
    chrono::NaiveDate::from_num_days_from_ce_opt(day).map(|d| d.format("%Y-%m-%d").to_string())
}

/// The `%Y-%m-%d` text of a day, or the empty text when chrono has no such
/// date.
pub open spec fn day_label(day: int) -> Seq<char> {
    match day_text(day) {
        Some(t) => t,
        None => Seq::empty(),
    }
}

/// The `%Y-%m-%d` text of a day, empty when chrono has no such date.
pub fn day_string(day: i32) -> (r: String)
    ensures
        r@ == day_label(day as int),
{
    match format_day(day) {
        Some(t) => t,
        None => string_of(&[]),
    }
}

/// The day number of a `%Y-%m-%d` date text, as chrono's `NaiveDate`
/// parses it, if it parses.
pub uninterp spec fn parsed_day(text: Seq<char>) -> Option<int>;

/// Calls `str::parse::<NaiveDate>` and takes the date's day number; the
/// result is named `parsed_day`. Every date chrono represents has a day
/// number within [`day_in_range`].
#[verifier::external_body]
pub(crate) fn parse_day(text: &str) -> (r: Option<i32>)
    ensures
        r matches Some(d) ==> parsed_day(text@) == Some(d as int) && day_in_range(d as int),
        r is None ==> parsed_day(text@) is None || !day_in_range(parsed_day(text@)->0),
{
    match text.parse::<chrono::NaiveDate>() {
        Ok(d) => Some(d.num_days_from_ce()),
        Err(_) => None,
    }
}

/// The ISO weekday number (1 = Monday … 7 = Sunday) chrono gives a day.
pub uninterp spec fn weekday_number(day: int) -> Option<u32>;

/// Calls `Datelike::weekday().number_from_monday()` on the date of a day
/// number; the result is named `weekday_number`. Day 1 (0001-01-01) is a
/// Monday and the weekdays repeat every seven days, so the number of a day
/// chrono represents is `(day - 1) mod 7 + 1`.
#[verifier::external_body]
fn day_weekday(day: i32) -> (r: Option<u32>)
    ensures
        r == weekday_number(day as int),
        r matches Some(w) ==> w as int == (day - 1) % 7 + 1,
{
    chrono::NaiveDate::from_num_days_from_ce_opt(day).map(|d| d.weekday().number_from_monday())
}

/// The three-letter name of an ISO weekday number; anything but 1..=6 is
/// Sunday.
pub open spec fn weekday_name(n: Option<u32>) -> Seq<char> {
    match n {
        Some(1) => "Mon"@,
        Some(2) => "Tue"@,
        Some(3) => "Wed"@,
        Some(4) => "Thu"@,
        Some(5) => "Fri"@,
        Some(6) => "Sat"@,
        _ => "Sun"@,
    }
}

/// The short weekday name of a day.
pub fn weekday(day: i32) -> (r: &'static str)
    ensures
        r@ == weekday_name(weekday_number(day as int)),
{
    match day_weekday(day) {
        Some(1) => "Mon",
        Some(2) => "Tue",
        Some(3) => "Wed",
        Some(4) => "Thu",
        Some(5) => "Fri",
        Some(6) => "Sat",
        _ => "Sun",
    }
}

/// The Unix time in seconds of a backend timestamp such as
/// `2026-08-05 14:31:00 +00:00`, if it parses.
pub uninterp spec fn timestamp_seconds(ts: Seq<char>) -> Option<i64>;

/// Calls `DateTime::parse_from_str(ts, "%Y-%m-%d %H:%M:%S %z")` and takes
/// the Unix timestamp; the result is named `timestamp_seconds`.
#[verifier::external_body]
fn parse_timestamp(ts: &str) -> (r: Option<i64>)
    ensures
        r == timestamp_seconds(ts@),
{
    chrono::DateTime::parse_from_str(ts, "%Y-%m-%d %H:%M:%S %z").ok().map(|t| t.timestamp())
}

/// The wall-clock `%H:%M` of a backend timestamp, if it parses.
pub uninterp spec fn clock_text(ts: Seq<char>) -> Option<Seq<char>>;

/// Calls `DateTime::parse_from_str(ts, "%Y-%m-%d %H:%M:%S %z")` and formats
/// the time as `%H:%M`; the result is named `clock_text`.
#[verifier::external_body]
fn parse_clock(ts: &str) -> (r: Option<String>)
    ensures
        r is Some == clock_text(ts@) is Some,
        r is Some ==> r->0@ == clock_text(ts@)->0,
{
    chrono::DateTime::parse_from_str(ts, "%Y-%m-%d %H:%M:%S %z").ok().map(
        |t| t.format("%H:%M").to_string(),
    )
}

/// The clock time of a timestamp as `14:31`, or empty when it does not
/// parse.
pub fn short_clock(ts: &str) -> (r: String)
    ensures
        clock_text(ts@) is None ==> r@.len() == 0,
        clock_text(ts@) is Some ==> r@ == clock_text(ts@)->0,
{
    match parse_clock(ts) {
        Some(t) => t,
        None => string_of(&[]),
    }
}

/// Whole minutes from `then` to `now` (seconds), truncated toward zero.
pub open spec fn minutes_between(then: int, now: int) -> int {
    let d = now - then;
    if d >= 0 {
        d / 60
    } else {
        -((-d) / 60)
    }
}

/// How long ago `mins` minutes is, as the client words it.
pub open spec fn ago_text(mins: int) -> Seq<char> {
    if mins < 1 {
        "just now"@
    } else if mins < 60 {
        crate::text::decimal(mins as nat) + "m ago"@
    } else if mins < 60 * 24 {
        crate::text::decimal((mins / 60) as nat) + "h ago"@
    } else {
        crate::text::decimal((mins / 60 / 24) as nat) + "d ago"@
    }
}

/// How long before `now` a timestamp is, or empty when it does not parse.
pub open spec fn relative_text(ts: Seq<char>, now: i64) -> Seq<char> {
    match timestamp_seconds(ts) {
        Some(t) => ago_text(minutes_between(t as int, now as int)),
        None => Seq::empty(),
    }
}

/// Format a backend timestamp relative to `now` (Unix seconds) as
/// "just now", "3m ago", "2h ago" or "4d ago"; empty when it does not parse.
pub fn relative_time(ts: &str, now: i64) -> (r: String)
    ensures
        r@ == relative_text(ts@, now),
        timestamp_seconds(ts@) is None ==> r@.len() == 0,
        timestamp_seconds(ts@) matches Some(t) ==> r@ == ago_text(
            minutes_between(t as int, now as int),
        ),
{
    let t = match parse_timestamp(ts) {
        Some(t) => t,
        None => {
            return string_of(&[]);
        },
    };
    let d: i128 = now as i128 - t as i128;
    let mins: i128 = if d >= 0 {
        d / 60
    } else {
        -((-d) / 60)
    };
    let mut out: Vec<char> = Vec::new();
    if mins < 1 {
        push_str(&mut out, "just now");
    } else if mins < 60 {
        push_decimal(&mut out, mins as u128);
        push_str(&mut out, "m ago");
    } else if mins < 60 * 24 {
        push_decimal(&mut out, (mins / 60) as u128);
        push_str(&mut out, "h ago");
    } else {
        assert(mins / 60 / 24 <= u64::MAX);
        push_decimal(&mut out, (mins / 60 / 24) as u128);
        push_str(&mut out, "d ago");
    }
    string_of(out.as_slice())
}

} // verus!
