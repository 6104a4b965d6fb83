//! Calendar days and times of day, as the weather service writes them.

use crate::error::{WeatherError, WeatherErrorView};
use chrono::{Datelike, Timelike};
use vstd::prelude::*;

verus! {

/// The pattern of a calendar day in a weather payload.
pub const DATE_FORMAT: &'static str = "%Y-%m-%d";

/// The pattern of a point in time in a weather payload.
pub const DATETIME_FORMAT: &'static str = "%Y-%m-%dT%H:%M";

/// A calendar day, counted in the proleptic Gregorian calendar: the first of
/// January of the year 1 is day 1.
#[derive(Clone, Copy, Debug, PartialEq, Eq, Structural)]
pub struct Date {
    pub day_number: i32,
}

/// A minute of a calendar day, without a time zone.
#[derive(Clone, Copy, Debug, PartialEq, Eq, Structural)]
pub struct DateTime {
    pub date: Date,
    pub hour: u32,
    pub minute: u32,
}

/// The day that `chrono` reads out of `text` under the pattern `format`, as
/// its day number; `None` where it reads none.
pub uninterp spec fn naive_date(text: Seq<char>, format: Seq<char>) -> Option<i32>;

/// The point in time that `chrono` reads out of `text` under the pattern
/// `format`, as day number, hour and minute; `None` where it reads none.
pub uninterp spec fn naive_datetime(text: Seq<char>, format: Seq<char>) -> Option<(i32, u32, u32)>;

/// `chrono::NaiveDate::parse_from_str`, with the date handed back as
/// `Datelike::num_days_from_ce` counts it. Nothing is claimed of which texts
/// are dates: the contract only names the outcome, which depends on the two
/// arguments alone.
#[verifier::external_body]
fn naive_date_from_str(text: &str, format: &str) -> (day: Option<i32>)
    ensures
        day == naive_date(text@, format@),
{
    match chrono::NaiveDate::parse_from_str(text, format) {
        Ok(date) => Some(date.num_days_from_ce()),
        Err(_) => None,
    }
}

/// `chrono::NaiveDateTime::parse_from_str`, with the result handed back as
/// the day number of its date (`Datelike::num_days_from_ce`) and the hour and
/// minute of its time (`Timelike::hour`, `Timelike::minute`). Nothing is
/// claimed of which texts are points in time: the contract only names the
/// outcome, which depends on the two arguments alone.
#[verifier::external_body]
fn naive_datetime_from_str(text: &str, format: &str) -> (moment: Option<(i32, u32, u32)>)
    ensures
        moment == naive_datetime(text@, format@),
{
    match chrono::NaiveDateTime::parse_from_str(text, format) {
        Ok(moment) => Some((moment.num_days_from_ce(), moment.hour(), moment.minute())),
        Err(_) => None,
    }
}

/// The failure that reports a text which is no day or point in time.
pub open spec fn unreadable_time(text: Seq<char>) -> WeatherErrorView {
    WeatherErrorView::Malformed { detail: "invalid time: "@ + text }
}

/// What a payload's day text stands for, given what `chrono` read out of it.
pub open spec fn date_of(text: Seq<char>, read: Option<i32>) -> Result<Date, WeatherErrorView> {
    match read {
        Some(day_number) => Ok(Date { day_number }),
        None => Err(unreadable_time(text)),
    }
}

/// What a payload's time text stands for, given what `chrono` read out of it.
pub open spec fn datetime_of(text: Seq<char>, read: Option<(i32, u32, u32)>) -> Result<
    DateTime,
    WeatherErrorView,
> {
    match read {
        Some((day_number, hour, minute)) => Ok(
            DateTime { date: Date { day_number }, hour, minute },
        ),
        None => Err(unreadable_time(text)),
    }
}

/// Whether an outcome is the given one, failures compared by what they hold.
pub open spec fn is_outcome<T>(
    got: Result<T, WeatherError>,
    wanted: Result<T, WeatherErrorView>,
) -> bool {
    match (got, wanted) {
        (Ok(a), Ok(b)) => a == b,
        (Err(a), Err(b)) => a@ == b,
        _ => false,
    }
}

fn unreadable(text: &str) -> (failure: WeatherError)
    ensures
        failure@ == unreadable_time(text@),
{
    let mut detail = String::from_str("invalid time: ");
    detail.append(text);
    WeatherError::Malformed { detail }
}

/// The day for a payload's text, from what was read out of the text.
pub fn date_from_read(text: &str, read: Option<i32>) -> (date: Result<Date, WeatherError>)
    ensures
        is_outcome(date, date_of(text@, read)),
{
    match read {
        Some(day_number) => Ok(Date { day_number }),
        None => Err(unreadable(text)),
    }
}

/// The point in time for a payload's text, from what was read out of the text.
pub fn datetime_from_read(text: &str, read: Option<(i32, u32, u32)>) -> (moment: Result<
    DateTime,
    WeatherError,
>)
    ensures
        is_outcome(moment, datetime_of(text@, read)),
{
    match read {
        Some((day_number, hour, minute)) => Ok(
            DateTime { date: Date { day_number }, hour, minute },
        ),
        None => Err(unreadable(text)),
    }
}

/// Reads a day written as year, month and day with hyphens between.
pub fn parse_date(text: &str) -> (date: Result<Date, WeatherError>)
    ensures
        is_outcome(date, date_of(text@, naive_date(text@, DATE_FORMAT@))),
{
    let read = naive_date_from_str(text, DATE_FORMAT);
    date_from_read(text, read)
}

/// Reads a point in time written as a day, the letter T, and hour and minute
/// with a colon between.
pub fn parse_datetime(text: &str) -> (moment: Result<DateTime, WeatherError>)
    ensures
        is_outcome(moment, datetime_of(text@, naive_datetime(text@, DATETIME_FORMAT@))),
{
    let read = naive_datetime_from_str(text, DATETIME_FORMAT);
    datetime_from_read(text, read)
}

/// Whether `dates` are the days that the texts of a series stand for, one
/// for one and in order.
pub open spec fn dates_read(texts: Seq<String>, dates: Seq<Date>) -> bool {
    &&& dates.len() == texts.len()
    &&& forall|i: int|
        0 <= i < texts.len() ==> naive_date(#[trigger] texts[i]@, DATE_FORMAT@) == Some(
            dates[i].day_number,
        )
}

/// Whether `failure` reports the first text of a series that is no day.
pub open spec fn date_unreadable(texts: Seq<String>, failure: WeatherErrorView) -> bool {
    exists|k: int|
        {
            &&& 0 <= k < texts.len()
            &&& naive_date(#[trigger] texts[k]@, DATE_FORMAT@) is None
            &&& failure == unreadable_time(texts[k]@)
            &&& forall|j: int| 0 <= j < k ==> naive_date(#[trigger] texts[j]@, DATE_FORMAT@) is Some
        }
}

/// Whether `moments` are the points in time that the texts of a series stand
/// for, one for one and in order.
pub open spec fn datetimes_read(texts: Seq<String>, moments: Seq<DateTime>) -> bool {
    &&& moments.len() == texts.len()
    &&& forall|i: int|
        0 <= i < texts.len() ==> naive_datetime(#[trigger] texts[i]@, DATETIME_FORMAT@) == Some(
            (moments[i].date.day_number, moments[i].hour, moments[i].minute),
        )
}

/// Whether `failure` reports the first text of a series that is no point in
/// time.
pub open spec fn datetime_unreadable(texts: Seq<String>, failure: WeatherErrorView) -> bool {
    exists|k: int|
        {
            &&& 0 <= k < texts.len()
            &&& naive_datetime(#[trigger] texts[k]@, DATETIME_FORMAT@) is None
            &&& failure == unreadable_time(texts[k]@)
            &&& forall|j: int|
                0 <= j < k ==> naive_datetime(#[trigger] texts[j]@, DATETIME_FORMAT@) is Some
        }
}

/// Reads each day of a series. The first text that is no day fails the whole
/// series.
pub fn parse_date_vec(texts: &Vec<String>) -> (dates: Result<Vec<Date>, WeatherError>)
    ensures
        match dates {
            Ok(dates) => dates_read(texts@, dates@),
            Err(failure) => date_unreadable(texts@, failure@),
        },
{
    let mut dates: Vec<Date> = Vec::new();
    let mut i: usize = 0;
    while i < texts.len()
        invariant
            i <= texts@.len(),
            dates@.len() == i,
            forall|j: int|
                0 <= j < i ==> naive_date(#[trigger] texts@[j]@, DATE_FORMAT@) == Some(
                    dates@[j].day_number,
                ),
        decreases texts@.len() - i,
    {
        match parse_date(texts[i].as_str()) {
            Ok(date) => {
                dates.push(date);
            },
            Err(failure) => {
                return Err(failure);
            },
        }
        i += 1;
    }
    Ok(dates)
}

/// Reads each point in time of a series. The first text that is no point in
/// time fails the whole series.
pub fn parse_datetime_vec(texts: &Vec<String>) -> (moments: Result<Vec<DateTime>, WeatherError>)
    ensures
        match moments {
            Ok(moments) => datetimes_read(texts@, moments@),
            Err(failure) => datetime_unreadable(texts@, failure@),
        },
{
    let mut moments: Vec<DateTime> = Vec::new();
    let mut i: usize = 0;
    while i < texts.len()
        invariant
            i <= texts@.len(),
            moments@.len() == i,
            forall|j: int|
                0 <= j < i ==> naive_datetime(#[trigger] texts@[j]@, DATETIME_FORMAT@) == Some(
                    (moments@[j].date.day_number, moments@[j].hour, moments@[j].minute),
                ),
        decreases texts@.len() - i,
    {
        match parse_datetime(texts[i].as_str()) {
            Ok(moment) => {
                moments.push(moment);
            },
            Err(failure) => {
                return Err(failure);
            },
        }
        i += 1;
    }
    Ok(moments)
}

} // verus!
