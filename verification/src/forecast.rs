//! What the forecast window shows: the rows of a checked forecast, each with
//! the name of its hour or day relative to the present.

use crate::time::{Date, DateTime};
use crate::weather::{Current, Daily, Forecast, Hourly, WeatherResponse};
use vstd::prelude::*;

verus! {

/// How an hour of the forecast is named.
#[derive(Clone, Copy, Debug, PartialEq, Eq, Structural)]
pub enum HourLabel {
    /// The hour that is running.
    Now,
    /// Any other hour, to be written out.
    At,
}

/// How a day of the forecast is named.
#[derive(Clone, Copy, Debug, PartialEq, Eq, Structural)]
pub enum DayLabel {
    Today,
    Tomorrow,
    /// Any other day, to be written out.
    On,
}

/// The name of an hour: the hour of the present on the day of the present is
/// "now".
pub open spec fn hour_label(time: DateTime, now: DateTime) -> HourLabel {
    if time.date == now.date && time.hour == now.hour {
        HourLabel::Now
    } else {
        HourLabel::At
    }
}

/// The name of a day: the present day is "today", the day after it
/// "tomorrow".
pub open spec fn day_label(date: Date, today: Date) -> DayLabel {
    if date == today {
        DayLabel::Today
    } else if date.day_number == today.day_number + 1 {
        DayLabel::Tomorrow
    } else {
        DayLabel::On
    }
}

pub fn human_hour(date: &DateTime, now: &DateTime) -> (label: HourLabel)
    ensures
        label == hour_label(*date, *now),
{
    if date.date.day_number == now.date.day_number && date.hour == now.hour {
        HourLabel::Now
    } else {
        HourLabel::At
    }
}

pub fn human_day(date: &Date, today: &Date) -> (label: DayLabel)
    ensures
        label == day_label(*date, *today),
{
    if date.day_number == today.day_number {
        DayLabel::Today
    } else if today.day_number < i32::MAX && date.day_number == today.day_number + 1 {
        DayLabel::Tomorrow
    } else {
        DayLabel::On
    }
}

/// The conditions now, as one row.
#[derive(Debug, PartialEq)]
pub struct CurrentRow {
    pub weather_code: u16,
    pub temperature: String,
    pub rain: String,
    pub wind_speed: String,
}

/// One hour of the forecast.
#[derive(Debug, PartialEq)]
pub struct HourRow {
    pub label: HourLabel,
    pub time: DateTime,
    pub weather_code: u16,
    pub temperature: String,
    pub precipitation: String,
    pub wind_speed: String,
}

/// One day of the forecast.
#[derive(Debug, PartialEq)]
pub struct DayRow {
    pub label: DayLabel,
    pub date: Date,
    pub weather_code: u16,
    pub max: String,
    pub min: String,
    pub wind_speed: String,
    pub rain: String,
}

/// The row of the conditions now.
pub open spec fn current_row(current: Current) -> CurrentRow {
    CurrentRow {
        weather_code: current.weather_code,
        temperature: current.temperature_2m,
        rain: current.precipitation,
        wind_speed: current.wind_speed_10m,
    }
}

/// The row of the hour at a position of the hourly series.
pub open spec fn hour_row(hourly: Hourly, i: int, now: DateTime) -> HourRow {
    HourRow {
        label: hour_label(hourly.time@[i], now),
        time: hourly.time@[i],
        weather_code: hourly.weather_code@[i],
        temperature: hourly.temperature_2m@[i],
        precipitation: hourly.precipitation@[i],
        wind_speed: hourly.wind_speed_10m@[i],
    }
}

/// The row of the day at a position of the daily series.
pub open spec fn day_row(daily: Daily, i: int, today: Date) -> DayRow {
    DayRow {
        label: day_label(daily.time@[i], today),
        date: daily.time@[i],
        weather_code: daily.weather_code@[i],
        max: daily.temperature_2m_max@[i],
        min: daily.temperature_2m_min@[i],
        wind_speed: daily.wind_speed_10m_max@[i],
        rain: daily.precipitation_sum@[i],
    }
}

/// The hourly rows of an answer: one for each point in time, in order, and
/// none where the answer has no hourly block.
pub open spec fn hour_rows(response: WeatherResponse, now: DateTime) -> Seq<HourRow> {
    match response.hourly {
        Some(hourly) => Seq::new(hourly.time@.len(), |i: int| hour_row(hourly, i, now)),
        None => Seq::empty(),
    }
}

/// The daily rows of an answer: one for each day, in order, and none where
/// the answer has no daily block.
pub open spec fn day_rows(response: WeatherResponse, today: Date) -> Seq<DayRow> {
    match response.daily {
        Some(daily) => Seq::new(daily.time@.len(), |i: int| day_row(daily, i, today)),
        None => Seq::empty(),
    }
}

impl Forecast {
    /// The row of the conditions now, where the forecast holds them.
    pub fn current(&self) -> (row: Option<CurrentRow>)
        ensures
            row == match self@.current {
                Some(current) => Some(current_row(current)),
                None => None,
            },
    {
        match &self.response().current {
            Some(current) => Some(
                CurrentRow {
                    weather_code: current.weather_code,
                    temperature: current.temperature_2m.clone(),
                    rain: current.precipitation.clone(),
                    wind_speed: current.wind_speed_10m.clone(),
                },
            ),
            None => None,
        }
    }

    /// The hourly rows, each named relative to `now`.
    pub fn hours(&self, now: &DateTime) -> (rows: Vec<HourRow>)
        ensures
            rows@ == hour_rows(self@, *now),
    {
        let mut rows: Vec<HourRow> = Vec::new();
        let response = self.response();
        if let Some(hourly) = &response.hourly {
            let mut i: usize = 0;
            while i < hourly.time.len()
                invariant
                    hourly.series_agree(),
                    i <= hourly.time@.len(),
                    rows@.len() == i,
                    forall|j: int| 0 <= j < i ==> rows@[j] == hour_row(*hourly, j, *now),
                decreases hourly.time@.len() - i,
            {
                rows.push(
                    HourRow {
                        label: human_hour(&hourly.time[i], now),
                        time: hourly.time[i],
                        weather_code: hourly.weather_code[i],
                        temperature: hourly.temperature_2m[i].clone(),
                        precipitation: hourly.precipitation[i].clone(),
                        wind_speed: hourly.wind_speed_10m[i].clone(),
                    },
                );
                i += 1;
            }
        }
        assert(rows@ =~= hour_rows(self@, *now));
        rows
    }

    /// The daily rows, each named relative to `today`.
    pub fn days(&self, today: &Date) -> (rows: Vec<DayRow>)
        ensures
            rows@ == day_rows(self@, *today),
    {
        let mut rows: Vec<DayRow> = Vec::new();
        let response = self.response();
        if let Some(daily) = &response.daily {
            let mut i: usize = 0;
            while i < daily.time.len()
                invariant
                    daily.series_agree(),
                    i <= daily.time@.len(),
                    rows@.len() == i,
                    forall|j: int| 0 <= j < i ==> rows@[j] == day_row(*daily, j, *today),
                decreases daily.time@.len() - i,
            {
                rows.push(
                    DayRow {
                        label: human_day(&daily.time[i], today),
                        date: daily.time[i],
                        weather_code: daily.weather_code[i],
                        max: daily.temperature_2m_max[i].clone(),
                        min: daily.temperature_2m_min[i].clone(),
                        wind_speed: daily.wind_speed_10m_max[i].clone(),
                        rain: daily.precipitation_sum[i].clone(),
                    },
                );
                i += 1;
            }
        }
        assert(rows@ =~= day_rows(self@, *today));
        rows
    }
}

} // verus!
