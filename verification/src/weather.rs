//! What the weather service answers, and what the utility takes from it.

use crate::conditions::{description_key, description_of, icon_for_code, icon_of};
use crate::error::{WeatherError, WeatherErrorView};
use crate::time::{
    date_unreadable, dates_read, datetime_of, datetime_unreadable, datetimes_read, is_outcome,
    naive_datetime, parse_date_vec, parse_datetime, parse_datetime_vec, unreadable_time, Date,
    DateTime, DATETIME_FORMAT,
};
use vstd::prelude::*;

verus! {

/// The conditions at the moment of a request. Temperature and wind speed are
/// kept as the decimal text that is shown.
#[derive(Debug, PartialEq)]
pub struct CurrentWeather {
    pub temperature: String,
    pub windspeed: String,
    pub winddirection: u16,
    pub weathercode: u16,
}

pub struct CurrentWeatherView {
    pub temperature: Seq<char>,
    pub windspeed: Seq<char>,
    pub winddirection: u16,
    pub weathercode: u16,
}

impl View for CurrentWeather {
    type V = CurrentWeatherView;

    open spec fn view(&self) -> CurrentWeatherView {
        CurrentWeatherView {
            temperature: self.temperature@,
            windspeed: self.windspeed@,
            winddirection: self.winddirection,
            weathercode: self.weathercode,
        }
    }
}

impl Clone for CurrentWeather {
    fn clone(&self) -> (copy: Self)
        ensures
            copy@ == self@,
    {
        CurrentWeather {
            temperature: self.temperature.clone(),
            windspeed: self.windspeed.clone(),
            winddirection: self.winddirection,
            weathercode: self.weathercode,
        }
    }
}

impl CurrentWeather {
    /// The key under which the texts of each language hold the description
    /// of the conditions.
    pub fn description(&self) -> (key: &'static str)
        ensures
            key@ == description_key(self.weathercode),
    {
        description_of(self.weathercode)
    }

    /// The name of the icon for the conditions, without directory or ending.
    pub fn icon_name(&self) -> (name: &'static str)
        ensures
            name@ == icon_for_code(self.weathercode),
    {
        icon_of(self.weathercode)
    }
}

/// The error object with which the service reports a failure of its own.
#[derive(Debug, PartialEq)]
pub struct RemoteError {
    pub error: bool,
    pub reason: String,
}

impl RemoteError {
    /// The line of the error object: what the failure that it leads to says
    /// of itself.
    pub open spec fn text(self) -> Seq<char> {
        (WeatherErrorView::Semantic { reason: self.reason@ }).own_text()
    }

    pub fn to_string(&self) -> (text: String)
        ensures
            text@ == self.text(),
            text@ == "WeatherError: "@ + self.reason@,
    {
        let mut text = String::from_str("WeatherError: ");
        text.append(self.reason.as_str());
        text
    }
}

/// The conditions at the moment of a request, in the fuller form of a
/// forecast.
#[derive(Debug, PartialEq)]
pub struct Current {
    pub time: DateTime,
    pub temperature_2m: String,
    pub precipitation: String,
    pub wind_speed_10m: String,
    pub wind_direction_10m: u16,
    pub wind_gusts_10m: String,
    pub weather_code: u16,
}

/// Hour by hour: one entry of each series for each entry of `time`.
#[derive(Debug, PartialEq)]
pub struct Hourly {
    pub time: Vec<DateTime>,
    pub temperature_2m: Vec<String>,
    pub precipitation: Vec<String>,
    pub wind_speed_10m: Vec<String>,
    pub wind_direction_10m: Vec<u16>,
    pub wind_gusts_10m: Vec<String>,
    pub weather_code: Vec<u16>,
}

/// Day by day: one entry of each series for each entry of `time`.
#[derive(Debug, PartialEq)]
pub struct Daily {
    pub time: Vec<Date>,
    pub temperature_2m_max: Vec<String>,
    pub temperature_2m_min: Vec<String>,
    pub precipitation_sum: Vec<String>,
    pub wind_speed_10m_max: Vec<String>,
    pub wind_gusts_10m_max: Vec<String>,
    pub wind_direction_10m_dominant: Vec<u16>,
    pub weather_code: Vec<u16>,
}

/// An answer of the weather service, as decoded. Every part is optional, and
/// nothing has been checked yet.
#[derive(Debug, PartialEq)]
pub struct WeatherResponse {
    pub error: Option<RemoteError>,
    pub current_weather: Option<CurrentWeather>,
    pub current: Option<Current>,
    pub hourly: Option<Hourly>,
    pub daily: Option<Daily>,
}

/// The conditions at the moment of a request as the service writes them: the
/// time is still text.
#[derive(Debug, PartialEq)]
pub struct CurrentText {
    pub time: String,
    pub temperature_2m: String,
    pub precipitation: String,
    pub wind_speed_10m: String,
    pub wind_direction_10m: u16,
    pub wind_gusts_10m: String,
    pub weather_code: u16,
}

/// The hourly block as the service writes it: the times are still text.
#[derive(Debug, PartialEq)]
pub struct HourlyText {
    pub time: Vec<String>,
    pub temperature_2m: Vec<String>,
    pub precipitation: Vec<String>,
    pub wind_speed_10m: Vec<String>,
    pub wind_direction_10m: Vec<u16>,
    pub wind_gusts_10m: Vec<String>,
    pub weather_code: Vec<u16>,
}

/// The daily block as the service writes it: the days are still text.
#[derive(Debug, PartialEq)]
pub struct DailyText {
    pub time: Vec<String>,
    pub temperature_2m_max: Vec<String>,
    pub temperature_2m_min: Vec<String>,
    pub precipitation_sum: Vec<String>,
    pub wind_speed_10m_max: Vec<String>,
    pub wind_gusts_10m_max: Vec<String>,
    pub wind_direction_10m_dominant: Vec<u16>,
    pub weather_code: Vec<u16>,
}

/// An answer of the weather service as it is written: every time is still
/// text.
#[derive(Debug, PartialEq)]
pub struct WeatherPayload {
    pub error: Option<RemoteError>,
    pub current_weather: Option<CurrentWeather>,
    pub current: Option<CurrentText>,
    pub hourly: Option<HourlyText>,
    pub daily: Option<DailyText>,
}

impl CurrentText {
    /// The conditions with the time `time` in place of the text.
    pub open spec fn at(self, time: DateTime) -> Current {
        Current {
            time,
            temperature_2m: self.temperature_2m,
            precipitation: self.precipitation,
            wind_speed_10m: self.wind_speed_10m,
            wind_direction_10m: self.wind_direction_10m,
            wind_gusts_10m: self.wind_gusts_10m,
            weather_code: self.weather_code,
        }
    }

    /// What the conditions read as, given what was read out of the time's
    /// text: the conditions at that time, or the failure that reports the
    /// text.
    pub open spec fn read_with(self, read: Option<(i32, u32, u32)>) -> Result<
        Current,
        WeatherErrorView,
    > {
        match datetime_of(self.time@, read) {
            Ok(time) => Ok(self.at(time)),
            Err(failure) => Err(failure),
        }
    }

    /// Whether the time's text is a point in time.
    pub open spec fn readable(self) -> bool {
        naive_datetime(self.time@, DATETIME_FORMAT@) is Some
    }
}

impl HourlyText {
    /// Whether `hourly` is this block with each time read: the times are
    /// those that the texts stand for, and every series is as it was.
    pub open spec fn reads_as(self, hourly: Hourly) -> bool {
        &&& datetimes_read(self.time@, hourly.time@)
        &&& hourly.temperature_2m == self.temperature_2m
        &&& hourly.precipitation == self.precipitation
        &&& hourly.wind_speed_10m == self.wind_speed_10m
        &&& hourly.wind_direction_10m == self.wind_direction_10m
        &&& hourly.wind_gusts_10m == self.wind_gusts_10m
        &&& hourly.weather_code == self.weather_code
    }

    /// Whether every text of the times is a point in time.
    pub open spec fn readable(self) -> bool {
        forall|i: int|
            0 <= i < self.time@.len() ==> naive_datetime(
                #[trigger] self.time@[i]@,
                DATETIME_FORMAT@,
            ) is Some
    }
}

impl DailyText {
    /// Whether `daily` is this block with each day read: the days are those
    /// that the texts stand for, and every series is as it was.
    pub open spec fn reads_as(self, daily: Daily) -> bool {
        &&& dates_read(self.time@, daily.time@)
        &&& daily.temperature_2m_max == self.temperature_2m_max
        &&& daily.temperature_2m_min == self.temperature_2m_min
        &&& daily.precipitation_sum == self.precipitation_sum
        &&& daily.wind_speed_10m_max == self.wind_speed_10m_max
        &&& daily.wind_gusts_10m_max == self.wind_gusts_10m_max
        &&& daily.wind_direction_10m_dominant == self.wind_direction_10m_dominant
        &&& daily.weather_code == self.weather_code
    }
}

/// Reads the time of the conditions now.
pub fn read_current(text: CurrentText) -> (current: Result<Current, WeatherError>)
    ensures
        is_outcome(current, text.read_with(naive_datetime(text.time@, DATETIME_FORMAT@))),
{
    match parse_datetime(text.time.as_str()) {
        Ok(time) => Ok(
            Current {
                time,
                temperature_2m: text.temperature_2m,
                precipitation: text.precipitation,
                wind_speed_10m: text.wind_speed_10m,
                wind_direction_10m: text.wind_direction_10m,
                wind_gusts_10m: text.wind_gusts_10m,
                weather_code: text.weather_code,
            },
        ),
        Err(failure) => Err(failure),
    }
}

/// Reads the times of an hourly block. The first text that is no point in
/// time fails the block.
pub fn read_hourly(text: HourlyText) -> (hourly: Result<Hourly, WeatherError>)
    ensures
        match hourly {
            Ok(hourly) => text.reads_as(hourly),
            Err(failure) => datetime_unreadable(text.time@, failure@),
        },
{
    match parse_datetime_vec(&text.time) {
        Ok(time) => Ok(
            Hourly {
                time,
                temperature_2m: text.temperature_2m,
                precipitation: text.precipitation,
                wind_speed_10m: text.wind_speed_10m,
                wind_direction_10m: text.wind_direction_10m,
                wind_gusts_10m: text.wind_gusts_10m,
                weather_code: text.weather_code,
            },
        ),
        Err(failure) => Err(failure),
    }
}

/// Reads the days of a daily block. The first text that is no day fails the
/// block.
pub fn read_daily(text: DailyText) -> (daily: Result<Daily, WeatherError>)
    ensures
        match daily {
            Ok(daily) => text.reads_as(daily),
            Err(failure) => date_unreadable(text.time@, failure@),
        },
{
    match parse_date_vec(&text.time) {
        Ok(time) => Ok(
            Daily {
                time,
                temperature_2m_max: text.temperature_2m_max,
                temperature_2m_min: text.temperature_2m_min,
                precipitation_sum: text.precipitation_sum,
                wind_speed_10m_max: text.wind_speed_10m_max,
                wind_gusts_10m_max: text.wind_gusts_10m_max,
                wind_direction_10m_dominant: text.wind_direction_10m_dominant,
                weather_code: text.weather_code,
            },
        ),
        Err(failure) => Err(failure),
    }
}

impl WeatherPayload {
    /// Whether `response` is this answer with every time read, part for
    /// part.
    pub open spec fn reads_as(self, response: WeatherResponse) -> bool {
        &&& response.error == self.error
        &&& response.current_weather == self.current_weather
        &&& match self.current {
            Some(text) => response.current is Some && text.read_with(
                naive_datetime(text.time@, DATETIME_FORMAT@),
            ) == Ok::<Current, WeatherErrorView>(response.current->0),
            None => response.current is None,
        }
        &&& match self.hourly {
            Some(text) => response.hourly is Some && text.reads_as(response.hourly->0),
            None => response.hourly is None,
        }
        &&& match self.daily {
            Some(text) => response.daily is Some && text.reads_as(response.daily->0),
            None => response.daily is None,
        }
    }

    /// Whether `failure` reports the first text of this answer that is no
    /// time, looking at the conditions now, then at the hours, then at the
    /// days.
    pub open spec fn unreadable(self, failure: WeatherErrorView) -> bool {
        match self.current {
            Some(text) if !text.readable() => failure == unreadable_time(text.time@),
            _ => match self.hourly {
                Some(text) if !text.readable() => datetime_unreadable(text.time@, failure),
                _ => self.daily matches Some(text) && date_unreadable(text.time@, failure),
            },
        }
    }
}

/// Reads the times of an answer.
///
/// An answer with an error object is a failure of the service, whatever else
/// it holds and whether or not its times can be read. In any other answer
/// the first text that is no time makes the answer malformed.
pub fn read_response(payload: WeatherPayload) -> (response: Result<WeatherResponse, WeatherError>)
    ensures
        payload.error matches Some(error) ==> response is Err && response->Err_0@
            == (WeatherErrorView::Semantic { reason: error.reason@ }),
        payload.error is None ==> match response {
            Ok(response) => payload.reads_as(response),
            Err(failure) => payload.unreadable(failure@),
        },
{
    if let Some(error) = payload.error {
        return Err(WeatherError::Semantic { reason: error.reason });
    }
    let current = match payload.current {
        Some(text) => match read_current(text) {
            Ok(current) => Some(current),
            Err(failure) => {
                return Err(failure);
            },
        },
        None => None,
    };
    let hourly = match payload.hourly {
        Some(text) => match read_hourly(text) {
            Ok(hourly) => Some(hourly),
            Err(failure) => {
                return Err(failure);
            },
        },
        None => None,
    };
    let daily = match payload.daily {
        Some(text) => match read_daily(text) {
            Ok(daily) => Some(daily),
            Err(failure) => {
                return Err(failure);
            },
        },
        None => None,
    };
    Ok(
        WeatherResponse {
            error: None,
            current_weather: payload.current_weather,
            current,
            hourly,
            daily,
        },
    )
}

impl Hourly {
    /// Every series has one entry for each point in time.
    pub open spec fn series_agree(self) -> bool {
        &&& self.temperature_2m@.len() == self.time@.len()
        &&& self.precipitation@.len() == self.time@.len()
        &&& self.wind_speed_10m@.len() == self.time@.len()
        &&& self.wind_direction_10m@.len() == self.time@.len()
        &&& self.wind_gusts_10m@.len() == self.time@.len()
        &&& self.weather_code@.len() == self.time@.len()
    }

    pub fn check_series(&self) -> (agree: bool)
        ensures
            agree == self.series_agree(),
    {
        let n = self.time.len();
        self.temperature_2m.len() == n && self.precipitation.len() == n
            && self.wind_speed_10m.len() == n && self.wind_direction_10m.len() == n
            && self.wind_gusts_10m.len() == n && self.weather_code.len() == n
    }
}

impl Daily {
    /// Every series has one entry for each day.
    pub open spec fn series_agree(self) -> bool {
        &&& self.temperature_2m_max@.len() == self.time@.len()
        &&& self.temperature_2m_min@.len() == self.time@.len()
        &&& self.precipitation_sum@.len() == self.time@.len()
        &&& self.wind_speed_10m_max@.len() == self.time@.len()
        &&& self.wind_gusts_10m_max@.len() == self.time@.len()
        &&& self.wind_direction_10m_dominant@.len() == self.time@.len()
        &&& self.weather_code@.len() == self.time@.len()
    }

    pub fn check_series(&self) -> (agree: bool)
        ensures
            agree == self.series_agree(),
    {
        let n = self.time.len();
        self.temperature_2m_max.len() == n && self.temperature_2m_min.len() == n
            && self.precipitation_sum.len() == n && self.wind_speed_10m_max.len() == n
            && self.wind_gusts_10m_max.len() == n && self.wind_direction_10m_dominant.len() == n
            && self.weather_code.len() == n
    }
}

impl WeatherResponse {
    /// The failure that the service reports in this answer, if it reports one.
    /// An error object counts whatever its flag says.
    pub open spec fn reported(self) -> Option<WeatherErrorView> {
        match self.error {
            Some(e) => Some(WeatherErrorView::Semantic { reason: e.reason@ }),
            None => None,
        }
    }

    pub open spec fn hourly_agrees(self) -> bool {
        self.hourly matches Some(h) ==> h.series_agree()
    }

    pub open spec fn daily_agrees(self) -> bool {
        self.daily matches Some(d) ==> d.series_agree()
    }
}

/// The failure for a forecast whose hourly series differ in length.
pub open spec fn uneven_hourly() -> WeatherErrorView {
    WeatherErrorView::Malformed { detail: "hourly series differ in length"@ }
}

/// The failure for a forecast whose daily series differ in length.
pub open spec fn uneven_daily() -> WeatherErrorView {
    WeatherErrorView::Malformed { detail: "daily series differ in length"@ }
}

/// The current weather of an answer.
///
/// An answer with an error object is a failure of the service, whatever else
/// it holds. An answer without one and without current weather is a failure
/// too: no weather is made up.
pub fn get_current_weather(response: WeatherResponse) -> (weather: Result<
    CurrentWeather,
    WeatherError,
>)
    ensures
        response.error is Some ==> weather is Err && Some(weather->Err_0@) == response.reported(),
        response.error is None && response.current_weather is None ==> weather is Err
            && weather->Err_0@ == WeatherErrorView::NoCurrentWeather,
        response.error is None && response.current_weather is Some ==> weather == Ok::<
            CurrentWeather,
            WeatherError,
        >(response.current_weather->0),
{
    if let Some(error) = response.error {
        return Err(WeatherError::Semantic { reason: error.reason });
    }
    match response.current_weather {
        Some(current_weather) => Ok(current_weather),
        None => Err(WeatherError::NoCurrentWeather),
    }
}

/// A forecast that has been checked: the service reported no failure, and in
/// each block every series is as long as the block's series of times.
#[derive(Debug, PartialEq)]
pub struct Forecast {
    response: WeatherResponse,
}

impl View for Forecast {
    type V = WeatherResponse;

    closed spec fn view(&self) -> WeatherResponse {
        self.response
    }
}

impl Forecast {
    #[verifier::type_invariant]
    spec fn checked(self) -> bool {
        &&& self.response.error is None
        &&& self.response.hourly_agrees()
        &&& self.response.daily_agrees()
    }

    /// The answer that was checked.
    pub fn response(&self) -> (response: &WeatherResponse)
        ensures
            *response == self@,
            response.error is None,
            response.hourly_agrees(),
            response.daily_agrees(),
    {
        proof {
            use_type_invariant(self);
        }
        &self.response
    }
}

/// The forecast of an answer.
///
/// An answer with an error object is a failure of the service. One in which
/// a series is shorter or longer than its times is malformed: it is turned
/// down here, so that no reader runs past the end of a series.
pub fn get_forecast(response: WeatherResponse) -> (forecast: Result<Forecast, WeatherError>)
    ensures
        response.error is Some ==> forecast is Err && Some(forecast->Err_0@)
            == response.reported(),
        response.error is None && !response.hourly_agrees() ==> forecast is Err
            && forecast->Err_0@ == uneven_hourly(),
        response.error is None && response.hourly_agrees() && !response.daily_agrees()
            ==> forecast is Err && forecast->Err_0@ == uneven_daily(),
        response.error is None && response.hourly_agrees() && response.daily_agrees()
            ==> forecast is Ok && forecast->Ok_0@ == response,
{
    if let Some(error) = response.error {
        return Err(WeatherError::Semantic { reason: error.reason });
    }
    let hourly_agrees = match &response.hourly {
        Some(hourly) => hourly.check_series(),
        None => true,
    };
    if !hourly_agrees {
        return Err(
            WeatherError::Malformed { detail: String::from_str("hourly series differ in length") },
        );
    }
    let daily_agrees = match &response.daily {
        Some(daily) => daily.check_series(),
        None => true,
    };
    if !daily_agrees {
        return Err(
            WeatherError::Malformed { detail: String::from_str("daily series differ in length") },
        );
    }
    Ok(Forecast { response })
}

} // verus!
