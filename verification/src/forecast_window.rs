//! The state of the forecast window: whether a forecast is on its way, and
//! what the window shows.

use crate::error::Error;
use crate::forecast::{current_row, day_rows, hour_rows, CurrentRow, DayRow, HourRow};
use crate::location::Location;
use crate::settings::Settings;
use crate::time::DateTime;
use crate::weather::Forecast;
use vstd::prelude::*;

verus! {

/// The forecast window. It asks for a forecast once it opens and shows what
/// came back; a failure is shown in place of the forecast and ends nothing.
#[derive(Debug, PartialEq)]
pub struct ForecastWindow {
    pub loading: bool,
    pub settings: Settings,
    pub weather_response: Option<Forecast>,
    pub failure: Option<Error>,
}

/// What the window shows.
#[derive(Debug, PartialEq)]
pub enum Content {
    /// A forecast is on its way.
    Loading,
    /// The last request failed.
    Failed { message: String },
    /// The forecast: the conditions now, the hours and the days.
    Report { current: Option<CurrentRow>, hours: Vec<HourRow>, days: Vec<DayRow> },
    /// Nothing was asked for yet.
    Empty,
}

impl ForecastWindow {
    /// A window for the place of the settings, with nothing asked for yet.
    pub fn new(settings: Settings) -> (window: Self)
        ensures
            window.settings == settings,
            !window.loading,
            window.weather_response is None,
            window.failure is None,
    {
        ForecastWindow { loading: false, settings, weather_response: None, failure: None }
    }

    /// Marks that a forecast is on its way and gives the place to ask it for.
    pub fn update_weather(&mut self) -> (location: Location)
        ensures
            final(self).loading,
            final(self).settings == old(self).settings,
            final(self).weather_response == old(self).weather_response,
            final(self).failure == old(self).failure,
            location@ == old(self).settings@.location,
    {
        self.loading = true;
        self.settings.location().clone()
    }

    /// Takes what a request gave. Only a window that is loading takes it: the
    /// forecast replaces the one shown, a failure is kept to be shown. A
    /// window that has asked for nothing changes nothing.
    pub fn receive(&mut self, fetched: Result<Forecast, Error>)
        ensures
            final(self).settings == old(self).settings,
            !final(self).loading,
            !old(self).loading ==> *final(self) == *old(self),
            old(self).loading ==> match fetched {
                Ok(forecast) => {
                    &&& final(self).weather_response == Some(forecast)
                    &&& final(self).failure is None
                },
                Err(error) => {
                    &&& final(self).weather_response == old(self).weather_response
                    &&& final(self).failure == Some(error)
                },
            },
    {
        if self.loading {
            self.loading = false;
            match fetched {
                Ok(forecast) => {
                    self.weather_response = Some(forecast);
                    self.failure = None;
                },
                Err(error) => {
                    self.failure = Some(error);
                },
            }
        }
    }

    /// What the window shows at the time `now`: that it is loading; else the
    /// failure of the last request; else the forecast, row by row; else
    /// nothing.
    pub fn content(&self, now: &DateTime) -> (content: Content)
        ensures
            self.loading ==> content == Content::Loading,
            !self.loading && self.failure is Some ==> (content matches Content::Failed { message }
                && message@ == self.failure->0@.text()),
            !self.loading && self.failure is None && self.weather_response is None ==> content
                == Content::Empty,
            !self.loading && self.failure is None && self.weather_response is Some
                ==> (content matches Content::Report { current, hours, days } && {
                let response = self.weather_response->0@;
                &&& current == match response.current {
                    Some(c) => Some(current_row(c)),
                    None => None,
                }
                &&& hours@ == hour_rows(response, *now)
                &&& days@ == day_rows(response, now.date)
            }),
    {
        if self.loading {
            return Content::Loading;
        }
        if let Some(error) = &self.failure {
            return Content::Failed { message: error.to_string() };
        }
        match &self.weather_response {
            Some(forecast) => Content::Report {
                current: forecast.current(),
                hours: forecast.hours(now),
                days: forecast.days(&now.date),
            },
            None => Content::Empty,
        }
    }
}

} // verus!
