//! The addresses under which the weather service is asked.

use crate::error::Error;
use crate::location::{Location, LocationView};
use vstd::prelude::*;

verus! {

/// The address of the service that answers with weather and forecasts.
pub const FORECAST_URL: &'static str = "https://api.open-meteo.com/v1/forecast";

/// The address of the service that finds places by name.
pub const GEOCODING_URL: &'static str = "https://geocoding-api.open-meteo.com/v1/search";

/// The fields that a forecast asks for, for the moment of the request and for
/// each hour.
pub const HOURLY_FIELDS: &'static str =
    "temperature_2m,precipitation,weather_code,wind_speed_10m,wind_direction_10m,wind_gusts_10m";

/// The fields that a forecast asks for, for each day.
pub const DAILY_FIELDS: &'static str =
    "weather_code,temperature_2m_max,temperature_2m_min,precipitation_sum,precipitation_hours,precipitation_probability_max,wind_speed_10m_max,wind_gusts_10m_max,wind_direction_10m_dominant";

/// `url::ParseError`, the reason why the `url` crate made no address. It is
/// carried through as it is; nothing is known of what a value holds.
#[verifier::external_type_specification]
#[verifier::external_body]
pub struct ExParseError(url::ParseError);

/// The address that the `url` crate makes of a base address and the
/// parameters to add to its query, as text; `None` where it makes none.
pub uninterp spec fn url_text(base: Seq<char>, params: Seq<(Seq<char>, Seq<char>)>) -> Option<
    Seq<char>,
>;

/// What each pair of a list of parameters holds.
pub open spec fn params_view(params: Seq<(String, String)>) -> Seq<(Seq<char>, Seq<char>)> {
    params.map_values(|p: (String, String)| (p.0@, p.1@))
}

/// `reqwest::Url::parse_with_params` (the `Url` of the `url` crate), with the
/// address handed back as text. Nothing is claimed of which base addresses
/// are accepted or how parameters are encoded: the contract only names the
/// outcome, which depends on the two arguments alone. The base is one of the
/// two addresses of the service, neither of which holds a fragment: behind a
/// fragment the outside function gives up on parameters too long to count.
#[verifier::external_body]
fn url_with_params(base: &str, params: &Vec<(String, String)>) -> (built: Result<
    String,
    url::ParseError,
>)
    requires
        base@ == FORECAST_URL@ || base@ == GEOCODING_URL@,
    ensures
        built matches Ok(text) ==> url_text(base@, params_view(params@)) == Some(text@),
        built is Err ==> url_text(base@, params_view(params@)) is None,
{
    match reqwest::Url::parse_with_params(base, params) {
        Ok(address) => Ok(String::from(address)),
        Err(error) => Err(error),
    }
}

/// A parameter.
fn param(key: &str, value: &str) -> (pair: (String, String))
    ensures
        pair.0@ == key@,
        pair.1@ == value@,
{
    (String::from_str(key), String::from_str(value))
}

/// The parameters of a request for the current weather at a place.
pub open spec fn current_weather_params(location: LocationView) -> Seq<(Seq<char>, Seq<char>)> {
    seq![
        ("latitude"@, location.latitude),
        ("longitude"@, location.longitude),
        ("current_weather"@, "true"@),
    ]
}

/// The parameters of a request for the forecast at a place: the conditions
/// now, the next twelve hours and the next seven days.
pub open spec fn forecast_params(location: LocationView) -> Seq<(Seq<char>, Seq<char>)> {
    seq![
        ("latitude"@, location.latitude),
        ("longitude"@, location.longitude),
        ("current"@, HOURLY_FIELDS@),
        ("hourly"@, HOURLY_FIELDS@),
        ("daily"@, DAILY_FIELDS@),
        ("forecast_days"@, "7"@),
        ("forecast_hours"@, "12"@),
    ]
}

/// The parameters of a search for places by name: at most ten places, named
/// in the given language.
pub open spec fn search_params(name: Seq<char>, lang: Seq<char>) -> Seq<(Seq<char>, Seq<char>)> {
    seq![("name"@, name), ("language"@, lang), ("count"@, "10"@), ("format"@, "json"@)]
}

/// Whether a request is the one that the `url` crate makes of the base
/// address and the parameters; where it makes none, whether the request is
/// the failure that says so.
pub open spec fn is_request(
    request: Result<String, Error>,
    base: Seq<char>,
    params: Seq<(Seq<char>, Seq<char>)>,
) -> bool {
    match url_text(base, params) {
        Some(text) => request is Ok && request->Ok_0@ == text,
        None => request is Err && request->Err_0@ is Other,
    }
}

/// The request for an address that was built or could not be built: the
/// address, or the failure that holds the reason in words.
pub fn request_from(built: Result<String, url::ParseError>) -> (request: Result<String, Error>)
    ensures
        built matches Ok(text) ==> request == Ok::<String, Error>(text),
        built matches Err(error) ==> (request matches Err(Error::Other(detail))
            && vstd::string::to_string_from_display_ensures(&error, detail)),
{
    match built {
        Ok(text) => Ok(text),
        Err(error) => Err(Error::Other(error.to_string())),
    }
}

/// The address to ask for the current weather at a place.
pub fn current_weather_request(location: &Location) -> (request: Result<String, Error>)
    ensures
        is_request(request, FORECAST_URL@, current_weather_params(location@)),
{
    let mut params: Vec<(String, String)> = Vec::new();
    params.push(param("latitude", location.latitude.as_str()));
    params.push(param("longitude", location.longitude.as_str()));
    params.push(param("current_weather", "true"));
    assert(params_view(params@) =~= current_weather_params(location@));
    request_from(url_with_params(FORECAST_URL, &params))
}

/// The address to ask for the forecast at a place.
pub fn forecast_request(location: &Location) -> (request: Result<String, Error>)
    ensures
        is_request(request, FORECAST_URL@, forecast_params(location@)),
{
    let mut params: Vec<(String, String)> = Vec::new();
    params.push(param("latitude", location.latitude.as_str()));
    params.push(param("longitude", location.longitude.as_str()));
    params.push(param("current", HOURLY_FIELDS));
    params.push(param("hourly", HOURLY_FIELDS));
    params.push(param("daily", DAILY_FIELDS));
    params.push(param("forecast_days", "7"));
    params.push(param("forecast_hours", "12"));
    assert(params_view(params@) =~= forecast_params(location@));
    request_from(url_with_params(FORECAST_URL, &params))
}

/// The address to ask for the places of a name, described in a language.
pub fn search_request(name: &str, lang: &str) -> (request: Result<String, Error>)
    ensures
        is_request(request, GEOCODING_URL@, search_params(name@, lang@)),
{
    let mut params: Vec<(String, String)> = Vec::new();
    params.push(param("name", name));
    params.push(param("language", lang));
    params.push(param("count", "10"));
    params.push(param("format", "json"));
    assert(params_view(params@) =~= search_params(name@, lang@));
    request_from(url_with_params(GEOCODING_URL, &params))
}

} // verus!
