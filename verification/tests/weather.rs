use tray_weather::conditions::{description_of, icon_of};
use tray_weather::error::WeatherError;
use tray_weather::time::{Date, DateTime};
use tray_weather::weather::{
    get_current_weather, get_forecast, read_current, read_daily, read_hourly, read_response,
    CurrentText, CurrentWeather, Daily, DailyText, Hourly, HourlyText, RemoteError,
    WeatherPayload, WeatherResponse,
};

const FORECAST: &str = r#"
{
    "latitude": 52.52,
    "longitude": 13.419998,
    "generationtime_ms": 0.26595592498779297,
    "utc_offset_seconds": 0,
    "timezone": "GMT",
    "timezone_abbreviation": "GMT",
    "elevation": 38,
    "current_units": {
        "time": "iso8601",
        "interval": "seconds",
        "temperature_2m": "°C",
        "precipitation": "mm",
        "weather_code": "wmo code",
        "wind_speed_10m": "km/h",
        "wind_direction_10m": "°",
        "wind_gusts_10m": "km/h"
    },
    "current": {
        "time": "2024-10-21T17:15",
        "interval": 900,
        "temperature_2m": 17,
        "precipitation": 0,
        "weather_code": 3,
        "wind_speed_10m": 5.8,
        "wind_direction_10m": 180,
        "wind_gusts_10m": 13.3
    },
    "hourly_units": {
        "time": "iso8601",
        "temperature_2m": "°C",
        "precipitation": "mm",
        "weather_code": "wmo code",
        "wind_speed_10m": "km/h",
        "wind_direction_10m": "°",
        "wind_gusts_10m": "km/h"
    },
    "hourly": {
        "time": [
            "2024-10-21T17:00"
        ],
        "temperature_2m": [
            17
        ],
        "precipitation": [
            0
        ],
        "weather_code": [
            3
        ],
        "wind_speed_10m": [
            5.8
        ],
        "wind_direction_10m": [
            180
        ],
        "wind_gusts_10m": [
            13.3
        ]
    },
    "daily_units": {
        "time": "iso8601",
        "weather_code": "wmo code",
        "temperature_2m_max": "°C",
        "temperature_2m_min": "°C",
        "precipitation_sum": "mm",
        "precipitation_hours": "h",
        "precipitation_probability_max": "%",
        "wind_speed_10m_max": "km/h",
        "wind_gusts_10m_max": "km/h",
        "wind_direction_10m_dominant": "°"
    },
    "daily": {
        "time": [
            "2024-10-21"
        ],
        "weather_code": [
            61
        ],
        "temperature_2m_max": [
            18.5
        ],
        "temperature_2m_min": [
            13.7
        ],
        "precipitation_sum": [
            0.6
        ],
        "precipitation_hours": [
            3
        ],
        "precipitation_probability_max": [
            60
        ],
        "wind_speed_10m_max": [
            10.1
        ],
        "wind_gusts_10m_max": [
            23.4
        ],
        "wind_direction_10m_dominant": [
            195
        ]
    }
}
    "#;

fn text(value: &serde_json::Value) -> String {
    match value.as_str() {
        Some(s) => s.to_string(),
        None => value.to_string(),
    }
}

fn texts(block: &serde_json::Value, key: &str) -> Vec<String> {
    block[key].as_array().expect("a series").iter().map(text).collect()
}

fn numbers(block: &serde_json::Value, key: &str) -> Vec<u16> {
    block[key]
        .as_array()
        .expect("a series")
        .iter()
        .map(|v| v.as_u64().expect("a number") as u16)
        .collect()
}

fn number(block: &serde_json::Value, key: &str) -> u16 {
    block[key].as_u64().expect("a number") as u16
}

fn decode(json: &str) -> Result<WeatherResponse, WeatherError> {
    let root: serde_json::Value = match serde_json::from_str(json) {
        Ok(root) => root,
        Err(e) => return Err(WeatherError::from_request(true, e.to_string())),
    };
    let error = root.get("error").map(|e| RemoteError {
        error: e["error"].as_bool().unwrap_or(true),
        reason: text(&e["reason"]),
    });
    let current_weather = root.get("current_weather").map(|c| CurrentWeather {
        temperature: text(&c["temperature"]),
        windspeed: text(&c["windspeed"]),
        winddirection: number(c, "winddirection"),
        weathercode: number(c, "weathercode"),
    });
    let current = root.get("current").map(|c| CurrentText {
        time: text(&c["time"]),
        temperature_2m: text(&c["temperature_2m"]),
        precipitation: text(&c["precipitation"]),
        wind_speed_10m: text(&c["wind_speed_10m"]),
        wind_direction_10m: number(c, "wind_direction_10m"),
        wind_gusts_10m: text(&c["wind_gusts_10m"]),
        weather_code: number(c, "weather_code"),
    });
    let hourly = root.get("hourly").map(|h| HourlyText {
        time: texts(h, "time"),
        temperature_2m: texts(h, "temperature_2m"),
        precipitation: texts(h, "precipitation"),
        wind_speed_10m: texts(h, "wind_speed_10m"),
        wind_direction_10m: numbers(h, "wind_direction_10m"),
        wind_gusts_10m: texts(h, "wind_gusts_10m"),
        weather_code: numbers(h, "weather_code"),
    });
    let daily = root.get("daily").map(|d| DailyText {
        time: texts(d, "time"),
        temperature_2m_max: texts(d, "temperature_2m_max"),
        temperature_2m_min: texts(d, "temperature_2m_min"),
        precipitation_sum: texts(d, "precipitation_sum"),
        wind_speed_10m_max: texts(d, "wind_speed_10m_max"),
        wind_gusts_10m_max: texts(d, "wind_gusts_10m_max"),
        wind_direction_10m_dominant: numbers(d, "wind_direction_10m_dominant"),
        weather_code: numbers(d, "weather_code"),
    });
    read_response(WeatherPayload { error, current_weather, current, hourly, daily })
}

fn weather(code: u16) -> CurrentWeather {
    CurrentWeather {
        temperature: "17.5".to_string(),
        windspeed: "5.8".to_string(),
        winddirection: 180,
        weathercode: code,
    }
}

fn empty_response() -> WeatherResponse {
    WeatherResponse { error: None, current_weather: None, current: None, hourly: None, daily: None }
}

fn hourly(n: usize) -> Hourly {
    let t = DateTime { date: Date { day_number: 739180 }, hour: 17, minute: 0 };
    Hourly {
        time: vec![t; n],
        temperature_2m: vec!["17".to_string(); n],
        precipitation: vec!["0".to_string(); n],
        wind_speed_10m: vec!["5.8".to_string(); n],
        wind_direction_10m: vec![180; n],
        wind_gusts_10m: vec!["13.3".to_string(); n],
        weather_code: vec![3; n],
    }
}

fn daily(n: usize) -> Daily {
    Daily {
        time: vec![Date { day_number: 739180 }; n],
        temperature_2m_max: vec!["18.5".to_string(); n],
        temperature_2m_min: vec!["13.7".to_string(); n],
        precipitation_sum: vec!["0.6".to_string(); n],
        wind_speed_10m_max: vec!["10.1".to_string(); n],
        wind_gusts_10m_max: vec!["23.4".to_string(); n],
        wind_direction_10m_dominant: vec![195; n],
        weather_code: vec![61; n],
    }
}

#[test]
fn it_works() {
    let result = decode(FORECAST);
    assert!(matches!(result, Ok(_)));
    let forecast = get_forecast(result.unwrap());
    assert!(matches!(forecast, Ok(_)));
    let forecast = forecast.unwrap();
    let response = forecast.response();
    let current = response.current.as_ref().unwrap();
    assert_eq!(current.time, DateTime { date: Date { day_number: 739180 }, hour: 17, minute: 15 });
    assert_eq!(current.temperature_2m, "17");
    assert_eq!(current.wind_speed_10m, "5.8");
    assert_eq!(current.weather_code, 3);
    assert_eq!(response.hourly.as_ref().unwrap().time.len(), 1);
    assert_eq!(response.daily.as_ref().unwrap().weather_code, vec![61]);
}

#[test]
fn forecast_with_bad_time_is_malformed() {
    let json = FORECAST.replace("2024-10-21T17:00", "yesterday");
    assert_eq!(
        decode(&json),
        Err(WeatherError::Malformed { detail: "invalid time: yesterday".to_string() })
    );
}

#[test]
fn undecodable_answer_reads_as_a_failed_request() {
    let failure = decode("{").unwrap_err();
    assert!(matches!(failure, WeatherError::Malformed { .. }));
    assert!(failure.to_string().starts_with("RequestError: "));
}

#[test]
fn error_object_wins_over_unreadable_times() {
    let json = FORECAST
        .replace("2024-10-21T17:15", "now")
        .replace("2024-10-21T17:00", "soon")
        .replace(
            "\"latitude\": 52.52,",
            "\"error\": {\"error\": true, \"reason\": \"bad\"}, \"latitude\": 52.52,",
        );
    assert_eq!(decode(&json), Err(WeatherError::Semantic { reason: "bad".to_string() }));
    let with_weather = json.replace(
        "\"latitude\": 52.52,",
        "\"current_weather\": {\"temperature\": 1.5, \"windspeed\": 2, \"winddirection\": 3, \"weathercode\": 0}, \"latitude\": 52.52,",
    );
    assert_eq!(decode(&with_weather), Err(WeatherError::Semantic { reason: "bad".to_string() }));
}

fn current_text(time: &str) -> CurrentText {
    CurrentText {
        time: time.to_string(),
        temperature_2m: "17".to_string(),
        precipitation: "0".to_string(),
        wind_speed_10m: "5.8".to_string(),
        wind_direction_10m: 180,
        wind_gusts_10m: "13.3".to_string(),
        weather_code: 3,
    }
}

fn hourly_text(times: &[&str]) -> HourlyText {
    let n = times.len();
    HourlyText {
        time: times.iter().map(|t| t.to_string()).collect(),
        temperature_2m: vec!["17".to_string(); n],
        precipitation: vec!["0".to_string(); n],
        wind_speed_10m: vec!["5.8".to_string(); n],
        wind_direction_10m: vec![180; n],
        wind_gusts_10m: vec!["13.3".to_string(); n],
        weather_code: vec![3; n],
    }
}

fn daily_text(days: &[&str]) -> DailyText {
    let n = days.len();
    DailyText {
        time: days.iter().map(|t| t.to_string()).collect(),
        temperature_2m_max: vec!["18.5".to_string(); n],
        temperature_2m_min: vec!["13.7".to_string(); n],
        precipitation_sum: vec!["0.6".to_string(); n],
        wind_speed_10m_max: vec!["10.1".to_string(); n],
        wind_gusts_10m_max: vec!["23.4".to_string(); n],
        wind_direction_10m_dominant: vec![195; n],
        weather_code: vec![61; n],
    }
}

fn empty_payload() -> WeatherPayload {
    WeatherPayload { error: None, current_weather: None, current: None, hourly: None, daily: None }
}

fn unreadable(text: &str) -> WeatherError {
    WeatherError::Malformed { detail: format!("invalid time: {}", text) }
}

#[test]
fn blocks_are_read_with_their_times() {
    let current = read_current(current_text("2024-10-21T17:15")).unwrap();
    assert_eq!(current.time, DateTime { date: Date { day_number: 739180 }, hour: 17, minute: 15 });
    assert_eq!(current.temperature_2m, "17");
    assert_eq!(current.wind_gusts_10m, "13.3");
    assert_eq!(read_current(current_text("17:15")), Err(unreadable("17:15")));

    let read = read_hourly(hourly_text(&["2024-10-21T17:00", "2024-10-21T18:00"])).unwrap();
    assert_eq!(
        read.time,
        vec![
            DateTime { date: Date { day_number: 739180 }, hour: 17, minute: 0 },
            DateTime { date: Date { day_number: 739180 }, hour: 18, minute: 0 },
        ]
    );
    assert_eq!(read.weather_code, vec![3, 3]);
    assert!(read.check_series());
    assert_eq!(
        read_hourly(hourly_text(&["2024-10-21T17:00", "b", "a"])),
        Err(unreadable("b"))
    );

    let read = read_daily(daily_text(&["2024-10-21", "2024-10-22"])).unwrap();
    assert_eq!(read.time, vec![Date { day_number: 739180 }, Date { day_number: 739181 }]);
    assert_eq!(read.temperature_2m_max, vec!["18.5", "18.5"]);
    assert_eq!(read_daily(daily_text(&["2024-10-21", "2024-13-01"])), Err(unreadable("2024-13-01")));
    assert_eq!(read_daily(daily_text(&[])).unwrap().time, vec![]);
}

#[test]
fn answer_is_read_part_for_part() {
    let payload = WeatherPayload {
        current_weather: Some(weather(2)),
        current: Some(current_text("2024-10-21T17:15")),
        hourly: Some(hourly_text(&["2024-10-21T17:00"])),
        daily: Some(daily_text(&["2024-10-21"])),
        ..empty_payload()
    };
    let response = read_response(payload).unwrap();
    assert_eq!(response.error, None);
    assert_eq!(response.current_weather, Some(weather(2)));
    assert_eq!(response.current.unwrap().time.hour, 17);
    assert_eq!(response.hourly.unwrap().time.len(), 1);
    assert_eq!(response.daily.unwrap().time, vec![Date { day_number: 739180 }]);
    assert_eq!(read_response(empty_payload()), Ok(empty_response()));
}

#[test]
fn first_unreadable_time_fails_the_answer() {
    let payload = WeatherPayload {
        current: Some(current_text("c")),
        hourly: Some(hourly_text(&["h"])),
        daily: Some(daily_text(&["d"])),
        ..empty_payload()
    };
    assert_eq!(read_response(payload), Err(unreadable("c")));
    let payload = WeatherPayload {
        current: Some(current_text("2024-10-21T17:15")),
        hourly: Some(hourly_text(&["2024-10-21T17:00", "h"])),
        daily: Some(daily_text(&["d"])),
        ..empty_payload()
    };
    assert_eq!(read_response(payload), Err(unreadable("h")));
    let payload = WeatherPayload {
        hourly: Some(hourly_text(&[])),
        daily: Some(daily_text(&["2024-10-21", "d", "e"])),
        ..empty_payload()
    };
    assert_eq!(read_response(payload), Err(unreadable("d")));
}

#[test]
fn error_object_fails_the_answer_before_any_time_is_read() {
    let payload = WeatherPayload {
        error: Some(RemoteError { error: false, reason: "no".to_string() }),
        current_weather: Some(weather(2)),
        current: Some(current_text("c")),
        hourly: Some(hourly_text(&["h"])),
        daily: Some(daily_text(&["2024-10-21"])),
    };
    assert_eq!(read_response(payload), Err(WeatherError::Semantic { reason: "no".to_string() }));
}

#[test]
fn error_object_wins_over_current_weather() {
    let response = WeatherResponse {
        error: Some(RemoteError { error: true, reason: "Latitude must be in range".to_string() }),
        current_weather: Some(weather(3)),
        ..empty_response()
    };
    assert_eq!(
        get_current_weather(response),
        Err(WeatherError::Semantic { reason: "Latitude must be in range".to_string() })
    );
}

#[test]
fn error_object_reads_as_its_reason() {
    let error = RemoteError { error: true, reason: "Latitude must be in range".to_string() };
    assert_eq!(error.to_string(), "WeatherError: Latitude must be in range");
    assert_eq!(
        error.to_string(),
        WeatherError::Semantic { reason: error.reason.clone() }.own_text()
    );
}

#[test]
fn error_object_counts_whatever_its_flag() {
    let response = WeatherResponse {
        error: Some(RemoteError { error: false, reason: "odd".to_string() }),
        ..empty_response()
    };
    assert_eq!(
        get_current_weather(response),
        Err(WeatherError::Semantic { reason: "odd".to_string() })
    );
}

#[test]
fn missing_current_weather_is_an_error() {
    assert_eq!(get_current_weather(empty_response()), Err(WeatherError::NoCurrentWeather));
    let with_forecast_only = WeatherResponse { hourly: Some(hourly(2)), ..empty_response() };
    assert_eq!(get_current_weather(with_forecast_only), Err(WeatherError::NoCurrentWeather));
}

#[test]
fn failures_found_in_an_answer_read_as_other_errors() {
    let failure = get_current_weather(empty_response()).unwrap_err();
    assert_eq!(failure.to_string(), "Other error: No current_weather received.");
    let reported = WeatherResponse {
        error: Some(RemoteError { error: true, reason: "bad".to_string() }),
        current_weather: Some(weather(3)),
        ..empty_response()
    };
    let failure = get_current_weather(reported).unwrap_err();
    assert_eq!(failure.to_string(), "Other error: WeatherError: bad");
    assert!(failure.to_string().ends_with("WeatherError: bad"));
    let reported = WeatherResponse {
        error: Some(RemoteError { error: true, reason: "bad".to_string() }),
        ..empty_response()
    };
    assert_eq!(get_forecast(reported).unwrap_err().to_string(), "Other error: WeatherError: bad");
}

#[test]
fn current_weather_is_handed_on() {
    let response = WeatherResponse { current_weather: Some(weather(61)), ..empty_response() };
    assert_eq!(get_current_weather(response), Ok(weather(61)));
}

#[test]
fn forecast_with_error_object_fails() {
    let response = WeatherResponse {
        error: Some(RemoteError { error: true, reason: "no".to_string() }),
        hourly: Some(hourly(3)),
        ..empty_response()
    };
    assert_eq!(get_forecast(response), Err(WeatherError::Semantic { reason: "no".to_string() }));
}

#[test]
fn forecast_with_uneven_hourly_series_is_malformed() {
    let mut h = hourly(3);
    h.weather_code.pop();
    let response = WeatherResponse { hourly: Some(h), daily: Some(daily(1)), ..empty_response() };
    assert_eq!(
        get_forecast(response),
        Err(WeatherError::Malformed { detail: "hourly series differ in length".to_string() })
    );
    let mut h = hourly(3);
    h.temperature_2m.push("1".to_string());
    let response = WeatherResponse { hourly: Some(h), ..empty_response() };
    assert!(matches!(get_forecast(response), Err(WeatherError::Malformed { .. })));
}

#[test]
fn forecast_with_uneven_daily_series_is_malformed() {
    let mut d = daily(2);
    d.time.pop();
    let response = WeatherResponse { hourly: Some(hourly(3)), daily: Some(d), ..empty_response() };
    assert_eq!(
        get_forecast(response),
        Err(WeatherError::Malformed { detail: "daily series differ in length".to_string() })
    );
}

#[test]
fn even_forecast_is_kept_as_it_is() {
    let response =
        WeatherResponse { hourly: Some(hourly(3)), daily: Some(daily(7)), ..empty_response() };
    let forecast = get_forecast(response).unwrap();
    assert_eq!(forecast.response().hourly, Some(hourly(3)));
    assert_eq!(forecast.response().daily, Some(daily(7)));
    assert!(get_forecast(empty_response()).is_ok());
}

#[test]
fn series_check_compares_every_series() {
    assert!(hourly(0).check_series());
    assert!(hourly(4).check_series());
    let mut h = hourly(2);
    h.wind_gusts_10m.clear();
    assert!(!h.check_series());
    let mut d = daily(2);
    d.wind_direction_10m_dominant.push(1);
    assert!(!d.check_series());
    assert!(daily(2).check_series());
}

#[test]
fn descriptions_of_codes() {
    assert_eq!(description_of(0), "weather.clear_sky");
    assert_eq!(description_of(3), "weather.overcast");
    assert_eq!(description_of(48), "weather.rime_fog");
    assert_eq!(description_of(67), "weather.heavy_freezing_rain");
    assert_eq!(description_of(96), "weather.thurderstorm_with_light_hail");
    assert_eq!(description_of(99), "weather.thunderstorm_with_heavy_hail");
    assert_eq!(description_of(4), "weather.unknown");
    assert_eq!(description_of(100), "weather.unknown");
    assert_eq!(description_of(u16::MAX), "weather.unknown");
    assert_eq!(weather(45).description(), "weather.fog");
}

#[test]
fn icons_of_codes() {
    assert_eq!(icon_of(0), "clearsky_day");
    assert_eq!(icon_of(1), "fair_day");
    assert_eq!(icon_of(2), "partlycloudy_day");
    assert_eq!(icon_of(3), "cloudy");
    assert_eq!(icon_of(45), "fog");
    assert_eq!(icon_of(48), "fog");
    for code in [51, 53, 55, 56, 57, 61, 66, 80] {
        assert_eq!(icon_of(code), "lightrain");
    }
    assert_eq!(icon_of(63), "rain");
    assert_eq!(icon_of(81), "rain");
    for code in [65, 67, 82] {
        assert_eq!(icon_of(code), "heavyrain");
    }
    assert_eq!(icon_of(71), "lightsnow");
    assert_eq!(icon_of(77), "lightsnow");
    assert_eq!(icon_of(73), "snow");
    assert_eq!(icon_of(75), "heavysnow");
    assert_eq!(icon_of(85), "lightsleet");
    assert_eq!(icon_of(86), "heavysleet");
    assert_eq!(icon_of(95), "heavyrainandthunder");
    assert_eq!(icon_of(96), "sleetandthunder");
    assert_eq!(icon_of(99), "heavysleetandthunder");
    assert_eq!(icon_of(50), "exclamation-circle");
    assert_eq!(weather(73).icon_name(), "snow");
}

#[test]
fn known_codes_have_both_description_and_icon() {
    for code in 0..=u16::MAX {
        let described = description_of(code) != "weather.unknown";
        let drawn = icon_of(code) != "exclamation-circle";
        assert_eq!(described, drawn);
    }
    assert_eq!((0..=u16::MAX).filter(|c| icon_of(*c) != "exclamation-circle").count(), 28);
}
