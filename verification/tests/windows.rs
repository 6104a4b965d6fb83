use tray_weather::error::{Error, WeatherError};
use tray_weather::forecast::{
    human_day, human_hour, CurrentRow, DayLabel, DayRow, HourLabel, HourRow,
};
use tray_weather::forecast_window::{Content, ForecastWindow};
use tray_weather::location::Location;
use tray_weather::settings::Settings;
use tray_weather::settings_window::{Outcome, SettingsScreen, SettingsWindow, SEARCH_LANGUAGE};
use tray_weather::theme::IconTheme;
use tray_weather::time::{Date, DateTime};
use tray_weather::weather::{get_forecast, Current, Daily, Forecast, Hourly, WeatherResponse};

fn at(day_number: i32, hour: u32, minute: u32) -> DateTime {
    DateTime { date: Date { day_number }, hour, minute }
}

fn place(id: u32, name: &str) -> Location {
    Location { id, name: name.to_string(), ..Location::default() }
}

fn texts(items: &[&str]) -> Vec<String> {
    items.iter().map(|s| s.to_string()).collect()
}

fn forecast() -> Forecast {
    let response = WeatherResponse {
        error: None,
        current_weather: None,
        current: Some(Current {
            time: at(100, 17, 15),
            temperature_2m: "17".into(),
            precipitation: "0".into(),
            wind_speed_10m: "5.8".into(),
            wind_direction_10m: 180,
            wind_gusts_10m: "13.3".into(),
            weather_code: 3,
        }),
        hourly: Some(Hourly {
            time: vec![at(100, 17, 0), at(100, 18, 0), at(101, 17, 0)],
            temperature_2m: texts(&["17", "16.5", "12"]),
            precipitation: texts(&["0", "0.2", "1"]),
            wind_speed_10m: texts(&["5.8", "6", "7"]),
            wind_direction_10m: vec![180, 190, 200],
            wind_gusts_10m: texts(&["13.3", "14", "15"]),
            weather_code: vec![3, 61, 63],
        }),
        daily: Some(Daily {
            time: vec![Date { day_number: 100 }, Date { day_number: 101 }, Date { day_number: 102 }],
            temperature_2m_max: texts(&["18.5", "19", "20"]),
            temperature_2m_min: texts(&["13.7", "12", "11"]),
            precipitation_sum: texts(&["0.6", "0", "3"]),
            wind_speed_10m_max: texts(&["10.1", "11", "12"]),
            wind_gusts_10m_max: texts(&["23.4", "24", "25"]),
            wind_direction_10m_dominant: vec![195, 196, 197],
            weather_code: vec![61, 3, 95],
        }),
    };
    get_forecast(response).expect("an even forecast")
}

#[test]
fn the_running_hour_is_now() {
    assert_eq!(human_hour(&at(100, 17, 0), &at(100, 17, 42)), HourLabel::Now);
    assert_eq!(human_hour(&at(100, 18, 0), &at(100, 17, 42)), HourLabel::At);
    assert_eq!(human_hour(&at(101, 17, 0), &at(100, 17, 42)), HourLabel::At);
    assert_eq!(human_hour(&at(99, 17, 42), &at(100, 17, 42)), HourLabel::At);
}

#[test]
fn days_are_named_from_today() {
    let day = |day_number| Date { day_number };
    assert_eq!(human_day(&day(100), &day(100)), DayLabel::Today);
    assert_eq!(human_day(&day(101), &day(100)), DayLabel::Tomorrow);
    assert_eq!(human_day(&day(102), &day(100)), DayLabel::On);
    assert_eq!(human_day(&day(99), &day(100)), DayLabel::On);
    assert_eq!(human_day(&day(i32::MIN), &day(i32::MAX)), DayLabel::On);
    assert_eq!(human_day(&day(i32::MAX), &day(i32::MAX)), DayLabel::Today);
    assert_eq!(human_day(&day(i32::MAX), &day(i32::MAX - 1)), DayLabel::Tomorrow);
    assert_eq!(human_day(&day(0), &day(-1)), DayLabel::Tomorrow);
}

#[test]
fn forecast_rows_follow_the_series() {
    let forecast = forecast();
    assert_eq!(
        forecast.current(),
        Some(CurrentRow {
            weather_code: 3,
            temperature: "17".into(),
            rain: "0".into(),
            wind_speed: "5.8".into(),
        })
    );
    let hour = |label, time, weather_code, t: &str, p: &str, w: &str| HourRow {
        label,
        time,
        weather_code,
        temperature: t.into(),
        precipitation: p.into(),
        wind_speed: w.into(),
    };
    assert_eq!(
        forecast.hours(&at(100, 17, 30)),
        vec![
            hour(HourLabel::Now, at(100, 17, 0), 3, "17", "0", "5.8"),
            hour(HourLabel::At, at(100, 18, 0), 61, "16.5", "0.2", "6"),
            hour(HourLabel::At, at(101, 17, 0), 63, "12", "1", "7"),
        ]
    );
    let day = |label, day_number, weather_code, max: &str, min: &str, w: &str, r: &str| DayRow {
        label,
        date: Date { day_number },
        weather_code,
        max: max.into(),
        min: min.into(),
        wind_speed: w.into(),
        rain: r.into(),
    };
    assert_eq!(
        forecast.days(&Date { day_number: 100 }),
        vec![
            day(DayLabel::Today, 100, 61, "18.5", "13.7", "10.1", "0.6"),
            day(DayLabel::Tomorrow, 101, 3, "19", "12", "11", "0"),
            day(DayLabel::On, 102, 95, "20", "11", "12", "3"),
        ]
    );
}

#[test]
fn forecast_without_blocks_has_no_rows() {
    let empty = get_forecast(WeatherResponse {
        error: None,
        current_weather: None,
        current: None,
        hourly: None,
        daily: None,
    })
    .unwrap();
    assert_eq!(empty.current(), None);
    assert_eq!(empty.hours(&at(1, 1, 1)), vec![]);
    assert_eq!(empty.days(&Date { day_number: 1 }), vec![]);
}

#[test]
fn forecast_window_loads_then_shows() {
    let settings = Settings::new(place(5, "Kiel"), IconTheme::Metno, false, 15).unwrap();
    let mut window = ForecastWindow::new(settings.clone());
    assert_eq!(window.content(&at(100, 17, 30)), Content::Empty);
    assert_eq!(window.update_weather(), place(5, "Kiel"));
    assert!(window.loading);
    assert_eq!(window.content(&at(100, 17, 30)), Content::Loading);
    window.receive(Ok(forecast()));
    assert!(!window.loading);
    match window.content(&at(100, 18, 5)) {
        Content::Report { current, hours, days } => {
            assert_eq!(current.unwrap().temperature, "17");
            assert_eq!(
                hours.iter().map(|h| h.label).collect::<Vec<_>>(),
                vec![HourLabel::At, HourLabel::Now, HourLabel::At]
            );
            assert_eq!(
                days.iter().map(|d| d.label).collect::<Vec<_>>(),
                vec![DayLabel::Today, DayLabel::Tomorrow, DayLabel::On]
            );
        }
        other => panic!("no report: {:?}", other),
    }
    assert_eq!(window.settings, settings);
}

#[test]
fn forecast_window_shows_a_failure_and_goes_on() {
    let mut window = ForecastWindow::new(Settings::default());
    window.update_weather();
    window.receive(Err(WeatherError::Transport { detail: "offline".into() }.into_error()));
    assert_eq!(
        window.content(&at(1, 1, 1)),
        Content::Failed { message: "RequestError: offline".into() }
    );
    window.update_weather();
    window.receive(Err(WeatherError::Semantic { reason: "bad".into() }.into_error()));
    assert_eq!(
        window.content(&at(1, 1, 1)),
        Content::Failed { message: "Other error: WeatherError: bad".into() }
    );
    window.update_weather();
    window.receive(Err(Error::Weather(WeatherError::Semantic { reason: "bad".into() })));
    assert_eq!(
        window.content(&at(1, 1, 1)),
        Content::Failed { message: "WeatherError: WeatherError: bad".into() }
    );
    window.update_weather();
    assert_eq!(window.content(&at(1, 1, 1)), Content::Loading);
    window.receive(Ok(forecast()));
    assert!(matches!(window.content(&at(1, 1, 1)), Content::Report { .. }));
}

#[test]
fn forecast_window_takes_nothing_it_did_not_ask_for() {
    let mut window = ForecastWindow::new(Settings::default());
    window.receive(Ok(forecast()));
    assert_eq!(window.weather_response, None);
    assert_eq!(window.content(&at(1, 1, 1)), Content::Empty);
    window.receive(Err(Error::NoSettings));
    assert_eq!(window.failure, None);
}

#[test]
fn settings_form_opens_on_the_settings() {
    let settings = Settings::new(place(5, "Kiel"), IconTheme::Monochrome, true, 15).unwrap();
    let window = SettingsWindow::new(&settings);
    assert_eq!(window.location, place(5, "Kiel"));
    assert_eq!(window.icon_theme, IconTheme::Monochrome);
    assert!(window.autorun_enabled);
    assert_eq!(window.update_interval, 15);
    assert_eq!(window.location_name, "");
    assert_eq!(window.found_locations, None);
    assert_eq!(window.screen, SettingsScreen::Home);
    assert_eq!(window.outcome, Outcome::Open);
    assert!(!window.is_closed());
    assert_eq!(window.into_answer(), None);
}

#[test]
fn settings_form_names_the_place() {
    let mut window = SettingsWindow::new(&Settings::default());
    assert_eq!(window.location_text(), None);
    window.location = Location { admin1: Some("Schleswig-Holstein".into()), ..place(5, "Kiel") };
    assert_eq!(window.location_text(), Some("Kiel, Schleswig-Holstein".to_string()));
}

#[test]
fn settings_form_searches_and_chooses_a_place() {
    let mut window = SettingsWindow::new(&Settings::default());
    window.new_location();
    assert_eq!(window.screen, SettingsScreen::Location);
    window.location_name = "Kiel".into();
    assert_eq!(SEARCH_LANGUAGE, "de");
    assert_eq!(
        window.search(),
        Ok("https://geocoding-api.open-meteo.com/v1/search?name=Kiel&language=de&count=10&format=json".to_string())
    );
    window.choose_location(0);
    assert_eq!(window.screen, SettingsScreen::Location);
    window.locations_found(vec![place(5, "Kiel"), place(6, "Kiel (Wisconsin)")]);
    window.choose_location(2);
    assert_eq!(window.screen, SettingsScreen::Location);
    assert!(window.location.is_unset());
    window.choose_location(1);
    assert_eq!(window.screen, SettingsScreen::Home);
    assert_eq!(window.location, place(6, "Kiel (Wisconsin)"));
    assert_eq!(window.found_locations.as_ref().unwrap().len(), 2);
}

#[test]
fn saved_form_answers_with_what_was_entered() {
    let mut window = SettingsWindow::new(&Settings::default());
    window.location = place(5, "Kiel");
    window.icon_theme = IconTheme::Monochrome;
    window.autorun_enabled = true;
    window.update_interval = 15;
    assert!(window.save());
    assert!(window.is_closed());
    assert_eq!(
        window.into_answer(),
        Settings::new(place(5, "Kiel"), IconTheme::Monochrome, true, 15)
    );
}

#[test]
fn form_with_zero_interval_is_not_saved() {
    let mut window = SettingsWindow::new(&Settings::default());
    window.update_interval = 0;
    assert!(!window.save());
    assert_eq!(window.outcome, Outcome::Open);
    assert!(!window.is_closed());
}

#[test]
fn cancelled_form_answers_with_nothing() {
    let mut window = SettingsWindow::new(&Settings::default());
    window.location = place(5, "Kiel");
    window.cancel();
    assert!(window.is_closed());
    assert_eq!(window.outcome, Outcome::Cancelled);
    assert_eq!(window.into_answer(), None);
}
