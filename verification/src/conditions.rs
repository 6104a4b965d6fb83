//! Weather condition codes: how each reads and which icon stands for it.

use vstd::prelude::*;

verus! {

/// Whether the code is one of the condition codes that the weather service
/// documents.
pub open spec fn is_known_code(code: u16) -> bool {
    ||| code <= 3
    ||| code == 45
    ||| code == 48
    ||| code == 51
    ||| code == 53
    ||| 55 <= code <= 57
    ||| code == 61
    ||| code == 63
    ||| 65 <= code <= 67
    ||| code == 71
    ||| code == 73
    ||| code == 75
    ||| code == 77
    ||| 80 <= code <= 82
    ||| code == 85
    ||| code == 86
    ||| code == 95
    ||| code == 96
    ||| code == 99
}

/// The key under which the texts of each language hold the description of a
/// code.
pub open spec fn description_key(code: u16) -> Seq<char> {
    match code {
        0 => "weather.clear_sky"@,
        1 => "weather.mainly_clear"@,
        2 => "weather.partly_cloudy"@,
        3 => "weather.overcast"@,
        45 => "weather.fog"@,
        48 => "weather.rime_fog"@,
        51 => "weather.light_drizzle"@,
        53 => "weather.moderate_drizzle"@,
        55 => "weather.dense_drizzle"@,
        56 => "weather.light_freezing_drizzle"@,
        57 => "weather.dense_freezing_drizzle"@,
        61 => "weather.light_rain"@,
        63 => "weather.moderate_rain"@,
        65 => "weather.heavy_rain"@,
        66 => "weather.light_freezing_rain"@,
        67 => "weather.heavy_freezing_rain"@,
        71 => "weather.light_snow"@,
        73 => "weather.moderate_snow"@,
        75 => "weather.heavy_snow"@,
        77 => "weather.snow_grains"@,
        80 => "weather.light_rain_showers"@,
        81 => "weather.moderate_rain_showers"@,
        82 => "weather.heavy_rain_showers"@,
        85 => "weather.light_snow_showers"@,
        86 => "weather.heavy_snow_showers"@,
        95 => "weather.thunderstorm"@,
        96 => "weather.thurderstorm_with_light_hail"@,
        99 => "weather.thunderstorm_with_heavy_hail"@,
        _ => "weather.unknown"@,
    }
}

/// The name of the icon that stands for a code, without directory or ending.
pub open spec fn icon_for_code(code: u16) -> Seq<char> {
    match code {
        0 => "clearsky_day"@,
        1 => "fair_day"@,
        2 => "partlycloudy_day"@,
        3 => "cloudy"@,
        45 | 48 => "fog"@,
        51 | 53 | 55 | 56 | 57 | 61 | 66 | 80 => "lightrain"@,
        63 | 81 => "rain"@,
        65 | 67 | 82 => "heavyrain"@,
        71 | 77 => "lightsnow"@,
        73 => "snow"@,
        75 => "heavysnow"@,
        85 => "lightsleet"@,
        86 => "heavysleet"@,
        95 => "heavyrainandthunder"@,
        96 => "sleetandthunder"@,
        99 => "heavysleetandthunder"@,
        _ => "exclamation-circle"@,
    }
}

/// The key of the description of a condition code.
pub fn description_of(code: u16) -> (key: &'static str)
    ensures
        key@ == description_key(code),
{
    match code {
        0 => "weather.clear_sky",
        1 => "weather.mainly_clear",
        2 => "weather.partly_cloudy",
        3 => "weather.overcast",
        45 => "weather.fog",
        48 => "weather.rime_fog",
        51 => "weather.light_drizzle",
        53 => "weather.moderate_drizzle",
        55 => "weather.dense_drizzle",
        56 => "weather.light_freezing_drizzle",
        57 => "weather.dense_freezing_drizzle",
        61 => "weather.light_rain",
        63 => "weather.moderate_rain",
        65 => "weather.heavy_rain",
        66 => "weather.light_freezing_rain",
        67 => "weather.heavy_freezing_rain",
        71 => "weather.light_snow",
        73 => "weather.moderate_snow",
        75 => "weather.heavy_snow",
        77 => "weather.snow_grains",
        80 => "weather.light_rain_showers",
        81 => "weather.moderate_rain_showers",
        82 => "weather.heavy_rain_showers",
        85 => "weather.light_snow_showers",
        86 => "weather.heavy_snow_showers",
        95 => "weather.thunderstorm",
        96 => "weather.thurderstorm_with_light_hail",
        99 => "weather.thunderstorm_with_heavy_hail",
        _ => "weather.unknown",
    }
}

/// The name of the icon for a condition code.
pub fn icon_of(code: u16) -> (name: &'static str)
    ensures
        name@ == icon_for_code(code),
{
    match code {
        0 => "clearsky_day",
        1 => "fair_day",
        2 => "partlycloudy_day",
        3 => "cloudy",
        45 => "fog",
        48 => "fog",
        51 => "lightrain",
        53 => "lightrain",
        55 => "lightrain",
        56 => "lightrain",
        57 => "lightrain",
        61 => "lightrain",
        63 => "rain",
        65 => "heavyrain",
        66 => "lightrain",
        67 => "heavyrain",
        71 => "lightsnow",
        73 => "snow",
        75 => "heavysnow",
        77 => "lightsnow",
        80 => "lightrain",
        81 => "rain",
        82 => "heavyrain",
        85 => "lightsleet",
        86 => "heavysleet",
        95 => "heavyrainandthunder",
        96 => "sleetandthunder",
        99 => "heavysleetandthunder",
        _ => "exclamation-circle",
    }
}

/// The documented codes are the ones with a description of their own.
pub proof fn known_codes_are_described(code: u16)
    ensures
        is_known_code(code) <==> description_key(code) != "weather.unknown"@,
{
    reveal_strlit("weather.clear_sky");
    reveal_strlit("weather.mainly_clear");
    reveal_strlit("weather.partly_cloudy");
    reveal_strlit("weather.overcast");
    reveal_strlit("weather.fog");
    reveal_strlit("weather.rime_fog");
    reveal_strlit("weather.light_drizzle");
    reveal_strlit("weather.moderate_drizzle");
    reveal_strlit("weather.dense_drizzle");
    reveal_strlit("weather.light_freezing_drizzle");
    reveal_strlit("weather.dense_freezing_drizzle");
    reveal_strlit("weather.light_rain");
    reveal_strlit("weather.moderate_rain");
    reveal_strlit("weather.heavy_rain");
    reveal_strlit("weather.light_freezing_rain");
    reveal_strlit("weather.heavy_freezing_rain");
    reveal_strlit("weather.light_snow");
    reveal_strlit("weather.moderate_snow");
    reveal_strlit("weather.heavy_snow");
    reveal_strlit("weather.snow_grains");
    reveal_strlit("weather.light_rain_showers");
    reveal_strlit("weather.moderate_rain_showers");
    reveal_strlit("weather.heavy_rain_showers");
    reveal_strlit("weather.light_snow_showers");
    reveal_strlit("weather.heavy_snow_showers");
    reveal_strlit("weather.thunderstorm");
    reveal_strlit("weather.thurderstorm_with_light_hail");
    reveal_strlit("weather.thunderstorm_with_heavy_hail");
    reveal_strlit("weather.unknown");
    assert(description_key(code)[8] == 'u' <==> !is_known_code(code));
}

/// The documented codes are the ones with a weather icon; every other code
/// gets the icon that marks a failure.
pub proof fn known_codes_have_icons(code: u16)
    ensures
        is_known_code(code) <==> icon_for_code(code) != "exclamation-circle"@,
{
    reveal_strlit("clearsky_day");
    reveal_strlit("fair_day");
    reveal_strlit("partlycloudy_day");
    reveal_strlit("cloudy");
    reveal_strlit("fog");
    reveal_strlit("lightrain");
    reveal_strlit("rain");
    reveal_strlit("heavyrain");
    reveal_strlit("lightsnow");
    reveal_strlit("snow");
    reveal_strlit("heavysnow");
    reveal_strlit("lightsleet");
    reveal_strlit("heavysleet");
    reveal_strlit("heavyrainandthunder");
    reveal_strlit("sleetandthunder");
    reveal_strlit("heavysleetandthunder");
    reveal_strlit("exclamation-circle");
    assert(icon_for_code(code)[0] == 'e' <==> !is_known_code(code));
}

} // verus!
