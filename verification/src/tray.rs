//! What the tray presenter is handed: the asset of the icon to show and the
//! text of the tooltip.

use crate::conditions::icon_for_code;
use crate::theme::IconTheme;
use crate::weather::CurrentWeather;
use vstd::prelude::*;

verus! {

/// The asset of the icon that marks a failure.
pub const ERROR_ICON: &'static str = "tabler-icons/exclamation-circle.ico";

/// The asset of the icon for a condition code in a theme: the theme's
/// directory, then the icon's name.
pub open spec fn weather_icon(theme: IconTheme, code: u16) -> Seq<char> {
    "weathericons/"@ + theme.name() + "/ico/"@ + icon_for_code(code) + ".ico"@
}

/// The tooltip over a weather icon: the place, the temperature and the
/// description of the conditions.
pub open spec fn tooltip(place: Seq<char>, temperature: Seq<char>, description: Seq<char>) -> Seq<
    char,
> {
    place + ": "@ + temperature + " - "@ + description
}

/// The asset of the icon for the weather in a theme.
pub fn weather_icon_path(icon_theme: &IconTheme, weather: &CurrentWeather) -> (path: String)
    ensures
        path@ == weather_icon(*icon_theme, weather.weathercode),
{
    let mut path = String::from_str("weathericons/");
    let theme = icon_theme.to_string();
    path.append(theme.as_str());
    path.append("/ico/");
    path.append(weather.icon_name());
    path.append(".ico");
    path
}

/// The tooltip for the weather at a place. `description` is the description
/// of the conditions in the user's language.
pub fn weather_tooltip(place: &str, temperature: &str, description: &str) -> (text: String)
    ensures
        text@ == tooltip(place@, temperature@, description@),
{
    let mut text = String::from_str(place);
    text.append(": ");
    text.append(temperature);
    text.append(" - ");
    text.append(description);
    text
}

} // verus!
