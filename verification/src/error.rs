//! The failures that the utility tells apart, and how each reads to a user.

use vstd::prelude::*;

verus! {

/// Why a weather request gave no weather. The kinds stay apart in what is
/// logged of a value; to a user each reads as one line.
#[derive(Debug, PartialEq)]
pub enum WeatherError {
    /// The request did not reach the service, or no answer came back.
    Transport { detail: String },
    /// An answer came back that could not be read as a weather payload.
    Malformed { detail: String },
    /// The service answered with an error of its own.
    Semantic { reason: String },
    /// The answer was readable but held no current weather.
    NoCurrentWeather,
}

pub enum WeatherErrorView {
    Transport { detail: Seq<char> },
    Malformed { detail: Seq<char> },
    Semantic { reason: Seq<char> },
    NoCurrentWeather,
}

impl View for WeatherError {
    type V = WeatherErrorView;

    open spec fn view(&self) -> WeatherErrorView {
        match self {
            WeatherError::Transport { detail } => WeatherErrorView::Transport { detail: detail@ },
            WeatherError::Malformed { detail } => WeatherErrorView::Malformed { detail: detail@ },
            WeatherError::Semantic { reason } => WeatherErrorView::Semantic { reason: reason@ },
            WeatherError::NoCurrentWeather => WeatherErrorView::NoCurrentWeather,
        }
    }
}

impl WeatherErrorView {
    /// What the failure says of itself, with nothing in front: the client's
    /// words for a request that failed or an answer that could not be read,
    /// the service's reason behind its name, or that no weather came.
    pub open spec fn own_text(self) -> Seq<char> {
        match self {
            WeatherErrorView::Transport { detail } => detail,
            WeatherErrorView::Malformed { detail } => detail,
            WeatherErrorView::Semantic { reason } => "WeatherError: "@ + reason,
            WeatherErrorView::NoCurrentWeather => "No current_weather received."@,
        }
    }

    /// The failure among all failures of the utility: what the HTTP client
    /// reports is a failed request, and what is found in an answer that was
    /// read is a failure without a kind of its own.
    pub open spec fn general(self) -> ErrorView {
        match self {
            WeatherErrorView::Transport { .. } | WeatherErrorView::Malformed { .. } => {
                ErrorView::Reqwest(self.own_text())
            },
            WeatherErrorView::Semantic { .. } | WeatherErrorView::NoCurrentWeather => {
                ErrorView::Other(self.own_text())
            },
        }
    }

    /// The one line that a user reads for this failure: the line of the
    /// general failure that it is.
    pub open spec fn text(self) -> Seq<char> {
        self.general().text()
    }
}

impl WeatherError {
    /// The failure of a request that the HTTP client reports: the answer
    /// could not be decoded, or the request failed on its way.
    pub fn from_request(decoding: bool, detail: String) -> (failure: WeatherError)
        ensures
            decoding ==> failure@ == (WeatherErrorView::Malformed { detail: detail@ }),
            !decoding ==> failure@ == (WeatherErrorView::Transport { detail: detail@ }),
    {
        if decoding {
            WeatherError::Malformed { detail }
        } else {
            WeatherError::Transport { detail }
        }
    }

    /// What the failure says of itself.
    pub fn own_text(&self) -> (text: String)
        ensures
            text@ == self@.own_text(),
    {
        match self {
            WeatherError::Transport { detail } => detail.clone(),
            WeatherError::Malformed { detail } => detail.clone(),
            WeatherError::Semantic { reason } => prefixed("WeatherError: ", reason),
            WeatherError::NoCurrentWeather => String::from_str("No current_weather received."),
        }
    }

    /// The failure as the general failure that it is: a failed request, or a
    /// failure without a kind of its own. Its line is the line of this
    /// failure.
    pub fn into_error(self) -> (failure: Error)
        ensures
            failure@ == self@.general(),
            failure@.text() == self@.text(),
    {
        let text = self.own_text();
        match self {
            WeatherError::Transport { .. } | WeatherError::Malformed { .. } => Error::Reqwest(text),
            WeatherError::Semantic { .. } | WeatherError::NoCurrentWeather => Error::Other(text),
        }
    }

    pub fn to_string(&self) -> (text: String)
        ensures
            text@ == self@.text(),
    {
        let own = self.own_text();
        match self {
            WeatherError::Transport { .. } | WeatherError::Malformed { .. } => prefixed(
                "RequestError: ",
                &own,
            ),
            WeatherError::Semantic { .. } | WeatherError::NoCurrentWeather => prefixed(
                "Other error: ",
                &own,
            ),
        }
    }
}

impl Clone for WeatherError {
    fn clone(&self) -> (copy: Self)
        ensures
            copy@ == self@,
    {
        match self {
            WeatherError::Transport { detail } => WeatherError::Transport {
                detail: detail.clone(),
            },
            WeatherError::Malformed { detail } => WeatherError::Malformed {
                detail: detail.clone(),
            },
            WeatherError::Semantic { reason } => WeatherError::Semantic { reason: reason.clone() },
            WeatherError::NoCurrentWeather => WeatherError::NoCurrentWeather,
        }
    }
}

/// Anything that can go wrong in the utility.
#[derive(Debug, PartialEq)]
pub enum Error {
    /// Registering or unregistering the program for start at login failed.
    AutoLaunch(String),
    /// Reading or writing a file failed.
    Io(String),
    /// The first-run settings form was closed without settings.
    NoSettings,
    Other(String),
    /// A request to a service failed, or its answer could not be read.
    Reqwest(String),
    /// The settings file is not a settings record.
    TomlDe(String),
    /// The settings could not be written as text.
    TomlSer(String),
    Weather(WeatherError),
}

pub enum ErrorView {
    AutoLaunch(Seq<char>),
    Io(Seq<char>),
    NoSettings,
    Other(Seq<char>),
    Reqwest(Seq<char>),
    TomlDe(Seq<char>),
    TomlSer(Seq<char>),
    Weather(WeatherErrorView),
}

impl View for Error {
    type V = ErrorView;

    open spec fn view(&self) -> ErrorView {
        match self {
            Error::AutoLaunch(detail) => ErrorView::AutoLaunch(detail@),
            Error::Io(detail) => ErrorView::Io(detail@),
            Error::NoSettings => ErrorView::NoSettings,
            Error::Other(detail) => ErrorView::Other(detail@),
            Error::Reqwest(detail) => ErrorView::Reqwest(detail@),
            Error::TomlDe(detail) => ErrorView::TomlDe(detail@),
            Error::TomlSer(detail) => ErrorView::TomlSer(detail@),
            Error::Weather(error) => ErrorView::Weather(error@),
        }
    }
}

impl ErrorView {
    /// The one line that a user reads for this failure.
    pub open spec fn text(self) -> Seq<char> {
        match self {
            ErrorView::AutoLaunch(detail) => "AutoLaunchError: "@ + detail,
            ErrorView::Io(detail) => detail,
            ErrorView::NoSettings => "No Settings were provided."@,
            ErrorView::Other(detail) => "Other error: "@ + detail,
            ErrorView::Reqwest(detail) => "RequestError: "@ + detail,
            ErrorView::TomlDe(detail) => "TomlDeError: "@ + detail,
            ErrorView::TomlSer(detail) => "TomlSerError: "@ + detail,
            ErrorView::Weather(error) => "WeatherError: "@ + error.own_text(),
        }
    }
}

/// `detail` behind `prefix`.
fn prefixed(prefix: &str, detail: &String) -> (text: String)
    ensures
        text@ == prefix@ + detail@,
{
    let mut text = String::from_str(prefix);
    text.append(detail.as_str());
    text
}

impl Error {
    /// A failure that has no kind of its own, with the line that describes it.
    pub fn other(error: &str) -> (failure: Error)
        ensures
            failure@ == ErrorView::Other(error@),
    {
        Error::Other(String::from_str(error))
    }

    pub fn to_string(&self) -> (text: String)
        ensures
            text@ == self@.text(),
    {
        match self {
            Error::AutoLaunch(detail) => prefixed("AutoLaunchError: ", detail),
            Error::Io(detail) => detail.clone(),
            Error::NoSettings => String::from_str("No Settings were provided."),
            Error::Other(detail) => prefixed("Other error: ", detail),
            Error::Reqwest(detail) => prefixed("RequestError: ", detail),
            Error::TomlDe(detail) => prefixed("TomlDeError: ", detail),
            Error::TomlSer(detail) => prefixed("TomlSerError: ", detail),
            Error::Weather(error) => {
                let inner = error.own_text();
                prefixed("WeatherError: ", &inner)
            },
        }
    }
}

/// A weather failure kept whole among the failures of the utility. Its line
/// names the kind and then holds what the failure says of itself.
impl From<WeatherError> for Error {
    fn from(value: WeatherError) -> (failure: Error) {
        Error::Weather(value)
    }
}

impl vstd::std_specs::convert::FromSpecImpl<WeatherError> for Error {
    open spec fn obeys_from_spec() -> bool {
        true
    }

    open spec fn from_spec(value: WeatherError) -> Error {
        Error::Weather(value)
    }
}

/// The lines of the failures of a weather request, written out. A request
/// that failed on its way and an answer that could not be read begin alike;
/// a failure that the service reported holds the service's reason at its end;
/// an answer without current weather has a line of its own.
pub proof fn weather_failure_lines(detail: Seq<char>, reason: Seq<char>)
    ensures
        (WeatherErrorView::Transport { detail }).text() == "RequestError: "@ + detail,
        (WeatherErrorView::Malformed { detail }).text() == "RequestError: "@ + detail,
        (WeatherErrorView::Semantic { reason }).text() == "Other error: WeatherError: "@ + reason,
        WeatherErrorView::NoCurrentWeather.text() == "Other error: No current_weather received."@,
        ErrorView::Weather(WeatherErrorView::Semantic { reason }).text()
            == "WeatherError: WeatherError: "@ + reason,
{
    reveal_strlit("Other error: ");
    reveal_strlit("WeatherError: ");
    reveal_strlit("No current_weather received.");
    reveal_strlit("Other error: WeatherError: ");
    reveal_strlit("Other error: No current_weather received.");
    reveal_strlit("WeatherError: WeatherError: ");
    assert("Other error: "@ + ("WeatherError: "@ + reason) =~= "Other error: WeatherError: "@
        + reason);
    assert("Other error: "@ + "No current_weather received."@
        =~= "Other error: No current_weather received."@);
    assert("WeatherError: "@ + ("WeatherError: "@ + reason) =~= "WeatherError: WeatherError: "@
        + reason);
}

impl Clone for Error {
    fn clone(&self) -> (copy: Self)
        ensures
            copy@ == self@,
    {
        match self {
            Error::AutoLaunch(detail) => Error::AutoLaunch(detail.clone()),
            Error::Io(detail) => Error::Io(detail.clone()),
            Error::NoSettings => Error::NoSettings,
            Error::Other(detail) => Error::Other(detail.clone()),
            Error::Reqwest(detail) => Error::Reqwest(detail.clone()),
            Error::TomlDe(detail) => Error::TomlDe(detail.clone()),
            Error::TomlSer(detail) => Error::TomlSer(detail.clone()),
            Error::Weather(error) => Error::Weather(error.clone()),
        }
    }
}

} // verus!
