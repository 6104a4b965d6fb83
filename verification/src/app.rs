//! The application controller: the one place that decides what the tray
//! shows and what the settings are.
//!
//! The controller does no work of its own. It is handed one event at a time
//! and answers with the actions to carry out; whoever runs it carries them
//! out in order and hands back what came of the last one. That a refresh, a
//! settings form and a save never overlap follows from the controller's
//! phases: while it waits for the outcome of an action it takes nothing else.

use crate::error::{Error, ErrorView, WeatherError, WeatherErrorView};
use crate::location::{Location, LocationView};
use crate::message::{MenuAction, Message, MessageView};
use crate::settings::{Settings, SettingsView};
use crate::theme::IconTheme;
use crate::tray::{weather_icon, weather_icon_path, ERROR_ICON};
use crate::weather::{CurrentWeather, CurrentWeatherView};
use vstd::prelude::*;

verus! {

/// What the controller is waiting for.
#[derive(Clone, Copy, Debug, PartialEq, Eq, Structural)]
pub enum Phase {
    /// No settings were found at startup; the first-run settings form is open.
    FirstRun,
    /// Nothing is under way; the next message is taken.
    Idle,
    /// A weather request is under way.
    Refreshing,
    /// The settings form is open.
    InSettings,
    /// New settings are being written.
    Saving,
    /// The controller has ended; it takes nothing any more.
    Stopped,
}

/// What the tray shows.
#[derive(Debug, PartialEq)]
pub enum Shown {
    /// Nothing has been shown yet.
    Startup,
    Normal(CurrentWeather),
    Error(String),
}

pub enum ShownView {
    Startup,
    Normal(CurrentWeatherView),
    Error(Seq<char>),
}

impl View for Shown {
    type V = ShownView;

    open spec fn view(&self) -> ShownView {
        match self {
            Shown::Startup => ShownView::Startup,
            Shown::Normal(weather) => ShownView::Normal(weather@),
            Shown::Error(message) => ShownView::Error(message@),
        }
    }
}

/// What is handed to the controller: the next message of the intake channel,
/// or what came of the action that it waits for.
#[derive(Debug, PartialEq)]
pub enum Event {
    Message(Message),
    /// What came of `Action::FetchWeather`.
    WeatherFetched(Result<CurrentWeather, WeatherError>),
    /// What came of `Action::SaveSettings`.
    SettingsSaved(Result<(), Error>),
}

pub enum EventView {
    Message(MessageView),
    WeatherFetched(Result<CurrentWeatherView, WeatherErrorView>),
    SettingsSaved(Result<(), ErrorView>),
}

impl View for Event {
    type V = EventView;

    open spec fn view(&self) -> EventView {
        match self {
            Event::Message(message) => EventView::Message(message@),
            Event::WeatherFetched(fetched) => EventView::WeatherFetched(
                match fetched {
                    Ok(weather) => Ok(weather@),
                    Err(error) => Err(error@),
                },
            ),
            Event::SettingsSaved(saved) => EventView::SettingsSaved(
                match saved {
                    Ok(_) => Ok(()),
                    Err(error) => Err(error@),
                },
            ),
        }
    }
}

/// What the controller asks for. `FetchWeather`, `OpenSettings` and
/// `SaveSettings` have an outcome that the controller waits for; the others
/// are carried out and forgotten, and a failure of theirs is logged by
/// whoever carries them out.
#[derive(Debug, PartialEq)]
pub enum Action {
    /// Ask the weather service for the current weather at the place; hand
    /// back `Event::WeatherFetched`.
    FetchWeather { location: Location },
    /// Show the weather: the icon of the asset, and a tooltip for the place.
    ShowWeather { icon_path: String, location_name: String, weather: CurrentWeather },
    /// Show a failure: the icon of the asset, and the message as tooltip.
    ShowError { icon_path: String, message: String },
    /// Open the settings form on the current settings and wait until it is
    /// closed; hand back `Message::SettingsCompleted`.
    OpenSettings { current: Settings },
    /// Open the forecast window, without waiting for it.
    OpenForecast { settings: Settings },
    /// Write the settings to the settings store; hand back
    /// `Event::SettingsSaved`.
    SaveSettings { settings: Settings },
    /// Tell the user that the settings were not written: they hold for this
    /// run only. This must reach the user; it is not a line in a log alone.
    ReportSaveFailure { message: String },
    /// Register or unregister the program for start at login.
    SetAutorun { enabled: bool },
    /// Let the timer run with this interval from now on.
    SetInterval { minutes: u32 },
    /// Stop every background task, wait for them, and leave the loop.
    Shutdown,
    /// Leave before the loop has begun, with the failure.
    Abort { failure: Error },
}

pub enum ActionView {
    FetchWeather { location: LocationView },
    ShowWeather { icon_path: Seq<char>, location_name: Seq<char>, weather: CurrentWeatherView },
    ShowError { icon_path: Seq<char>, message: Seq<char> },
    OpenSettings { current: SettingsView },
    OpenForecast { settings: SettingsView },
    SaveSettings { settings: SettingsView },
    ReportSaveFailure { message: Seq<char> },
    SetAutorun { enabled: bool },
    SetInterval { minutes: u32 },
    Shutdown,
    Abort { failure: ErrorView },
}

impl View for Action {
    type V = ActionView;

    open spec fn view(&self) -> ActionView {
        match self {
            Action::FetchWeather { location } => ActionView::FetchWeather { location: location@ },
            Action::ShowWeather { icon_path, location_name, weather } => ActionView::ShowWeather {
                icon_path: icon_path@,
                location_name: location_name@,
                weather: weather@,
            },
            Action::ShowError { icon_path, message } => ActionView::ShowError {
                icon_path: icon_path@,
                message: message@,
            },
            Action::OpenSettings { current } => ActionView::OpenSettings { current: current@ },
            Action::OpenForecast { settings } => ActionView::OpenForecast { settings: settings@ },
            Action::SaveSettings { settings } => ActionView::SaveSettings { settings: settings@ },
            Action::ReportSaveFailure { message } => ActionView::ReportSaveFailure {
                message: message@,
            },
            Action::SetAutorun { enabled } => ActionView::SetAutorun { enabled: *enabled },
            Action::SetInterval { minutes } => ActionView::SetInterval { minutes: *minutes },
            Action::Shutdown => ActionView::Shutdown,
            Action::Abort { failure } => ActionView::Abort { failure: failure@ },
        }
    }
}

impl ActionView {
    /// Whether the action has an outcome that the controller waits for.
    pub open spec fn awaited(self) -> bool {
        self is FetchWeather || self is OpenSettings || self is SaveSettings
    }
}

/// What each action of a list holds.
pub open spec fn actions_view(actions: Seq<Action>) -> Seq<ActionView> {
    actions.map_values(|a: Action| a@)
}

/// How the start-at-login registration has to change.
#[derive(Clone, Copy, Debug, PartialEq, Eq, Structural)]
pub enum AutorunChange {
    Enable,
    Disable,
    Keep,
}

/// The change that brings the registration from `is_enabled` to `wanted`.
pub open spec fn autorun_change(wanted: bool, is_enabled: bool) -> AutorunChange {
    if wanted && !is_enabled {
        AutorunChange::Enable
    } else if !wanted && is_enabled {
        AutorunChange::Disable
    } else {
        AutorunChange::Keep
    }
}

/// The message that the tray shows for a failed weather request: the word
/// for a failure in the user's language, a colon and a space, and the line
/// of the failure.
pub open spec fn failure_message(label: Seq<char>, error: WeatherErrorView) -> Seq<char> {
    label + ": "@ + error.text()
}

/// The controller, as the contracts see it.
pub struct AppView {
    pub settings: SettingsView,
    /// The word for a failure in the user's language.
    pub failure_label: Seq<char>,
    pub shown: ShownView,
    pub phase: Phase,
}

impl AppView {
    /// The controller over loaded settings, before anything was asked of it.
    pub open spec fn new(settings: SettingsView, failure_label: Seq<char>) -> AppView {
        AppView { settings, failure_label, shown: ShownView::Startup, phase: Phase::Idle }
    }

    /// The controller at startup and its first actions. With settings it
    /// starts the timer and asks for the weather. Without, it opens the
    /// first-run settings form and asks for nothing else: there is no place
    /// to ask the weather for.
    pub open spec fn start(loaded: Option<SettingsView>, failure_label: Seq<char>) -> (
        AppView,
        Seq<ActionView>,
    ) {
        match loaded {
            Some(settings) => (
                AppView {
                    settings,
                    failure_label,
                    shown: ShownView::Startup,
                    phase: Phase::Refreshing,
                },
                seq![
                    ActionView::SetInterval { minutes: settings.update_interval },
                    ActionView::FetchWeather { location: settings.location },
                ],
            ),
            None => (
                AppView {
                    settings: SettingsView::initial(),
                    failure_label,
                    shown: ShownView::Startup,
                    phase: Phase::FirstRun,
                },
                seq![ActionView::OpenSettings { current: SettingsView::initial() }],
            ),
        }
    }

    /// Whether the controller takes the event in its present phase. Idle, it
    /// takes any message. While an action's outcome is awaited it takes that
    /// outcome and nothing else; once stopped, nothing.
    pub open spec fn accepts(self, event: EventView) -> bool {
        match (self.phase, event) {
            (Phase::Idle, EventView::Message(_)) => true,
            (Phase::FirstRun, EventView::Message(MessageView::SettingsCompleted { .. })) => true,
            (Phase::InSettings, EventView::Message(MessageView::SettingsCompleted { .. })) => true,
            (Phase::Refreshing, EventView::WeatherFetched(_)) => true,
            (Phase::Saving, EventView::SettingsSaved(_)) => true,
            _ => false,
        }
    }

    /// The tray after the weather was shown.
    pub open spec fn with_weather(self, weather: CurrentWeatherView) -> AppView {
        AppView { shown: ShownView::Normal(weather), ..self }
    }

    /// The tray after a failure was shown.
    pub open spec fn with_error(self, message: Seq<char>) -> AppView {
        AppView { shown: ShownView::Error(message), ..self }
    }

    /// The action that shows the weather at a place in a theme.
    pub open spec fn weather_action(
        location: LocationView,
        icon_theme: IconTheme,
        weather: CurrentWeatherView,
    ) -> ActionView {
        ActionView::ShowWeather {
            icon_path: weather_icon(icon_theme, weather.weathercode),
            location_name: location.name,
            weather,
        }
    }

    /// The action that shows a failure.
    pub open spec fn error_action(message: Seq<char>) -> ActionView {
        ActionView::ShowError { icon_path: ERROR_ICON@, message }
    }

    /// The tray and the action after a weather request came back: the weather
    /// for the place and theme of the settings, or the failure's message in
    /// the user's language.
    pub open spec fn shows(self, fetched: Result<CurrentWeatherView, WeatherErrorView>) -> (
        AppView,
        ActionView,
    ) {
        match fetched {
            Ok(weather) => (
                self.with_weather(weather),
                Self::weather_action(self.settings.location, self.settings.icon_theme, weather),
            ),
            Err(error) => (
                self.with_error(failure_message(self.failure_label, error)),
                Self::error_action(failure_message(self.failure_label, error)),
            ),
        }
    }

    /// The actions that put the settings into effect: the start at login, the
    /// timer's interval, and a weather request for the place.
    pub open spec fn applies(self) -> Seq<ActionView> {
        seq![
            ActionView::SetAutorun { enabled: self.settings.autorun_enabled },
            ActionView::SetInterval { minutes: self.settings.update_interval },
            ActionView::FetchWeather { location: self.settings.location },
        ]
    }

    pub open spec fn in_phase(self, phase: Phase) -> AppView {
        AppView { phase, ..self }
    }

    /// The controller after a message that it accepts, and the actions.
    pub open spec fn on_message(self, message: MessageView) -> (AppView, Seq<ActionView>) {
        match message {
            MessageView::Timer | MessageView::MenuAction { which: MenuAction::Update } => (
                self.in_phase(Phase::Refreshing),
                seq![ActionView::FetchWeather { location: self.settings.location }],
            ),
            MessageView::MenuAction { which: MenuAction::OpenSettings } => (
                self.in_phase(Phase::InSettings),
                seq![ActionView::OpenSettings { current: self.settings }],
            ),
            MessageView::MenuAction { which: MenuAction::Quit } => (
                self.in_phase(Phase::Stopped),
                seq![ActionView::Shutdown],
            ),
            MessageView::TrayClicked => (
                self,
                seq![ActionView::OpenForecast { settings: self.settings }],
            ),
            MessageView::SettingsCompleted { new_settings: Some(settings) } => (
                AppView { settings, phase: Phase::Saving, ..self },
                seq![ActionView::SaveSettings { settings }],
            ),
            MessageView::SettingsCompleted { new_settings: None } => if self.phase
                == Phase::FirstRun {
                (
                    self.in_phase(Phase::Stopped),
                    seq![ActionView::Abort { failure: ErrorView::NoSettings }],
                )
            } else {
                (self.in_phase(Phase::Idle), Seq::empty())
            },
        }
    }

    /// The controller after the settings store answered. Written or not, the
    /// new settings are put into effect; where they were not written, the
    /// user is told first.
    pub open spec fn on_saved(self, saved: Result<(), ErrorView>) -> (AppView, Seq<ActionView>) {
        let next = self.in_phase(Phase::Refreshing);
        match saved {
            Ok(_) => (next, self.applies()),
            Err(error) => (
                next,
                seq![ActionView::ReportSaveFailure { message: error.text() }] + self.applies(),
            ),
        }
    }

    /// The controller after an event, and the actions that it asks for. An
    /// event that it does not accept changes nothing and asks for nothing.
    pub open spec fn step(self, event: EventView) -> (AppView, Seq<ActionView>) {
        if !self.accepts(event) {
            (self, Seq::empty())
        } else {
            match event {
                EventView::Message(message) => self.on_message(message),
                EventView::WeatherFetched(fetched) => {
                    let (next, action) = self.shows(fetched);
                    (next.in_phase(Phase::Idle), seq![action])
                },
                EventView::SettingsSaved(saved) => self.on_saved(saved),
            }
        }
    }
}

/// The application controller. It owns the settings and keeps track of what
/// the tray shows.
#[derive(Debug, PartialEq)]
pub struct WeatherApp {
    settings: Settings,
    failure_label: String,
    shown: Shown,
    phase: Phase,
}

impl View for WeatherApp {
    type V = AppView;

    closed spec fn view(&self) -> AppView {
        AppView {
            settings: self.settings@,
            failure_label: self.failure_label@,
            shown: self.shown@,
            phase: self.phase,
        }
    }
}

/// The list of one action.
fn one(action: Action) -> (actions: Vec<Action>)
    ensures
        actions_view(actions@) == seq![action@],
{
    let mut actions: Vec<Action> = Vec::new();
    actions.push(action);
    assert(actions_view(actions@) =~= seq![action@]);
    actions
}

/// The list of no action.
fn none() -> (actions: Vec<Action>)
    ensures
        actions_view(actions@) == Seq::<ActionView>::empty(),
{
    let actions: Vec<Action> = Vec::new();
    assert(actions_view(actions@) =~= Seq::<ActionView>::empty());
    actions
}

impl WeatherApp {
    /// A controller over the given settings, idle, with nothing shown yet.
    /// `failure_label` is the word for a failure in the user's language; the
    /// message of every failed weather request begins with it.
    pub fn new(settings: Settings, failure_label: &str) -> (app: WeatherApp)
        ensures
            app@ == AppView::new(settings@, failure_label@),
    {
        WeatherApp {
            settings,
            failure_label: String::from_str(failure_label),
            shown: Shown::Startup,
            phase: Phase::Idle,
        }
    }

    /// The controller at startup, from what the settings store gave, and the
    /// first actions. A settings file that is missing or cannot be read is no
    /// failure: it leads to the first-run settings form. `failure_label` is
    /// the word for a failure in the user's language.
    pub fn start(loaded: Result<Settings, Error>, failure_label: &str) -> (started: (
        WeatherApp,
        Vec<Action>,
    ))
        ensures
            (started.0@, actions_view(started.1@)) == AppView::start(
                match loaded {
                    Ok(settings) => Some(settings@),
                    Err(_) => None,
                },
                failure_label@,
            ),
    {
        let failure_label = String::from_str(failure_label);
        match loaded {
            Ok(settings) => {
                let mut actions: Vec<Action> = Vec::new();
                actions.push(Action::SetInterval { minutes: settings.update_interval() });
                actions.push(Action::FetchWeather { location: settings.location().clone() });
                let app = WeatherApp {
                    settings,
                    failure_label,
                    shown: Shown::Startup,
                    phase: Phase::Refreshing,
                };
                assert(actions_view(actions@) =~= AppView::start(
                    Some(settings@),
                    failure_label@,
                ).1);
                (app, actions)
            },
            Err(_) => {
                let settings = Settings::default();
                let actions = one(Action::OpenSettings { current: settings.clone() });
                (
                    WeatherApp {
                        settings,
                        failure_label,
                        shown: Shown::Startup,
                        phase: Phase::FirstRun,
                    },
                    actions,
                )
            },
        }
    }

    pub fn settings(&self) -> (settings: &Settings)
        ensures
            settings@ == self@.settings,
    {
        &self.settings
    }

    /// The word for a failure in the user's language.
    pub fn failure_label(&self) -> (label: &str)
        ensures
            label@ == self@.failure_label,
    {
        self.failure_label.as_str()
    }

    /// What the tray shows.
    pub fn shown(&self) -> (shown: &Shown)
        ensures
            shown@ == self@.shown,
    {
        &self.shown
    }

    pub fn phase(&self) -> (phase: Phase)
        ensures
            phase == self@.phase,
    {
        self.phase
    }

    /// Whether the loop goes on.
    pub fn is_running(&self) -> (running: bool)
        ensures
            running == (self@.phase != Phase::Stopped),
    {
        match self.phase {
            Phase::Stopped => false,
            _ => true,
        }
    }

    /// Records that the tray shows the weather, and gives the action that
    /// shows it.
    pub fn set_weather(
        &mut self,
        location: &Location,
        icon_theme: &IconTheme,
        weather: &CurrentWeather,
    ) -> (action: Action)
        ensures
            final(self)@ == old(self)@.with_weather(weather@),
            action@ == AppView::weather_action(location@, *icon_theme, weather@),
    {
        let action = Action::ShowWeather {
            icon_path: weather_icon_path(icon_theme, weather),
            location_name: location.name.clone(),
            weather: weather.clone(),
        };
        self.shown = Shown::Normal(weather.clone());
        action
    }

    /// Records that the tray shows a failure, and gives the action that shows
    /// it.
    pub fn set_error(&mut self, msg: &str) -> (action: Action)
        ensures
            final(self)@ == old(self)@.with_error(msg@),
            action@ == AppView::error_action(msg@),
    {
        self.shown = Shown::Error(String::from_str(msg));
        Action::ShowError {
            icon_path: String::from_str(ERROR_ICON),
            message: String::from_str(msg),
        }
    }

    /// Takes what a weather request gave and shows it: the weather for the
    /// place and theme of the settings, or the failure's message in the
    /// user's language. A failed request is shown, never passed on.
    pub fn update_weather(&mut self, fetched: Result<CurrentWeather, WeatherError>) -> (action:
        Action)
        ensures
            (final(self)@, action@) == old(self)@.shows(
                match fetched {
                    Ok(weather) => Ok(weather@),
                    Err(error) => Err(error@),
                },
            ),
    {
        match fetched {
            Ok(weather) => {
                let location = self.settings.location().clone();
                let icon_theme = self.settings.icon_theme();
                self.set_weather(&location, &icon_theme, &weather)
            },
            Err(error) => {
                let mut message = self.failure_label.clone();
                let text = error.to_string();
                message.append(": ");
                message.append(text.as_str());
                self.set_error(message.as_str())
            },
        }
    }

    /// The actions that put the settings into effect.
    pub fn update_settings(&self) -> (actions: Vec<Action>)
        ensures
            actions_view(actions@) == self@.applies(),
    {
        let mut actions: Vec<Action> = Vec::new();
        actions.push(Action::SetAutorun { enabled: self.settings.autorun_enabled() });
        actions.push(Action::SetInterval { minutes: self.settings.update_interval() });
        actions.push(Action::FetchWeather { location: self.settings.location().clone() });
        assert(actions_view(actions@) =~= self@.applies());
        actions
    }

    /// How the start-at-login registration has to change, given whether the
    /// program is registered now.
    pub fn set_autorun(&self, autorun_enabled: bool, is_enabled: bool) -> (change: AutorunChange)
        ensures
            change == autorun_change(autorun_enabled, is_enabled),
    {
        if autorun_enabled && !is_enabled {
            AutorunChange::Enable
        } else if !autorun_enabled && is_enabled {
            AutorunChange::Disable
        } else {
            AutorunChange::Keep
        }
    }

    /// Handles a message that the controller accepts in its present phase.
    fn on_message(&mut self, message: Message) -> (actions: Vec<Action>)
        requires
            old(self)@.accepts(EventView::Message(message@)),
        ensures
            (final(self)@, actions_view(actions@)) == old(self)@.on_message(message@),
    {
        match message {
            Message::Timer | Message::MenuAction { which: MenuAction::Update } => {
                self.phase = Phase::Refreshing;
                one(Action::FetchWeather { location: self.settings.location().clone() })
            },
            Message::MenuAction { which: MenuAction::OpenSettings } => {
                self.phase = Phase::InSettings;
                one(Action::OpenSettings { current: self.settings.clone() })
            },
            Message::MenuAction { which: MenuAction::Quit } => {
                self.phase = Phase::Stopped;
                one(Action::Shutdown)
            },
            Message::TrayClicked => one(Action::OpenForecast { settings: self.settings.clone() }),
            Message::SettingsCompleted { new_settings: Some(settings) } => {
                let actions = one(Action::SaveSettings { settings: settings.clone() });
                self.settings = settings;
                self.phase = Phase::Saving;
                actions
            },
            Message::SettingsCompleted { new_settings: None } => {
                match self.phase {
                    Phase::FirstRun => {
                        self.phase = Phase::Stopped;
                        one(Action::Abort { failure: Error::NoSettings })
                    },
                    _ => {
                        self.phase = Phase::Idle;
                        none()
                    },
                }
            },
        }
    }

    /// Handles the answer of the settings store.
    fn on_saved(&mut self, saved: Result<(), Error>) -> (actions: Vec<Action>)
        ensures
            (final(self)@, actions_view(actions@)) == old(self)@.on_saved(
                match saved {
                    Ok(_) => Ok(()),
                    Err(error) => Err(error@),
                },
            ),
    {
        self.phase = Phase::Refreshing;
        match saved {
            Ok(_) => self.update_settings(),
            Err(error) => {
                let mut actions = one(Action::ReportSaveFailure { message: error.to_string() });
                let mut rest = self.update_settings();
                let ghost first = actions@;
                let ghost second = rest@;
                actions.append(&mut rest);
                assert(actions_view(actions@) =~= actions_view(first) + actions_view(second));
                actions
            },
        }
    }

    /// Takes one event and answers with the actions to carry out, in order.
    ///
    /// At most one of the actions has an outcome to wait for, and it is the
    /// last; its outcome is the next event to hand in. Where none has, the
    /// next event is the next message of the intake channel. An event that
    /// the controller does not accept in its present phase changes nothing
    /// and asks for nothing.
    pub fn handle(&mut self, event: Event) -> (actions: Vec<Action>)
        ensures
            (final(self)@, actions_view(actions@)) == old(self)@.step(event@),
    {
        match event {
            Event::Message(message) => {
                let accepted = match self.phase {
                    Phase::Idle => true,
                    Phase::FirstRun | Phase::InSettings => match &message {
                        Message::SettingsCompleted { .. } => true,
                        _ => false,
                    },
                    _ => false,
                };
                if accepted {
                    self.on_message(message)
                } else {
                    none()
                }
            },
            Event::WeatherFetched(fetched) => {
                match self.phase {
                    Phase::Refreshing => {
                        let action = self.update_weather(fetched);
                        self.phase = Phase::Idle;
                        one(action)
                    },
                    _ => none(),
                }
            },
            Event::SettingsSaved(saved) => {
                match self.phase {
                    Phase::Saving => self.on_saved(saved),
                    _ => none(),
                }
            },
        }
    }
}

} // verus!
