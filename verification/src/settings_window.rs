//! The state of the settings form: what the user has entered so far, which
//! of its two screens is shown, and how the form ended.

use crate::error::Error;
use crate::location::Location;
use crate::request::{is_request, search_params, search_request, GEOCODING_URL};
use crate::settings::{Settings, SettingsView};
use crate::theme::IconTheme;
use vstd::prelude::*;

verus! {

/// The language in which found places are described.
pub const SEARCH_LANGUAGE: &'static str = "de";

/// The screens of the form.
#[derive(Clone, Copy, Debug, PartialEq, Eq, Structural)]
pub enum SettingsScreen {
    /// The settings themselves.
    Home,
    /// The search for a place.
    Location,
}

/// How the form ended.
#[derive(Debug, PartialEq)]
pub enum Outcome {
    /// The form is still open.
    Open,
    Saved(Settings),
    Cancelled,
}

/// The settings form.
#[derive(Debug, PartialEq)]
pub struct SettingsWindow {
    pub location: Location,
    /// The name that the user has typed to search for.
    pub location_name: String,
    /// The places of the last search, where one was made.
    pub found_locations: Option<Vec<Location>>,
    pub icon_theme: IconTheme,
    pub autorun_enabled: bool,
    /// Minutes between two weather updates.
    pub update_interval: u32,
    pub screen: SettingsScreen,
    pub outcome: Outcome,
}

impl SettingsWindow {
    /// The settings that the form stands for at the moment.
    pub open spec fn entered(self) -> SettingsView {
        SettingsView {
            location: self.location@,
            icon_theme: self.icon_theme,
            autorun_enabled: self.autorun_enabled,
            update_interval: self.update_interval,
        }
    }

    /// What the form hands back when it is closed: the settings that were
    /// saved, and nothing where it was cancelled or closed without an answer.
    pub open spec fn answer(self) -> Option<SettingsView> {
        match self.outcome {
            Outcome::Saved(settings) => Some(settings@),
            _ => None,
        }
    }

    /// A form on the given settings, on its first screen, with no search
    /// made.
    pub fn new(settings: &Settings) -> (window: Self)
        ensures
            window.entered() == settings@,
            window.location_name@ == Seq::<char>::empty(),
            window.found_locations is None,
            window.screen == SettingsScreen::Home,
            window.outcome == Outcome::Open,
    {
        SettingsWindow {
            location: settings.location().clone(),
            location_name: String::new(),
            found_locations: None,
            icon_theme: settings.icon_theme(),
            autorun_enabled: settings.autorun_enabled(),
            update_interval: settings.update_interval(),
            screen: SettingsScreen::Home,
            outcome: Outcome::Open,
        }
    }

    /// The text for the place: its readable name, and none while no place is
    /// chosen.
    pub fn location_text(&self) -> (text: Option<String>)
        ensures
            self.location@.is_unset() ==> text is None,
            !self.location@.is_unset() ==> text is Some && text->0@
                == self.location@.human_readable(),
    {
        if self.location.is_unset() {
            None
        } else {
            Some(self.location.to_human_readable())
        }
    }

    /// Goes to the search for a place.
    pub fn new_location(&mut self)
        ensures
            *final(self) == (SettingsWindow { screen: SettingsScreen::Location, ..*old(self) }),
    {
        self.screen = SettingsScreen::Location;
    }

    /// The address to ask for the places of the name typed.
    pub fn search(&self) -> (request: Result<String, Error>)
        ensures
            is_request(
                request,
                GEOCODING_URL@,
                search_params(self.location_name@, SEARCH_LANGUAGE@),
            ),
    {
        search_request(self.location_name.as_str(), SEARCH_LANGUAGE)
    }

    /// Takes the places that a search gave.
    pub fn locations_found(&mut self, found: Vec<Location>)
        ensures
            *final(self) == (SettingsWindow { found_locations: Some(found), ..*old(self) }),
    {
        self.found_locations = Some(found);
    }

    /// Chooses the place at a position of the last search and goes back to
    /// the settings. A position that the search did not give changes nothing.
    pub fn choose_location(&mut self, index: usize)
        ensures
            match old(self).found_locations {
                Some(found) if index < found@.len() => {
                    &&& final(self).location@ == found@[index as int]@
                    &&& final(self).screen == SettingsScreen::Home
                    &&& final(self).location_name == old(self).location_name
                    &&& final(self).found_locations == old(self).found_locations
                    &&& final(self).icon_theme == old(self).icon_theme
                    &&& final(self).autorun_enabled == old(self).autorun_enabled
                    &&& final(self).update_interval == old(self).update_interval
                    &&& final(self).outcome == old(self).outcome
                },
                _ => *final(self) == *old(self),
            },
    {
        let chosen = match &self.found_locations {
            Some(found) => if index < found.len() {
                Some(found[index].clone())
            } else {
                None
            },
            None => None,
        };
        if let Some(location) = chosen {
            self.location = location;
            self.screen = SettingsScreen::Home;
        }
    }

    /// Saves what was entered and ends the form. An interval of zero minutes
    /// is no interval: the form then stays as it is, and `false` comes back.
    pub fn save(&mut self) -> (saved: bool)
        ensures
            saved == (old(self).update_interval > 0),
            !saved ==> *final(self) == *old(self),
            saved ==> final(self).answer() == Some(old(self).entered()) && *final(self) == (
            SettingsWindow { outcome: final(self).outcome, ..*old(self) }),
    {
        let settings = Settings::new(
            self.location.clone(),
            self.icon_theme,
            self.autorun_enabled,
            self.update_interval,
        );
        match settings {
            Some(settings) => {
                self.outcome = Outcome::Saved(settings);
                true
            },
            None => false,
        }
    }

    /// Ends the form without settings.
    pub fn cancel(&mut self)
        ensures
            *final(self) == (SettingsWindow { outcome: Outcome::Cancelled, ..*old(self) }),
    {
        self.outcome = Outcome::Cancelled;
    }

    /// Whether the form has ended.
    pub fn is_closed(&self) -> (closed: bool)
        ensures
            closed == (self.outcome != Outcome::Open),
    {
        match self.outcome {
            Outcome::Open => false,
            _ => true,
        }
    }

    /// What the form hands back: the saved settings, or nothing.
    pub fn into_answer(self) -> (answer: Option<Settings>)
        ensures
            match answer {
                Some(settings) => self.answer() == Some(settings@),
                None => self.answer() is None,
            },
    {
        match self.outcome {
            Outcome::Saved(settings) => Some(settings),
            _ => None,
        }
    }
}

} // verus!
