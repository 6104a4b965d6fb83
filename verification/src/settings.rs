//! The settings that a user chooses and that are kept between runs.

use crate::location::{Location, LocationView};
use crate::theme::IconTheme;
use vstd::prelude::*;

verus! {

/// Minutes between two weather updates where the user has chosen none.
pub const DEFAULT_UPDATE_INTERVAL: u32 = 60;

/// The settings record. A value of this type is always valid: the update
/// interval is at least one minute.
#[derive(Debug, PartialEq)]
pub struct Settings {
    location: Location,
    icon_theme: IconTheme,
    autorun_enabled: bool,
    update_interval: u32,
}

pub struct SettingsView {
    pub location: LocationView,
    pub icon_theme: IconTheme,
    pub autorun_enabled: bool,
    /// Minutes between two weather updates.
    pub update_interval: u32,
}

impl SettingsView {
    pub open spec fn valid(self) -> bool {
        self.update_interval > 0
    }

    /// The settings of the given parts; none where the interval is zero.
    pub open spec fn of(
        location: LocationView,
        icon_theme: IconTheme,
        autorun_enabled: bool,
        update_interval: u32,
    ) -> Option<SettingsView> {
        if update_interval > 0 {
            Some(SettingsView { location, icon_theme, autorun_enabled, update_interval })
        } else {
            None
        }
    }

    /// The settings of a first run: no place chosen, the coloured icons, no
    /// start at login, an update every hour.
    pub open spec fn initial() -> SettingsView {
        SettingsView {
            location: LocationView::zero(),
            icon_theme: IconTheme::Metno,
            autorun_enabled: false,
            update_interval: DEFAULT_UPDATE_INTERVAL,
        }
    }
}

impl View for Settings {
    type V = SettingsView;

    closed spec fn view(&self) -> SettingsView {
        SettingsView {
            location: self.location@,
            icon_theme: self.icon_theme,
            autorun_enabled: self.autorun_enabled,
            update_interval: self.update_interval,
        }
    }
}

impl Settings {
    #[verifier::type_invariant]
    spec fn valid(self) -> bool {
        self.update_interval > 0
    }

    /// Settings of the given parts, unless the interval is zero.
    pub fn new(
        location: Location,
        icon_theme: IconTheme,
        autorun_enabled: bool,
        update_interval: u32,
    ) -> (settings: Option<Settings>)
        ensures
            match SettingsView::of(location@, icon_theme, autorun_enabled, update_interval) {
                Some(wanted) => settings is Some && settings->0@ == wanted,
                None => settings is None,
            },
    {
        if update_interval == 0 {
            None
        } else {
            Some(Settings { location, icon_theme, autorun_enabled, update_interval })
        }
    }

    pub fn location(&self) -> (location: &Location)
        ensures
            location@ == self@.location,
    {
        &self.location
    }

    pub fn icon_theme(&self) -> (theme: IconTheme)
        ensures
            theme == self@.icon_theme,
    {
        self.icon_theme
    }

    pub fn autorun_enabled(&self) -> (enabled: bool)
        ensures
            enabled == self@.autorun_enabled,
    {
        self.autorun_enabled
    }

    /// Minutes between two weather updates.
    pub fn update_interval(&self) -> (minutes: u32)
        ensures
            minutes == self@.update_interval,
            minutes > 0,
    {
        proof {
            use_type_invariant(self);
        }
        self.update_interval
    }

    /// Takes over every part of `new_settings`.
    pub fn update(&mut self, new_settings: &Settings)
        ensures
            final(self)@ == new_settings@,
    {
        *self = new_settings.clone();
    }
}

/// Settings taken apart into their four parts and put together again are the
/// same settings: whoever writes the parts down and reads them back
/// unchanged has the settings back, and they are never turned down.
pub proof fn settings_are_their_parts(settings: SettingsView)
    requires
        settings.valid(),
    ensures
        SettingsView::of(
            settings.location,
            settings.icon_theme,
            settings.autorun_enabled,
            settings.update_interval,
        ) == Some(settings),
{
}

impl Clone for Settings {
    fn clone(&self) -> (copy: Self)
        ensures
            copy@ == self@,
    {
        proof {
            use_type_invariant(self);
        }
        Settings {
            location: self.location.clone(),
            icon_theme: self.icon_theme,
            autorun_enabled: self.autorun_enabled,
            update_interval: self.update_interval,
        }
    }
}

impl Default for Settings {
    fn default() -> (settings: Self)
        ensures
            settings@ == SettingsView::initial(),
    {
        Settings {
            location: Location::default(),
            icon_theme: IconTheme::Metno,
            autorun_enabled: false,
            update_interval: DEFAULT_UPDATE_INTERVAL,
        }
    }
}

} // verus!
