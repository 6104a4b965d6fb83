//! Which of the two windows is on screen.

use crate::message::{MenuAction, Message, MessageView};
use vstd::prelude::*;

verus! {

/// The name of the program, as window titles and the start-at-login
/// registration show it.
pub const PROGRAM_NAME: &'static str = "Tray Weather";

/// What the window shows.
#[derive(Clone, Copy, Debug, PartialEq, Eq, Structural)]
pub enum Screen {
    /// No screen: the window is empty.
    Blank,
    Settings,
    Forecast,
}

impl Screen {
    /// Whether two screens are the same one.
    pub fn same(&self, other: &Self) -> (same: bool)
        ensures
            same == (*self == *other),
    {
        match (self, other) {
            (Screen::Blank, Screen::Blank) => true,
            (Screen::Settings, Screen::Settings) => true,
            (Screen::Forecast, Screen::Forecast) => true,
            _ => false,
        }
    }
}

/// The state of the program's one window.
#[derive(Debug, PartialEq)]
pub struct AppData {
    pub initialized: bool,
    pub visible: bool,
    pub title: String,
    pub screen: Screen,
}

/// The screen and whether the window is visible, after a message: asking for
/// the settings shows the settings form, a click on the tray icon shows the
/// forecast, and the settings form's end hides the window. No other message
/// touches the window.
pub open spec fn after_message(screen: Screen, visible: bool, message: MessageView) -> (
    Screen,
    bool,
) {
    match message {
        MessageView::MenuAction { which: MenuAction::OpenSettings } => (Screen::Settings, true),
        MessageView::SettingsCompleted { .. } => (Screen::Blank, false),
        MessageView::TrayClicked => (Screen::Forecast, true),
        _ => (screen, visible),
    }
}

impl AppData {
    /// The window before anything was shown: hidden, with no screen.
    pub fn new() -> (data: Self)
        ensures
            !data.initialized,
            !data.visible,
            data.screen == Screen::Blank,
            data.title@ == PROGRAM_NAME@,
    {
        AppData {
            initialized: false,
            visible: false,
            screen: Screen::Blank,
            title: String::from_str(PROGRAM_NAME),
        }
    }

    /// Follows a message.
    pub fn event(&mut self, message: &Message)
        ensures
            (final(self).screen, final(self).visible) == after_message(
                old(self).screen,
                old(self).visible,
                message@,
            ),
            final(self).initialized == old(self).initialized,
            final(self).title == old(self).title,
    {
        match message {
            Message::MenuAction { which: MenuAction::OpenSettings } => {
                self.screen = Screen::Settings;
                self.visible = true;
            },
            Message::SettingsCompleted { .. } => {
                self.visible = false;
                self.screen = Screen::Blank;
            },
            Message::TrayClicked => {
                self.screen = Screen::Forecast;
                self.visible = true;
            },
            _ => {},
        }
    }
}

/// The window is visible exactly when it has a screen to show, whatever
/// messages arrive, once this holds.
pub proof fn visible_with_a_screen(screen: Screen, visible: bool, message: MessageView)
    requires
        visible <==> screen != Screen::Blank,
    ensures
        after_message(screen, visible, message).1 <==> after_message(screen, visible, message).0
            != Screen::Blank,
{
}

} // verus!
