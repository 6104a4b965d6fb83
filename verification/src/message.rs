//! The events that reach the controller, and how the tray's native events are
//! turned into them.

use crate::settings::{Settings, SettingsView};
use vstd::prelude::*;

verus! {

/// An entry of the tray's context menu, in the order of the menu.
#[derive(Clone, Copy, Debug, PartialEq, Eq, Structural)]
pub enum MenuId {
    Update,
    Settings,
    Quit,
}

/// What the user asks for with a menu entry.
#[derive(Clone, Copy, Debug, PartialEq, Eq, Structural)]
pub enum MenuAction {
    Update,
    OpenSettings,
    Quit,
}

/// One event on the controller's intake channel. Each is made by one source
/// and handled once, in the order in which it was put on the channel.
#[derive(Debug, PartialEq)]
pub enum Message {
    /// The update interval has passed.
    Timer,
    /// The user chose a menu entry.
    MenuAction { which: MenuAction },
    /// The user released the primary mouse button over the tray icon.
    TrayClicked,
    /// The settings form was closed: with new settings, or without (cancelled).
    SettingsCompleted { new_settings: Option<Settings> },
}

pub enum MessageView {
    Timer,
    MenuAction { which: MenuAction },
    TrayClicked,
    SettingsCompleted { new_settings: Option<SettingsView> },
}

impl View for Message {
    type V = MessageView;

    open spec fn view(&self) -> MessageView {
        match self {
            Message::Timer => MessageView::Timer,
            Message::MenuAction { which } => MessageView::MenuAction { which: *which },
            Message::TrayClicked => MessageView::TrayClicked,
            Message::SettingsCompleted { new_settings } => MessageView::SettingsCompleted {
                new_settings: match new_settings {
                    Some(s) => Some(s@),
                    None => None,
                },
            },
        }
    }
}

/// A button of the pointing device.
#[derive(Clone, Copy, Debug, PartialEq, Eq, Structural)]
pub enum MouseButton {
    Left,
    Right,
    Middle,
}

#[derive(Clone, Copy, Debug, PartialEq, Eq, Structural)]
pub enum MouseButtonState {
    Up,
    Down,
}

/// What the tray icon reports of the pointing device.
#[derive(Clone, Copy, Debug, PartialEq, Eq, Structural)]
pub enum TrayEvent {
    Click { button: MouseButton, button_state: MouseButtonState },
    DoubleClick { button: MouseButton },
    Enter,
    Move,
    Leave,
}

impl MenuId {
    /// The identifier under which the entry is registered with the menu.
    pub open spec fn name(self) -> Seq<char> {
        match self {
            MenuId::Update => "update"@,
            MenuId::Settings => "settings"@,
            MenuId::Quit => "quit"@,
        }
    }

    /// The entry that is registered under an identifier.
    pub open spec fn named(id: Seq<char>) -> Option<MenuId> {
        if id == "update"@ {
            Some(MenuId::Update)
        } else if id == "settings"@ {
            Some(MenuId::Settings)
        } else if id == "quit"@ {
            Some(MenuId::Quit)
        } else {
            None
        }
    }

    /// The entries of the menu, from the top: exactly these three.
    pub open spec fn all() -> Seq<MenuId> {
        seq![MenuId::Update, MenuId::Settings, MenuId::Quit]
    }

    /// What the user asks for with the entry.
    pub open spec fn asks(self) -> MenuAction {
        match self {
            MenuId::Update => MenuAction::Update,
            MenuId::Settings => MenuAction::OpenSettings,
            MenuId::Quit => MenuAction::Quit,
        }
    }

    /// The entries of the menu, from the top.
    pub fn entries() -> (entries: Vec<MenuId>)
        ensures
            entries@ == Self::all(),
    {
        let mut entries: Vec<MenuId> = Vec::new();
        entries.push(MenuId::Update);
        entries.push(MenuId::Settings);
        entries.push(MenuId::Quit);
        entries
    }

    pub fn to_string(&self) -> (id: String)
        ensures
            id@ == self.name(),
    {
        String::from_str(
            match self {
                MenuId::Update => "update",
                MenuId::Settings => "settings",
                MenuId::Quit => "quit",
            },
        )
    }

    /// The entry with the given identifier, if it is one of the menu's.
    pub fn from_id(id: &str) -> (entry: Option<MenuId>)
        ensures
            entry == MenuId::named(id@),
    {
        let given = String::from_str(id);
        if given == String::from_str("update") {
            Some(MenuId::Update)
        } else if given == String::from_str("settings") {
            Some(MenuId::Settings)
        } else if given == String::from_str("quit") {
            Some(MenuId::Quit)
        } else {
            None
        }
    }

    pub fn action(&self) -> (action: MenuAction)
        ensures
            action == self.asks(),
    {
        match self {
            MenuId::Update => MenuAction::Update,
            MenuId::Settings => MenuAction::OpenSettings,
            MenuId::Quit => MenuAction::Quit,
        }
    }
}

/// The message that a menu event stands for: one for each entry of the menu,
/// none for an identifier that is not the menu's.
pub open spec fn menu_message(id: Seq<char>) -> Option<MessageView> {
    match MenuId::named(id) {
        Some(entry) => Some(MessageView::MenuAction { which: entry.asks() }),
        None => None,
    }
}

/// The message that a tray event stands for: a click counts when the primary
/// button is released, and nothing else the pointer does counts.
pub open spec fn tray_message(event: TrayEvent) -> Option<MessageView> {
    if event == (TrayEvent::Click {
        button: MouseButton::Left,
        button_state: MouseButtonState::Up,
    }) {
        Some(MessageView::TrayClicked)
    } else {
        None
    }
}

/// Whether two optional messages are the same, compared by what they hold.
pub open spec fn same_message(got: Option<Message>, wanted: Option<MessageView>) -> bool {
    match (got, wanted) {
        (Some(a), Some(b)) => a@ == b,
        (None, None) => true,
        _ => false,
    }
}

/// Turns the identifier of a menu event into the message to forward.
pub fn message_for_menu_event(id: &str) -> (message: Option<Message>)
    ensures
        same_message(message, menu_message(id@)),
{
    match MenuId::from_id(id) {
        Some(entry) => Some(Message::MenuAction { which: entry.action() }),
        None => None,
    }
}

/// Turns an event of the tray icon into the message to forward.
pub fn message_for_tray_event(event: &TrayEvent) -> (message: Option<Message>)
    ensures
        same_message(message, tray_message(*event)),
{
    match event {
        TrayEvent::Click { button: MouseButton::Left, button_state: MouseButtonState::Up } => Some(
            Message::TrayClicked,
        ),
        _ => None,
    }
}

/// Each menu entry is found again under its own identifier, so the three
/// entries are forwarded as three different requests.
pub proof fn menu_entries_are_told_apart(entry: MenuId)
    ensures
        MenuId::named(entry.name()) == Some(entry),
        menu_message(entry.name()) == Some(MessageView::MenuAction { which: entry.asks() }),
{
    reveal_strlit("update");
    reveal_strlit("settings");
    reveal_strlit("quit");
    assert("update"@.len() == 6);
    assert("settings"@.len() == 8);
    assert("quit"@.len() == 4);
}

} // verus!
