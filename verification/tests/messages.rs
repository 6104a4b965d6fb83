use tray_weather::message::{
    message_for_menu_event, message_for_tray_event, MenuAction, MenuId, Message, MouseButton,
    MouseButtonState, TrayEvent,
};
use tray_weather::screen::{AppData, Screen, PROGRAM_NAME};
use tray_weather::settings::Settings;
use tray_weather::theme::IconTheme;

#[test]
fn menu_ids_have_their_names() {
    assert_eq!(MenuId::Update.to_string(), "update");
    assert_eq!(MenuId::Settings.to_string(), "settings");
    assert_eq!(MenuId::Quit.to_string(), "quit");
}

#[test]
fn menu_ids_are_found_by_name() {
    for id in [MenuId::Update, MenuId::Settings, MenuId::Quit] {
        assert_eq!(MenuId::from_id(&id.to_string()), Some(id));
    }
    assert_eq!(MenuId::from_id("Update"), None);
    assert_eq!(MenuId::from_id(""), None);
    assert_eq!(MenuId::from_id("quit "), None);
}

#[test]
fn menu_events_become_menu_actions() {
    assert_eq!(
        message_for_menu_event("update"),
        Some(Message::MenuAction { which: MenuAction::Update })
    );
    assert_eq!(
        message_for_menu_event("settings"),
        Some(Message::MenuAction { which: MenuAction::OpenSettings })
    );
    assert_eq!(
        message_for_menu_event("quit"),
        Some(Message::MenuAction { which: MenuAction::Quit })
    );
    assert_eq!(message_for_menu_event("1001"), None);
    assert_eq!(MenuId::Settings.action(), MenuAction::OpenSettings);
}

#[test]
fn only_a_released_left_click_is_a_tray_click() {
    let click = |button, button_state| TrayEvent::Click { button, button_state };
    assert_eq!(
        message_for_tray_event(&click(MouseButton::Left, MouseButtonState::Up)),
        Some(Message::TrayClicked)
    );
    assert_eq!(message_for_tray_event(&click(MouseButton::Left, MouseButtonState::Down)), None);
    assert_eq!(message_for_tray_event(&click(MouseButton::Right, MouseButtonState::Up)), None);
    assert_eq!(message_for_tray_event(&click(MouseButton::Middle, MouseButtonState::Up)), None);
    assert_eq!(
        message_for_tray_event(&TrayEvent::DoubleClick { button: MouseButton::Left }),
        None
    );
    assert_eq!(message_for_tray_event(&TrayEvent::Enter), None);
    assert_eq!(message_for_tray_event(&TrayEvent::Move), None);
    assert_eq!(message_for_tray_event(&TrayEvent::Leave), None);
}

#[test]
fn window_starts_hidden() {
    let data = AppData::new();
    assert!(!data.initialized);
    assert!(!data.visible);
    assert_eq!(data.screen, Screen::Blank);
    assert_eq!(data.title, "Tray Weather");
    assert_eq!(PROGRAM_NAME, "Tray Weather");
}

#[test]
fn window_follows_the_messages() {
    let mut data = AppData::new();
    data.event(&Message::MenuAction { which: MenuAction::OpenSettings });
    assert_eq!((data.screen, data.visible), (Screen::Settings, true));
    data.event(&Message::Timer);
    assert_eq!((data.screen, data.visible), (Screen::Settings, true));
    data.event(&Message::SettingsCompleted { new_settings: Some(Settings::default()) });
    assert_eq!((data.screen, data.visible), (Screen::Blank, false));
    data.event(&Message::TrayClicked);
    assert_eq!((data.screen, data.visible), (Screen::Forecast, true));
    data.event(&Message::MenuAction { which: MenuAction::Update });
    data.event(&Message::MenuAction { which: MenuAction::Quit });
    assert_eq!((data.screen, data.visible), (Screen::Forecast, true));
    data.event(&Message::SettingsCompleted { new_settings: None });
    assert_eq!((data.screen, data.visible), (Screen::Blank, false));
    assert_eq!(data.title, "Tray Weather");
}

#[test]
fn screens_are_compared() {
    assert!(Screen::Blank.same(&Screen::Blank));
    assert!(Screen::Settings.same(&Screen::Settings));
    assert!(Screen::Forecast.same(&Screen::Forecast));
    assert!(!Screen::Forecast.same(&Screen::Settings));
    assert!(!Screen::Blank.same(&Screen::Forecast));
}

#[test]
fn themes_have_their_names() {
    assert_eq!(IconTheme::Metno.to_string(), "metno");
    assert_eq!(IconTheme::Monochrome.to_string(), "monochrome");
    assert_eq!(IconTheme::iterator(), vec![IconTheme::Metno, IconTheme::Monochrome]);
}
