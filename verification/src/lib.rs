//! Decision logic of a system-tray weather utility: the message contract, the
//! application controller, the task supervisor's record, and the checks on
//! weather payloads and settings that the controller relies on.

pub mod app;
pub mod conditions;
pub mod error;
pub mod forecast;
pub mod forecast_window;
pub mod icon;
pub mod location;
pub mod message;
pub mod ordering;
pub mod request;
pub mod screen;
pub mod settings;
pub mod settings_window;
pub mod supervisor;
pub mod theme;
pub mod time;
pub mod tray;
pub mod weather;
