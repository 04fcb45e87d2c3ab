//! A break reminder: a countdown that alternates between a working phase and a
//! resting phase, the intent flags through which it asks for window changes,
//! and the way tray events raise those intents.
//!
//! All time values are nanoseconds. A timestamp is a reading of a monotonic
//! clock whose origin the caller chooses.

pub mod clock;
pub mod config;
pub mod dispatch;
pub mod display;
pub mod emoji;
pub mod icon;
pub mod input;
pub mod laws;
pub mod model;
pub mod reminder;
pub mod text;
pub mod tray;

pub use clock::RestReminderApp;
pub use config::AppConfig;
pub use dispatch::WindowCommand;
pub use model::{AppState, IntentFlags};
pub use reminder::Reminder;
pub use tray::{IconEvent, MouseButton, TrayEvent, TrayMessage};
