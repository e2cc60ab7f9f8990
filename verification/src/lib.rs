//! Cross-platform desktop toast notifications.
//!
//! The crate models the environment as a [`Platform`], carries the content of
//! a notification in a [`Notification`] value built by a
//! [`NotificationBuilder`], and routes it to one of three backends (Linux
//! D-Bus, macOS AppleScript, Windows PowerShell). The backend-specific work
//! that can be verified — string escaping, script generation, timeout and
//! urgency mapping, and backend selection — lives here; spawning interpreter
//! processes and reading the environment is left to the calling application.

pub mod cli;
pub mod error;
pub mod notifier;
pub mod platform;
pub mod text;

pub use error::NotificationError;
pub use notifier::{Notification, NotificationBuilder, Notifier, UrgencyLevel};
pub use platform::Platform;
