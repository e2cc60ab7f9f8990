//! Command-line argument model. Parsing belongs to the application; what
//! lives here is the parsed shape of the arguments and their mapping onto a
//! notification builder, one flag to one field.

use crate::notifier::{NotificationBuilder, UrgencyLevel};
use crate::platform::Platform;
use vstd::prelude::*;

verus! {

/// The urgency choices offered on the command line.
#[derive(Debug, Clone, Copy)]
pub enum CliUrgencyLevel {
    /// Background information.
    Low,
    /// Everyday notifications.
    Normal,
    /// Notifications that demand attention.
    Critical,
}

/// The backend choices offered on the command line.
#[derive(Debug, Clone, Copy)]
pub enum CliBackend {
    /// Linux D-Bus notification.
    Linux,
    /// Windows notification via PowerShell.
    Windows,
    /// macOS notification via osascript.
    Macos,
}

/// The urgency a command-line choice stands for.
pub open spec fn spec_urgency(level: CliUrgencyLevel) -> UrgencyLevel {
    match level {
        CliUrgencyLevel::Low => UrgencyLevel::Low,
        CliUrgencyLevel::Normal => UrgencyLevel::Normal,
        CliUrgencyLevel::Critical => UrgencyLevel::Critical,
    }
}

/// The platform a command-line backend choice stands for.
pub open spec fn spec_backend(backend: CliBackend) -> Platform {
    match backend {
        CliBackend::Linux => Platform::Linux,
        CliBackend::Windows => Platform::Windows,
        CliBackend::Macos => Platform::MacOs,
    }
}

impl From<CliUrgencyLevel> for UrgencyLevel {
    /// The urgency a command-line choice stands for.
    fn from(level: CliUrgencyLevel) -> (r: Self) {
        match level {
            CliUrgencyLevel::Low => UrgencyLevel::Low,
            CliUrgencyLevel::Normal => UrgencyLevel::Normal,
            CliUrgencyLevel::Critical => UrgencyLevel::Critical,
        }
    }
}

impl vstd::std_specs::convert::FromSpecImpl<CliUrgencyLevel> for UrgencyLevel {
    open spec fn obeys_from_spec() -> bool {
        true
    }

    open spec fn from_spec(level: CliUrgencyLevel) -> Self {
        spec_urgency(level)
    }
}

impl From<CliBackend> for Platform {
    /// The platform a command-line backend choice stands for.
    fn from(backend: CliBackend) -> (r: Self) {
        match backend {
            CliBackend::Linux => Platform::Linux,
            CliBackend::Windows => Platform::Windows,
            CliBackend::Macos => Platform::MacOs,
        }
    }
}

impl vstd::std_specs::convert::FromSpecImpl<CliBackend> for Platform {
    open spec fn obeys_from_spec() -> bool {
        true
    }

    open spec fn from_spec(backend: CliBackend) -> Self {
        spec_backend(backend)
    }
}

/// Parsed command-line arguments, one flag per builder field.
#[derive(Debug, Clone)]
pub struct Args {
    /// Notification title.
    pub title: String,
    /// Notification message.
    pub message: String,
    /// Timeout in milliseconds; 0 means no timeout.
    pub timeout: u32,
    /// Icon name or path (Linux only).
    pub icon: String,
    /// Urgency level.
    pub urgency: CliUrgencyLevel,
    /// Subtitle (macOS only).
    pub subtitle: String,
    /// Sound name (macOS only).
    pub sound: String,
    /// An explicit backend, forced over detection.
    pub backend: Option<CliBackend>,
}

impl Args {
    /// Maps the arguments onto a notification builder, field for field; the
    /// backend flag becomes an override only when it was given.
    pub fn into_builder(self) -> (r: NotificationBuilder)
        ensures
            r.title matches Some(t) && t@ == self.title@,
            r.message matches Some(m) && m@ == self.message@,
            r.timeout == Some(self.timeout),
            r.icon matches Some(i) && i@ == self.icon@,
            r.urgency == Some(spec_urgency(self.urgency)),
            r.subtitle matches Some(s) && s@ == self.subtitle@,
            r.sound matches Some(s) && s@ == self.sound@,
            r.backend == match self.backend {
                Some(b) => Some(spec_backend(b)),
                None => None,
            },
    {
        let mut builder = NotificationBuilder::new().title(self.title.as_str()).message(
            self.message.as_str(),
        ).timeout(self.timeout).icon(self.icon.as_str()).urgency(
            UrgencyLevel::from(self.urgency),
        ).subtitle(self.subtitle.as_str()).sound(self.sound.as_str());
        if let Some(backend) = self.backend {
            builder = builder.backend(Platform::from(backend));
        }
        builder
    }
}

} // verus!
