//! The notification core: the backend capability, the notification value
//! object and its builder, and the dispatch step that picks a backend.

pub mod linux;
pub mod macos;
pub mod windows;

pub use linux::LinuxNotifier;
pub use macos::MacOsNotifier;
pub use windows::WindowsNotifier;

use crate::error::NotificationError;
use crate::platform::Platform;
use vstd::prelude::*;

verus! {

/// The capability every notification backend offers. Sending itself spawns
/// an interpreter process or makes a native call, so it stays with the
/// caller; what a backend can state here is its availability on a given host
/// platform and its diagnostic label.
pub trait Notifier {
    /// Whether this backend is usable when running on `host`.
    spec fn spec_available(&self, host: Platform) -> bool;

    /// The label this backend reports for diagnostics.
    spec fn spec_name(&self) -> Seq<char>;

    /// Whether this backend is usable when running on `host`.
    fn is_available(&self, host: Platform) -> (r: bool)
        ensures
            r == self.spec_available(host),
    ;

    /// The backend's diagnostic label.
    fn backend_name(&self) -> (r: &'static str)
        ensures
            r@ == self.spec_name(),
    ;
}

/// The urgency hint passed to Linux-native notification delivery.
#[derive(Debug, Clone, Copy, PartialEq, Eq, Structural)]
pub enum UrgencyLevel {
    /// Background information.
    Low,
    /// Everyday notifications.
    Normal,
    /// Notifications that demand attention.
    Critical,
}

impl Default for UrgencyLevel {
    /// The default urgency.
    fn default() -> (r: Self)
        ensures
            r == UrgencyLevel::Normal,
    {
        UrgencyLevel::Normal
    }
}

/// The content of one notification, immutable once built.
#[derive(Debug, Clone)]
pub struct Notification {
    /// The notification's title.
    pub title: String,
    /// The message body.
    pub message: String,
    /// Display time in milliseconds; 0 means no timeout.
    pub timeout: u32,
    /// Icon name or path (Linux only).
    pub icon: String,
    /// Urgency hint (Linux only).
    pub urgency: UrgencyLevel,
    /// Subtitle (macOS only).
    pub subtitle: String,
    /// Notification sound (macOS only).
    pub sound: String,
    /// A backend to use instead of the detected platform's.
    pub backend_override: Option<Platform>,
}

/// Accumulates notification fields; unset fields take their documented
/// defaults when the notification is built.
#[derive(Debug, Clone)]
pub struct NotificationBuilder {
    /// The title, if set.
    pub title: Option<String>,
    /// The message body, if set.
    pub message: Option<String>,
    /// The timeout, if set.
    pub timeout: Option<u32>,
    /// The icon, if set.
    pub icon: Option<String>,
    /// The urgency, if set.
    pub urgency: Option<UrgencyLevel>,
    /// The subtitle, if set.
    pub subtitle: Option<String>,
    /// The sound, if set.
    pub sound: Option<String>,
    /// The backend override, if set.
    pub backend: Option<Platform>,
}

impl NotificationBuilder {
    /// A builder with every field unset.
    pub fn new() -> (r: Self)
        ensures
            r.title is None,
            r.message is None,
            r.timeout is None,
            r.icon is None,
            r.urgency is None,
            r.subtitle is None,
            r.sound is None,
            r.backend is None,
    {
        NotificationBuilder {
            title: None,
            message: None,
            timeout: None,
            icon: None,
            urgency: None,
            subtitle: None,
            sound: None,
            backend: None,
        }
    }

    /// Sets the title and touches nothing else.
    pub fn title(self, title: &str) -> (r: Self)
        ensures
            r.title matches Some(t) && t@ == title@,
            r.message == self.message,
            r.timeout == self.timeout,
            r.icon == self.icon,
            r.urgency == self.urgency,
            r.subtitle == self.subtitle,
            r.sound == self.sound,
            r.backend == self.backend,
    {
        NotificationBuilder { title: Some(title.to_owned()), ..self }
    }

    /// Sets the message and touches nothing else.
    pub fn message(self, message: &str) -> (r: Self)
        ensures
            r.message matches Some(m) && m@ == message@,
            r.title == self.title,
            r.timeout == self.timeout,
            r.icon == self.icon,
            r.urgency == self.urgency,
            r.subtitle == self.subtitle,
            r.sound == self.sound,
            r.backend == self.backend,
    {
        NotificationBuilder { message: Some(message.to_owned()), ..self }
    }

    /// Sets the timeout in milliseconds and touches nothing else.
    pub fn timeout(self, timeout: u32) -> (r: Self)
        ensures
            r.timeout == Some(timeout),
            r.title == self.title,
            r.message == self.message,
            r.icon == self.icon,
            r.urgency == self.urgency,
            r.subtitle == self.subtitle,
            r.sound == self.sound,
            r.backend == self.backend,
    {
        NotificationBuilder { timeout: Some(timeout), ..self }
    }

    /// Sets the icon and touches nothing else.
    pub fn icon(self, icon: &str) -> (r: Self)
        ensures
            r.icon matches Some(i) && i@ == icon@,
            r.title == self.title,
            r.message == self.message,
            r.timeout == self.timeout,
            r.urgency == self.urgency,
            r.subtitle == self.subtitle,
            r.sound == self.sound,
            r.backend == self.backend,
    {
        NotificationBuilder { icon: Some(icon.to_owned()), ..self }
    }

    /// Sets the urgency and touches nothing else.
    pub fn urgency(self, urgency: UrgencyLevel) -> (r: Self)
        ensures
            r.urgency == Some(urgency),
            r.title == self.title,
            r.message == self.message,
            r.timeout == self.timeout,
            r.icon == self.icon,
            r.subtitle == self.subtitle,
            r.sound == self.sound,
            r.backend == self.backend,
    {
        NotificationBuilder { urgency: Some(urgency), ..self }
    }

    /// Sets the subtitle and touches nothing else.
    pub fn subtitle(self, subtitle: &str) -> (r: Self)
        ensures
            r.subtitle matches Some(s) && s@ == subtitle@,
            r.title == self.title,
            r.message == self.message,
            r.timeout == self.timeout,
            r.icon == self.icon,
            r.urgency == self.urgency,
            r.sound == self.sound,
            r.backend == self.backend,
    {
        NotificationBuilder { subtitle: Some(subtitle.to_owned()), ..self }
    }

    /// Sets the sound and touches nothing else.
    pub fn sound(self, sound: &str) -> (r: Self)
        ensures
            r.sound matches Some(s) && s@ == sound@,
            r.title == self.title,
            r.message == self.message,
            r.timeout == self.timeout,
            r.icon == self.icon,
            r.urgency == self.urgency,
            r.subtitle == self.subtitle,
            r.backend == self.backend,
    {
        NotificationBuilder { sound: Some(sound.to_owned()), ..self }
    }

    /// Forces a backend instead of the detected platform's. An override
    /// names one of the four concrete platforms, never
    /// [`Platform::Unknown`].
    pub fn backend(self, backend: Platform) -> (r: Self)
        requires
            backend != Platform::Unknown,
        ensures
            r.backend == Some(backend),
            r.title == self.title,
            r.message == self.message,
            r.timeout == self.timeout,
            r.icon == self.icon,
            r.urgency == self.urgency,
            r.subtitle == self.subtitle,
            r.sound == self.sound,
    {
        NotificationBuilder { backend: Some(backend), ..self }
    }

    /// Materialises the notification, filling every unset field with its
    /// documented default. Total: it never fails.
    pub fn build(self) -> (r: Notification)
        ensures
            r.title@ == match self.title {
                Some(t) => t@,
                None => "Notification"@,
            },
            r.message@ == match self.message {
                Some(m) => m@,
                None => Seq::<char>::empty(),
            },
            r.timeout == match self.timeout {
                Some(t) => t,
                None => 5000u32,
            },
            r.icon@ == match self.icon {
                Some(i) => i@,
                None => "dialog-information"@,
            },
            r.urgency == match self.urgency {
                Some(u) => u,
                None => UrgencyLevel::Normal,
            },
            r.subtitle@ == match self.subtitle {
                Some(s) => s@,
                None => Seq::<char>::empty(),
            },
            r.sound@ == match self.sound {
                Some(s) => s@,
                None => "default"@,
            },
            r.backend_override == self.backend,
    {
        Notification {
            title: match self.title {
                Some(t) => t,
                None => String::from_str("Notification"),
            },
            message: match self.message {
                Some(m) => m,
                None => String::new(),
            },
            timeout: match self.timeout {
                Some(t) => t,
                None => 5000,
            },
            icon: match self.icon {
                Some(i) => i,
                None => String::from_str("dialog-information"),
            },
            urgency: match self.urgency {
                Some(u) => u,
                None => UrgencyLevel::Normal,
            },
            subtitle: match self.subtitle {
                Some(s) => s,
                None => String::new(),
            },
            sound: match self.sound {
                Some(s) => s,
                None => String::from_str("default"),
            },
            backend_override: self.backend,
        }
    }
}

/// A selected backend, ready to build its script or make its native call.
#[derive(Debug, Clone, Copy)]
pub enum Backend {
    /// The Linux D-Bus backend.
    Linux(LinuxNotifier),
    /// The Windows PowerShell backend.
    Windows(WindowsNotifier),
    /// The macOS AppleScript backend.
    MacOs(MacOsNotifier),
}

impl Backend {
    /// Whether the selected backend is usable when running on `host`.
    pub open spec fn spec_available(&self, host: Platform) -> bool {
        match self {
            Backend::Linux(b) => b.spec_available(host),
            Backend::Windows(b) => b.spec_available(host),
            Backend::MacOs(b) => b.spec_available(host),
        }
    }

    /// The selected backend's diagnostic label.
    pub open spec fn spec_name(&self) -> Seq<char> {
        match self {
            Backend::Linux(b) => b.spec_name(),
            Backend::Windows(b) => b.spec_name(),
            Backend::MacOs(b) => b.spec_name(),
        }
    }

    /// Whether the selected backend is usable when running on `host`.
    pub fn is_available(&self, host: Platform) -> (r: bool)
        ensures
            r == self.spec_available(host),
    {
        match self {
            Backend::Linux(b) => b.is_available(host),
            Backend::Windows(b) => b.is_available(host),
            Backend::MacOs(b) => b.is_available(host),
        }
    }

    /// The selected backend's diagnostic label.
    pub fn backend_name(&self) -> (r: &'static str)
        ensures
            r@ == self.spec_name(),
    {
        match self {
            Backend::Linux(b) => b.backend_name(),
            Backend::Windows(b) => b.backend_name(),
            Backend::MacOs(b) => b.backend_name(),
        }
    }
}

/// The platform a notification is sent for: its override when present, else
/// the detected platform.
pub open spec fn spec_resolved(n: Notification, detected: Platform) -> Platform {
    match n.backend_override {
        Some(p) => p,
        None => detected,
    }
}

/// The backend serving each platform; an unknown platform has none.
pub open spec fn spec_backend_for(p: Platform) -> Option<Backend> {
    match p {
        Platform::Linux => Some(Backend::Linux(LinuxNotifier)),
        Platform::Wsl | Platform::Windows => Some(Backend::Windows(WindowsNotifier)),
        Platform::MacOs => Some(Backend::MacOs(MacOsNotifier)),
        Platform::Unknown => None,
    }
}

/// With an explicit macOS override, dispatch resolves to the macOS backend,
/// whatever platform was detected.
pub proof fn lemma_override_selects_macos(n: Notification, detected: Platform)
    requires
        n.backend_override == Some(Platform::MacOs),
    ensures
        spec_backend_for(spec_resolved(n, detected)) == Some(Backend::MacOs(MacOsNotifier)),
{
}

/// Without an override, a detected unknown platform resolves to no backend
/// at all, so dispatch must fail.
pub proof fn lemma_unknown_platform_fails(n: Notification, detected: Platform)
    requires
        n.backend_override is None,
        detected == Platform::Unknown,
    ensures
        spec_backend_for(spec_resolved(n, detected)) is None,
{
}

/// Picks the backend for a notification: the override when present, else the
/// platform detected by the caller. An unknown resolved platform, or a
/// selected backend that is not available on the detected host, yields an
/// `UnsupportedPlatform` error with the documented message.
pub fn select_notifier(notification: &Notification, detected: Platform) -> (r: Result<
    Backend,
    NotificationError,
>)
    ensures
        match spec_backend_for(spec_resolved(*notification, detected)) {
            None => r matches Err(NotificationError::UnsupportedPlatform(m)) && m@
                == "Unknown platform. Use --backend to specify manually."@,
            Some(b) => if b.spec_available(detected) {
                r == Ok::<Backend, NotificationError>(b)
            } else {
                r matches Err(NotificationError::UnsupportedPlatform(m)) && m@ == b.spec_name()
                    + " notifier is not available on this platform"@
            },
        },
{
    let platform = match notification.backend_override {
        Some(p) => p,
        None => detected,
    };
    let notifier = match platform {
        Platform::Linux => Backend::Linux(LinuxNotifier),
        Platform::Wsl | Platform::Windows => Backend::Windows(WindowsNotifier),
        Platform::MacOs => Backend::MacOs(MacOsNotifier),
        Platform::Unknown => {
            return Err(
                NotificationError::UnsupportedPlatform(
                    String::from_str("Unknown platform. Use --backend to specify manually."),
                ),
            );
        },
    };
    if !notifier.is_available(detected) {
        let name = notifier.backend_name();
        let msg = String::from_str(name).concat(" notifier is not available on this platform");
        return Err(NotificationError::UnsupportedPlatform(msg));
    }
    Ok(notifier)
}

/// Turns an interpreter's exit report into the send result: success is `Ok`,
/// failure carries the backend label and the captured standard-error text.
pub fn send_outcome(backend: &str, success: bool, stderr: &str) -> (r: Result<
    (),
    NotificationError,
>)
    ensures
        success ==> r is Ok,
        !success ==> (r matches Err(NotificationError::SendFailed { backend: b, reason }) && b@
            == backend@ && reason@ == stderr@),
{
    if success {
        Ok(())
    } else {
        Err(
            NotificationError::SendFailed {
                backend: backend.to_owned(),
                reason: stderr.to_owned(),
            },
        )
    }
}

} // verus!
