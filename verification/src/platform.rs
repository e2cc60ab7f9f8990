//! Platform detection model.
//!
//! A [`Platform`] names the environment a notification is sent from. The
//! classification itself is pure: it maps the target operating-system name
//! and, for Linux, the text of the kernel-version pseudo-file to one of the
//! five platform values. Reading those two inputs is the caller's business.

use crate::text;
use vstd::prelude::*;

verus! {

/// The runtime environment a notification is sent from.
#[derive(Debug, Clone, Copy, PartialEq, Eq, Hash, Structural)]
pub enum Platform {
    /// Native Linux.
    Linux,
    /// Windows Subsystem for Linux.
    Wsl,
    /// macOS / Darwin.
    MacOs,
    /// Native Windows.
    Windows,
    /// Anything else.
    Unknown,
}

/// The human-readable name of a platform.
pub open spec fn spec_display(p: Platform) -> Seq<char> {
    match p {
        Platform::Linux => "Linux"@,
        Platform::Wsl => "WSL (Windows Subsystem for Linux)"@,
        Platform::MacOs => "macOS"@,
        Platform::Windows => "Windows"@,
        Platform::Unknown => "Unknown"@,
    }
}

impl Platform {
    /// Renders the platform under its documented human-readable name.
    pub fn display_string(&self) -> (r: String)
        ensures
            r@ == spec_display(*self),
    {
        match self {
            Platform::Linux => String::from_str("Linux"),
            Platform::Wsl => String::from_str("WSL (Windows Subsystem for Linux)"),
            Platform::MacOs => String::from_str("macOS"),
            Platform::Windows => String::from_str("Windows"),
            Platform::Unknown => String::from_str("Unknown"),
        }
    }

    /// True exactly for the platforms whose notifications go through Windows.
    pub fn is_windows_like(&self) -> (r: bool)
        ensures
            r <==> (*self == Platform::Wsl || *self == Platform::Windows),
    {
        matches!(self, Platform::Wsl | Platform::Windows)
    }

    /// True exactly for the Unix-family platforms.
    pub fn is_unix_like(&self) -> (r: bool)
        ensures
            r <==> (*self == Platform::Linux || *self == Platform::MacOs),
    {
        matches!(self, Platform::Linux | Platform::MacOs)
    }
}

/// Kernel-version text betrays WSL: it contains "microsoft" or "wsl",
/// compared case-insensitively.
pub open spec fn spec_wsl_marker(content: Seq<char>) -> bool {
    text::contains_ci(content, "microsoft"@) || text::contains_ci(content, "wsl"@)
}

/// Does kernel-version text identify a WSL environment?
pub fn is_wsl_marker(content: &str) -> (r: bool)
    ensures
        r == spec_wsl_marker(content@),
{
    text::contains_ignore_case(content, "microsoft") || text::contains_ignore_case(content, "wsl")
}

/// The platform determined by the target operating-system name and, for
/// Linux, by the kernel-version text (absent when it could not be read).
pub open spec fn spec_classify(os: Seq<char>, kernel_info: Option<Seq<char>>) -> Platform {
    if os == "macos"@ {
        Platform::MacOs
    } else if os == "windows"@ {
        Platform::Windows
    } else if os == "linux"@ {
        match kernel_info {
            Some(k) => if spec_wsl_marker(k) {
                Platform::Wsl
            } else {
                Platform::Linux
            },
            None => Platform::Linux,
        }
    } else {
        Platform::Unknown
    }
}

/// Classifies the environment from the operating-system name (as the target
/// reports it) and the kernel-version text, total over every input: an
/// unreadable kernel file degrades to plain Linux, an unrecognised name to
/// [`Platform::Unknown`].
pub fn classify_platform(os: &str, kernel_info: Option<&str>) -> (p: Platform)
    ensures
        p == spec_classify(
            os@,
            match kernel_info {
                Some(k) => Some(k@),
                None => None,
            },
        ),
{
    if text::str_eq(os, "macos") {
        Platform::MacOs
    } else if text::str_eq(os, "windows") {
        Platform::Windows
    } else if text::str_eq(os, "linux") {
        match kernel_info {
            Some(k) => {
                if is_wsl_marker(k) {
                    Platform::Wsl
                } else {
                    Platform::Linux
                }
            },
            None => Platform::Linux,
        }
    } else {
        Platform::Unknown
    }
}

} // verus!
