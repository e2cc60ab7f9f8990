use rust_toast::platform::{classify_platform, is_wsl_marker, Platform};

#[test]
fn test_platform_display() {
    assert_eq!(Platform::Linux.display_string(), "Linux");
    assert_eq!(Platform::MacOs.display_string(), "macOS");
    assert_eq!(Platform::Windows.display_string(), "Windows");
    assert_eq!(
        Platform::Wsl.display_string(),
        "WSL (Windows Subsystem for Linux)"
    );
    assert_eq!(Platform::Unknown.display_string(), "Unknown");
}

#[test]
fn test_is_windows_like() {
    assert!(Platform::Windows.is_windows_like());
    assert!(Platform::Wsl.is_windows_like());
    assert!(!Platform::Linux.is_windows_like());
    assert!(!Platform::MacOs.is_windows_like());
}

#[test]
fn test_is_unix_like() {
    assert!(Platform::Linux.is_unix_like());
    assert!(Platform::MacOs.is_unix_like());
    assert!(!Platform::Windows.is_unix_like());
    assert!(!Platform::Wsl.is_unix_like());
}

#[test]
fn test_platform_equality() {
    assert_eq!(Platform::Linux, Platform::Linux);
    assert_ne!(Platform::Linux, Platform::Windows);
}

#[test]
fn test_platform_clone_and_copy() {
    let p1 = Platform::MacOs;
    let p2 = p1;
    let p3 = p1.clone();
    assert_eq!(p1, p2);
    assert_eq!(p1, p3);
}

#[test]
fn classify_known_os_names() {
    assert_eq!(classify_platform("macos", None), Platform::MacOs);
    assert_eq!(classify_platform("windows", None), Platform::Windows);
    assert_eq!(classify_platform("linux", None), Platform::Linux);
    assert_eq!(classify_platform("freebsd", None), Platform::Unknown);
    assert_eq!(classify_platform("", None), Platform::Unknown);
}

#[test]
fn classify_linux_against_kernel_text() {
    let wsl2 = "Linux version 5.15.167.4-microsoft-standard-WSL2 (root@host)";
    assert_eq!(classify_platform("linux", Some(wsl2)), Platform::Wsl);
    let native = "Linux version 6.1.0-18-amd64 (debian-kernel@lists.debian.org)";
    assert_eq!(classify_platform("linux", Some(native)), Platform::Linux);
    // The marker is matched case-insensitively.
    let mixed = "Linux version 4.4.0 Microsoft build";
    assert_eq!(classify_platform("linux", Some(mixed)), Platform::Wsl);
    // Kernel text only matters when the target is Linux.
    assert_eq!(classify_platform("macos", Some(wsl2)), Platform::MacOs);
}

#[test]
fn wsl_marker_variants() {
    assert!(is_wsl_marker("something WSL something"));
    assert!(is_wsl_marker("wsl"));
    assert!(is_wsl_marker("MICROSOFT"));
    assert!(!is_wsl_marker("plain linux kernel"));
    assert!(!is_wsl_marker(""));
    assert!(!is_wsl_marker("ws l micro soft"));
}
