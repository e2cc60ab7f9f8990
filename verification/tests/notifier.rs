use rust_toast::notifier::{
    select_notifier, send_outcome, Backend, NotificationBuilder, UrgencyLevel,
};
use rust_toast::{NotificationError, Platform};

#[test]
fn test_notification_builder_defaults() {
    let notification = NotificationBuilder::new().build();

    assert_eq!(notification.title, "Notification");
    assert_eq!(notification.message, "");
    assert_eq!(notification.timeout, 5000);
    assert_eq!(notification.urgency, UrgencyLevel::Normal);
}

#[test]
fn test_notification_builder_with_values() {
    let notification = NotificationBuilder::new()
        .title("Test Title")
        .message("Test Message")
        .timeout(1000)
        .urgency(UrgencyLevel::Critical)
        .build();

    assert_eq!(notification.title, "Test Title");
    assert_eq!(notification.message, "Test Message");
    assert_eq!(notification.timeout, 1000);
    assert_eq!(notification.urgency, UrgencyLevel::Critical);
}

#[test]
fn test_urgency_level_default() {
    let urgency = UrgencyLevel::default();
    assert_eq!(urgency, UrgencyLevel::Normal);
}

#[test]
fn builder_defaults_cover_every_field() {
    let n = NotificationBuilder::new().build();
    assert_eq!(n.title, "Notification");
    assert_eq!(n.message, "");
    assert_eq!(n.timeout, 5000);
    assert_eq!(n.icon, "dialog-information");
    assert_eq!(n.urgency, UrgencyLevel::Normal);
    assert_eq!(n.subtitle, "");
    assert_eq!(n.sound, "default");
    assert_eq!(n.backend_override, None);
}

#[test]
fn builder_setters_are_independent() {
    // Setting one field leaves every other field at its default.
    let n = NotificationBuilder::new().title("Only Title").build();
    assert_eq!(n.title, "Only Title");
    assert_eq!(n.message, "");
    assert_eq!(n.timeout, 5000);
    assert_eq!(n.icon, "dialog-information");
    assert_eq!(n.urgency, UrgencyLevel::Normal);
    assert_eq!(n.subtitle, "");
    assert_eq!(n.sound, "default");
    assert_eq!(n.backend_override, None);

    let n = NotificationBuilder::new().timeout(0).build();
    assert_eq!(n.title, "Notification");
    assert_eq!(n.timeout, 0);
    assert_eq!(n.sound, "default");

    let n = NotificationBuilder::new()
        .subtitle("Sub")
        .sound("Ping")
        .backend(Platform::Windows)
        .build();
    assert_eq!(n.title, "Notification");
    assert_eq!(n.subtitle, "Sub");
    assert_eq!(n.sound, "Ping");
    assert_eq!(n.backend_override, Some(Platform::Windows));
}

#[test]
fn dispatch_follows_detected_platform() {
    let n = NotificationBuilder::new().build();
    assert!(matches!(
        select_notifier(&n, Platform::Linux),
        Ok(Backend::Linux(_))
    ));
    assert!(matches!(
        select_notifier(&n, Platform::Wsl),
        Ok(Backend::Windows(_))
    ));
    assert!(matches!(
        select_notifier(&n, Platform::Windows),
        Ok(Backend::Windows(_))
    ));
    assert!(matches!(
        select_notifier(&n, Platform::MacOs),
        Ok(Backend::MacOs(_))
    ));
}

#[test]
fn dispatch_override_beats_detection() {
    // An explicit macOS override selects the macOS backend whatever the
    // detected platform; the backend is then rejected as unavailable on a
    // host that is not macOS.
    let n = NotificationBuilder::new().backend(Platform::MacOs).build();
    for detected in [
        Platform::Linux,
        Platform::Wsl,
        Platform::Windows,
        Platform::Unknown,
    ] {
        match select_notifier(&n, detected) {
            Err(NotificationError::UnsupportedPlatform(msg)) => {
                assert_eq!(
                    msg,
                    "macOS (osascript) notifier is not available on this platform"
                );
            }
            other => panic!("expected an unsupported-platform error, got {:?}", other),
        }
    }
    assert!(matches!(
        select_notifier(&n, Platform::MacOs),
        Ok(Backend::MacOs(_))
    ));
}

#[test]
fn dispatch_unknown_platform_fails() {
    let n = NotificationBuilder::new().build();
    match select_notifier(&n, Platform::Unknown) {
        Err(NotificationError::UnsupportedPlatform(msg)) => {
            assert_eq!(msg, "Unknown platform. Use --backend to specify manually.");
        }
        other => panic!("expected an unsupported-platform error, got {:?}", other),
    }
}

#[test]
fn dispatch_checks_availability_of_override() {
    // A Linux override on a macOS host selects the Linux backend, which is
    // then rejected: no Linux kernel is there to carry D-Bus.
    let n = NotificationBuilder::new().backend(Platform::Linux).build();
    match select_notifier(&n, Platform::MacOs) {
        Err(NotificationError::UnsupportedPlatform(msg)) => {
            assert_eq!(msg, "Linux (D-Bus) notifier is not available on this platform");
        }
        other => panic!("expected an unsupported-platform error, got {:?}", other),
    }
    // On a Linux host the same override goes through.
    assert!(matches!(
        select_notifier(&n, Platform::Linux),
        Ok(Backend::Linux(_))
    ));
}

#[test]
fn selected_backend_reports_its_name() {
    let n = NotificationBuilder::new().build();
    let b = select_notifier(&n, Platform::Linux).unwrap();
    assert_eq!(b.backend_name(), "Linux (D-Bus)");
    let b = select_notifier(&n, Platform::Windows).unwrap();
    assert_eq!(b.backend_name(), "Windows (PowerShell)");
    let b = select_notifier(&n, Platform::MacOs).unwrap();
    assert_eq!(b.backend_name(), "macOS (osascript)");
}

#[test]
fn send_outcome_maps_exit_status() {
    assert!(send_outcome("macOS", true, "").is_ok());
    match send_outcome("Windows", false, "PowerShell not found") {
        Err(NotificationError::SendFailed { backend, reason }) => {
            assert_eq!(backend, "Windows");
            assert_eq!(reason, "PowerShell not found");
        }
        other => panic!("expected a send-failed error, got {:?}", other),
    }
}

#[test]
fn end_to_end_macos_override() {
    // The scenario: an overridden notification routed through dispatch.
    let notification = NotificationBuilder::new()
        .title("Test")
        .message("Hello")
        .timeout(1000)
        .urgency(UrgencyLevel::Critical)
        .backend(Platform::MacOs)
        .build();

    // Where macOS is not available the dispatch fails cleanly.
    assert!(matches!(
        select_notifier(&notification, Platform::Linux),
        Err(NotificationError::UnsupportedPlatform(_))
    ));

    // Where it is, the selected backend produces a well-formed script.
    match select_notifier(&notification, Platform::MacOs) {
        Ok(Backend::MacOs(b)) => {
            let script = b.build_script(&notification);
            assert!(script.contains(r#"display notification "Hello" with title "Test""#));
            assert!(script.contains("sound name"));
        }
        other => panic!("expected the macOS backend, got {:?}", other),
    }
}
