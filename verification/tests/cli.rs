use rust_toast::cli::{Args, CliBackend, CliUrgencyLevel};
use rust_toast::{Platform, UrgencyLevel};

#[test]
fn test_urgency_conversion() {
    assert_eq!(UrgencyLevel::from(CliUrgencyLevel::Low), UrgencyLevel::Low);
    assert_eq!(
        UrgencyLevel::from(CliUrgencyLevel::Normal),
        UrgencyLevel::Normal
    );
    assert_eq!(
        UrgencyLevel::from(CliUrgencyLevel::Critical),
        UrgencyLevel::Critical
    );
}

#[test]
fn test_backend_conversion() {
    assert_eq!(Platform::from(CliBackend::Linux), Platform::Linux);
    assert_eq!(Platform::from(CliBackend::Windows), Platform::Windows);
    assert_eq!(Platform::from(CliBackend::Macos), Platform::MacOs);
}

#[test]
fn test_args_into_builder() {
    let args = Args {
        title: "Test".to_string(),
        message: "Hello".to_string(),
        timeout: 1000,
        icon: "icon.png".to_string(),
        urgency: CliUrgencyLevel::Critical,
        subtitle: "Sub".to_string(),
        sound: "Ping".to_string(),
        backend: Some(CliBackend::Macos),
    };

    let notification = args.into_builder().build();

    assert_eq!(notification.title, "Test");
    assert_eq!(notification.message, "Hello");
    assert_eq!(notification.timeout, 1000);
    assert_eq!(notification.urgency, UrgencyLevel::Critical);
    assert_eq!(notification.backend_override, Some(Platform::MacOs));
}

#[test]
fn args_without_backend_leave_override_unset() {
    let args = Args {
        title: "T".to_string(),
        message: "M".to_string(),
        timeout: 0,
        icon: "dialog-information".to_string(),
        urgency: CliUrgencyLevel::Low,
        subtitle: String::new(),
        sound: "default".to_string(),
        backend: None,
    };
    let notification = args.into_builder().build();
    assert_eq!(notification.backend_override, None);
    assert_eq!(notification.urgency, UrgencyLevel::Low);
    assert_eq!(notification.timeout, 0);
    assert_eq!(notification.subtitle, "");
}
