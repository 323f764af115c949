use hardy_monitor::traits::MockNotifier;

fn records_notifications() {
    let mut notifier = MockNotifier::new();
    assert!(!notifier.was_called());
    assert_eq!(notifier.notification_count(), 0);

    notifier.notify("Title 1", "Body 1");
    assert!(notifier.was_called());
    assert_eq!(notifier.notification_count(), 1);

    notifier.notify("Title 2", "Body 2");
    assert_eq!(notifier.notification_count(), 2);

    let notifications = notifier.get_notifications();
    assert_eq!(notifications[0], ("Title 1".to_string(), "Body 1".to_string()));
    assert_eq!(notifications[1], ("Title 2".to_string(), "Body 2".to_string()));
}

fn clear_forgets() {
    let mut notifier = MockNotifier::new();
    notifier.notify("Test", "Test");
    assert!(notifier.was_called());
    notifier.clear();
    assert!(!notifier.was_called());
    assert_eq!(notifier.notification_count(), 0);
}

#[test]
fn test_mock_notifier_records_notifications() {
    records_notifications();
}

#[test]
fn traits_test_mock_notifier_records_notifications() {
    records_notifications();
}

#[test]
fn test_mock_notifier_clear() {
    clear_forgets();
}

#[test]
fn traits_test_mock_notifier_clear() {
    clear_forgets();
}
