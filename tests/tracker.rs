use error_dashboard::client::{conclude_report, send_settings, ReportStatus};
use error_dashboard::configuration::{ConfigKey, ConfigValue, Configuration};
use error_dashboard::error_tracker::ErrorTracker;
use error_dashboard::fetch::DeliveryOutcome;

#[test]
fn unknown_message_is_not_duplicate() {
    let t = ErrorTracker::new(5);
    assert!(!t.is_duplicate_at("disk full", 0));
    assert!(!t.is_duplicate_at("", 100));
}

#[test]
fn recent_report_is_duplicate() {
    let mut t = ErrorTracker::new(5);
    t.record_at("disk full", 10);
    assert!(t.is_duplicate_at("disk full", 11));
    assert!(t.is_duplicate_at("disk full", 15));
}

#[test]
fn old_report_is_not_duplicate() {
    let mut t = ErrorTracker::new(5);
    t.record_at("disk full", 10);
    assert!(!t.is_duplicate_at("disk full", 16));
    assert!(!t.is_duplicate_at("disk full", 1000));
}

#[test]
fn clock_gone_back_counts_as_recent() {
    let mut t = ErrorTracker::new(5);
    t.record_at("disk full", 100);
    assert!(t.is_duplicate_at("disk full", 3));
}

#[test]
fn record_overwrites_earlier_time() {
    let mut t = ErrorTracker::new(5);
    t.record_at("disk full", 0);
    t.record_at("disk full", 20);
    assert!(t.is_duplicate_at("disk full", 24));
    assert!(!t.is_duplicate_at("disk full", 26));
}

#[test]
fn distinct_messages_are_independent() {
    let mut t = ErrorTracker::new(5);
    t.record_at("a", 0);
    assert!(!t.is_duplicate_at("b", 1));
    t.record_at("b", 10);
    assert!(!t.is_duplicate_at("a", 10));
    assert!(t.is_duplicate_at("b", 12));
    assert!(t.is_duplicate_at("a", 4));
}

#[test]
fn failed_delivery_is_not_recorded() {
    let mut t = ErrorTracker::new(5);
    let s = conclude_report(&mut t, "disk full", &DeliveryOutcome::RemoteRejected, 0);
    assert_eq!(s, ReportStatus::Rejected);
    assert!(!t.is_duplicate_at("disk full", 1));
    let s = conclude_report(
        &mut t,
        "disk full",
        &DeliveryOutcome::TransportFailure("timed out".to_string()),
        2,
    );
    assert_eq!(s, ReportStatus::Failed);
    assert!(!t.is_duplicate_at("disk full", 2));
}

#[test]
fn successful_delivery_is_recorded() {
    let mut t = ErrorTracker::new(5);
    let s = conclude_report(&mut t, "disk full", &DeliveryOutcome::Success, 7);
    assert_eq!(s, ReportStatus::Sent);
    assert!(t.is_duplicate_at("disk full", 8));
}

#[test]
fn disk_full_scenario() {
    let mut t = ErrorTracker::new(5);
    let mut sends = 0;
    // t = 0: delivered and recorded
    assert!(!t.is_duplicate_at("disk full", 0));
    sends += 1;
    assert_eq!(conclude_report(&mut t, "disk full", &DeliveryOutcome::Success, 0), ReportStatus::Sent);
    // t = 3: suppressed, nothing sent
    assert!(t.is_duplicate_at("disk full", 3));
    // t = 6: delivered again, recorded at 6
    assert!(!t.is_duplicate_at("disk full", 6));
    sends += 1;
    assert_eq!(conclude_report(&mut t, "disk full", &DeliveryOutcome::Success, 6), ReportStatus::Sent);
    assert_eq!(sends, 2);
    assert!(t.is_duplicate_at("disk full", 11));
    assert!(!t.is_duplicate_at("disk full", 12));
}

#[test]
fn live_clock_check_and_record() {
    let mut t = ErrorTracker::new(3600);
    assert!(!t.duplicate_check("boom"));
    t.add_timestamp("boom");
    assert!(t.duplicate_check("boom"));
    assert!(!t.duplicate_check("other"));
    assert!(ErrorTracker::current_timestamp() > 0);
}

#[test]
fn settings_read_from_configuration() {
    let mut c = Configuration::default();
    let s = send_settings(&c);
    assert_eq!(s.retry_attempts, 3);
    assert_eq!(s.retry_delay, 3000);
    assert!(!s.verbose);
    assert_eq!(s.max_age_secs, 20);
    c.set_config(ConfigKey::MaxAge, ConfigValue::U64(5999));
    assert_eq!(send_settings(&c).max_age_secs, 5);
    c.set_config(ConfigKey::RetryAttempts, ConfigValue::Usize(6));
    c.set_config(ConfigKey::Verbose, ConfigValue::Bool(true));
    let s = send_settings(&c);
    assert_eq!(s.retry_attempts, 6);
    assert!(s.verbose);
}

#[test]
fn changed_max_age_applies_to_kept_entries() {
    let mut t = ErrorTracker::new(5);
    t.record_at("disk full", 0);
    assert!(!t.is_duplicate_at("disk full", 8));
    t.set_max_age(10);
    assert!(t.is_duplicate_at("disk full", 8));
    assert!(!t.is_duplicate_at("disk full", 11));
}
