use backup_scheduler::BackgroundScheduler;
use backup_scheduler::BackupSettings;
use backup_scheduler::SchedulerError;
use backup_scheduler::evaluate_cycle;
use backup_scheduler::is_due;

// 2024-01-02T00:00:01Z, one day and one second after 2024-01-01T00:00:00Z.
const NOW: i64 = 1704153601;

fn settings(frequency: &str, last: Option<&str>) -> BackupSettings {
    BackupSettings {
        frequency: frequency.to_owned(),
        last_backup_date: last.map(|s| s.to_owned()),
    }
}

#[test]
fn start_twice_spawns_exactly_one_loop() {
    let mut s = BackgroundScheduler::new();
    assert!(!s.is_running());
    let first = s.start();
    let second = s.start();
    assert!(first);
    assert!(!second);
    assert!(s.is_running());
}

#[test]
fn stop_when_not_running_is_a_noop() {
    let mut s = BackgroundScheduler::new();
    s.stop();
    assert!(!s.is_running());
    assert!(s.start());
    s.stop();
    assert!(!s.is_running());
    // and the scheduler can be started again afterwards
    assert!(s.start());
}

#[test]
fn due_cycle_notifies_and_persists() {
    // End to end: daily settings, last backup a day and a second ago.
    let stored = settings("daily", Some("2024-01-01T00:00:00Z"));
    let outcome = evaluate_cycle(Some(stored), NOW);
    assert!(outcome.notify);
    assert_eq!(outcome.error, None);
    let updated = outcome.updated.expect("a due cycle persists an update");
    assert_eq!(updated.frequency, "daily");
    let recorded = updated.last_backup_date.expect("an update records the instant");
    // The persisted date denotes an instant no earlier than the clock.
    let parsed = chrono::DateTime::parse_from_rfc3339(&recorded)
        .expect("the persisted date parses back")
        .timestamp();
    assert!(parsed >= NOW);
    assert_eq!(recorded, "2024-01-02T00:00:01+00:00");
}

#[test]
fn updated_settings_are_no_longer_due() {
    let stored = settings("daily", Some("2024-01-01T00:00:00Z"));
    let outcome = evaluate_cycle(Some(stored), NOW);
    let updated = outcome.updated.expect("a due cycle persists an update");
    // An immediate second evaluation at the same instant declines.
    assert_eq!(is_due(&updated, NOW), Ok(false));
    let second = evaluate_cycle(Some(updated), NOW);
    assert!(!second.notify);
    assert_eq!(second.updated, None);
    assert_eq!(second.error, None);
}

#[test]
fn missing_settings_mean_first_backup_is_due() {
    let outcome = evaluate_cycle(None, NOW);
    assert!(outcome.notify);
    assert_eq!(outcome.error, None);
    let updated = outcome.updated.expect("a due cycle persists an update");
    assert_eq!(updated.frequency, "daily");
    assert!(updated.last_backup_date.is_some());
}

#[test]
fn not_due_cycle_does_nothing() {
    let stored = settings("weekly", Some("2024-01-01T00:00:00Z"));
    let outcome = evaluate_cycle(Some(stored), NOW);
    assert!(!outcome.notify);
    assert_eq!(outcome.updated, None);
    assert_eq!(outcome.error, None);
}

#[test]
fn malformed_date_cycle_reports_and_skips() {
    let stored = settings("daily", Some("not-a-date"));
    let outcome = evaluate_cycle(Some(stored), NOW);
    assert!(!outcome.notify);
    assert_eq!(outcome.updated, None);
    assert_eq!(outcome.error, Some(SchedulerError::MalformedTimestamp));
}
