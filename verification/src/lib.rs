//! A periodic backup scheduler.
//!
//! The library holds the decision logic of a long-lived background task that
//! wakes on a fixed cadence, consults a persisted settings document to decide
//! whether a backup is due, and on a positive answer asks the host to notify
//! its backup executor and to persist a fresh last-backup timestamp.
//!
//! The host application owns the settings store, the notification sink and
//! the task runtime; it feeds this library plain values (the stored document
//! and the clock) and carries out the decisions it returns.

mod clock;
mod policy;
mod scheduler;
mod settings;

pub use settings::BackupSettings;
pub use settings::Frequency;
pub use settings::SchedulerError;
pub use settings::SettingsView;
pub use settings::default_settings;
pub use settings::default_settings_view;
pub use settings::frequency_of;
pub use settings::parse_frequency;
pub use settings::settings_or_default;
pub use settings::stored_view;
pub use policy::DAILY_INTERVAL_SECONDS;
pub use policy::WEEKLY_INTERVAL_SECONDS;
pub use policy::due_at;
pub use policy::interval_seconds;
pub use policy::is_due;
pub use policy::lemma_daily_boundary;
pub use policy::lemma_fresh_backup_not_due;
pub use policy::lemma_malformed_not_due;
pub use policy::lemma_never_backed_up_is_due;
pub use policy::lemma_unknown_frequency_is_daily;
pub use policy::lemma_weekly_boundary;
pub use policy::settings_due;
pub use policy::settings_malformed;
pub use scheduler::BackgroundScheduler;
pub use scheduler::CycleOutcome;
pub use scheduler::POLL_INTERVAL_SECONDS;
pub use scheduler::evaluate_cycle;
pub use scheduler::lemma_start_twice_spawns_one;
pub use scheduler::lemma_stop_when_stopped_is_noop;
pub use scheduler::start_running_after;
pub use scheduler::start_spawns;
pub use scheduler::stop_running_after;
pub use clock::MAX_TIMESTAMP_SECONDS;
pub use clock::rfc3339_parse;
pub use clock::rfc3339_render;
