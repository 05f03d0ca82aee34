//! The persisted backup settings and their mathematical view.

use vstd::prelude::*;

verus! {

/// How often a backup is owed.
#[derive(Clone, Copy, PartialEq, Eq, Structural, Debug)]
pub enum Frequency {
    Daily,
    Weekly,
}

/// The settings document the host's store persists: the frequency as the
/// stored string (recognized or not), and the last successful backup as an
/// RFC 3339 timestamp string, `None` where no backup has ever run.
#[derive(Debug, Clone, PartialEq)]
pub struct BackupSettings {
    pub frequency: String,
    pub last_backup_date: Option<String>,
}

/// The view of a settings document: its two fields as character sequences.
#[verifier::ext_equal]
pub struct SettingsView {
    pub frequency: Seq<char>,
    pub last_backup_date: Option<Seq<char>>,
}

impl View for BackupSettings {
    type V = SettingsView;

    open spec fn view(&self) -> SettingsView {
        SettingsView {
            frequency: self.frequency@,
            last_backup_date: match self.last_backup_date {
                Some(s) => Some(s@),
                None => None,
            },
        }
    }
}

/// The frequency a stored string denotes: only "weekly" selects Weekly; any
/// other value — "daily", but also an unrecognized one — falls back to Daily.
pub open spec fn frequency_of(s: Seq<char>) -> Frequency {
    if s == "weekly"@ {
        Frequency::Weekly
    } else {
        Frequency::Daily
    }
}

/// Parse a stored frequency string, falling back to Daily on anything
/// other than "weekly".
pub fn parse_frequency(s: &String) -> (f: Frequency)
    ensures
        f == frequency_of(s@),
{
    let weekly: String = "weekly".to_owned();
    if *s == weekly {
        Frequency::Weekly
    } else {
        Frequency::Daily
    }
}

/// The document assumed where the store holds none: daily frequency, never
/// backed up.
pub open spec fn default_settings_view() -> SettingsView {
    SettingsView { frequency: "daily"@, last_backup_date: None }
}

/// Build the fallback settings document: daily frequency, never backed up.
pub fn default_settings() -> (s: BackupSettings)
    ensures
        s@ == default_settings_view(),
{
    let s = BackupSettings { frequency: "daily".to_owned(), last_backup_date: None };
    proof {
        assert(s@ =~= default_settings_view());
    }
    s
}

/// The settings an evaluation cycle works on: the stored document where the
/// store held one, the daily default where it did not.
pub open spec fn stored_view(stored: Option<BackupSettings>) -> SettingsView {
    match stored {
        Some(s) => s@,
        None => default_settings_view(),
    }
}

/// Unwrap the stored document, falling back to the daily default where the
/// store held none (or the host could not read it).
pub fn settings_or_default(stored: Option<BackupSettings>) -> (s: BackupSettings)
    ensures
        s@ == stored_view(stored),
{
    match stored {
        Some(s) => s,
        None => default_settings(),
    }
}

/// Why an evaluation cycle could not decide due-ness. Recoverable: the host
/// logs it and the next cycle retries.
#[derive(Clone, Copy, PartialEq, Eq, Structural, Debug)]
pub enum SchedulerError {
    /// The stored last-backup date is not a valid RFC 3339 timestamp.
    MalformedTimestamp,
}

impl SchedulerError {
    /// A description for the host's log.
    pub fn message(&self) -> (m: String)
        ensures
            m@ == "last backup date is not a valid RFC 3339 timestamp"@,
    {
        "last backup date is not a valid RFC 3339 timestamp".to_owned()
    }
}

} // verus!
