//! The interval policy: whether a backup is due now, given the stored
//! settings and the clock.

use vstd::prelude::*;
use crate::clock::parse_rfc3339_seconds;
use crate::clock::rfc3339_parse;
use crate::settings::BackupSettings;
use crate::settings::Frequency;
use crate::settings::SchedulerError;
use crate::settings::SettingsView;
use crate::settings::frequency_of;
use crate::settings::parse_frequency;

verus! {

/// Seconds a daily backup may lie in the past before the next one is due.
pub const DAILY_INTERVAL_SECONDS: i64 = 86400;

/// Seconds a weekly backup may lie in the past before the next one is due.
pub const WEEKLY_INTERVAL_SECONDS: i64 = 7 * 86400;

/// The interval a frequency demands between backups, in seconds.
pub open spec fn interval_seconds(f: Frequency) -> int {
    match f {
        Frequency::Daily => DAILY_INTERVAL_SECONDS as int,
        Frequency::Weekly => WEEKLY_INTERVAL_SECONDS as int,
    }
}

/// Due-ness on an already-parsed last-backup instant: a scheduler that has
/// never backed up is always due; otherwise a backup is due exactly when one
/// full interval has elapsed, the boundary included.
pub open spec fn due_at(last: Option<int>, f: Frequency, now: int) -> bool {
    match last {
        None => true,
        Some(t) => now - t >= interval_seconds(f),
    }
}

/// Whether a settings document records a last-backup date that is not a
/// valid RFC 3339 timestamp.
pub open spec fn settings_malformed(s: SettingsView) -> bool {
    match s.last_backup_date {
        Some(ls) => rfc3339_parse(ls) is None,
        None => false,
    }
}

/// Due-ness of a settings document at instant `now`: absent last-backup date
/// means due; a malformed one means not due this cycle; otherwise the parsed
/// instant decides under the document's frequency.
pub open spec fn settings_due(s: SettingsView, now: int) -> bool {
    match s.last_backup_date {
        None => true,
        Some(ls) => match rfc3339_parse(ls) {
            None => false,
            Some(t) => due_at(Some(t as int), frequency_of(s.frequency), now),
        },
    }
}

/// The interval policy: decide whether a backup is due at instant `now`
/// (seconds since the Unix epoch). Fails exactly where the stored
/// last-backup date does not parse; the caller treats that as "not due this
/// cycle" and logs it, so the next cycle retries.
pub fn is_due(s: &BackupSettings, now: i64) -> (r: Result<bool, SchedulerError>)
    ensures
        match r {
            Ok(due) => !settings_malformed(s@) && due == settings_due(s@, now as int),
            Err(e) => settings_malformed(s@) && e == SchedulerError::MalformedTimestamp,
        },
{
    match &s.last_backup_date {
        None => Ok(true),
        Some(ls) => match parse_rfc3339_seconds(ls.as_str()) {
            None => Err(SchedulerError::MalformedTimestamp),
            Some(t) => {
                let f = parse_frequency(&s.frequency);
                let interval: i64 = match f {
                    Frequency::Daily => DAILY_INTERVAL_SECONDS,
                    Frequency::Weekly => WEEKLY_INTERVAL_SECONDS,
                };
                let elapsed: i128 = (now as i128) - (t as i128);
                Ok(elapsed >= interval as i128)
            },
        },
    }
}

/// A settings document that records no previous backup is due at every
/// instant, whatever its frequency string.
pub proof fn lemma_never_backed_up_is_due(s: SettingsView, now: int)
    requires
        s.last_backup_date is None,
    ensures
        settings_due(s, now),
{
}

/// Daily frequency: a backup strictly less than 24 hours old is not yet due;
/// one a full 24 hours old, or older, is.
pub proof fn lemma_daily_boundary(last: int, now: int)
    ensures
        now - last < 86400 ==> !due_at(Some(last), Frequency::Daily, now),
        now - last >= 86400 ==> due_at(Some(last), Frequency::Daily, now),
{
}

/// Weekly frequency: a backup strictly less than 7 days old is not yet due;
/// one a full 7 days old, or older, is.
pub proof fn lemma_weekly_boundary(last: int, now: int)
    ensures
        now - last < 604800 ==> !due_at(Some(last), Frequency::Weekly, now),
        now - last >= 604800 ==> due_at(Some(last), Frequency::Weekly, now),
{
}

/// An unrecognized frequency string behaves exactly as "daily": two documents
/// with the same last-backup date are due at the same instants when neither
/// names "weekly".
pub proof fn lemma_unknown_frequency_is_daily(s: SettingsView, t: SettingsView, now: int)
    requires
        s.frequency != "weekly"@,
        t.frequency == "daily"@,
        s.last_backup_date == t.last_backup_date,
    ensures
        settings_due(s, now) == settings_due(t, now),
{
    reveal_strlit("daily");
    reveal_strlit("weekly");
    assert("daily"@.len() == 5);
    assert("weekly"@.len() == 6);
    assert(frequency_of(s.frequency) == Frequency::Daily);
    assert(frequency_of(t.frequency) == Frequency::Daily);
}

/// A malformed last-backup timestamp never makes a cycle due: the cycle is
/// skipped (and reported), never crashed.
pub proof fn lemma_malformed_not_due(s: SettingsView, now: int)
    requires
        settings_malformed(s),
    ensures
        !settings_due(s, now),
{
}

/// A document whose recorded last backup parses to the current instant is
/// not due at that same instant: after a completed backup is persisted, an
/// immediate re-evaluation declines.
pub proof fn lemma_fresh_backup_not_due(s: SettingsView, now: i64)
    requires
        s.last_backup_date matches Some(ls) && rfc3339_parse(ls) == Some(now),
    ensures
        !settings_due(s, now as int),
{
}

} // verus!
