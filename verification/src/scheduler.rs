//! The scheduler: the run/stop flag its loop obeys, and the decision one
//! evaluation cycle makes.
//!
//! The host owns the loop task: `start` tells it when to spawn one,
//! `evaluate_cycle` tells it what one wake decided, and the host performs
//! the store reads and writes, the notification, and the sleeps around it.

use vstd::prelude::*;
use crate::clock::MAX_TIMESTAMP_SECONDS;
use crate::clock::render_rfc3339_seconds;
use crate::clock::rfc3339_parse;
use crate::settings::BackupSettings;
use crate::settings::SchedulerError;
use crate::settings::SettingsView;
use crate::settings::settings_or_default;
use crate::settings::stored_view;
use crate::policy::interval_seconds;
use crate::policy::is_due;
use crate::policy::settings_due;
use crate::policy::settings_malformed;

verus! {

/// How long the loop task sleeps between evaluation cycles, in seconds:
/// half an hour, ample granularity for day- and week-scale intervals.
pub const POLL_INTERVAL_SECONDS: u64 = 30 * 60;

/// The scheduler's control state: the run flag is the single source of truth
/// for whether the loop should continue iterating. The host shares one value
/// of this type, under its own lock, between the callers of `start` and
/// `stop` and the loop task itself.
pub struct BackgroundScheduler {
    running: bool,
}

/// The run flag after a `start` call: set, whatever it was.
pub open spec fn start_running_after(running: bool) -> bool {
    true
}

/// Whether a `start` call spawns a loop task: only on the stopped-to-running
/// edge.
pub open spec fn start_spawns(running: bool) -> bool {
    !running
}

/// The run flag after a `stop` call: cleared, whatever it was.
pub open spec fn stop_running_after(running: bool) -> bool {
    false
}

impl BackgroundScheduler {
    /// Whether the loop should continue iterating.
    pub closed spec fn spec_running(&self) -> bool {
        self.running
    }

    /// A scheduler begins stopped; its loop is spawned by the first `start`.
    pub fn new() -> (s: Self)
        ensures
            !s.spec_running(),
    {
        BackgroundScheduler { running: false }
    }

    /// Ask the scheduler to run. Returns whether the caller must spawn the
    /// loop task: true exactly on the stopped-to-running edge, so calling
    /// `start` on a running scheduler is a no-op and never yields a second
    /// concurrent loop.
    pub fn start(&mut self) -> (spawn: bool)
        ensures
            final(self).spec_running() == start_running_after(old(self).spec_running()),
            spawn == start_spawns(old(self).spec_running()),
    {
        if self.running {
            false
        } else {
            self.running = true;
            true
        }
    }

    /// Ask the scheduler to stop. Clears the flag; the loop task observes it
    /// at its next wake and exits, so stopping is eventual, and stopping a
    /// stopped scheduler is a no-op.
    pub fn stop(&mut self)
        ensures
            final(self).spec_running() == stop_running_after(old(self).spec_running()),
    {
        self.running = false;
    }

    /// Read the run flag, as the loop task does at each wake.
    pub fn is_running(&self) -> (r: bool)
        ensures
            r == self.spec_running(),
    {
        self.running
    }
}

/// Two `start` calls in succession spawn exactly one loop task: after the
/// first call the flag is set, and a `start` on a set flag spawns nothing.
pub proof fn lemma_start_twice_spawns_one(running: bool)
    ensures
        !start_spawns(start_running_after(running)),
        start_spawns(running) ==> !running,
{
}

/// `stop` on a stopped scheduler is a no-op: the flag is clear before and
/// after.
pub proof fn lemma_stop_when_stopped_is_noop()
    ensures
        stop_running_after(false) == false,
{
}

/// What one evaluation cycle decided: whether to notify the sink that a
/// backup is to be performed, the updated settings document to persist
/// (present exactly when notifying), and the recoverable error to log, if
/// any. The cycle itself never fails.
pub struct CycleOutcome {
    pub notify: bool,
    pub updated: Option<BackupSettings>,
    pub error: Option<SchedulerError>,
}

/// One evaluation cycle at instant `now` (seconds since the Unix epoch, as
/// the host's clock gives it): take the stored settings document — `None`
/// where the store held none or the host could not read it, in which case
/// the daily default is assumed — decide due-ness, and on a due cycle hand
/// back the document to persist, whose last-backup date records `now`; that
/// document is no longer due at `now`. A malformed last-backup date is
/// reported as the cycle's error and counts as not due, so the next cycle
/// retries.
pub fn evaluate_cycle(stored: Option<BackupSettings>, now: i64) -> (o: CycleOutcome)
    requires
        0 <= now <= MAX_TIMESTAMP_SECONDS,
    ensures
        ({
            let s = stored_view(stored);
            &&& o.notify == settings_due(s, now as int)
            &&& (o.error is Some) == settings_malformed(s)
            &&& (o.error is Some ==> o.error == Some(SchedulerError::MalformedTimestamp))
            &&& match o.updated {
                Some(u) => o.notify && u@.frequency == s.frequency && (
                u@.last_backup_date matches Some(ls) && rfc3339_parse(ls) == Some(now))
                    && !settings_due(u@, now as int),
                None => !o.notify,
            }
        }),
{
    let s = settings_or_default(stored);
    let ghost sv = s@;
    match is_due(&s, now) {
        Err(e) => CycleOutcome { notify: false, updated: None, error: Some(e) },
        Ok(false) => CycleOutcome { notify: false, updated: None, error: None },
        Ok(true) => {
            let stamp = render_rfc3339_seconds(now);
            let updated = BackupSettings {
                frequency: s.frequency,
                last_backup_date: Some(stamp),
            };
            proof {
                assert(updated@.frequency == sv.frequency);
                assert(interval_seconds(crate::settings::frequency_of(updated@.frequency)) > 0);
                assert(!settings_due(updated@, now as int));
            }
            CycleOutcome { notify: true, updated: Some(updated), error: None }
        },
    }
}

} // verus!
