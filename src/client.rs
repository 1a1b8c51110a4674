use vstd::prelude::*;

use crate::configuration::{ConfigKey, ConfigValue, Configuration};
use crate::error_tracker::{duplicate_at, ErrorTracker};
use crate::fetch::DeliveryOutcome;

verus! {

/// How one error report ended.
#[derive(Debug, Clone, Copy, PartialEq, Eq)]
pub enum ReportStatus {
    /// The message was reported recently; nothing was sent.
    Suppressed,
    /// The remote accepted the report.
    Sent,
    /// No attempt succeeded and the remote refused the last one.
    Rejected,
    /// The remote could not be reached on the last attempt.
    Failed,
}

/// The settings that one report reads from the configuration at its start.
#[derive(Debug, Clone, Copy, PartialEq, Eq)]
pub struct SendSettings {
    pub retry_attempts: usize,
    /// Milliseconds between two attempts.
    pub retry_delay: u64,
    pub verbose: bool,
    /// The suppression age in whole seconds.
    pub max_age_secs: u64,
}

/// The tracker's entries after a delivery of `message` at `now` that ended
/// with `outcome`: only a success is recorded.
pub open spec fn entries_after(
    entries: Map<Seq<char>, u64>,
    message: Seq<char>,
    outcome: DeliveryOutcome,
    now: u64,
) -> Map<Seq<char>, u64> {
    if outcome is Success {
        entries.insert(message, now)
    } else {
        entries
    }
}

/// The status that a delivery outcome gives a report.
pub open spec fn status_of(outcome: DeliveryOutcome) -> ReportStatus {
    match outcome {
        DeliveryOutcome::Success => ReportStatus::Sent,
        DeliveryOutcome::RemoteRejected => ReportStatus::Rejected,
        DeliveryOutcome::TransportFailure(_) => ReportStatus::Failed,
    }
}

/// Reads the retry policy, the verbosity and the suppression age (the
/// configured milliseconds, rounded down to seconds) from `config`.
pub fn send_settings(config: &Configuration) -> (r: SendSettings)
    requires
        config.wf(),
    ensures
        config.setting(ConfigKey::RetryAttempts) == ConfigValue::Usize(r.retry_attempts),
        config.setting(ConfigKey::RetryDelay) == ConfigValue::U64(r.retry_delay),
        config.setting(ConfigKey::Verbose) == ConfigValue::Bool(r.verbose),
        config.setting(ConfigKey::MaxAge) matches ConfigValue::U64(ms) && r.max_age_secs == ms
            / 1000,
        r.retry_attempts > 0,
{
    let retry_attempts = match config.get_config(ConfigKey::RetryAttempts) {
        ConfigValue::Usize(val) => val,
        _ => 3,
    };
    let retry_delay = match config.get_config(ConfigKey::RetryDelay) {
        ConfigValue::U64(val) => val,
        _ => 3000,
    };
    let verbose = match config.get_config(ConfigKey::Verbose) {
        ConfigValue::Bool(val) => val,
        _ => false,
    };
    let max_age = match config.get_config(ConfigKey::MaxAge) {
        ConfigValue::U64(val) => val,
        _ => 20000,
    };
    SendSettings { retry_attempts, retry_delay, verbose, max_age_secs: max_age / 1000 }
}

/// Ends a report of `message` whose delivery at `now` came to `outcome`:
/// a success is recorded in the tracker, a failure leaves it untouched.
pub fn conclude_report(
    tracker: &mut ErrorTracker,
    message: &str,
    outcome: &DeliveryOutcome,
    now: u64,
) -> (r: ReportStatus)
    requires
        old(tracker).wf(),
    ensures
        final(tracker).wf(),
        final(tracker).max_age() == old(tracker).max_age(),
        final(tracker).entries() == entries_after(old(tracker).entries(), message@, *outcome, now),
        r == status_of(*outcome),
{
    match outcome {
        DeliveryOutcome::Success => {
            tracker.record_at(message, now);
            ReportStatus::Sent
        },
        DeliveryOutcome::RemoteRejected => ReportStatus::Rejected,
        DeliveryOutcome::TransportFailure(_) => ReportStatus::Failed,
    }
}

/// A delivery that failed, of a message that was no duplicate when it was
/// checked at `t`, leaves it no duplicate at every later `t2`.
pub proof fn lemma_failed_delivery_not_recorded(
    entries: Map<Seq<char>, u64>,
    max_age: u64,
    message: Seq<char>,
    outcome: DeliveryOutcome,
    t: u64,
    t2: u64,
)
    requires
        !duplicate_at(entries, max_age, message, t),
        !(outcome is Success),
        t <= t2,
    ensures
        !duplicate_at(entries_after(entries, message, outcome, t), max_age, message, t2),
{
}

} // verus!
