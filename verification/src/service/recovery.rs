//! Install/update phase record, so that an interrupted run resumes.
use vstd::prelude::*;

use crate::text::{decimal, decimal_chars, string_from_chars};

verus! {

/// Phase of an install or update.
#[derive(Debug, Clone, Copy, PartialEq, Eq, Structural)]
pub enum MigrationPhase {
    /// Preflight checks.
    Preflight,
    /// Stopping old services.
    StopOld,
    /// Migrating data.
    MigrateData,
    /// Staging the new version.
    StageNewVersion,
    /// Switching to it.
    SwitchCurrent,
    /// Installing or updating the service.
    InstallOrUpdateService,
    /// Verifying it runs.
    VerifyRunning,
    /// Writing the registry.
    CommitRegistry,
    /// Finished.
    Done,
}

/// The persisted phase record.
#[derive(Debug, Clone)]
pub struct MigrationState {
    /// Current phase.
    pub phase: MigrationPhase,
    /// Version being installed.
    pub target_version: Option<String>,
    /// When the run started (Unix seconds, text).
    pub started_at: String,
    /// When the phase was entered (Unix seconds, text).
    pub updated_at: String,
    /// Note.
    pub message: Option<String>,
}

/// `s` is the record after entering `phase` at `now` given the record
/// `existing`.
pub open spec fn phase_entered(
    existing: Option<MigrationState>,
    phase: MigrationPhase,
    target_version: Option<String>,
    message: Option<String>,
    now: String,
    s: MigrationState,
) -> bool {
    &&& s.phase == phase
    &&& s.target_version == target_version
    &&& s.message == message
    &&& s.updated_at == now
    &&& s.started_at == match existing {
        Some(e) => e.started_at,
        None => now,
    }
}

/// The record after entering `phase` at time `now`: the start time of an
/// earlier record is kept.
pub fn begin_phase(
    existing: Option<MigrationState>,
    phase: MigrationPhase,
    target_version: Option<String>,
    message: Option<String>,
    now: String,
) -> (s: MigrationState)
    ensures
        phase_entered(existing, phase, target_version, message, now, s),
{
    let started_at = match existing {
        Some(e) => e.started_at,
        None => now.clone(),
    };
    MigrationState { phase, target_version, started_at, updated_at: now, message }
}

/// Time text of the record: decimal Unix seconds.
pub fn timestamp_text(secs: u64) -> (s: String)
    ensures
        s@ == decimal(secs as nat),
{
    string_from_chars(decimal_chars(secs).as_slice())
}

/// The current time as record text.
pub fn chrono_lite_now() -> (s: String)
    ensures
        exists|t: u64| s@ == decimal(t as nat),
{
    timestamp_text(crate::digest::unix_time_secs())
}

/// The phase to resume, when a record exists and is not done.
pub fn resume_if_incomplete(state: Option<&MigrationState>) -> (r: Option<MigrationPhase>)
    ensures
        r == match state {
            Some(s) => if s.phase != MigrationPhase::Done {
                Some(s.phase)
            } else {
                None
            },
            None => None,
        },
{
    match state {
        Some(s) => if s.phase != MigrationPhase::Done {
            Some(s.phase)
        } else {
            None
        },
        None => None,
    }
}

/// A run keeps the start time of its first phase through all later ones.
pub proof fn start_time_survives_phases(
    s1: MigrationState,
    s2: MigrationState,
    p1: MigrationPhase,
    p2: MigrationPhase,
    t1: Option<String>,
    t2: Option<String>,
    m1: Option<String>,
    m2: Option<String>,
    n1: String,
    n2: String,
)
    requires
        phase_entered(None, p1, t1, m1, n1, s1),
        phase_entered(Some(s1), p2, t2, m2, n2, s2),
    ensures
        s2.started_at == n1,
        s2.updated_at == n2,
{
}

} // verus!
