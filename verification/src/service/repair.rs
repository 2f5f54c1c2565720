//! The order and the decisions of environment repair, install/update
//! preparation and uninstall. Each is a machine: it names the next piece
//! of outside work, is told how that work went, and decides what comes
//! next, until it finishes or fails.
use vstd::prelude::*;

use super::recovery::MigrationPhase;
use super::{DEFAULT_PORT, SERVICE_QUALIFIED_NAME};
use crate::text::{append_str, string_from_chars};

verus! {

/// Repair options.
#[derive(Debug, Clone, Copy)]
pub struct RepairOptions {
    /// User-level service.
    pub user: bool,
    /// Migrate the earlier data directory.
    pub migrate_legacy_data: bool,
}

impl Default for RepairOptions {
    fn default() -> (o: RepairOptions)
        ensures
            !o.user && !o.migrate_legacy_data,
    {
        RepairOptions { user: false, migrate_legacy_data: false }
    }
}

/// What a repair did.
#[derive(Debug, Clone, Copy, PartialEq, Eq, Structural)]
pub struct RepairReport {
    /// The current service was found and stopped.
    pub stopped_current_service: bool,
    /// The earlier service was uninstalled.
    pub uninstalled_legacy_service: bool,
    /// Stale listeners killed: one when the listener on the service port
    /// was a stale astral-core process, else none.
    pub killed_stale_listeners: u32,
    /// Earlier data was migrated.
    pub migrated_legacy_data: bool,
    /// The earlier data directory was removed.
    pub removed_legacy_data_dir: bool,
    /// The registry was normalized.
    pub normalized_registry: bool,
}

impl Default for RepairReport {
    fn default() -> (r: RepairReport)
        ensures
            r == empty_report(),
    {
        RepairReport {
            stopped_current_service: false,
            uninstalled_legacy_service: false,
            killed_stale_listeners: 0,
            migrated_legacy_data: false,
            removed_legacy_data_dir: false,
            normalized_registry: false,
        }
    }
}

/// The report before anything was done.
pub open spec fn empty_report() -> RepairReport {
    RepairReport {
        stopped_current_service: false,
        uninstalled_legacy_service: false,
        killed_stale_listeners: 0,
        migrated_legacy_data: false,
        removed_legacy_data_dir: false,
        normalized_registry: false,
    }
}

/// How a piece of outside work went.
#[derive(Debug, Clone)]
pub enum StepOutcome {
    /// Done, nothing to report.
    Done,
    /// Done, with a yes/no answer.
    Flag(bool),
    /// Done, with the phase of the persisted record (if any).
    Phase(Option<MigrationPhase>),
    /// Failed, with the error's text.
    Failed(String),
}

/// The yes/no answer of an outcome (no for a failure).
pub open spec fn flag_of(o: StepOutcome) -> bool {
    o matches StepOutcome::Flag(true)
}

fn flag(o: &StepOutcome) -> (b: bool)
    ensures
        b == flag_of(*o),
{
    match o {
        StepOutcome::Flag(b) => *b,
        _ => false,
    }
}

/// The note recorded with a phase.
#[derive(Debug, Clone, Copy, PartialEq, Eq, Structural)]
pub enum PhaseNote {
    /// `repair`.
    Repair,
    /// `prepare`.
    Prepare,
}

/// The text of a phase note.
pub open spec fn note_text(n: PhaseNote) -> Seq<char> {
    match n {
        PhaseNote::Repair => "repair"@,
        PhaseNote::Prepare => "prepare"@,
    }
}

impl PhaseNote {
    /// The note's text, as recorded.
    pub fn text(&self) -> (t: &'static str)
        ensures
            t@ == note_text(*self),
    {
        match self {
            PhaseNote::Repair => "repair",
            PhaseNote::Prepare => "prepare",
        }
    }
}

/// Outside work a machine asks for.
#[derive(Debug, Clone)]
pub enum Action {
    /// Record entering a phase (with a note).
    BeginPhase(MigrationPhase, Option<PhaseNote>),
    /// Read the persisted phase record.
    LoadState,
    /// Delete the persisted phase record.
    ClearState,
    /// Stop the current service (answer: whether it was installed).
    StopCurrentService,
    /// Uninstall the current service.
    UninstallCurrentService,
    /// Empty the service registry.
    RecordUninstall,
    /// Stop and uninstall the earlier service (answer: whether it was
    /// installed).
    UninstallLegacyService,
    /// Kill stale astral-core listeners on the port (answer: how many).
    KillStaleListeners(u16),
    /// Migrate the earlier data directory (answer: whether it did).
    MigrateLegacyData(bool),
    /// Remove the earlier data directory if safe (answer: whether it did).
    RemoveLegacyDataDir,
    /// Normalize the registry (answer: whether it changed).
    NormalizeRegistry,
    /// Check the service's health and warn if it still needs repair.
    InspectHealth,
    /// Run a whole repair with these options.
    RunRepair(RepairOptions),
    /// Delete the data root.
    PurgeDataRoot,
    /// Run a whole install/update preparation (user level, migrate data).
    RunPrepare(bool, bool),
    /// Record entering a phase with the version being installed.
    BeginVersionPhase(MigrationPhase),
    /// Copy the new executable to the fixed program path.
    StageBinary,
    /// Register the service with the service manager.
    InstallService,
    /// Write the registry of a fresh install.
    RecordInstall,
    /// Update the registry's program path.
    RecordProgram,
    /// Start the service.
    StartService,
    /// Wait this many milliseconds.
    Pause(u64),
    /// Finished.
    Finish,
    /// Failed with this text.
    Fail(String),
}

/// Where a repair stands.
#[derive(Debug, Clone, Copy, PartialEq, Eq, Structural)]
pub enum RepairStep {
    /// Recording the stop-old phase.
    EnterStopOld,
    /// Stopping the current service.
    StopCurrent,
    /// Uninstalling the earlier service.
    UninstallLegacy,
    /// Killing stale listeners.
    KillStale,
    /// Migrating data.
    MigrateData,
    /// Removing the earlier data directory.
    RemoveLegacyDir,
    /// Normalizing the registry.
    NormalizeRegistry,
    /// Checking health.
    CheckHealth,
    /// Recording the done phase.
    EnterDone,
    /// Deleting the phase record.
    ClearState,
    /// Finished or failed.
    Finished,
}

/// A repair in progress.
#[derive(Debug, Clone, Copy)]
pub struct RepairMachine {
    /// Where it stands.
    pub step: RepairStep,
    /// What was done so far.
    pub report: RepairReport,
    /// Migrate the earlier data directory.
    pub migrate: bool,
}

/// The kind of answer each repair step expects (a failure always fits).
pub open spec fn repair_outcome_fits(step: RepairStep, o: StepOutcome) -> bool {
    o is Failed || match step {
        RepairStep::StopCurrent | RepairStep::UninstallLegacy | RepairStep::KillStale
        | RepairStep::MigrateData | RepairStep::RemoveLegacyDir | RepairStep::NormalizeRegistry =>
            o is Flag,
        _ => o is Done,
    }
}

/// A repair's next step, report and action after `o`: failures of the
/// stop-old phase record, the earlier service's uninstall, the listener
/// kill, the migration, the done phase record and the record deletion end
/// the repair; a failed stop, removal or normalization counts as "no";
/// migration only when asked for; the health check's outcome is not used.
pub open spec fn repair_next_spec(step: RepairStep, report: RepairReport, migrate: bool, o: StepOutcome) -> (
    RepairStep,
    RepairReport,
    Action,
) {
    let fail = match o {
        StepOutcome::Failed(e) => Some(e),
        _ => None,
    };
    match step {
        RepairStep::EnterStopOld => match fail {
            Some(e) => (RepairStep::Finished, report, Action::Fail(e)),
            None => (RepairStep::StopCurrent, report, Action::StopCurrentService),
        },
        RepairStep::StopCurrent => (
            RepairStep::UninstallLegacy,
            RepairReport { stopped_current_service: flag_of(o), ..report },
            Action::UninstallLegacyService,
        ),
        RepairStep::UninstallLegacy => match fail {
            Some(e) => (RepairStep::Finished, report, Action::Fail(e)),
            None => (
                RepairStep::KillStale,
                RepairReport { uninstalled_legacy_service: flag_of(o), ..report },
                Action::KillStaleListeners(DEFAULT_PORT),
            ),
        },
        RepairStep::KillStale => match fail {
            Some(e) => (RepairStep::Finished, report, Action::Fail(e)),
            None => {
                let r = RepairReport {
                    killed_stale_listeners: if flag_of(o) {
                        1
                    } else {
                        0
                    },
                    ..report
                };
                if migrate {
                    (RepairStep::MigrateData, r, Action::MigrateLegacyData(false))
                } else {
                    (RepairStep::RemoveLegacyDir, r, Action::RemoveLegacyDataDir)
                }
            },
        },
        RepairStep::MigrateData => match fail {
            Some(e) => (RepairStep::Finished, report, Action::Fail(e)),
            None => (
                RepairStep::RemoveLegacyDir,
                RepairReport { migrated_legacy_data: flag_of(o), ..report },
                Action::RemoveLegacyDataDir,
            ),
        },
        RepairStep::RemoveLegacyDir => (
            RepairStep::NormalizeRegistry,
            RepairReport { removed_legacy_data_dir: flag_of(o), ..report },
            Action::NormalizeRegistry,
        ),
        RepairStep::NormalizeRegistry => (
            RepairStep::CheckHealth,
            RepairReport { normalized_registry: flag_of(o), ..report },
            Action::InspectHealth,
        ),
        RepairStep::CheckHealth => (
            RepairStep::EnterDone,
            report,
            Action::BeginPhase(MigrationPhase::Done, None),
        ),
        RepairStep::EnterDone => match fail {
            Some(e) => (RepairStep::Finished, report, Action::Fail(e)),
            None => (RepairStep::ClearState, report, Action::ClearState),
        },
        RepairStep::ClearState => match fail {
            Some(e) => (RepairStep::Finished, report, Action::Fail(e)),
            None => (RepairStep::Finished, report, Action::Finish),
        },
        RepairStep::Finished => (RepairStep::Finished, report, Action::Finish),
    }
}

/// Starts a repair: first the stop-old phase is recorded, noted `repair`.
pub fn repair_environment(opts: RepairOptions) -> (r: (RepairMachine, Action))
    ensures
        r.0.step == RepairStep::EnterStopOld,
        r.0.report == empty_report(),
        r.0.migrate == opts.migrate_legacy_data,
        r.1 == Action::BeginPhase(MigrationPhase::StopOld, Some(PhaseNote::Repair)),
{
    (
        RepairMachine {
            step: RepairStep::EnterStopOld,
            report: RepairReport::default(),
            migrate: opts.migrate_legacy_data,
        },
        Action::BeginPhase(MigrationPhase::StopOld, Some(PhaseNote::Repair)),
    )
}

fn fail_text(o: &StepOutcome) -> (r: Option<String>)
    ensures
        r == match *o {
            StepOutcome::Failed(e) => Some(e),
            _ => None,
        },
{
    match o {
        StepOutcome::Failed(e) => Some(e.clone()),
        _ => None,
    }
}

impl RepairMachine {
    /// Whether the machine is still running and `o` is the kind of answer
    /// its current step expects (what `next` needs).
    pub fn accepts(&self, o: &StepOutcome) -> (b: bool)
        ensures
            b == (self.step != RepairStep::Finished && repair_outcome_fits(self.step, *o)),
    {
        if self.step == RepairStep::Finished {
            return false;
        }
        match o {
            StepOutcome::Failed(_) => true,
            StepOutcome::Flag(_) => match self.step {
                RepairStep::StopCurrent | RepairStep::UninstallLegacy | RepairStep::KillStale
                | RepairStep::MigrateData | RepairStep::RemoveLegacyDir
                | RepairStep::NormalizeRegistry => true,
                _ => false,
            },
            StepOutcome::Done => match self.step {
                RepairStep::StopCurrent | RepairStep::UninstallLegacy | RepairStep::MigrateData
                | RepairStep::RemoveLegacyDir | RepairStep::NormalizeRegistry
                | RepairStep::KillStale => false,
                _ => true,
            },
            StepOutcome::Phase(_) => false,
        }
    }

    /// Takes the outcome of the last action and gives the next one.
    pub fn next(&mut self, o: StepOutcome) -> (a: Action)
        requires
            old(self).step != RepairStep::Finished,
            repair_outcome_fits(old(self).step, o),
        ensures
            (final(self).step, final(self).report, a) == repair_next_spec(
                old(self).step,
                old(self).report,
                old(self).migrate,
                o,
            ),
            final(self).migrate == old(self).migrate,
    {
        let fail = fail_text(&o);
        match self.step {
            RepairStep::EnterStopOld => match fail {
                Some(e) => {
                    self.step = RepairStep::Finished;
                    Action::Fail(e)
                },
                None => {
                    self.step = RepairStep::StopCurrent;
                    Action::StopCurrentService
                },
            },
            RepairStep::StopCurrent => {
                self.report.stopped_current_service = flag(&o);
                self.step = RepairStep::UninstallLegacy;
                Action::UninstallLegacyService
            },
            RepairStep::UninstallLegacy => match fail {
                Some(e) => {
                    self.step = RepairStep::Finished;
                    Action::Fail(e)
                },
                None => {
                    self.report.uninstalled_legacy_service = flag(&o);
                    self.step = RepairStep::KillStale;
                    Action::KillStaleListeners(DEFAULT_PORT)
                },
            },
            RepairStep::KillStale => match fail {
                Some(e) => {
                    self.step = RepairStep::Finished;
                    Action::Fail(e)
                },
                None => {
                    self.report.killed_stale_listeners = if flag(&o) {
                        1
                    } else {
                        0
                    };
                    if self.migrate {
                        self.step = RepairStep::MigrateData;
                        Action::MigrateLegacyData(false)
                    } else {
                        self.step = RepairStep::RemoveLegacyDir;
                        Action::RemoveLegacyDataDir
                    }
                },
            },
            RepairStep::MigrateData => match fail {
                Some(e) => {
                    self.step = RepairStep::Finished;
                    Action::Fail(e)
                },
                None => {
                    self.report.migrated_legacy_data = flag(&o);
                    self.step = RepairStep::RemoveLegacyDir;
                    Action::RemoveLegacyDataDir
                },
            },
            RepairStep::RemoveLegacyDir => {
                self.report.removed_legacy_data_dir = flag(&o);
                self.step = RepairStep::NormalizeRegistry;
                Action::NormalizeRegistry
            },
            RepairStep::NormalizeRegistry => {
                self.report.normalized_registry = flag(&o);
                self.step = RepairStep::CheckHealth;
                Action::InspectHealth
            },
            RepairStep::CheckHealth => {
                self.step = RepairStep::EnterDone;
                Action::BeginPhase(MigrationPhase::Done, None)
            },
            RepairStep::EnterDone => match fail {
                Some(e) => {
                    self.step = RepairStep::Finished;
                    Action::Fail(e)
                },
                None => {
                    self.step = RepairStep::ClearState;
                    Action::ClearState
                },
            },
            RepairStep::ClearState => match fail {
                Some(e) => {
                    self.step = RepairStep::Finished;
                    Action::Fail(e)
                },
                None => {
                    self.step = RepairStep::Finished;
                    Action::Finish
                },
            },
            RepairStep::Finished => Action::Finish,
        }
    }
}

/// A repair where every piece of work succeeds reports exactly the
/// answers it was given, and migrates only when asked to.
pub proof fn repair_reports_answers(
    opts: RepairOptions,
    stopped: bool,
    uninstalled: bool,
    killed: bool,
    migrated: bool,
    removed: bool,
    normalized: bool,
)
    ensures
        ({
            let s0 = RepairStep::EnterStopOld;
            let r0 = empty_report();
            let m = opts.migrate_legacy_data;
            let t1 = repair_next_spec(s0, r0, m, StepOutcome::Done);
            let t2 = repair_next_spec(t1.0, t1.1, m, StepOutcome::Flag(stopped));
            let t3 = repair_next_spec(t2.0, t2.1, m, StepOutcome::Flag(uninstalled));
            let t4 = repair_next_spec(t3.0, t3.1, m, StepOutcome::Flag(killed));
            let t5 = if m {
                repair_next_spec(t4.0, t4.1, m, StepOutcome::Flag(migrated))
            } else {
                t4
            };
            let t6 = repair_next_spec(t5.0, t5.1, m, StepOutcome::Flag(removed));
            let t7 = repair_next_spec(t6.0, t6.1, m, StepOutcome::Flag(normalized));
            let t8 = repair_next_spec(t7.0, t7.1, m, StepOutcome::Done);
            let t9 = repair_next_spec(t8.0, t8.1, m, StepOutcome::Done);
            let t10 = repair_next_spec(t9.0, t9.1, m, StepOutcome::Done);
            &&& t10.0 == RepairStep::Finished
            &&& t10.2 == Action::Finish
            &&& t10.1 == RepairReport {
                stopped_current_service: stopped,
                uninstalled_legacy_service: uninstalled,
                killed_stale_listeners: if killed {
                    1
                } else {
                    0
                },
                migrated_legacy_data: m && migrated,
                removed_legacy_data_dir: removed,
                normalized_registry: normalized,
            }
        }),
{
}

/// A repair kills at most one stale listener: the count starts at zero
/// and no step takes it above one.
pub proof fn repair_kills_at_most_one(
    step: RepairStep,
    report: RepairReport,
    migrate: bool,
    o: StepOutcome,
)
    requires
        report.killed_stale_listeners <= 1,
    ensures
        empty_report().killed_stale_listeners == 0,
        repair_next_spec(step, report, migrate, o).1.killed_stale_listeners <= 1,
{
}

/// Where an install/update preparation stands.
#[derive(Debug, Clone, Copy, PartialEq, Eq, Structural)]
pub enum PrepareStep {
    /// Looking for an interrupted run to resume.
    CheckResume,
    /// Reading the phase record again.
    CheckState,
    /// Recording the preflight phase.
    EnterPreflight,
    /// Repairing the environment.
    Repair,
    /// Recording the data-migration phase.
    EnterMigrate,
    /// Finished or failed.
    Finished,
}

/// A preparation in progress.
#[derive(Debug, Clone, Copy)]
pub struct PrepareMachine {
    /// Where it stands.
    pub step: PrepareStep,
    /// User-level service.
    pub user: bool,
    /// Migrate the earlier data directory.
    pub migrate_data: bool,
}

/// The preparation's next step and action after `o`: any failure ends
/// it; otherwise the record is read (twice), the preflight phase
/// recorded (noted `prepare`), a repair run and the data-migration phase
/// recorded.
pub open spec fn prepare_next_spec(m: PrepareMachine, o: StepOutcome) -> (PrepareStep, Action) {
    match o {
        StepOutcome::Failed(e) => (PrepareStep::Finished, Action::Fail(e)),
        _ => match m.step {
            PrepareStep::CheckResume => (PrepareStep::CheckState, Action::LoadState),
            PrepareStep::CheckState => (
                PrepareStep::EnterPreflight,
                Action::BeginPhase(MigrationPhase::Preflight, Some(PhaseNote::Prepare)),
            ),
            PrepareStep::EnterPreflight => (
                PrepareStep::Repair,
                Action::RunRepair(
                    RepairOptions { user: m.user, migrate_legacy_data: m.migrate_data },
                ),
            ),
            PrepareStep::Repair => (
                PrepareStep::EnterMigrate,
                Action::BeginPhase(MigrationPhase::MigrateData, None),
            ),
            PrepareStep::EnterMigrate => (PrepareStep::Finished, Action::Finish),
            PrepareStep::Finished => (PrepareStep::Finished, Action::Finish),
        },
    }
}

/// Starts the preparation before an install or update: first the phase
/// record is read.
pub fn prepare_install_or_update(user: bool, migrate_data: bool) -> (r: (PrepareMachine, Action))
    ensures
        r.0.step == PrepareStep::CheckResume,
        r.0.user == user,
        r.0.migrate_data == migrate_data,
        r.1 == Action::LoadState,
{
    (PrepareMachine { step: PrepareStep::CheckResume, user, migrate_data }, Action::LoadState)
}

impl PrepareMachine {
    /// Takes the outcome of the last action and gives the next one.
    pub fn next(&mut self, o: StepOutcome) -> (a: Action)
        requires
            old(self).step != PrepareStep::Finished,
        ensures
            final(self).user == old(self).user,
            final(self).migrate_data == old(self).migrate_data,
            (final(self).step, a) == prepare_next_spec(*old(self), o),
    {
        if let StepOutcome::Failed(e) = o {
            self.step = PrepareStep::Finished;
            return Action::Fail(e);
        }
        match self.step {
            PrepareStep::CheckResume => {
                self.step = PrepareStep::CheckState;
                Action::LoadState
            },
            PrepareStep::CheckState => {
                self.step = PrepareStep::EnterPreflight;
                Action::BeginPhase(MigrationPhase::Preflight, Some(PhaseNote::Prepare))
            },
            PrepareStep::EnterPreflight => {
                self.step = PrepareStep::Repair;
                Action::RunRepair(
                    RepairOptions { user: self.user, migrate_legacy_data: self.migrate_data },
                )
            },
            PrepareStep::Repair => {
                self.step = PrepareStep::EnterMigrate;
                Action::BeginPhase(MigrationPhase::MigrateData, None)
            },
            PrepareStep::EnterMigrate => {
                self.step = PrepareStep::Finished;
                Action::Finish
            },
            PrepareStep::Finished => Action::Finish,
        }
    }
}

/// Where an uninstall stands.
#[derive(Debug, Clone, Copy, PartialEq, Eq, Structural)]
pub enum UninstallStep {
    /// Stopping the service.
    StopCurrent,
    /// Uninstalling it.
    UninstallCurrent,
    /// Emptying the registry.
    RecordUninstall,
    /// Killing stale listeners.
    KillStale,
    /// Uninstalling the earlier service.
    UninstallLegacy,
    /// Deleting the data root.
    Purge,
    /// Deleting the phase record.
    ClearState,
    /// Finished or failed.
    Finished,
}

/// An uninstall in progress.
#[derive(Debug, Clone, Copy)]
pub struct UninstallMachine {
    /// Where it stands.
    pub step: UninstallStep,
    /// Delete the data root too.
    pub purge_data: bool,
}

/// The next step and action of an uninstall after a piece of work that
/// did not fail.
pub open spec fn uninstall_next_ok(step: UninstallStep, purge: bool) -> (UninstallStep, Action) {
    match step {
        UninstallStep::StopCurrent => (UninstallStep::UninstallCurrent, Action::UninstallCurrentService),
        UninstallStep::UninstallCurrent => (UninstallStep::RecordUninstall, Action::RecordUninstall),
        UninstallStep::RecordUninstall => (
            UninstallStep::KillStale,
            Action::KillStaleListeners(DEFAULT_PORT),
        ),
        UninstallStep::KillStale => (UninstallStep::UninstallLegacy, Action::UninstallLegacyService),
        UninstallStep::UninstallLegacy => if purge {
            (UninstallStep::Purge, Action::PurgeDataRoot)
        } else {
            (UninstallStep::ClearState, Action::ClearState)
        },
        UninstallStep::Purge => (UninstallStep::ClearState, Action::ClearState),
        UninstallStep::ClearState => (UninstallStep::Finished, Action::Finish),
        UninstallStep::Finished => (UninstallStep::Finished, Action::Finish),
    }
}

/// An uninstall not asked to purge never deletes the data root: no step
/// of it yields `PurgeDataRoot`. Asked to purge, the purge follows the
/// removal of the earlier service and is the only step that deletes it.
pub proof fn uninstall_purges_only_when_asked(step: UninstallStep, purge: bool)
    ensures
        !purge ==> uninstall_next_ok(step, purge).1 != Action::PurgeDataRoot,
        purge ==> (uninstall_next_ok(step, purge).1 == Action::PurgeDataRoot <==> step
            == UninstallStep::UninstallLegacy),
{
}

/// Starts an uninstall: first the service is stopped (a failure to stop
/// is not an error; no service manager is).
pub fn uninstall(opts: super::manage::UninstallOptions) -> (r: (UninstallMachine, Action))
    ensures
        r.0.step == UninstallStep::StopCurrent,
        r.0.purge_data == opts.purge_data,
        r.1 == Action::StopCurrentService,
{
    (
        UninstallMachine { step: UninstallStep::StopCurrent, purge_data: opts.purge_data },
        Action::StopCurrentService,
    )
}

impl UninstallMachine {
    /// Takes the outcome of the last action and gives the next one. A
    /// failed uninstall or registry update ends it with its own message;
    /// a failed phase-record deletion does not matter.
    pub fn next(&mut self, o: StepOutcome) -> (a: Action)
        requires
            old(self).step != UninstallStep::Finished,
        ensures
            final(self).purge_data == old(self).purge_data,
            match o {
                StepOutcome::Failed(e) => match old(self).step {
                    UninstallStep::UninstallCurrent => final(self).step == UninstallStep::Finished
                        && (a matches Action::Fail(m) && m@ == "卸载服务失败: "@
                        + SERVICE_QUALIFIED_NAME@),
                    UninstallStep::RecordUninstall => final(self).step == UninstallStep::Finished
                        && (a matches Action::Fail(m) && m@ == "更新服务登记失败"@),
                    UninstallStep::ClearState => final(self).step == UninstallStep::Finished
                        && a is Finish,
                    _ => final(self).step == UninstallStep::Finished && a == Action::Fail(e),
                },
                _ => (final(self).step, a) == uninstall_next_ok(old(self).step, old(self).purge_data),
            },
            !old(self).purge_data ==> a != Action::PurgeDataRoot,
            old(self).step == UninstallStep::UninstallLegacy && !(o is Failed) ==> (a
                == Action::PurgeDataRoot <==> old(self).purge_data),
    {
        if let StepOutcome::Failed(e) = o {
            let step = self.step;
            self.step = UninstallStep::Finished;
            return match step {
                UninstallStep::UninstallCurrent => {
                    let mut m: Vec<char> = Vec::new();
                    append_str(&mut m, "卸载服务失败: ");
                    append_str(&mut m, SERVICE_QUALIFIED_NAME);
                    Action::Fail(string_from_chars(m.as_slice()))
                },
                UninstallStep::RecordUninstall => Action::Fail("更新服务登记失败".to_string()),
                UninstallStep::ClearState => Action::Finish,
                _ => Action::Fail(e),
            };
        }
        match self.step {
            UninstallStep::StopCurrent => {
                self.step = UninstallStep::UninstallCurrent;
                Action::UninstallCurrentService
            },
            UninstallStep::UninstallCurrent => {
                self.step = UninstallStep::RecordUninstall;
                Action::RecordUninstall
            },
            UninstallStep::RecordUninstall => {
                self.step = UninstallStep::KillStale;
                Action::KillStaleListeners(DEFAULT_PORT)
            },
            UninstallStep::KillStale => {
                self.step = UninstallStep::UninstallLegacy;
                Action::UninstallLegacyService
            },
            UninstallStep::UninstallLegacy => {
                if self.purge_data {
                    self.step = UninstallStep::Purge;
                    Action::PurgeDataRoot
                } else {
                    self.step = UninstallStep::ClearState;
                    Action::ClearState
                }
            },
            UninstallStep::Purge => {
                self.step = UninstallStep::ClearState;
                Action::ClearState
            },
            UninstallStep::ClearState => {
                self.step = UninstallStep::Finished;
                Action::Finish
            },
            UninstallStep::Finished => Action::Finish,
        }
    }
}

} // verus!
