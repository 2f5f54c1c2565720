//! The order of an install and of an in-place update.
use vstd::prelude::*;

use super::recovery::MigrationPhase;
use super::repair::{Action, StepOutcome};
use super::update::UpdateTarget;
use crate::net::SocketAddress;

verus! {

/// Where an install stands.
#[derive(Debug, Clone, Copy, PartialEq, Eq, Structural)]
pub enum InstallStep {
    /// Preparing the environment.
    Prepare,
    /// Recording the staging phase.
    EnterStage,
    /// Copying the executable.
    Stage,
    /// Registering the service.
    Register,
    /// Writing the registry.
    Record,
    /// Starting the service.
    Start,
    /// Recording the done phase.
    EnterDone,
    /// Deleting the phase record.
    ClearState,
    /// Finished or failed.
    Finished,
}

/// An install in progress.
#[derive(Debug, Clone)]
pub struct InstallMachine {
    /// Where it stands.
    pub step: InstallStep,
    /// User-level service.
    pub user: bool,
    /// Start the service once installed.
    pub start_after: bool,
    /// Version label being installed.
    pub version: Option<String>,
}

/// The next step and action of an install after a piece of work that did
/// not fail: prepare (migrating data), record staging, copy, register,
/// write the registry, start when asked, record done, delete the record.
pub open spec fn install_next_ok(step: InstallStep, start_after: bool) -> (InstallStep, Action) {
    match step {
        InstallStep::Prepare => (
            InstallStep::EnterStage,
            Action::BeginVersionPhase(MigrationPhase::StageNewVersion),
        ),
        InstallStep::EnterStage => (InstallStep::Stage, Action::StageBinary),
        InstallStep::Stage => (InstallStep::Register, Action::InstallService),
        InstallStep::Register => (InstallStep::Record, Action::RecordInstall),
        InstallStep::Record => if start_after {
            (InstallStep::Start, Action::StartService)
        } else {
            (InstallStep::EnterDone, Action::BeginVersionPhase(MigrationPhase::Done))
        },
        InstallStep::Start => (
            InstallStep::EnterDone,
            Action::BeginVersionPhase(MigrationPhase::Done),
        ),
        InstallStep::EnterDone => (InstallStep::ClearState, Action::ClearState),
        InstallStep::ClearState => (InstallStep::Finished, Action::Finish),
        InstallStep::Finished => (InstallStep::Finished, Action::Finish),
    }
}

/// What an install is asked for.
#[derive(Debug, Clone)]
pub struct InstallOptions {
    /// JSON-RPC listen address (local only).
    pub listen: SocketAddress,
    /// Data directory; the platform data directory when absent.
    pub data_dir: Option<String>,
    /// Executable to install; the running one when absent.
    pub program: Option<String>,
    /// Install root; the platform default when absent.
    pub install_root: Option<String>,
    /// Version label.
    pub version: Option<String>,
    /// User-level service (systemd user unit or launch agent).
    pub user: bool,
    /// Start the service once installed.
    pub start_after_install: bool,
}

/// Starts an install: first the environment is prepared, with data
/// migration.
pub fn install(opts: &InstallOptions) -> (r: (InstallMachine, Action))
    ensures
        r.0.step == InstallStep::Prepare,
        r.0.user == opts.user,
        r.0.start_after == opts.start_after_install,
        r.0.version == opts.version,
        r.1 == Action::RunPrepare(opts.user, true),
{
    (
        InstallMachine {
            step: InstallStep::Prepare,
            user: opts.user,
            start_after: opts.start_after_install,
            version: opts.version.clone(),
        },
        Action::RunPrepare(opts.user, true),
    )
}

impl InstallMachine {
    /// Takes the outcome of the last action and gives the next one: any
    /// failure ends the install with its text, except that of deleting
    /// the phase record, which does not matter.
    pub fn next(&mut self, o: StepOutcome) -> (a: Action)
        requires
            old(self).step != InstallStep::Finished,
        ensures
            final(self).user == old(self).user,
            final(self).start_after == old(self).start_after,
            final(self).version == old(self).version,
            match o {
                StepOutcome::Failed(e) => final(self).step == InstallStep::Finished && if old(
                    self,
                ).step == InstallStep::ClearState {
                    a is Finish
                } else {
                    a == Action::Fail(e)
                },
                _ => (final(self).step, a) == install_next_ok(old(self).step, old(self).start_after),
            },
    {
        if let StepOutcome::Failed(e) = o {
            let step = self.step;
            self.step = InstallStep::Finished;
            return if step == InstallStep::ClearState {
                Action::Finish
            } else {
                Action::Fail(e)
            };
        }
        match self.step {
            InstallStep::Prepare => {
                self.step = InstallStep::EnterStage;
                Action::BeginVersionPhase(MigrationPhase::StageNewVersion)
            },
            InstallStep::EnterStage => {
                self.step = InstallStep::Stage;
                Action::StageBinary
            },
            InstallStep::Stage => {
                self.step = InstallStep::Register;
                Action::InstallService
            },
            InstallStep::Register => {
                self.step = InstallStep::Record;
                Action::RecordInstall
            },
            InstallStep::Record => {
                if self.start_after {
                    self.step = InstallStep::Start;
                    Action::StartService
                } else {
                    self.step = InstallStep::EnterDone;
                    Action::BeginVersionPhase(MigrationPhase::Done)
                }
            },
            InstallStep::Start => {
                self.step = InstallStep::EnterDone;
                Action::BeginVersionPhase(MigrationPhase::Done)
            },
            InstallStep::EnterDone => {
                self.step = InstallStep::ClearState;
                Action::ClearState
            },
            InstallStep::ClearState => {
                self.step = InstallStep::Finished;
                Action::Finish
            },
            InstallStep::Finished => Action::Finish,
        }
    }
}

/// Where an update stands.
#[derive(Debug, Clone, Copy, PartialEq, Eq, Structural)]
pub enum UpdateStep {
    /// Stopping the service.
    Stop,
    /// Waiting for it to let go of the executable.
    Wait,
    /// Copying the executable.
    Stage,
    /// Updating the registry.
    Record,
    /// Starting the service.
    Start,
    /// Finished or failed.
    Finished,
}

/// An update in progress.
#[derive(Debug, Clone, Copy)]
pub struct UpdateMachine {
    /// Where it stands.
    pub step: UpdateStep,
    /// Start the service afterwards.
    pub start_after: bool,
}

/// The next step and action of an update after a piece of work that did
/// not fail: wait half a second, copy, update the registry, start when
/// asked.
pub open spec fn update_next_ok(step: UpdateStep, start_after: bool) -> (UpdateStep, Action) {
    match step {
        UpdateStep::Stop => (UpdateStep::Wait, Action::Pause(500)),
        UpdateStep::Wait => (UpdateStep::Stage, Action::StageBinary),
        UpdateStep::Stage => (UpdateStep::Record, Action::RecordProgram),
        UpdateStep::Record => if start_after {
            (UpdateStep::Start, Action::StartService)
        } else {
            (UpdateStep::Finished, Action::Finish)
        },
        UpdateStep::Start => (UpdateStep::Finished, Action::Finish),
        UpdateStep::Finished => (UpdateStep::Finished, Action::Finish),
    }
}

/// An update asked not to start the service never starts it: no step of
/// it yields `StartService`, and once the new executable is recorded the
/// update finishes. With a start asked for, the start follows the record
/// and is the only step that starts the service.
pub proof fn update_starts_only_when_asked(step: UpdateStep, start_after: bool)
    ensures
        !start_after ==> update_next_ok(step, start_after).1 != Action::StartService,
        !start_after ==> update_next_ok(UpdateStep::Record, start_after) == (
            UpdateStep::Finished,
            Action::Finish,
        ),
        start_after ==> (update_next_ok(step, start_after).1 == Action::StartService <==> step
            == UpdateStep::Record),
{
}

/// Starts an update of `target`: first the running service is stopped
/// (the executable cannot be replaced while it runs).
pub fn update(target: &UpdateTarget) -> (r: (UpdateMachine, Action))
    ensures
        r.0.step == UpdateStep::Stop,
        r.0.start_after == target.start_after,
        r.1 == Action::StopCurrentService,
{
    (UpdateMachine { step: UpdateStep::Stop, start_after: target.start_after }, Action::StopCurrentService)
}

impl UpdateMachine {
    /// Takes the outcome of the last action and gives the next one: a
    /// failed stop does not matter; any other failure ends the update with
    /// its text.
    pub fn next(&mut self, o: StepOutcome) -> (a: Action)
        requires
            old(self).step != UpdateStep::Finished,
        ensures
            final(self).start_after == old(self).start_after,
            !old(self).start_after ==> a != Action::StartService,
            old(self).step == UpdateStep::Record && !(o is Failed) ==> if old(self).start_after {
                a == Action::StartService && final(self).step == UpdateStep::Start
            } else {
                a == Action::Finish && final(self).step == UpdateStep::Finished
            },
            match o {
                StepOutcome::Failed(e) => if old(self).step == UpdateStep::Stop {
                    (final(self).step, a) == update_next_ok(old(self).step, old(self).start_after)
                } else {
                    final(self).step == UpdateStep::Finished && a == Action::Fail(e)
                },
                _ => (final(self).step, a) == update_next_ok(old(self).step, old(self).start_after),
            },
    {
        if let StepOutcome::Failed(e) = o {
            if self.step != UpdateStep::Stop {
                self.step = UpdateStep::Finished;
                return Action::Fail(e);
            }
        }
        match self.step {
            UpdateStep::Stop => {
                self.step = UpdateStep::Wait;
                Action::Pause(500)
            },
            UpdateStep::Wait => {
                self.step = UpdateStep::Stage;
                Action::StageBinary
            },
            UpdateStep::Stage => {
                self.step = UpdateStep::Record;
                Action::RecordProgram
            },
            UpdateStep::Record => {
                if self.start_after {
                    self.step = UpdateStep::Start;
                    Action::StartService
                } else {
                    self.step = UpdateStep::Finished;
                    Action::Finish
                }
            },
            UpdateStep::Start => {
                self.step = UpdateStep::Finished;
                Action::Finish
            },
            UpdateStep::Finished => Action::Finish,
        }
    }
}

} // verus!
