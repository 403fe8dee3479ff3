//! The mode-transition state machine.
//!
//! A transition is a dialogue: the machine names the next privileged action
//! (stop the display manager, write a config file, unload one module, ...),
//! the runner performs it against the live system and reports the outcome,
//! and the machine decides what follows. All sequencing and failure policy
//! lives here, verified; the runner contributes no decisions.
//!
//! The module also carries a ghost model of the host (`Host`), a ghost model
//! of which actions the environment fails (`Faults`), and `spec_run`, the
//! mathematical meaning of driving one transition to completion against such
//! a host. The laws about whole transitions are stated over `spec_run`.

use vstd::prelude::*;

use crate::config::modprobe_template;
use crate::config::spec_mode_of_files;
use crate::config::xorg_template;
use crate::mode::GfxError;
use crate::mode::GpuMode;
use crate::mode::spec_blacklist_flag;
use crate::mode::spec_settable;
use crate::mode::spec_xorg_flag;
use crate::modules::MANAGED_MODULE_COUNT;

verus! {

/// One privileged operation the runner must perform for the machine.
#[derive(Clone, Copy, Debug, PartialEq, Eq, Structural)]
pub enum Action {
    /// Read the two daemon-owned files and report the derived mode.
    ReadState,
    /// Stop the display-manager service unit.
    StopDisplayManager,
    /// Atomically write the Xorg drop-in selecting the dedicated GPU as
    /// primary, or remove the drop-in when `primary` is false.
    WriteXorgConfig { primary: bool },
    /// Atomically write the generated modprobe blacklist, or remove the
    /// drop-in when `active` is false.
    WriteModprobeConfig { active: bool },
    /// Unload (when `unload`) or load one managed module, by position in
    /// the declared dependency order.
    ApplyModule { index: usize, unload: bool },
    /// Start the display-manager service unit (best-effort rollback).
    StartDisplayManager,
    /// Restart the display-manager service unit.
    RestartDisplayManager,
}

/// The runner's report on the action the machine last asked for.
#[derive(Clone, Copy, Debug, PartialEq, Eq, Structural)]
pub enum Event {
    /// Answer to `Action::ReadState`.
    CurrentMode { mode: GpuMode },
    /// The action completed.
    Succeeded,
    /// The action failed.
    Failed,
}

/// Where a transition stands between two actions.
#[derive(Clone, Copy, Debug, PartialEq, Eq, Structural)]
pub enum Phase {
    /// Reading the pre-transition mode for the idempotent no-op check.
    ReadCurrent,
    /// Waiting for the display manager to stop.
    StoppingDisplayManager,
    /// Waiting for the Xorg drop-in write.
    WritingXorg,
    /// Waiting for the modprobe drop-in write.
    WritingModprobe,
    /// A write failed: restoring the display manager best-effort before
    /// reporting the failure.
    Restoring,
    /// Applying managed modules one by one, `next` is the position due.
    ApplyingModules { next: usize },
    /// Waiting for the display manager to come back.
    RestartingDisplayManager,
    /// Re-reading the mode to confirm the transition took effect.
    Verifying,
    /// The transition is over and the mode was confirmed.
    Succeeded { mode: GpuMode },
    /// The transition is over and failed.
    Failed { error: GfxError },
}

/// One in-flight mode transition.
#[derive(Clone, Copy, Debug, PartialEq, Eq, Structural)]
pub struct Transition {
    /// The mode the transition drives the host towards.
    pub requested: GpuMode,
    /// Progress through the fixed action sequence.
    pub phase: Phase,
}

/// A freshly begun transition: nothing has been read or mutated yet.
pub open spec fn spec_start(requested: GpuMode) -> Transition {
    Transition { requested, phase: Phase::ReadCurrent }
}

/// The action due in the given state; `None` once the transition is over.
pub open spec fn spec_action(t: Transition) -> Option<Action> {
    match t.phase {
        Phase::ReadCurrent => Option::Some(Action::ReadState),
        Phase::StoppingDisplayManager => Option::Some(Action::StopDisplayManager),
        Phase::WritingXorg => Option::Some(
            Action::WriteXorgConfig { primary: spec_xorg_flag(t.requested) },
        ),
        Phase::WritingModprobe => Option::Some(
            Action::WriteModprobeConfig { active: spec_blacklist_flag(t.requested) },
        ),
        Phase::Restoring => Option::Some(Action::StartDisplayManager),
        Phase::ApplyingModules { next } => Option::Some(
            Action::ApplyModule { index: next, unload: spec_blacklist_flag(t.requested) },
        ),
        Phase::RestartingDisplayManager => Option::Some(Action::RestartDisplayManager),
        Phase::Verifying => Option::Some(Action::ReadState),
        Phase::Succeeded { .. } => Option::None,
        Phase::Failed { .. } => Option::None,
    }
}

/// The transition relation. An event that does not answer the pending
/// action is ignored: the transition stays where it is.
pub open spec fn spec_step(t: Transition, ev: Event) -> Transition {
    let requested = t.requested;
    match (t.phase, ev) {
        (Phase::ReadCurrent, Event::CurrentMode { mode }) => {
            if mode == requested {
                // Idempotent no-op: re-applying the current mode repairs
                // nothing and mutates nothing.
                Transition { requested, phase: Phase::Succeeded { mode } }
            } else if !spec_settable(requested) || mode == GpuMode::NotSupported {
                Transition { requested, phase: Phase::Failed { error: GfxError::UnsupportedMode } }
            } else {
                Transition { requested, phase: Phase::StoppingDisplayManager }
            }
        },
        (Phase::StoppingDisplayManager, Event::Succeeded) => Transition {
            requested,
            phase: Phase::WritingXorg,
        },
        (Phase::StoppingDisplayManager, Event::Failed) => Transition {
            requested,
            phase: Phase::Failed { error: GfxError::DisplayManagerBusy },
        },
        (Phase::WritingXorg, Event::Succeeded) => Transition {
            requested,
            phase: Phase::WritingModprobe,
        },
        (Phase::WritingXorg, Event::Failed) => Transition { requested, phase: Phase::Restoring },
        (Phase::WritingModprobe, Event::Succeeded) => Transition {
            requested,
            phase: Phase::ApplyingModules { next: 0 },
        },
        (Phase::WritingModprobe, Event::Failed) => Transition {
            requested,
            phase: Phase::Restoring,
        },
        (Phase::Restoring, Event::Succeeded) => Transition {
            requested,
            phase: Phase::Failed { error: GfxError::ConfigWriteFailed },
        },
        (Phase::Restoring, Event::Failed) => Transition {
            requested,
            phase: Phase::Failed { error: GfxError::ConfigWriteFailed },
        },
        (Phase::ApplyingModules { next }, Event::Succeeded) => {
            if next + 1 < MANAGED_MODULE_COUNT {
                Transition { requested, phase: Phase::ApplyingModules { next: (next + 1) as usize } }
            } else {
                Transition { requested, phase: Phase::RestartingDisplayManager }
            }
        },
        (Phase::ApplyingModules { next }, Event::Failed) => Transition {
            requested,
            phase: Phase::Failed { error: GfxError::ModuleReloadFailed { module: next } },
        },
        (Phase::RestartingDisplayManager, Event::Succeeded) => Transition {
            requested,
            phase: Phase::Verifying,
        },
        (Phase::RestartingDisplayManager, Event::Failed) => Transition {
            requested,
            phase: Phase::Failed { error: GfxError::DisplayManagerRestartFailed },
        },
        (Phase::Verifying, Event::CurrentMode { mode }) => {
            if mode == requested {
                Transition { requested, phase: Phase::Succeeded { mode } }
            } else {
                Transition { requested, phase: Phase::Failed { error: GfxError::VerificationFailed } }
            }
        },
        _ => t,
    }
}

/// Whether the transition is over.
pub open spec fn spec_done(t: Transition) -> bool {
    spec_action(t) is None
}

/// The verdict of a finished transition.
pub open spec fn spec_outcome(t: Transition) -> Option<Result<GpuMode, GfxError>> {
    match t.phase {
        Phase::Succeeded { mode } => Option::Some(Result::Ok(mode)),
        Phase::Failed { error } => Option::Some(Result::Err(error)),
        _ => Option::None,
    }
}

impl Transition {
    /// Begins a transition towards `requested`.
    pub fn start(requested: GpuMode) -> (t: Self)
        ensures
            t == spec_start(requested),
    {
        Transition { requested, phase: Phase::ReadCurrent }
    }

    /// The action the runner must perform next; `None` once done.
    pub fn next_action(&self) -> (a: Option<Action>)
        ensures
            a == spec_action(*self),
    {
        match self.phase {
            Phase::ReadCurrent => Option::Some(Action::ReadState),
            Phase::StoppingDisplayManager => Option::Some(Action::StopDisplayManager),
            Phase::WritingXorg => Option::Some(
                Action::WriteXorgConfig { primary: self.requested.xorg_flag() },
            ),
            Phase::WritingModprobe => Option::Some(
                Action::WriteModprobeConfig { active: self.requested.blacklist_flag() },
            ),
            Phase::Restoring => Option::Some(Action::StartDisplayManager),
            Phase::ApplyingModules { next } => Option::Some(
                Action::ApplyModule { index: next, unload: self.requested.blacklist_flag() },
            ),
            Phase::RestartingDisplayManager => Option::Some(Action::RestartDisplayManager),
            Phase::Verifying => Option::Some(Action::ReadState),
            Phase::Succeeded { .. } => Option::None,
            Phase::Failed { .. } => Option::None,
        }
    }

    /// Advances the transition on the runner's report.
    pub fn step(&self, ev: Event) -> (t: Self)
        ensures
            t == spec_step(*self, ev),
    {
        let requested = self.requested;
        match (self.phase, ev) {
            (Phase::ReadCurrent, Event::CurrentMode { mode }) => {
                if mode == requested {
                    Transition { requested, phase: Phase::Succeeded { mode } }
                } else if !requested.is_settable() || mode == GpuMode::NotSupported {
                    Transition {
                        requested,
                        phase: Phase::Failed { error: GfxError::UnsupportedMode },
                    }
                } else {
                    Transition { requested, phase: Phase::StoppingDisplayManager }
                }
            },
            (Phase::StoppingDisplayManager, Event::Succeeded) => Transition {
                requested,
                phase: Phase::WritingXorg,
            },
            (Phase::StoppingDisplayManager, Event::Failed) => Transition {
                requested,
                phase: Phase::Failed { error: GfxError::DisplayManagerBusy },
            },
            (Phase::WritingXorg, Event::Succeeded) => Transition {
                requested,
                phase: Phase::WritingModprobe,
            },
            (Phase::WritingXorg, Event::Failed) => Transition {
                requested,
                phase: Phase::Restoring,
            },
            (Phase::WritingModprobe, Event::Succeeded) => Transition {
                requested,
                phase: Phase::ApplyingModules { next: 0 },
            },
            (Phase::WritingModprobe, Event::Failed) => Transition {
                requested,
                phase: Phase::Restoring,
            },
            (Phase::Restoring, Event::Succeeded) => Transition {
                requested,
                phase: Phase::Failed { error: GfxError::ConfigWriteFailed },
            },
            (Phase::Restoring, Event::Failed) => Transition {
                requested,
                phase: Phase::Failed { error: GfxError::ConfigWriteFailed },
            },
            (Phase::ApplyingModules { next }, Event::Succeeded) => {
                if next < MANAGED_MODULE_COUNT - 1 {
                    Transition { requested, phase: Phase::ApplyingModules { next: next + 1 } }
                } else {
                    Transition { requested, phase: Phase::RestartingDisplayManager }
                }
            },
            (Phase::ApplyingModules { next }, Event::Failed) => Transition {
                requested,
                phase: Phase::Failed { error: GfxError::ModuleReloadFailed { module: next } },
            },
            (Phase::RestartingDisplayManager, Event::Succeeded) => Transition {
                requested,
                phase: Phase::Verifying,
            },
            (Phase::RestartingDisplayManager, Event::Failed) => Transition {
                requested,
                phase: Phase::Failed { error: GfxError::DisplayManagerRestartFailed },
            },
            (Phase::Verifying, Event::CurrentMode { mode }) => {
                if mode == requested {
                    Transition { requested, phase: Phase::Succeeded { mode } }
                } else {
                    Transition {
                        requested,
                        phase: Phase::Failed { error: GfxError::VerificationFailed },
                    }
                }
            },
            _ => *self,
        }
    }

    /// Whether the transition is over.
    pub fn is_done(&self) -> (r: bool)
        ensures
            r == spec_done(*self),
    {
        match self.phase {
            Phase::Succeeded { .. } => true,
            Phase::Failed { .. } => true,
            _ => false,
        }
    }

    /// The verdict, once the transition is over.
    pub fn outcome(&self) -> (r: Option<Result<GpuMode, GfxError>>)
        ensures
            r == spec_outcome(*self),
    {
        match self.phase {
            Phase::Succeeded { mode } => Option::Some(Result::Ok(mode)),
            Phase::Failed { error } => Option::Some(Result::Err(error)),
            _ => Option::None,
        }
    }
}

/// Ghost model of the privileged host state the engine mutates: the two
/// daemon-owned files, the managed modules' load state, and whether the
/// display manager runs.
pub struct Host {
    /// The platform carries the managed module set.
    pub supported: bool,
    /// Content of the modprobe drop-in, `None` when absent.
    pub modprobe_file: Option<Seq<char>>,
    /// Content of the Xorg drop-in, `None` when absent.
    pub xorg_file: Option<Seq<char>>,
    /// Per managed module, in declared order: is it loaded.
    pub modules_loaded: Seq<bool>,
    /// The display-manager service unit is active.
    pub dm_running: bool,
}

/// A host tracks exactly the managed module set.
pub open spec fn host_wf(h: Host) -> bool {
    h.modules_loaded.len() == MANAGED_MODULE_COUNT
}

/// The mode a stateless read of the host derives.
pub open spec fn spec_current_mode(h: Host) -> GpuMode {
    spec_mode_of_files(h.supported, h.modprobe_file, h.xorg_file)
}

/// Which injected actions fail, so that the engine's guarantees can be
/// stated for every combination of environment failures.
pub struct Faults {
    /// Stopping the display manager fails.
    pub stop_dm: bool,
    /// Writing or removing the Xorg drop-in fails.
    pub write_xorg: bool,
    /// Writing or removing the modprobe drop-in fails.
    pub write_modprobe: bool,
    /// The module operation at this position fails.
    pub module: Option<int>,
    /// Starting the display manager (rollback path) fails.
    pub start_dm: bool,
    /// Restarting the display manager fails.
    pub restart_dm: bool,
}

/// The environment performs every action it is asked.
pub open spec fn no_faults(f: Faults) -> bool {
    &&& !f.stop_dm
    &&& !f.write_xorg
    &&& !f.write_modprobe
    &&& f.module is None
    &&& !f.start_dm
    &&& !f.restart_dm
}

/// What one action does to the host, and what the runner reports back.
///
/// Writes are atomic: a failed write leaves the file exactly as it was.
/// A read never changes the host and reports the mode the files denote.
pub open spec fn spec_perform(h: Host, a: Action, f: Faults) -> (Host, Event) {
    match a {
        Action::ReadState => (h, Event::CurrentMode { mode: spec_current_mode(h) }),
        Action::StopDisplayManager => {
            if f.stop_dm {
                (h, Event::Failed)
            } else {
                (Host { dm_running: false, ..h }, Event::Succeeded)
            }
        },
        Action::WriteXorgConfig { primary } => {
            if f.write_xorg {
                (h, Event::Failed)
            } else {
                let content = if primary {
                    Option::Some(xorg_template(true))
                } else {
                    Option::None
                };
                (Host { xorg_file: content, ..h }, Event::Succeeded)
            }
        },
        Action::WriteModprobeConfig { active } => {
            if f.write_modprobe {
                (h, Event::Failed)
            } else {
                let content = if active {
                    Option::Some(modprobe_template())
                } else {
                    Option::None
                };
                (Host { modprobe_file: content, ..h }, Event::Succeeded)
            }
        },
        Action::ApplyModule { index, unload } => {
            if f.module == Option::Some(index as int) {
                (h, Event::Failed)
            } else {
                (
                    Host { modules_loaded: h.modules_loaded.update(index as int, !unload), ..h },
                    Event::Succeeded,
                )
            }
        },
        Action::StartDisplayManager => {
            if f.start_dm {
                (h, Event::Failed)
            } else {
                (Host { dm_running: true, ..h }, Event::Succeeded)
            }
        },
        Action::RestartDisplayManager => {
            if f.restart_dm {
                (h, Event::Failed)
            } else {
                (Host { dm_running: true, ..h }, Event::Succeeded)
            }
        },
    }
}

/// Ranks phases so that every step towards completion descends.
pub open spec fn phase_rank(p: Phase) -> int {
    match p {
        Phase::ReadCurrent => 9,
        Phase::StoppingDisplayManager => 8,
        Phase::WritingXorg => 7,
        Phase::WritingModprobe => 6,
        Phase::Restoring => 5,
        Phase::ApplyingModules { .. } => 4,
        Phase::RestartingDisplayManager => 3,
        Phase::Verifying => 2,
        Phase::Succeeded { .. } => 0,
        Phase::Failed { .. } => 0,
    }
}

/// Remaining module operations while applying modules.
pub open spec fn phase_sub(p: Phase) -> int {
    match p {
        Phase::ApplyingModules { next } => {
            if next < MANAGED_MODULE_COUNT {
                MANAGED_MODULE_COUNT - next
            } else {
                0
            }
        },
        _ => 0,
    }
}

/// A finished run: the host it left behind, the verdict, and the actions
/// that were performed, in order.
pub struct Run {
    /// The host after the transition.
    pub host: Host,
    /// The transition's verdict.
    pub result: Result<GpuMode, GfxError>,
    /// Every action performed, in order.
    pub trace: Seq<Action>,
}

/// Driving a transition to completion from a given state: perform the
/// pending action on the host, feed the outcome back in, repeat until done.
pub open spec fn spec_run_from(t: Transition, h: Host, f: Faults) -> Run
    decreases phase_rank(t.phase), phase_sub(t.phase),
{
    match spec_action(t) {
        Option::None => {
            let result = match spec_outcome(t) {
                Option::Some(r) => r,
                Option::None => Result::Err(GfxError::VerificationFailed),
            };
            Run { host: h, result, trace: Seq::empty() }
        },
        Option::Some(a) => {
            let (h2, ev) = spec_perform(h, a, f);
            let rest = spec_run_from(spec_step(t, ev), h2, f);
            Run { host: rest.host, result: rest.result, trace: seq![a] + rest.trace }
        },
    }
}

/// One whole `set_mode(requested)` call against host `h`, under faults `f`.
pub open spec fn spec_run(requested: GpuMode, h: Host, f: Faults) -> Run {
    spec_run_from(spec_start(requested), h, f)
}

} // verus!
