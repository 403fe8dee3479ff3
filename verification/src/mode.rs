//! The GPU mode enumeration, the error taxonomy, and the decision table
//! that derives the current mode from the daemon-owned on-disk artifacts.
//!
//! The mode is never stored: it is recomputed from two boolean facts about
//! the filesystem (is the module blacklist in place, does the Xorg drop-in
//! select the dedicated GPU as primary), so a daemon restart can never trust
//! a stale cache.

use vstd::prelude::*;

verus! {

/// The effective GPU rendering configuration of the machine.
#[derive(Clone, Copy, Debug, PartialEq, Eq, Structural)]
pub enum GpuMode {
    /// Only the integrated GPU renders; the vendor modules are blacklisted.
    Integrated,
    /// Both GPUs are available and the integrated GPU drives the display.
    Hybrid,
    /// The dedicated GPU is the Xorg primary and its modules are blacklisted
    /// from auto-loading so the daemon controls when they come up.
    DedicatedNvidia,
    /// The hardware mux routes the dedicated GPU straight to the panel; only
    /// the Xorg primary clause is needed, no blacklist.
    AsusMuxDedicated,
    /// The dedicated GPU is bound to vfio for passthrough; not reachable
    /// through the file artifacts this engine manages.
    Vfio,
    /// The platform lacks the managed module set, or the state is unknown.
    NotSupported,
}

/// Every way a mode transition can fail, each telling the caller which
/// external remediation is needed.
#[derive(Clone, Copy, Debug, PartialEq, Eq, Structural)]
pub enum GfxError {
    /// The requested mode cannot be reached on this platform.
    UnsupportedMode,
    /// The display manager could not be stopped; nothing was mutated.
    DisplayManagerBusy,
    /// A config file write failed; the display manager was restarted
    /// best-effort and the old files are intact.
    ConfigWriteFailed,
    /// A managed kernel module (by position in the managed list) could not
    /// be unloaded or reloaded; the config files already hold the target.
    ModuleReloadFailed { module: usize },
    /// Files and modules hold the target state but the display manager did
    /// not come back; retrying the restart alone is enough.
    DisplayManagerRestartFailed,
    /// Every step succeeded yet re-reading the state did not confirm the
    /// requested mode: the environment drifted underneath the transition.
    VerificationFailed,
    /// Another transition holds the exclusive lock; the request is rejected,
    /// never queued.
    TransitionInProgress,
}

/// The decision table deriving a mode from the two on-disk facts.
///
/// Config intent wins over transient module load state, since the loaded
/// module set lags the files until a display-manager restart completes.
pub open spec fn mode_of(supported: bool, blacklisted: bool, xorg_primary: bool) -> GpuMode {
    if !supported {
        GpuMode::NotSupported
    } else if blacklisted && xorg_primary {
        GpuMode::DedicatedNvidia
    } else if blacklisted {
        GpuMode::Integrated
    } else if xorg_primary {
        GpuMode::AsusMuxDedicated
    } else {
        GpuMode::Hybrid
    }
}

/// A mode that a transition may target: exactly those the decision table
/// can report on a supported platform.
pub open spec fn spec_settable(m: GpuMode) -> bool {
    ||| m == GpuMode::Integrated
    ||| m == GpuMode::Hybrid
    ||| m == GpuMode::DedicatedNvidia
    ||| m == GpuMode::AsusMuxDedicated
}

/// The blacklist half of the inverse of the decision table.
pub open spec fn spec_blacklist_flag(m: GpuMode) -> bool {
    m == GpuMode::Integrated || m == GpuMode::DedicatedNvidia
}

/// The Xorg-primary half of the inverse of the decision table.
pub open spec fn spec_xorg_flag(m: GpuMode) -> bool {
    m == GpuMode::DedicatedNvidia || m == GpuMode::AsusMuxDedicated
}

/// Executable form of the decision table.
pub fn mode_from_flags(supported: bool, blacklisted: bool, xorg_primary: bool) -> (m: GpuMode)
    ensures
        m == mode_of(supported, blacklisted, xorg_primary),
{
    if !supported {
        GpuMode::NotSupported
    } else if blacklisted && xorg_primary {
        GpuMode::DedicatedNvidia
    } else if blacklisted {
        GpuMode::Integrated
    } else if xorg_primary {
        GpuMode::AsusMuxDedicated
    } else {
        GpuMode::Hybrid
    }
}

impl GpuMode {
    /// Whether a transition may target this mode.
    pub fn is_settable(&self) -> (r: bool)
        ensures
            r == spec_settable(*self),
    {
        match self {
            GpuMode::Integrated | GpuMode::Hybrid | GpuMode::DedicatedNvidia
                | GpuMode::AsusMuxDedicated => true,
            GpuMode::Vfio | GpuMode::NotSupported => false,
        }
    }

    /// The blacklist flag the managed modprobe file must hold for this mode.
    pub fn blacklist_flag(&self) -> (r: bool)
        ensures
            r == spec_blacklist_flag(*self),
    {
        match self {
            GpuMode::Integrated | GpuMode::DedicatedNvidia => true,
            _ => false,
        }
    }

    /// Whether the Xorg drop-in must select the dedicated GPU as primary.
    pub fn xorg_flag(&self) -> (r: bool)
        ensures
            r == spec_xorg_flag(*self),
    {
        match self {
            GpuMode::DedicatedNvidia | GpuMode::AsusMuxDedicated => true,
            _ => false,
        }
    }
}

/// The decision table inverts its own flag mapping: writing the artifacts
/// for a settable mode and reading them back yields that mode.
pub proof fn lemma_flags_invert_table(m: GpuMode)
    requires
        spec_settable(m),
    ensures
        mode_of(true, spec_blacklist_flag(m), spec_xorg_flag(m)) == m,
{
}

impl GfxError {
    /// A short human-readable description, for the daemon's structured
    /// error surface.
    pub fn describe(&self) -> &'static str {
        match self {
            GfxError::UnsupportedMode => "the requested mode is not supported on this platform",
            GfxError::DisplayManagerBusy => "the display manager could not be stopped; nothing was changed",
            GfxError::ConfigWriteFailed => "writing a config file failed; previous files are intact",
            GfxError::ModuleReloadFailed { module: _ } => "a managed kernel module could not be unloaded or reloaded",
            GfxError::DisplayManagerRestartFailed => "the display manager failed to restart; files and modules hold the target mode",
            GfxError::VerificationFailed => "the transition completed but the re-read mode does not match the request",
            GfxError::TransitionInProgress => "another mode transition is already in progress",
        }
    }
}

} // verus!
