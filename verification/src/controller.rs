//! The orchestrator: one instance owns the machine's GPU mode.
//!
//! The controller enforces the concurrency rule: at most one mode transition
//! is in flight at a time. A request that arrives while the lock is held is
//! rejected immediately with `TransitionInProgress`, never queued — a queued
//! request could apply a stale mode after the system has moved on. Read-only
//! mode queries never take the lock: they go straight through
//! `config::current_mode_from_files`.

use vstd::prelude::*;

use crate::machine::Transition;
use crate::machine::spec_done;
use crate::machine::spec_outcome;
use crate::machine::spec_start;
use crate::mode::GfxError;
use crate::mode::GpuMode;

verus! {

/// The one process-wide owner of mode transitions.
pub struct GpuModeController {
    /// The platform carries the managed module set; fixed at construction.
    pub supported: bool,
    /// The exclusive transition lock.
    pub in_transition: bool,
}

impl GpuModeController {
    /// Whether the platform was declared supported at construction.
    pub open spec fn spec_supported(&self) -> bool {
        self.supported
    }

    /// Whether a transition currently holds the exclusive lock.
    pub open spec fn spec_locked(&self) -> bool {
        self.in_transition
    }

    /// A controller for a platform; `supported` says whether the managed
    /// module set exists in the driver database.
    pub fn new(supported: bool) -> (c: Self)
        ensures
            c.spec_supported() == supported,
            !c.spec_locked(),
    {
        GpuModeController { supported, in_transition: false }
    }

    /// Whether the platform is supported, as declared at construction.
    pub fn supported(&self) -> (r: bool)
        ensures
            r == self.spec_supported(),
    {
        self.supported
    }

    /// What beginning a transition does: taken lock and fresh transition,
    /// or immediate rejection while the lock is held.
    pub open spec fn spec_begin(c: Self, requested: GpuMode) -> (Self, Result<
        Transition,
        GfxError,
    >) {
        if c.spec_locked() {
            (c, Result::Err(GfxError::TransitionInProgress))
        } else {
            (
                GpuModeController { supported: c.spec_supported(), in_transition: true },
                Result::Ok(spec_start(requested)),
            )
        }
    }

    /// Takes the exclusive lock and begins a transition towards `requested`.
    ///
    /// While another transition holds the lock the request is rejected at
    /// once with `TransitionInProgress`; the controller is left untouched.
    pub fn begin_transition(&mut self, requested: GpuMode) -> (r: Result<Transition, GfxError>)
        ensures
            (*final(self), r) == Self::spec_begin(*old(self), requested),
    {
        if self.in_transition {
            Result::Err(GfxError::TransitionInProgress)
        } else {
            self.in_transition = true;
            Result::Ok(Transition::start(requested))
        }
    }

    /// Releases the lock once the transition is over, and hands out its
    /// verdict. The lock is held for the whole action sequence: only a
    /// finished transition releases it.
    pub fn finish_transition(&mut self, t: Transition) -> (r: Result<GpuMode, GfxError>)
        requires
            spec_done(t),
        ensures
            !final(self).spec_locked(),
            final(self).spec_supported() == old(self).spec_supported(),
            Option::Some(r) == spec_outcome(t),
    {
        self.in_transition = false;
        match t.outcome() {
            Option::Some(r) => r,
            Option::None => Result::Err(GfxError::VerificationFailed),
        }
    }
}

/// Of two requests racing for the controller, exactly one wins the lock and
/// proceeds; the other is rejected with `TransitionInProgress` and changes
/// nothing. Whichever order the two calls serialise in, the guarantee is
/// the same.
pub proof fn lemma_second_request_rejected(c: GpuModeController, a: GpuMode, b: GpuMode)
    requires
        !c.spec_locked(),
    ensures
        ({
            let (c1, r1) = GpuModeController::spec_begin(c, a);
            let (c2, r2) = GpuModeController::spec_begin(c1, b);
            r1 == Result::<Transition, GfxError>::Ok(spec_start(a))
                && r2 == Result::<Transition, GfxError>::Err(GfxError::TransitionInProgress)
                && c2 == c1
        }),
{
}

} // verus!
