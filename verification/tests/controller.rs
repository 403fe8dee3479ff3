use gfxd::controller::GpuModeController;
use gfxd::machine::Event;
use gfxd::machine::Transition;
use gfxd::mode::GfxError;
use gfxd::mode::GpuMode;

#[test]
fn two_requests_one_wins_the_lock() {
    let mut c = GpuModeController::new(true);
    let first = c.begin_transition(GpuMode::Integrated);
    assert!(first.is_ok());
    // The concurrent request is rejected at once, never queued.
    let second = c.begin_transition(GpuMode::Hybrid);
    assert_eq!(second.err(), Some(GfxError::TransitionInProgress));
}

#[test]
fn lock_released_only_by_a_finished_transition() {
    let mut c = GpuModeController::new(true);
    let t = c.begin_transition(GpuMode::Hybrid).unwrap();
    // Drive the transition to its immediate no-op success.
    let t = t.step(Event::CurrentMode { mode: GpuMode::Hybrid });
    assert!(t.is_done());
    let verdict = c.finish_transition(t);
    assert_eq!(verdict, Ok(GpuMode::Hybrid));
    // The lock is free again.
    assert!(c.begin_transition(GpuMode::Integrated).is_ok());
}

#[test]
fn rejection_leaves_the_controller_unchanged() {
    let mut c = GpuModeController::new(true);
    let _held = c.begin_transition(GpuMode::Integrated).unwrap();
    let _ = c.begin_transition(GpuMode::Hybrid);
    assert!(c.supported());
    assert!(c.in_transition);
}

#[test]
fn begin_hands_out_a_fresh_transition() {
    let mut c = GpuModeController::new(true);
    let t: Transition = c.begin_transition(GpuMode::DedicatedNvidia).unwrap();
    assert_eq!(t.requested, GpuMode::DedicatedNvidia);
    assert!(!t.is_done());
    assert_eq!(t.outcome(), None);
}

#[test]
fn failed_transition_verdict_passed_through() {
    let mut c = GpuModeController::new(true);
    let t = c.begin_transition(GpuMode::Vfio).unwrap();
    let t = t.step(Event::CurrentMode { mode: GpuMode::Hybrid });
    assert!(t.is_done());
    assert_eq!(c.finish_transition(t), Err(GfxError::UnsupportedMode));
}
