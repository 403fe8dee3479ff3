use gfxd::config::current_mode_from_files;
use gfxd::config::modprobe_config_content;
use gfxd::config::xorg_config_content;
use gfxd::machine::Action;
use gfxd::machine::Event;
use gfxd::machine::Transition;
use gfxd::mode::GfxError;
use gfxd::mode::GpuMode;

/// An in-memory host: two files, four module slots, one service, plus
/// injectable failures. The engine decides; this only obeys.
struct Sim {
    supported: bool,
    modprobe: Option<String>,
    xorg: Option<String>,
    loaded: Vec<bool>,
    dm_running: bool,
    reads_done: usize,
    fail_stop: bool,
    fail_write_xorg: bool,
    fail_write_modprobe: bool,
    fail_module: Option<usize>,
    fail_start: bool,
    fail_restart: bool,
    /// What the second (verification) read reports instead of the truth,
    /// to model environment drift underneath a transition.
    drift_on_verify: Option<GpuMode>,
}

impl Sim {
    fn hybrid() -> Sim {
        Sim {
            supported: true,
            modprobe: None,
            xorg: None,
            loaded: vec![true, true, true, true],
            dm_running: true,
            reads_done: 0,
            fail_stop: false,
            fail_write_xorg: false,
            fail_write_modprobe: false,
            fail_module: None,
            fail_start: false,
            fail_restart: false,
            drift_on_verify: None,
        }
    }

    fn current_mode(&self) -> GpuMode {
        current_mode_from_files(self.supported, &self.modprobe, &self.xorg)
    }

    fn perform(&mut self, action: Action) -> Event {
        match action {
            Action::ReadState => {
                self.reads_done += 1;
                let mode = match (self.reads_done > 1, self.drift_on_verify) {
                    (true, Some(m)) => m,
                    _ => self.current_mode(),
                };
                Event::CurrentMode { mode }
            }
            Action::StopDisplayManager => {
                if self.fail_stop {
                    Event::Failed
                } else {
                    self.dm_running = false;
                    Event::Succeeded
                }
            }
            Action::WriteXorgConfig { primary } => {
                if self.fail_write_xorg {
                    Event::Failed
                } else {
                    self.xorg = if primary { Some(xorg_config_content(true)) } else { None };
                    Event::Succeeded
                }
            }
            Action::WriteModprobeConfig { active } => {
                if self.fail_write_modprobe {
                    Event::Failed
                } else {
                    self.modprobe = if active { Some(modprobe_config_content()) } else { None };
                    Event::Succeeded
                }
            }
            Action::ApplyModule { index, unload } => {
                if self.fail_module == Some(index) {
                    Event::Failed
                } else {
                    self.loaded[index] = !unload;
                    Event::Succeeded
                }
            }
            Action::StartDisplayManager => {
                if self.fail_start {
                    Event::Failed
                } else {
                    self.dm_running = true;
                    Event::Succeeded
                }
            }
            Action::RestartDisplayManager => {
                if self.fail_restart {
                    Event::Failed
                } else {
                    self.dm_running = true;
                    Event::Succeeded
                }
            }
        }
    }

    fn run(&mut self, requested: GpuMode) -> (Result<GpuMode, GfxError>, Vec<Action>) {
        self.reads_done = 0;
        let mut t = Transition::start(requested);
        let mut trace: Vec<Action> = Vec::new();
        while let Some(action) = t.next_action() {
            trace.push(action);
            let ev = self.perform(action);
            t = t.step(ev);
        }
        (t.outcome().expect("a finished transition has a verdict"), trace)
    }
}

#[test]
fn idempotent_noop_mutates_nothing() {
    let mut sim = Sim::hybrid();
    // Even with every failure armed, re-applying the current mode only reads.
    sim.fail_stop = true;
    sim.fail_write_xorg = true;
    sim.fail_write_modprobe = true;
    sim.fail_module = Some(0);
    sim.fail_restart = true;
    let (result, trace) = sim.run(GpuMode::Hybrid);
    assert_eq!(result, Ok(GpuMode::Hybrid));
    assert_eq!(trace, vec![Action::ReadState]);
    assert_eq!(sim.modprobe, None);
    assert_eq!(sim.xorg, None);
    assert_eq!(sim.loaded, vec![true, true, true, true]);
    assert!(sim.dm_running);
}

#[test]
fn end_to_end_hybrid_to_dedicated() {
    let mut sim = Sim::hybrid();
    let (result, trace) = sim.run(GpuMode::DedicatedNvidia);
    assert_eq!(result, Ok(GpuMode::DedicatedNvidia));
    assert_eq!(
        trace,
        vec![
            Action::ReadState,
            Action::StopDisplayManager,
            Action::WriteXorgConfig { primary: true },
            Action::WriteModprobeConfig { active: true },
            Action::ApplyModule { index: 0, unload: true },
            Action::ApplyModule { index: 1, unload: true },
            Action::ApplyModule { index: 2, unload: true },
            Action::ApplyModule { index: 3, unload: true },
            Action::RestartDisplayManager,
            Action::ReadState,
        ]
    );
    assert_eq!(sim.modprobe, Some(modprobe_config_content()));
    assert_eq!(sim.xorg, Some(xorg_config_content(true)));
    assert_eq!(sim.loaded, vec![false, false, false, false]);
    assert!(sim.dm_running);
    assert_eq!(sim.current_mode(), GpuMode::DedicatedNvidia);
}

#[test]
fn stop_failure_touches_no_file_or_module() {
    let mut sim = Sim::hybrid();
    sim.fail_stop = true;
    let (result, trace) = sim.run(GpuMode::Integrated);
    assert_eq!(result, Err(GfxError::DisplayManagerBusy));
    assert_eq!(trace, vec![Action::ReadState, Action::StopDisplayManager]);
    assert_eq!(sim.modprobe, None);
    assert_eq!(sim.xorg, None);
    assert_eq!(sim.loaded, vec![true, true, true, true]);
    assert!(sim.dm_running);
    assert_eq!(sim.current_mode(), GpuMode::Hybrid);
}

#[test]
fn xorg_write_failure_leaves_previous_files_intact() {
    // Start from Integrated: the blacklist file exists beforehand.
    let mut sim = Sim::hybrid();
    sim.modprobe = Some(modprobe_config_content());
    assert_eq!(sim.current_mode(), GpuMode::Integrated);
    sim.fail_write_xorg = true;
    let (result, trace) = sim.run(GpuMode::DedicatedNvidia);
    assert_eq!(result, Err(GfxError::ConfigWriteFailed));
    assert_eq!(
        trace,
        vec![
            Action::ReadState,
            Action::StopDisplayManager,
            Action::WriteXorgConfig { primary: true },
            Action::StartDisplayManager,
        ]
    );
    // The failed write left the previously-existing state untouched.
    assert_eq!(sim.modprobe, Some(modprobe_config_content()));
    assert_eq!(sim.xorg, None);
    assert_eq!(sim.current_mode(), GpuMode::Integrated);
    // The display manager was restored best-effort.
    assert!(sim.dm_running);
}

#[test]
fn modprobe_write_failure_restores_display_manager() {
    let mut sim = Sim::hybrid();
    sim.fail_write_modprobe = true;
    let (result, trace) = sim.run(GpuMode::Integrated);
    assert_eq!(result, Err(GfxError::ConfigWriteFailed));
    assert_eq!(
        trace,
        vec![
            Action::ReadState,
            Action::StopDisplayManager,
            Action::WriteXorgConfig { primary: false },
            Action::WriteModprobeConfig { active: true },
            Action::StartDisplayManager,
        ]
    );
    assert_eq!(sim.modprobe, None);
    assert!(sim.dm_running);
}

#[test]
fn round_trip_every_supported_pair() {
    let settable = [
        GpuMode::Integrated,
        GpuMode::Hybrid,
        GpuMode::DedicatedNvidia,
        GpuMode::AsusMuxDedicated,
    ];
    for a in settable {
        for b in settable {
            let mut sim = Sim::hybrid();
            let (r1, _) = sim.run(a);
            assert_eq!(r1, Ok(a));
            let (r2, _) = sim.run(b);
            assert_eq!(r2, Ok(b));
            let (r3, _) = sim.run(a);
            assert_eq!(r3, Ok(a));
            assert_eq!(sim.current_mode(), a);
            let expected_modprobe = if a.blacklist_flag() {
                Some(modprobe_config_content())
            } else {
                None
            };
            let expected_xorg = if a.xorg_flag() {
                Some(xorg_config_content(true))
            } else {
                None
            };
            assert_eq!(sim.modprobe, expected_modprobe);
            assert_eq!(sim.xorg, expected_xorg);
        }
    }
}

#[test]
fn module_failure_reports_the_position() {
    let mut sim = Sim::hybrid();
    sim.fail_module = Some(2);
    let (result, trace) = sim.run(GpuMode::DedicatedNvidia);
    assert_eq!(result, Err(GfxError::ModuleReloadFailed { module: 2 }));
    // The files already hold the target: a later retry reconciles.
    assert_eq!(sim.modprobe, Some(modprobe_config_content()));
    assert_eq!(sim.xorg, Some(xorg_config_content(true)));
    // Earlier modules were applied in order, later ones never touched.
    assert_eq!(sim.loaded, vec![false, false, true, true]);
    assert_eq!(*trace.last().unwrap(), Action::ApplyModule { index: 2, unload: true });
}

#[test]
fn restart_failure_reported_after_target_applied() {
    let mut sim = Sim::hybrid();
    sim.fail_restart = true;
    let (result, _) = sim.run(GpuMode::Integrated);
    assert_eq!(result, Err(GfxError::DisplayManagerRestartFailed));
    assert_eq!(sim.modprobe, Some(modprobe_config_content()));
    assert_eq!(sim.xorg, None);
    assert!(!sim.dm_running);
}

#[test]
fn unsettable_mode_rejected() {
    let mut sim = Sim::hybrid();
    let (result, trace) = sim.run(GpuMode::Vfio);
    assert_eq!(result, Err(GfxError::UnsupportedMode));
    assert_eq!(trace, vec![Action::ReadState]);
}

#[test]
fn unsupported_platform_rejects_every_change() {
    let mut sim = Sim::hybrid();
    sim.supported = false;
    let (result, trace) = sim.run(GpuMode::Integrated);
    assert_eq!(result, Err(GfxError::UnsupportedMode));
    assert_eq!(trace, vec![Action::ReadState]);
    assert_eq!(sim.modprobe, None);
    assert_eq!(sim.xorg, None);
}

#[test]
fn drifted_environment_fails_verification() {
    let mut sim = Sim::hybrid();
    sim.drift_on_verify = Some(GpuMode::Hybrid);
    let (result, _) = sim.run(GpuMode::Integrated);
    assert_eq!(result, Err(GfxError::VerificationFailed));
}
