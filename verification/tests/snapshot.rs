use gfxd::mode::GpuMode;
use gfxd::snapshot::AnimeState;
use gfxd::snapshot::BiosState;
use gfxd::snapshot::GfxPower;
use gfxd::snapshot::GfxState;
use gfxd::snapshot::PowerState;
use gfxd::snapshot::Profile;
use gfxd::snapshot::ProfilesState;
use gfxd::snapshot::sort_profiles;
use gfxd::snapshot::WavePattern;
use gfxd::snapshot::WAVE_LEN;

#[test]
fn anime_snapshot_falls_back_when_unsupported() {
    let s = AnimeState::new(true, true, false);
    assert!(s.boot);
    assert!(!s.awake);
    assert!(!s.sleep);
    assert_eq!(s.bright, 200);
    let unsupported = AnimeState::new(false, true, true);
    assert!(!unsupported.boot);
    assert!(!unsupported.awake);
    assert_eq!(AnimeState::default().bright, 0);
}

#[test]
fn power_snapshot_carries_the_queried_values() {
    let p = PowerState::new(80, true);
    assert_eq!(p.charge_limit, 80);
    assert!(p.ac_power);
    assert_eq!(PowerState::default(), PowerState::new(0, false));
}

#[test]
fn gfx_snapshot_distinguishes_an_unreachable_daemon() {
    let answered = GfxState::new(Some(GpuMode::Hybrid), Some(GfxPower::Suspended));
    assert!(answered.has_supergfx);
    assert_eq!(answered.mode, GpuMode::Hybrid);
    assert_eq!(answered.power_status, GfxPower::Suspended);
    let unreachable = GfxState::new(None, None);
    assert!(!unreachable.has_supergfx);
    assert_eq!(unreachable.mode, GpuMode::NotSupported);
    assert_eq!(unreachable.power_status, GfxPower::Unknown);
    assert_eq!(GfxState::default(), unreachable);
}

#[test]
fn bios_snapshot_falls_back_per_field() {
    let s = BiosState::new(true, 1, true, GpuMode::DedicatedNvidia, false, true, true, false);
    assert!(s.post_sound);
    assert_eq!(s.dedicated_gfx, GpuMode::DedicatedNvidia);
    assert!(!s.panel_overdrive);
    assert!(s.dgpu_disable);
    assert!(!s.egpu_enable);
    let muted = BiosState::new(true, 0, false, GpuMode::DedicatedNvidia, true, true, false, true);
    assert!(!muted.post_sound);
    assert_eq!(muted.dedicated_gfx, GpuMode::NotSupported);
    assert!(muted.panel_overdrive);
}

#[test]
fn profile_sort_orders_and_keeps_every_entry() {
    let list = vec![
        Profile::Quiet,
        Profile::Balanced,
        Profile::Performance,
        Profile::Quiet,
        Profile::Balanced,
    ];
    assert_eq!(
        sort_profiles(&list),
        vec![
            Profile::Balanced,
            Profile::Balanced,
            Profile::Performance,
            Profile::Quiet,
            Profile::Quiet,
        ]
    );
    assert_eq!(sort_profiles(&Vec::new()), Vec::new());
}

#[test]
fn profiles_snapshot_sorts_or_falls_back() {
    let available = vec![Profile::Quiet, Profile::Performance, Profile::Balanced];
    let s = ProfilesState::new(true, &available, Profile::Quiet);
    assert_eq!(
        s.list,
        vec![Profile::Balanced, Profile::Performance, Profile::Quiet]
    );
    assert_eq!(s.current, Profile::Quiet);
    let fallback = ProfilesState::new(false, &available, Profile::Quiet);
    assert!(fallback.list.is_empty());
    assert_eq!(fallback.current, Profile::Balanced);
    assert_eq!(Profile::default(), Profile::Balanced);
    assert!(ProfilesState::default().list.is_empty());
}

#[test]
fn nudge_wave_surfs_samples_along() {
    let mut w = WavePattern::new();
    assert_eq!(w.wave_red.len(), WAVE_LEN);
    w.nudge_wave(10, 20, 30);
    w.nudge_wave(1, 2, 3);
    assert_eq!(w.wave_red[0], 1);
    assert_eq!(w.wave_red[1], 10);
    assert_eq!(w.wave_red[2], 0);
    assert_eq!(w.wave_green[0], 2);
    assert_eq!(w.wave_green[1], 20);
    assert_eq!(w.wave_blue[0], 3);
    assert_eq!(w.wave_blue[1], 30);
    assert_eq!(w.wave_red.len(), WAVE_LEN);
    // The oldest sample falls off the end.
    for _ in 0..WAVE_LEN {
        w.nudge_wave(0, 0, 0);
    }
    assert_eq!(w.wave_red, vec![0u8; WAVE_LEN]);
}
