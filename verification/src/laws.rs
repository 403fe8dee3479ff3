//! The engine's laws: what whole transitions do to a host, proved over
//! `machine::spec_run` for every combination of environment failures the
//! fault model can express.

use vstd::prelude::*;

use crate::config::modprobe_template;
use crate::config::spec_xorg_primary_active;
use crate::config::xorg_template;
use crate::config::lemma_primary_template_has_clause;
use crate::machine::Action;
use crate::machine::Transition;
use crate::machine::Faults;
use crate::machine::Host;
use crate::machine::host_wf;
use crate::machine::no_faults;
use crate::machine::phase_rank;
use crate::machine::phase_sub;
use crate::machine::spec_action;
use crate::machine::spec_current_mode;
use crate::machine::spec_run;
use crate::machine::spec_perform;
use crate::machine::spec_run_from;
use crate::machine::spec_start;
use crate::machine::spec_step;
use crate::mode::GfxError;
use crate::mode::GpuMode;
use crate::mode::spec_blacklist_flag;
use crate::mode::spec_settable;
use crate::mode::spec_xorg_flag;
use crate::modules::MANAGED_MODULE_COUNT;

verus! {

/// The host a successful transition towards `m` leaves behind: both files
/// hold exactly what the mode calls for, every managed module is loaded or
/// unloaded per the blacklist flag, and the display manager runs.
pub open spec fn host_after(h: Host, m: GpuMode) -> Host {
    Host {
        supported: h.supported,
        modprobe_file: if spec_blacklist_flag(m) {
            Option::Some(modprobe_template())
        } else {
            Option::None
        },
        xorg_file: if spec_xorg_flag(m) {
            Option::Some(xorg_template(true))
        } else {
            Option::None
        },
        modules_loaded: Seq::new(MANAGED_MODULE_COUNT as nat, |i: int| !spec_blacklist_flag(m)),
        dm_running: true,
    }
}

/// The full action sequence of a transition that goes through: read, stop
/// the display manager, write both files, apply every managed module in
/// declared order, restart the display manager, re-read to verify.
pub open spec fn full_trace(m: GpuMode) -> Seq<Action> {
    seq![
        Action::ReadState,
        Action::StopDisplayManager,
        Action::WriteXorgConfig { primary: spec_xorg_flag(m) },
        Action::WriteModprobeConfig { active: spec_blacklist_flag(m) },
        Action::ApplyModule { index: 0, unload: spec_blacklist_flag(m) },
        Action::ApplyModule { index: 1, unload: spec_blacklist_flag(m) },
        Action::ApplyModule { index: 2, unload: spec_blacklist_flag(m) },
        Action::ApplyModule { index: 3, unload: spec_blacklist_flag(m) },
        Action::RestartDisplayManager,
        Action::ReadState,
    ]
}

/// Requesting the mode the host already has performs exactly one read —
/// no file, module or service mutation — and succeeds, whatever the
/// environment would have failed.
pub proof fn lemma_idempotent_noop(h: Host, f: Faults)
    ensures
        spec_run(spec_current_mode(h), h, f).host == h,
        spec_run(spec_current_mode(h), h, f).result == Result::<GpuMode, GfxError>::Ok(
            spec_current_mode(h),
        ),
        spec_run(spec_current_mode(h), h, f).trace =~= seq![Action::ReadState],
{
    reveal_with_fuel(spec_run_from, 3);
}

/// The mode a host reads back after a successful transition is the mode the
/// transition wrote.
proof fn lemma_host_after_reads_back(h: Host, m: GpuMode)
    requires
        h.supported,
        spec_settable(m),
    ensures
        spec_current_mode(host_after(h, m)) == m,
{
    if spec_xorg_flag(m) {
        lemma_primary_template_has_clause();
    }
    crate::mode::lemma_flags_invert_table(m);
}

/// A transition towards a settable mode the supported host does not already
/// have, with every action succeeding: the verdict is success, the files
/// and modules land exactly on the target, and the actions performed are
/// precisely the full sequence.
pub proof fn lemma_successful_transition(h: Host, m: GpuMode, f: Faults)
    requires
        host_wf(h),
        h.supported,
        spec_settable(m),
        spec_current_mode(h) != m,
        no_faults(f),
    ensures
        spec_run(m, h, f).host =~= host_after(h, m),
        spec_run(m, h, f).result == Result::<GpuMode, GfxError>::Ok(m),
        spec_run(m, h, f).trace =~= full_trace(m),
{
    reveal_with_fuel(spec_run_from, 12);
    lemma_host_after_reads_back(h, m);
    assert(spec_run(m, h, f).host.modules_loaded =~= host_after(h, m).modules_loaded);
}

/// If stopping the display manager fails, the transition aborts with
/// `DisplayManagerBusy` having mutated nothing: it performed exactly the
/// read and the failed stop.
pub proof fn lemma_stop_failure_mutates_nothing(h: Host, m: GpuMode, f: Faults)
    requires
        h.supported,
        spec_settable(m),
        spec_current_mode(h) != m,
        f.stop_dm,
    ensures
        spec_run(m, h, f).host == h,
        spec_run(m, h, f).result == Result::<GpuMode, GfxError>::Err(GfxError::DisplayManagerBusy),
        spec_run(m, h, f).trace =~= seq![Action::ReadState, Action::StopDisplayManager],
{
    reveal_with_fuel(spec_run_from, 4);
}

/// If writing the Xorg drop-in fails, both files and the module state are
/// exactly as before the transition — the write is atomic, a failure never
/// leaves a truncated file — the display manager is restored best-effort,
/// and the verdict is `ConfigWriteFailed`.
pub proof fn lemma_xorg_write_failure_leaves_files(h: Host, m: GpuMode, f: Faults)
    requires
        h.supported,
        spec_settable(m),
        spec_current_mode(h) != m,
        !f.stop_dm,
        f.write_xorg,
    ensures
        spec_run(m, h, f).host.modprobe_file == h.modprobe_file,
        spec_run(m, h, f).host.xorg_file == h.xorg_file,
        spec_run(m, h, f).host.modules_loaded == h.modules_loaded,
        spec_run(m, h, f).host.dm_running == !f.start_dm,
        spec_run(m, h, f).result == Result::<GpuMode, GfxError>::Err(GfxError::ConfigWriteFailed),
        spec_run(m, h, f).trace =~= seq![
            Action::ReadState,
            Action::StopDisplayManager,
            Action::WriteXorgConfig { primary: spec_xorg_flag(m) },
            Action::StartDisplayManager,
        ],
{
    reveal_with_fuel(spec_run_from, 6);
}

/// Reading the mode is a pure function of the on-disk artifacts: a present
/// generated blacklist and no primary-selecting Xorg drop-in mean
/// `Integrated` on any supported host, whatever else the host holds and
/// whatever any earlier in-memory state believed.
pub proof fn lemma_reconciliation(h: Host)
    requires
        h.supported,
        h.modprobe_file == Option::Some(modprobe_template()),
        !spec_xorg_primary_active(h.xorg_file),
    ensures
        spec_current_mode(h) == GpuMode::Integrated,
{
}

/// A host whose daemon-owned files are each either absent or exactly a
/// generated template. Transitions only ever write whole templates or
/// remove files, and failed writes change nothing, so this is the shape
/// every daemon-managed host keeps.
pub open spec fn canonical_files(h: Host) -> bool {
    &&& (h.modprobe_file == Option::<Seq<char>>::None || h.modprobe_file == Option::Some(
        modprobe_template(),
    ))
    &&& (h.xorg_file == Option::<Seq<char>>::None || h.xorg_file == Option::Some(
        xorg_template(true),
    ))
}

/// Whatever mode is requested and whatever the environment fails, a
/// transition keeps the daemon-owned files canonical: each file stays
/// absent or exactly a generated template. Writes are whole templates or
/// removals and a failed write changes nothing, so no transition — however
/// it aborts — can leave a partial or mixed file behind.
pub proof fn lemma_canonical_files_preserved(m: GpuMode, h: Host, f: Faults)
    requires
        canonical_files(h),
    ensures
        canonical_files(spec_run(m, h, f).host),
{
    lemma_canonical_preserved_from(spec_start(m), h, f);
}

proof fn lemma_canonical_preserved_from(t: Transition, h: Host, f: Faults)
    requires
        canonical_files(h),
    ensures
        canonical_files(spec_run_from(t, h, f).host),
    decreases phase_rank(t.phase), phase_sub(t.phase),
{
    match spec_action(t) {
        Option::None => {},
        Option::Some(a) => {
            let (h2, ev) = spec_perform(h, a, f);
            assert(canonical_files(h2));
            lemma_canonical_preserved_from(spec_step(t, ev), h2, f);
        },
    }
}

/// On a canonical host the read mode pins each file exactly: the blacklist
/// is present iff the mode's blacklist flag says so, and likewise for the
/// Xorg drop-in.
proof fn lemma_canonical_files_match_mode(h: Host)
    requires
        h.supported,
        canonical_files(h),
    ensures
        h.modprobe_file == (if spec_blacklist_flag(spec_current_mode(h)) {
            Option::Some(modprobe_template())
        } else {
            Option::<Seq<char>>::None
        }),
        h.xorg_file == (if spec_xorg_flag(spec_current_mode(h)) {
            Option::Some(xorg_template(true))
        } else {
            Option::<Seq<char>>::None
        }),
{
    if h.xorg_file == Option::Some(xorg_template(true)) {
        lemma_primary_template_has_clause();
    }
}

/// Round trip: on a supported host with canonical files, setting mode `a`,
/// then `b`, then `a` again — each transition fault-free — ends with the
/// host reading back `a` and both files holding exactly the generated
/// artifacts of `a`.
pub proof fn lemma_round_trip(h: Host, a: GpuMode, b: GpuMode, f: Faults)
    requires
        host_wf(h),
        h.supported,
        canonical_files(h),
        spec_settable(a),
        spec_settable(b),
        no_faults(f),
    ensures
        ({
            let h1 = spec_run(a, h, f).host;
            let h2 = spec_run(b, h1, f).host;
            let r3 = spec_run(a, h2, f);
            &&& r3.result == Result::<GpuMode, GfxError>::Ok(a)
            &&& spec_current_mode(r3.host) == a
            &&& r3.host.modprobe_file == (if spec_blacklist_flag(a) {
                Option::Some(modprobe_template())
            } else {
                Option::<Seq<char>>::None
            })
            &&& r3.host.xorg_file == (if spec_xorg_flag(a) {
                Option::Some(xorg_template(true))
            } else {
                Option::<Seq<char>>::None
            })
        }),
{
    let h1 = spec_run(a, h, f).host;
    if spec_current_mode(h) == a {
        lemma_idempotent_noop(h, f);
    } else {
        lemma_successful_transition(h, a, f);
        lemma_host_after_reads_back(h, a);
    }
    assert(host_wf(h1) && h1.supported && canonical_files(h1) && spec_current_mode(h1) == a);

    let h2 = spec_run(b, h1, f).host;
    if spec_current_mode(h1) == b {
        lemma_idempotent_noop(h1, f);
    } else {
        lemma_successful_transition(h1, b, f);
        lemma_host_after_reads_back(h1, b);
    }
    assert(host_wf(h2) && h2.supported && canonical_files(h2) && spec_current_mode(h2) == b);

    if spec_current_mode(h2) == a {
        lemma_idempotent_noop(h2, f);
        lemma_canonical_files_match_mode(h2);
    } else {
        lemma_successful_transition(h2, a, f);
        lemma_host_after_reads_back(h2, a);
        lemma_canonical_files_match_mode(spec_run(a, h2, f).host);
    }
}

/// End to end: from a supported host in `Hybrid`, a fault-free
/// `set_mode(DedicatedNvidia)` writes the blacklist template, writes the
/// primary-selecting Xorg drop-in, unloads every managed module in declared
/// order after stopping the display manager and before restarting it, and
/// the final read confirms `DedicatedNvidia`.
pub proof fn lemma_end_to_end_dedicated(h: Host, f: Faults)
    requires
        host_wf(h),
        h.supported,
        spec_current_mode(h) == GpuMode::Hybrid,
        no_faults(f),
    ensures
        ({
            let r = spec_run(GpuMode::DedicatedNvidia, h, f);
            &&& r.result == Result::<GpuMode, GfxError>::Ok(GpuMode::DedicatedNvidia)
            &&& r.host.modprobe_file == Option::Some(modprobe_template())
            &&& r.host.xorg_file == Option::Some(xorg_template(true))
            &&& r.host.modules_loaded =~= Seq::new(MANAGED_MODULE_COUNT as nat, |i: int| false)
            &&& r.host.dm_running
            &&& spec_current_mode(r.host) == GpuMode::DedicatedNvidia
            &&& r.trace =~= seq![
                Action::ReadState,
                Action::StopDisplayManager,
                Action::WriteXorgConfig { primary: true },
                Action::WriteModprobeConfig { active: true },
                Action::ApplyModule { index: 0, unload: true },
                Action::ApplyModule { index: 1, unload: true },
                Action::ApplyModule { index: 2, unload: true },
                Action::ApplyModule { index: 3, unload: true },
                Action::RestartDisplayManager,
                Action::ReadState,
            ]
        }),
{
    lemma_successful_transition(h, GpuMode::DedicatedNvidia, f);
    lemma_host_after_reads_back(h, GpuMode::DedicatedNvidia);
}

} // verus!

