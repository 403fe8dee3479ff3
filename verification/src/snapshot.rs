//! Plain snapshot types the daemon's clients keep of subsystem state.
//!
//! The transport layer queries each subsystem and hands the raw answers in
//! as plain values; the constructors here own the one decision involved —
//! fall back to a fixed default wherever the platform lacks the capability —
//! so that a snapshot never carries a value the platform cannot have
//! produced.

use vstd::prelude::*;

use crate::mode::GpuMode;

verus! {

/// Length of the keyboard wave effect's colour history.
pub const WAVE_LEN: usize = 22;

/// Snapshot of the anime-matrix display controls.
#[derive(Clone, Copy, Debug, PartialEq, Eq, Structural)]
pub struct AnimeState {
    /// Display brightness the clients start from.
    pub bright: u8,
    /// The matrix animates during boot.
    pub boot: bool,
    /// The matrix animates while the machine is awake.
    pub awake: bool,
    /// The matrix animates during sleep.
    pub sleep: bool,
}

impl AnimeState {
    /// Builds the snapshot from the queried toggles; on a platform without
    /// the matrix both toggles read as off.
    pub fn new(supported: bool, boot: bool, awake: bool) -> (r: Self)
        ensures
            r.boot == (supported && boot),
            r.awake == (supported && awake),
            !r.sleep,
            r.bright == 200,
    {
        AnimeState { bright: 200, boot: supported && boot, awake: supported && awake, sleep: false }
    }
}

impl Default for AnimeState {
    fn default() -> (r: Self)
        ensures
            r == (AnimeState { bright: 0, boot: false, awake: false, sleep: false }),
    {
        AnimeState { bright: 0, boot: false, awake: false, sleep: false }
    }
}

/// Snapshot of mains and battery-charge state.
#[derive(Clone, Copy, Debug, PartialEq, Eq, Structural)]
pub struct PowerState {
    /// Percentage the battery charges up to.
    pub charge_limit: u8,
    /// The machine runs on mains power.
    pub ac_power: bool,
}

impl PowerState {
    /// Builds the snapshot from the queried values.
    pub fn new(charge_limit: u8, ac_power: bool) -> (r: Self)
        ensures
            r.charge_limit == charge_limit,
            r.ac_power == ac_power,
    {
        PowerState { charge_limit, ac_power }
    }
}

impl Default for PowerState {
    fn default() -> (r: Self)
        ensures
            r == (PowerState { charge_limit: 0, ac_power: false }),
    {
        PowerState { charge_limit: 0, ac_power: false }
    }
}

/// Power state of the dedicated GPU as the mode daemon reports it.
#[derive(Clone, Copy, Debug, PartialEq, Eq, Structural)]
pub enum GfxPower {
    /// The dedicated GPU is powered and in use.
    Active,
    /// The dedicated GPU is runtime-suspended.
    Suspended,
    /// The dedicated GPU is powered off.
    Off,
    /// The daemon could not be asked.
    Unknown,
}

/// Snapshot of the mode daemon's view: whether it answered at all, and the
/// mode and GPU power it reported.
#[derive(Clone, Copy, Debug, PartialEq, Eq, Structural)]
pub struct GfxState {
    /// The mode daemon answered the mode query.
    pub has_supergfx: bool,
    /// The reported mode, `NotSupported` when the daemon was unreachable.
    pub mode: GpuMode,
    /// The reported GPU power, `Unknown` when the daemon was unreachable.
    pub power_status: GfxPower,
}

impl GfxState {
    /// Builds the snapshot from the two query results; an unanswered query
    /// falls back to the explicit unknown values, never to a guess.
    pub fn new(mode: Option<GpuMode>, power_status: Option<GfxPower>) -> (r: Self)
        ensures
            r.has_supergfx == (mode is Some),
            r.mode == (if mode is Some {
                mode->0
            } else {
                GpuMode::NotSupported
            }),
            r.power_status == (if power_status is Some {
                power_status->0
            } else {
                GfxPower::Unknown
            }),
    {
        GfxState {
            has_supergfx: mode.is_some(),
            mode: match mode {
                Option::Some(m) => m,
                Option::None => GpuMode::NotSupported,
            },
            power_status: match power_status {
                Option::Some(p) => p,
                Option::None => GfxPower::Unknown,
            },
        }
    }
}

impl Default for GfxState {
    fn default() -> (r: Self)
        ensures
            r == (GfxState {
                has_supergfx: false,
                mode: GpuMode::NotSupported,
                power_status: GfxPower::Unknown,
            }),
    {
        GfxState { has_supergfx: false, mode: GpuMode::NotSupported, power_status: GfxPower::Unknown }
    }
}

/// Snapshot of the firmware toggles.
#[derive(Clone, Copy, Debug, PartialEq, Eq, Structural)]
pub struct BiosState {
    /// The firmware plays the POST sound.
    pub post_sound: bool,
    /// The firmware's own mux setting.
    pub dedicated_gfx: GpuMode,
    /// The panel runs overdriven refresh.
    pub panel_overdrive: bool,
    /// The firmware can disable the dedicated GPU entirely.
    pub dgpu_disable: bool,
    /// The firmware can enable an external GPU.
    pub egpu_enable: bool,
}

impl BiosState {
    /// Builds the snapshot from the queried values, falling back per field
    /// where the firmware lacks the control. The POST sound is reported by
    /// the firmware as a raw integer, nonzero meaning enabled.
    pub fn new(
        supports_post_sound: bool,
        post_sound_raw: i16,
        supports_gpu_mux: bool,
        mux_mode: GpuMode,
        supports_panel_overdrive: bool,
        panel_overdrive: bool,
        dgpu_disable: bool,
        egpu_enable: bool,
    ) -> (r: Self)
        ensures
            r.post_sound == (supports_post_sound && post_sound_raw != 0),
            r.dedicated_gfx == (if supports_gpu_mux {
                mux_mode
            } else {
                GpuMode::NotSupported
            }),
            r.panel_overdrive == (supports_panel_overdrive && panel_overdrive),
            r.dgpu_disable == dgpu_disable,
            r.egpu_enable == egpu_enable,
    {
        BiosState {
            post_sound: supports_post_sound && post_sound_raw != 0,
            dedicated_gfx: if supports_gpu_mux {
                mux_mode
            } else {
                GpuMode::NotSupported
            },
            panel_overdrive: supports_panel_overdrive && panel_overdrive,
            dgpu_disable,
            egpu_enable,
        }
    }
}

impl Default for BiosState {
    fn default() -> (r: Self)
        ensures
            r == (BiosState {
                post_sound: false,
                dedicated_gfx: GpuMode::NotSupported,
                panel_overdrive: false,
                dgpu_disable: false,
                egpu_enable: false,
            }),
    {
        BiosState {
            post_sound: false,
            dedicated_gfx: GpuMode::NotSupported,
            panel_overdrive: false,
            dgpu_disable: false,
            egpu_enable: false,
        }
    }
}

/// A platform power profile.
#[derive(Clone, Copy, Debug, PartialEq, Eq, Structural)]
pub enum Profile {
    /// The balanced default.
    Balanced,
    /// Full performance.
    Performance,
    /// Quiet, low-power operation.
    Quiet,
}

impl Default for Profile {
    fn default() -> (r: Self)
        ensures
            r == Profile::Balanced,
    {
        Profile::Balanced
    }
}

/// The fixed order profiles are presented in.
pub open spec fn profile_rank(p: Profile) -> int {
    match p {
        Profile::Balanced => 0,
        Profile::Performance => 1,
        Profile::Quiet => 2,
    }
}

/// How often a profile occurs in a list.
pub open spec fn count_profile(s: Seq<Profile>, p: Profile) -> int
    decreases s.len(),
{
    if s.len() == 0 {
        0
    } else {
        count_profile(s.drop_last(), p) + if s.last() == p {
            1int
        } else {
            0int
        }
    }
}

/// The list is ordered by `profile_rank`.
pub open spec fn sorted_by_rank(s: Seq<Profile>) -> bool {
    forall|i: int, j: int| 0 <= i <= j < s.len() ==> profile_rank(s[i]) <= profile_rank(s[j])
}

/// Appending one profile bumps exactly its own count.
proof fn lemma_count_push(s: Seq<Profile>, x: Profile, p: Profile)
    ensures
        count_profile(s.push(x), p) == count_profile(s, p) + if x == p {
            1int
        } else {
            0int
        },
{
    assert(s.push(x).drop_last() =~= s);
    assert(s.push(x).last() == x);
}

/// One more element of a prefix bumps exactly that element's count.
proof fn lemma_count_take_step(s: Seq<Profile>, i: int, p: Profile)
    requires
        0 <= i < s.len(),
    ensures
        count_profile(s.take(i + 1), p) == count_profile(s.take(i), p) + if s[i] == p {
            1int
        } else {
            0int
        },
{
    assert(s.take(i + 1).drop_last() =~= s.take(i));
    assert(s.take(i + 1).last() == s[i]);
}

/// Orders a profile list by `profile_rank`, keeping exactly the profiles it
/// was handed: the result is sorted and every profile occurs exactly as
/// often as before.
pub fn sort_profiles(list: &Vec<Profile>) -> (r: Vec<Profile>)
    ensures
        r@.len() == list@.len(),
        sorted_by_rank(r@),
        forall|p: Profile| count_profile(r@, p) == count_profile(list@, p),
{
    let mut balanced: usize = 0;
    let mut performance: usize = 0;
    let mut quiet: usize = 0;
    let mut i: usize = 0;
    while i < list.len()
        invariant
            i <= list@.len(),
            balanced == count_profile(list@.take(i as int), Profile::Balanced),
            performance == count_profile(list@.take(i as int), Profile::Performance),
            quiet == count_profile(list@.take(i as int), Profile::Quiet),
            balanced + performance + quiet == i,
        decreases list@.len() - i,
    {
        proof {
            lemma_count_take_step(list@, i as int, Profile::Balanced);
            lemma_count_take_step(list@, i as int, Profile::Performance);
            lemma_count_take_step(list@, i as int, Profile::Quiet);
        }
        match list[i] {
            Profile::Balanced => balanced += 1,
            Profile::Performance => performance += 1,
            Profile::Quiet => quiet += 1,
        }
        i += 1;
    }
    proof {
        assert(list@.take(list@.len() as int) =~= list@);
    }
    let mut r: Vec<Profile> = Vec::new();
    let mut k: usize = 0;
    while k < balanced
        invariant
            k <= balanced,
            r@.len() == k,
            count_profile(r@, Profile::Balanced) == k,
            count_profile(r@, Profile::Performance) == 0,
            count_profile(r@, Profile::Quiet) == 0,
            forall|n: int| 0 <= n < r@.len() ==> r@[n] == Profile::Balanced,
        decreases balanced - k,
    {
        proof {
            lemma_count_push(r@, Profile::Balanced, Profile::Balanced);
            lemma_count_push(r@, Profile::Balanced, Profile::Performance);
            lemma_count_push(r@, Profile::Balanced, Profile::Quiet);
        }
        r.push(Profile::Balanced);
        k += 1;
    }
    let mut k: usize = 0;
    while k < performance
        invariant
            k <= performance,
            r@.len() == balanced + k,
            count_profile(r@, Profile::Balanced) == balanced,
            count_profile(r@, Profile::Performance) == k,
            count_profile(r@, Profile::Quiet) == 0,
            forall|n: int| 0 <= n < r@.len() ==> profile_rank(r@[n]) <= 1,
            sorted_by_rank(r@),
        decreases performance - k,
    {
        proof {
            lemma_count_push(r@, Profile::Performance, Profile::Balanced);
            lemma_count_push(r@, Profile::Performance, Profile::Performance);
            lemma_count_push(r@, Profile::Performance, Profile::Quiet);
        }
        r.push(Profile::Performance);
        k += 1;
    }
    let mut k: usize = 0;
    while k < quiet
        invariant
            k <= quiet,
            r@.len() == balanced + performance + k,
            count_profile(r@, Profile::Balanced) == balanced,
            count_profile(r@, Profile::Performance) == performance,
            count_profile(r@, Profile::Quiet) == k,
            sorted_by_rank(r@),
        decreases quiet - k,
    {
        proof {
            lemma_count_push(r@, Profile::Quiet, Profile::Balanced);
            lemma_count_push(r@, Profile::Quiet, Profile::Performance);
            lemma_count_push(r@, Profile::Quiet, Profile::Quiet);
        }
        r.push(Profile::Quiet);
        k += 1;
    }
    r
}

/// Snapshot of the platform-profile subsystem: which profiles exist and
/// which one is active.
#[derive(Clone, Debug)]
pub struct ProfilesState {
    /// Every available profile, in presentation order.
    pub list: Vec<Profile>,
    /// The active profile.
    pub current: Profile,
}

impl ProfilesState {
    /// Builds the snapshot from the queried profile list and active profile.
    /// Where the platform has no profile support the list is empty and the
    /// active profile reads as the balanced default.
    pub fn new(supported: bool, available: &Vec<Profile>, active: Profile) -> (r: Self)
        ensures
            supported ==> {
                &&& r.list@.len() == available@.len()
                &&& sorted_by_rank(r.list@)
                &&& forall|p: Profile| count_profile(r.list@, p) == count_profile(available@, p)
                &&& r.current == active
            },
            !supported ==> r.list@ =~= Seq::<Profile>::empty() && r.current == Profile::Balanced,
    {
        if supported {
            ProfilesState { list: sort_profiles(available), current: active }
        } else {
            ProfilesState { list: Vec::new(), current: Profile::Balanced }
        }
    }
}

impl Default for ProfilesState {
    fn default() -> (r: Self)
        ensures
            r.list@ =~= Seq::<Profile>::empty(),
            r.current == Profile::Balanced,
    {
        ProfilesState { list: Vec::new(), current: Profile::Balanced }
    }
}

/// The rolling colour history behind the keyboard wave effect: three
/// channels, newest sample first.
#[derive(Clone, Debug)]
pub struct WavePattern {
    /// Red channel, newest first.
    pub wave_red: Vec<u8>,
    /// Green channel, newest first.
    pub wave_green: Vec<u8>,
    /// Blue channel, newest first.
    pub wave_blue: Vec<u8>,
}

impl WavePattern {
    /// Each channel holds exactly the fixed history length.
    pub open spec fn wf(&self) -> bool {
        &&& self.wave_red@.len() == WAVE_LEN
        &&& self.wave_green@.len() == WAVE_LEN
        &&& self.wave_blue@.len() == WAVE_LEN
    }

    /// A dark history: every sample zero.
    pub fn new() -> (r: Self)
        ensures
            r.wf(),
            forall|i: int| 0 <= i < WAVE_LEN ==> r.wave_red@[i] == 0,
            forall|i: int| 0 <= i < WAVE_LEN ==> r.wave_green@[i] == 0,
            forall|i: int| 0 <= i < WAVE_LEN ==> r.wave_blue@[i] == 0,
    {
        WavePattern { wave_red: zero_wave(), wave_green: zero_wave(), wave_blue: zero_wave() }
    }

    /// Bumps a sample into the wave and surfs everything else along: the new
    /// sample becomes the head, every prior sample moves one place back, and
    /// the oldest falls off.
    pub fn nudge_wave(&mut self, r: u8, g: u8, b: u8)
        requires
            old(self).wf(),
        ensures
            final(self).wf(),
            final(self).wave_red@ =~= seq![r] + old(self).wave_red@.take(WAVE_LEN - 1),
            final(self).wave_green@ =~= seq![g] + old(self).wave_green@.take(WAVE_LEN - 1),
            final(self).wave_blue@ =~= seq![b] + old(self).wave_blue@.take(WAVE_LEN - 1),
    {
        self.wave_red = shifted(&self.wave_red, r);
        self.wave_green = shifted(&self.wave_green, g);
        self.wave_blue = shifted(&self.wave_blue, b);
    }
}

/// A channel of the fixed length, all dark.
fn zero_wave() -> (r: Vec<u8>)
    ensures
        r@.len() == WAVE_LEN,
        forall|i: int| 0 <= i < WAVE_LEN ==> r@[i] == 0,
{
    let mut v: Vec<u8> = Vec::new();
    let mut i: usize = 0;
    while i < WAVE_LEN
        invariant
            i <= WAVE_LEN,
            v@.len() == i,
            forall|k: int| 0 <= k < i ==> v@[k] == 0,
        decreases WAVE_LEN - i,
    {
        v.push(0);
        i += 1;
    }
    v
}

/// One channel surfed along: the new sample first, then all but the last
/// prior sample.
fn shifted(v: &Vec<u8>, first: u8) -> (r: Vec<u8>)
    requires
        v@.len() == WAVE_LEN,
    ensures
        r@.len() == WAVE_LEN,
        r@ =~= seq![first] + v@.take(WAVE_LEN - 1),
{
    let mut out: Vec<u8> = Vec::new();
    out.push(first);
    let mut i: usize = 0;
    while i < WAVE_LEN - 1
        invariant
            v@.len() == WAVE_LEN,
            i <= WAVE_LEN - 1,
            out@.len() == i + 1,
            out@[0] == first,
            forall|k: int| 0 <= k < i ==> out@[k + 1] == v@[k],
        decreases WAVE_LEN - i,
    {
        out.push(v[i]);
        i += 1;
    }
    out
}

} // verus!
