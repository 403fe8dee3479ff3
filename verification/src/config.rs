//! The daemon-owned configuration artifacts: the modprobe blacklist drop-in
//! and the Xorg primary-GPU drop-in.
//!
//! Both files are wholly generated: the engine composes their exact contents
//! here, and classifies on-disk contents against them when deriving the
//! current mode. Anything that is not the exact generated blacklist is
//! treated as foreign and signals no intent; the Xorg file signals
//! dedicated-GPU intent whenever it carries the primary-select clause.

use vstd::prelude::*;

use crate::mode::GpuMode;
use crate::mode::mode_of;
use crate::text::contains_seq;
use crate::text::str_contains;

verus! {

/// Path of the managed modprobe drop-in.
pub const MODPROBE_PATH: &'static str = "/etc/modprobe.d/gfxd.conf";

/// Directory the display server merges Xorg drop-ins from.
pub const XORG_DIR: &'static str = "/etc/X11/xorg.conf.d/";

/// File name of the managed Xorg drop-in, ordered after user configs.
pub const XORG_FILE: &'static str = "90-nvidia-primary.conf";

/// Service unit of the session's display manager.
pub const DISPLAY_MANAGER_UNIT: &'static str = "display-manager.service";

/// Exact content of the modprobe drop-in that blacklists the managed
/// module set and pins the vendor power-management options.
pub const MODPROBE_CONTENT: &'static str = "# gfxd: daemon-owned file, do not edit\n#blacklist i2c_nvidia_gpu\n#alias i2c_nvidia_gpu off\nblacklist nouveau\nalias nouveau off\noptions nvidia NVreg_DynamicPowerManagement=0x02\noptions nvidia-drm modeset=1\n";

/// Fixed preamble of the Xorg drop-in: one OutputClass section matching the
/// vendor driver.
pub const XORG_BEGIN: &'static str = "# gfxd: daemon-owned file, do not edit\nSection \"OutputClass\"\n    Identifier \"nvidia\"\n    MatchDriver \"nvidia-drm\"\n    Driver \"nvidia\"\n    Option \"AllowEmptyInitialConfiguration\"\n    Option \"AllowExternalGpus\"";

/// The optional clause that makes the dedicated GPU the Xorg primary.
pub const XORG_PRIMARY_CLAUSE: &'static str = "\n    Option \"PrimaryGPU\" \"true\"";

/// Fixed closing of the Xorg drop-in.
pub const XORG_END: &'static str = "\nEndSection";

/// The generated blacklist template, as a sequence of characters.
pub open spec fn modprobe_template() -> Seq<char> {
    MODPROBE_CONTENT@
}

/// The clause whose presence in the Xorg drop-in selects the dedicated GPU.
pub open spec fn xorg_primary_clause() -> Seq<char> {
    XORG_PRIMARY_CLAUSE@
}

/// The generated Xorg drop-in, with or without the primary-select clause.
pub open spec fn xorg_template(primary: bool) -> Seq<char> {
    if primary {
        XORG_BEGIN@ + XORG_PRIMARY_CLAUSE@ + XORG_END@
    } else {
        XORG_BEGIN@ + XORG_END@
    }
}

/// Builds the exact modprobe blacklist content.
pub fn modprobe_config_content() -> (r: String)
    ensures
        r@ == modprobe_template(),
{
    MODPROBE_CONTENT.to_owned()
}

/// Composes the Xorg drop-in from the fixed preamble, the optional
/// primary-select clause, and the fixed closing clause.
pub fn xorg_config_content(select_nvidia_primary: bool) -> (r: String)
    ensures
        r@ == xorg_template(select_nvidia_primary),
{
    let mut out = XORG_BEGIN.to_owned();
    if select_nvidia_primary {
        out.append(XORG_PRIMARY_CLAUSE);
    }
    out.append(XORG_END);
    out
}

/// What a (possibly absent) file's content means, as a sequence of
/// characters; `None` models an absent file.
pub open spec fn opt_content(c: Option<String>) -> Option<Seq<char>> {
    match c {
        Option::Some(s) => Option::Some(s@),
        Option::None => Option::None,
    }
}

/// A modprobe file signals blacklist intent only when it is exactly the
/// generated template; partial or hand-edited variants are foreign.
pub open spec fn spec_blacklist_active(content: Option<Seq<char>>) -> bool {
    content == Option::Some(modprobe_template())
}

/// An Xorg drop-in signals dedicated-GPU intent when it carries the
/// primary-select clause.
pub open spec fn spec_xorg_primary_active(content: Option<Seq<char>>) -> bool {
    match content {
        Option::Some(s) => contains_seq(s, xorg_primary_clause()),
        Option::None => false,
    }
}

/// The mode the two files denote, on a platform with the managed module set.
pub open spec fn spec_mode_of_files(
    supported: bool,
    modprobe: Option<Seq<char>>,
    xorg: Option<Seq<char>>,
) -> GpuMode {
    mode_of(supported, spec_blacklist_active(modprobe), spec_xorg_primary_active(xorg))
}

/// Decides whether the modprobe drop-in content is the generated blacklist.
pub fn blacklist_active(content: &Option<String>) -> (r: bool)
    ensures
        r == spec_blacklist_active(opt_content(*content)),
{
    match content {
        Option::Some(s) => {
            let template = modprobe_config_content();
            *s == template
        },
        Option::None => false,
    }
}

/// Decides whether the Xorg drop-in content selects the dedicated GPU.
pub fn xorg_primary_active(content: &Option<String>) -> (r: bool)
    ensures
        r == spec_xorg_primary_active(opt_content(*content)),
{
    match content {
        Option::Some(s) => str_contains(s.as_str(), XORG_PRIMARY_CLAUSE),
        Option::None => false,
    }
}

/// Derives the current mode from the two daemon-owned files.
///
/// This is the whole read path: it keeps no state of its own, so the result
/// can never reflect anything but the artifacts it was handed.
pub fn current_mode_from_files(
    supported: bool,
    modprobe: &Option<String>,
    xorg: &Option<String>,
) -> (m: GpuMode)
    ensures
        m == spec_mode_of_files(supported, opt_content(*modprobe), opt_content(*xorg)),
{
    let blacklisted = blacklist_active(modprobe);
    let primary = xorg_primary_active(xorg);
    crate::mode::mode_from_flags(supported, blacklisted, primary)
}

/// The generated primary-selecting Xorg drop-in does carry the clause.
pub proof fn lemma_primary_template_has_clause()
    ensures
        spec_xorg_primary_active(Option::Some(xorg_template(true))),
{
    let begin_len = XORG_BEGIN@.len() as int;
    let clause_len = XORG_PRIMARY_CLAUSE@.len() as int;
    assert(xorg_template(true).subrange(begin_len, begin_len + clause_len)
        =~= xorg_primary_clause());
    crate::text::lemma_match_witness(xorg_template(true), xorg_primary_clause(), begin_len);
}

} // verus!
