//! The managed kernel module set.
//!
//! The vendor driver stack is unloaded and blacklisted as one atomic logical
//! unit: unloading only a subset leaves the running session's GPU stack
//! inconsistent. The declared order puts dependents before dependencies and
//! is the order every transition applies them in.

use vstd::prelude::*;

verus! {

/// How many modules the managed set holds.
pub const MANAGED_MODULE_COUNT: usize = 4;

/// The managed module names, dependents first.
pub open spec fn spec_managed_modules() -> Seq<Seq<char>> {
    seq!["nvidia_drm"@, "nvidia_uvm"@, "nvidia_modeset"@, "nvidia"@]
}

/// The name of the managed module at a position of the declared order.
pub fn managed_module_name(index: usize) -> (r: &'static str)
    requires
        index < MANAGED_MODULE_COUNT,
    ensures
        r@ == spec_managed_modules()[index as int],
{
    if index == 0 {
        "nvidia_drm"
    } else if index == 1 {
        "nvidia_uvm"
    } else if index == 2 {
        "nvidia_modeset"
    } else {
        "nvidia"
    }
}

/// The managed module names in declared dependency order.
pub fn managed_modules() -> (r: Vec<&'static str>)
    ensures
        r@.len() == MANAGED_MODULE_COUNT,
        forall|i: int| 0 <= i < r@.len() ==> r@[i]@ == spec_managed_modules()[i],
{
    let mut v: Vec<&'static str> = Vec::new();
    v.push("nvidia_drm");
    v.push("nvidia_uvm");
    v.push("nvidia_modeset");
    v.push("nvidia");
    v
}

/// Whether a list of module names (as read from the live kernel's module
/// table) holds the given name.
pub fn list_has_module(loaded: &Vec<String>, name: &str) -> (r: bool)
    ensures
        r == exists|i: int| 0 <= i < loaded@.len() && loaded@[i]@ == name@,
{
    let target: String = name.to_owned();
    let mut i: usize = 0;
    while i < loaded.len()
        invariant
            target@ == name@,
            i <= loaded@.len(),
            forall|k: int| 0 <= k < i ==> loaded@[k]@ != name@,
        decreases loaded@.len() - i,
    {
        if loaded[i] == target {
            return true;
        }
        i += 1;
    }
    false
}

/// For each managed module, in declared order: is it among the loaded
/// module names. This is how the live kernel state is cross-checked against
/// the intent the config files encode.
pub fn managed_loaded_flags(loaded: &Vec<String>) -> (r: Vec<bool>)
    ensures
        r@.len() == MANAGED_MODULE_COUNT,
        forall|i: int| 0 <= i < r@.len() ==> r@[i] == exists|k: int|
            0 <= k < loaded@.len() && loaded@[k]@ == spec_managed_modules()[i],
{
    let mut r: Vec<bool> = Vec::new();
    let mut i: usize = 0;
    while i < MANAGED_MODULE_COUNT
        invariant
            i <= MANAGED_MODULE_COUNT,
            r@.len() == i,
            forall|j: int| 0 <= j < i ==> r@[j] == exists|k: int|
                0 <= k < loaded@.len() && loaded@[k]@ == spec_managed_modules()[j],
        decreases MANAGED_MODULE_COUNT - i,
    {
        let name = managed_module_name(i);
        r.push(list_has_module(loaded, name));
        i += 1;
    }
    r
}

} // verus!
