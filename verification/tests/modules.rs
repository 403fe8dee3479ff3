use gfxd::modules::list_has_module;
use gfxd::modules::managed_loaded_flags;
use gfxd::modules::managed_module_name;
use gfxd::modules::managed_modules;
use gfxd::modules::MANAGED_MODULE_COUNT;

#[test]
fn managed_set_in_dependency_order() {
    assert_eq!(MANAGED_MODULE_COUNT, 4);
    assert_eq!(
        managed_modules(),
        vec!["nvidia_drm", "nvidia_uvm", "nvidia_modeset", "nvidia"]
    );
    for (i, name) in managed_modules().iter().enumerate() {
        assert_eq!(managed_module_name(i), *name);
    }
}

#[test]
fn module_lookup_in_loaded_list() {
    let loaded = vec![
        String::from("snd_hda_intel"),
        String::from("nvidia"),
        String::from("i915"),
    ];
    assert!(list_has_module(&loaded, "nvidia"));
    assert!(!list_has_module(&loaded, "nvidia_drm"));
    assert!(!list_has_module(&Vec::new(), "nvidia"));
}

#[test]
fn loaded_flags_follow_declared_order() {
    let loaded = vec![String::from("nvidia"), String::from("nvidia_drm")];
    assert_eq!(managed_loaded_flags(&loaded), vec![true, false, false, true]);
    assert_eq!(managed_loaded_flags(&Vec::new()), vec![false, false, false, false]);
}
