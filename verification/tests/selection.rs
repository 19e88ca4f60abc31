//! Device selection against capability and presentation-support
//! fixtures.

use titan_engine::error::Error;
use titan_engine::registry::Registry;
use titan_engine::selection::{
    select_physical_device, PhysicalDeviceInfo, QueueFamilyProperties,
};

fn device(rank: u32, families: &[(bool, bool)]) -> PhysicalDeviceInfo {
    PhysicalDeviceInfo {
        handle: 0,
        type_rank: rank,
        queue_families: families
            .iter()
            .map(|&(graphics, present)| QueueFamilyProperties { graphics, present })
            .collect(),
    }
}

#[test]
fn suitability_requires_shared_family() {
    // Graphics on family 0, presentation on family 1, never together.
    let split = device(0, &[(true, false), (false, true)]);
    assert!(!split.is_suitable());
    // One family does both.
    let shared = device(0, &[(true, true)]);
    assert!(shared.is_suitable());
    // No presentation at all.
    let headless = device(0, &[(true, false)]);
    assert!(!headless.is_suitable());
    // No queue family at all.
    let empty = device(0, &[]);
    assert!(!empty.is_suitable());
}

#[test]
fn first_graphics_family_is_reported() {
    let d = device(0, &[(false, true), (true, false), (true, true)]);
    assert_eq!(d.graphics_family_index(), Some(1));
    let none = device(0, &[(false, true)]);
    assert_eq!(none.graphics_family_index(), None);
}

#[test]
fn only_presenting_device_is_selected() {
    // Three devices; only the second supports presentation.
    let mut registry: Registry<PhysicalDeviceInfo> = Registry::new();
    let first = registry.insert(device(10, &[(true, false)]));
    let second = registry.insert(device(0, &[(true, true)]));
    let third = registry.insert(device(10, &[(true, false)]));
    let candidates = vec![first, second, third];
    let selected = select_physical_device(&mut registry, &candidates).unwrap();
    assert_eq!(selected, second);
    // No trace of the rejected candidates remains.
    assert!(!registry.contains(first));
    assert!(!registry.contains(third));
    assert!(registry.contains(second));
}

#[test]
fn highest_rank_wins() {
    let mut registry: Registry<PhysicalDeviceInfo> = Registry::new();
    let integrated = registry.insert(device(1, &[(true, true)]));
    let discrete = registry.insert(device(5, &[(true, true)]));
    let candidates = vec![integrated, discrete];
    let selected = select_physical_device(&mut registry, &candidates).unwrap();
    assert_eq!(selected, discrete);
    assert!(!registry.contains(integrated));
}

#[test]
fn ties_resolve_to_first_in_enumeration_order() {
    let mut registry: Registry<PhysicalDeviceInfo> = Registry::new();
    let first = registry.insert(device(5, &[(true, true)]));
    let second = registry.insert(device(5, &[(true, true)]));
    let candidates = vec![first, second];
    let selected = select_physical_device(&mut registry, &candidates).unwrap();
    assert_eq!(selected, first);
    assert!(!registry.contains(second));
}

#[test]
fn no_suitable_device_is_fatal_and_cleans_up() {
    let mut registry: Registry<PhysicalDeviceInfo> = Registry::new();
    let a = registry.insert(device(3, &[(true, false)]));
    let b = registry.insert(device(7, &[(false, true)]));
    let candidates = vec![a, b];
    let result = select_physical_device(&mut registry, &candidates);
    assert_eq!(result, Err(Error::NoSuitableDevice));
    assert!(!registry.contains(a));
    assert!(!registry.contains(b));
}
