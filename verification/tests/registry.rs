//! The keyed registry: keys resolve until removal and never afterwards,
//! even when a slot index is reused.

use titan_engine::registry::Registry;

#[test]
fn insert_then_get_resolves() {
    let mut registry: Registry<u32> = Registry::new();
    let k = registry.insert(7);
    assert_eq!(registry.get(k), Some(&7));
    assert!(registry.contains(k));
}

#[test]
fn removed_key_never_resolves() {
    let mut registry: Registry<u32> = Registry::new();
    let k = registry.insert(1);
    assert_eq!(registry.remove(k), Some(1));
    assert_eq!(registry.get(k), None);
    assert_eq!(registry.remove(k), None);
}

#[test]
fn stale_key_dead_after_slot_reuse() {
    let mut registry: Registry<u32> = Registry::new();
    let first = registry.insert(10);
    assert_eq!(registry.remove(first), Some(10));
    // The freed slot is reused, but under a new generation.
    let second = registry.insert(20);
    assert_ne!(first, second);
    assert_eq!(registry.get(first), None);
    assert_eq!(registry.get(second), Some(&20));
}

#[test]
fn keys_stable_under_unrelated_operations() {
    let mut registry: Registry<u32> = Registry::new();
    let a = registry.insert(1);
    let b = registry.insert(2);
    let c = registry.insert(3);
    assert_eq!(registry.remove(b), Some(2));
    // Unrelated removal and insertion leave other keys untouched.
    let d = registry.insert(4);
    assert_eq!(registry.get(a), Some(&1));
    assert_eq!(registry.get(c), Some(&3));
    assert_eq!(registry.get(d), Some(&4));
    assert_eq!(registry.get(b), None);
}

#[test]
fn long_insert_remove_sequence() {
    let mut registry: Registry<usize> = Registry::new();
    let mut dead = Vec::new();
    for round in 0..5usize {
        let keys: Vec<_> = (0..4).map(|i| registry.insert(round * 10 + i)).collect();
        for (i, k) in keys.iter().enumerate() {
            assert_eq!(registry.get(*k), Some(&(round * 10 + i)));
        }
        for k in keys {
            assert!(registry.remove(k).is_some());
            dead.push(k);
        }
        // No retired key from any earlier round resolves again.
        for k in &dead {
            assert_eq!(registry.get(*k), None);
        }
    }
}
