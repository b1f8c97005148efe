use dotlottie_ffi::registry::{Handle, Registry, HALF};

#[test]
fn new_registry_has_no_live_handle() {
    let registry: Registry<u32> = Registry::new();
    assert!(!registry.is_live(Handle::null()));
    assert!(!registry.is_live(Handle { index: 0, generation: 1 }));
    assert!(registry.get(Handle { index: 0, generation: 1 }).is_none());
    assert!(!registry.check_exhausted());
}

#[test]
fn created_handle_is_live_and_not_null() {
    let mut registry: Registry<&str> = Registry::new();
    let handle = registry.create("first");
    assert!(!handle.check_null());
    assert_ne!(handle.to_raw(), 0);
    assert!(registry.is_live(handle));
    assert_eq!(registry.get(handle), Some(&"first"));
}

#[test]
fn handles_of_two_instances_differ() {
    let mut registry: Registry<u32> = Registry::new();
    let a = registry.create(10);
    let b = registry.create(20);
    assert_ne!(a, b);
    assert_eq!(registry.get(a), Some(&10));
    assert_eq!(registry.get(b), Some(&20));
}

#[test]
fn destroy_hands_back_the_instance_once() {
    let mut registry: Registry<String> = Registry::new();
    let handle = registry.create(String::from("engine"));
    assert_eq!(registry.destroy(handle), Some(String::from("engine")));
    assert_eq!(registry.destroy(handle), None);
    assert!(!registry.is_live(handle));
    assert!(registry.get(handle).is_none());
    assert!(registry.get_mut(handle).is_none());
}

#[test]
fn destroyed_handle_never_names_a_later_instance() {
    let mut registry: Registry<u32> = Registry::new();
    let old = registry.create(1);
    registry.destroy(old);
    let mut issued = vec![old];
    for round in 0..50u32 {
        let next = registry.create(100 + round);
        assert!(!issued.contains(&next));
        assert!(!registry.is_live(old));
        assert_eq!(registry.get(next), Some(&(100 + round)));
        if round % 2 == 0 {
            registry.destroy(next);
        }
        issued.push(next);
    }
    assert!(registry.get(old).is_none());
}

#[test]
fn slot_is_reused_with_the_next_generation() {
    let mut registry: Registry<u32> = Registry::new();
    let first = registry.create(1);
    assert_eq!(first, Handle { index: 0, generation: 1 });
    registry.destroy(first);
    let second = registry.create(2);
    assert_eq!(second, Handle { index: 0, generation: 2 });
    let third = registry.create(3);
    assert_eq!(third, Handle { index: 1, generation: 1 });
}

#[test]
fn destroying_one_handle_leaves_the_others() {
    let mut registry: Registry<u32> = Registry::new();
    let a = registry.create(1);
    let b = registry.create(2);
    let c = registry.create(3);
    assert_eq!(registry.destroy(b), Some(2));
    assert_eq!(registry.get(a), Some(&1));
    assert_eq!(registry.get(c), Some(&3));
}

#[test]
fn get_mut_changes_the_instance_in_place() {
    let mut registry: Registry<Vec<u8>> = Registry::new();
    let a = registry.create(vec![1]);
    let b = registry.create(vec![2]);
    registry.get_mut(a).unwrap().push(9);
    assert_eq!(registry.get(a), Some(&vec![1, 9]));
    assert_eq!(registry.get(b), Some(&vec![2]));
}

#[test]
fn fuzzed_handles_are_rejected() {
    let mut registry: Registry<u32> = Registry::new();
    let live = registry.create(5);
    let dead = registry.create(6);
    registry.destroy(dead);
    let mut raw: u64 = 0x9e37_79b9_7f4a_7c15;
    for _ in 0..2000 {
        raw ^= raw << 13;
        raw ^= raw >> 7;
        raw ^= raw << 17;
        let handle = Handle::from_raw(raw);
        if handle != live {
            assert!(registry.get(handle).is_none());
            assert!(!registry.is_live(handle));
        }
    }
    for raw in 0..64u64 {
        let handle = Handle::from_raw(raw);
        assert!(handle.check_null());
        assert!(registry.get(handle).is_none());
    }
    assert!(registry.get(dead).is_none());
    assert_eq!(registry.get(live), Some(&5));
}

#[test]
fn raw_value_round_trips() {
    assert_eq!(HALF, 1u64 << 32);
    assert_eq!(Handle::null().to_raw(), 0);
    assert_eq!(Handle::from_raw(0), Handle::null());
    let handle = Handle { index: 7, generation: 3 };
    assert_eq!(handle.to_raw(), (3u64 << 32) | 7);
    assert_eq!(Handle::from_raw(handle.to_raw()), handle);
    for raw in [1u64, 0xffff_ffff, 0x1_0000_0000, 0xdead_beef_0000_0001, u64::MAX] {
        assert_eq!(Handle::from_raw(raw).to_raw(), raw);
    }
    let top = Handle { index: u32::MAX, generation: u32::MAX };
    assert_eq!(top.to_raw(), u64::MAX);
}
