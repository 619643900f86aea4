use titan_core::registry::{register_child, try_register_child, ObjectRecord, ObjectRegistry};

fn root(handle: u64) -> ObjectRecord {
    ObjectRecord { handle, parent: None, second_parent: None }
}

#[test]
fn registered_object_is_read_back() {
    let mut devices = ObjectRegistry::new();
    let key = devices.register(root(0xabc));
    assert_eq!(devices.lookup(key), Some(root(0xabc)));
    assert!(devices.contains(key));
    assert_eq!(devices.parent_of(key), None);
}

#[test]
fn keys_of_live_objects_differ() {
    let mut images = ObjectRegistry::new();
    let a = images.register(root(1));
    let b = images.register(root(2));
    let c = images.register(root(3));
    assert_ne!(a, b);
    assert_ne!(b, c);
    assert_ne!(a, c);
    assert_eq!(images.lookup(a), Some(root(1)));
    assert_eq!(images.lookup(b), Some(root(2)));
    assert_eq!(images.lookup(c), Some(root(3)));
    // The version half of an issued key is odd.
    assert_eq!((a >> 32) % 2, 1);
}

#[test]
fn unregistered_object_is_gone() {
    let mut fences = ObjectRegistry::new();
    let a = fences.register(root(10));
    let b = fences.register(root(11));
    assert_eq!(fences.unregister(a), Some(root(10)));
    assert_eq!(fences.lookup(a), None);
    assert!(!fences.contains(a));
    assert_eq!(fences.unregister(a), None);
    assert_eq!(fences.lookup(b), Some(root(11)));
}

#[test]
fn stale_key_does_not_reach_a_reused_slot() {
    let mut semaphores = ObjectRegistry::new();
    let old = semaphores.register(root(20));
    semaphores.unregister(old);
    let new = semaphores.register(root(21));
    assert_ne!(old, new);
    assert_eq!(semaphores.lookup(old), None);
    assert_eq!(semaphores.lookup(new), Some(root(21)));
}

#[test]
fn child_keeps_its_parents() {
    let mut devices = ObjectRegistry::new();
    let mut render_passes = ObjectRegistry::new();
    let mut layouts = ObjectRegistry::new();
    let mut pipelines = ObjectRegistry::new();
    let device = devices.register(root(1));
    let empty = ObjectRegistry::new();
    let pass = register_child(
        &mut render_passes,
        &devices,
        &empty,
        ObjectRecord { handle: 2, parent: Some(device), second_parent: None },
    );
    let layout = register_child(
        &mut layouts,
        &devices,
        &empty,
        ObjectRecord { handle: 3, parent: Some(device), second_parent: None },
    );
    let record = ObjectRecord { handle: 4, parent: Some(pass), second_parent: Some(layout) };
    let pipeline = register_child(&mut pipelines, &render_passes, &layouts, record);
    assert_eq!(pipelines.lookup(pipeline), Some(record));
    assert_eq!(pipelines.parent_of(pipeline), Some(pass));
}

#[test]
fn child_of_unregistered_parent_is_refused() {
    let mut devices = ObjectRegistry::new();
    let mut framebuffers = ObjectRegistry::new();
    let empty = ObjectRegistry::new();
    let device = devices.register(root(1));
    devices.unregister(device);
    let record = ObjectRecord { handle: 5, parent: Some(device), second_parent: None };
    assert_eq!(try_register_child(&mut framebuffers, &devices, &empty, record), None);
    assert_eq!(framebuffers.lookup(0x1_0000_0001), None);
    let device = devices.register(root(1));
    let record = ObjectRecord { handle: 5, parent: Some(device), second_parent: None };
    let key = try_register_child(&mut framebuffers, &devices, &empty, record).unwrap();
    assert_eq!(framebuffers.lookup(key), Some(record));
}

#[test]
fn registry_counts_its_objects() {
    let mut views = ObjectRegistry::new();
    assert_eq!(views.len(), 0);
    let a = views.register(root(1));
    views.register(root(2));
    assert_eq!(views.len(), 2);
    views.unregister(a);
    assert_eq!(views.len(), 1);
}
