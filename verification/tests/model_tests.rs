use vibe_server::catalog::ModelPath;
use vibe_server::error::ErrorKind;
use vibe_server::model::{ModelResource, ModelSlot};

fn path(filename: &str) -> ModelPath {
    ModelPath { directory: "/models".to_string(), filename: filename.to_string() }
}

#[test]
fn a_new_slot_is_empty() {
    let slot: ModelSlot<u32> = ModelSlot::new();
    assert_eq!(slot.handle(), None);
    assert_eq!(slot.path(), None);
    assert!(slot.needs_load(&path("base.bin")));
}

#[test]
fn a_load_records_the_handle_with_its_path() {
    let mut slot: ModelSlot<u32> = ModelSlot::new();
    assert!(slot.complete_load(&path("base.bin"), Ok(7)).is_ok());
    assert_eq!(slot.handle(), Some(&7));
    assert_eq!(slot.path(), Some(&path("base.bin")));
    assert!(!slot.needs_load(&path("base.bin")));
    assert!(slot.needs_load(&path("small.bin")));
}

#[test]
fn a_refused_load_leaves_the_slot_as_it_was() {
    let mut slot: ModelSlot<u32> = ModelSlot::new();
    slot.complete_load(&path("base.bin"), Ok(7)).unwrap();
    let error = slot.complete_load(&path("small.bin"), Err("bad magic".to_string())).unwrap_err();
    assert_eq!(error.kind, ErrorKind::ModelLoadFailed);
    assert_eq!(error.message, "Failed to initialize Whisper context: bad magic");
    assert_eq!(slot.handle(), Some(&7));
    assert_eq!(slot.path(), Some(&path("base.bin")));
}

#[test]
fn a_refused_load_leaves_an_empty_slot_empty() {
    let mut slot: ModelSlot<u32> = ModelSlot::new();
    assert!(slot.complete_load(&path("base.bin"), Err("no".to_string())).is_err());
    assert_eq!(slot.handle(), None);
    assert_eq!(slot.path(), None);
}

#[test]
fn another_model_replaces_the_loaded_one() {
    let mut slot: ModelSlot<u32> = ModelSlot::new();
    slot.complete_load(&path("base.bin"), Ok(7)).unwrap();
    slot.complete_load(&path("small.bin"), Ok(8)).unwrap();
    assert_eq!(slot.handle(), Some(&8));
    assert_eq!(slot.path(), Some(&path("small.bin")));
}

#[test]
fn ensure_loaded_loads_once_for_the_same_path() {
    let mut slot: ModelSlot<u32> = ModelSlot::new();
    let mut calls = 0;
    slot.ensure_loaded(&path("base.bin"), |_| {
        calls += 1;
        Ok(1)
    })
    .unwrap();
    slot.ensure_loaded(&path("base.bin"), |_| {
        calls += 1;
        Ok(2)
    })
    .unwrap();
    assert_eq!(calls, 1);
    assert_eq!(slot.handle(), Some(&1));
}

#[test]
fn ensure_loaded_hands_the_requested_path_to_the_engine() {
    let mut slot: ModelSlot<String> = ModelSlot::new();
    slot.ensure_loaded(&path("base.bin"), |p| Ok(format!("{}/{}", p.directory, p.filename)))
        .unwrap();
    assert_eq!(slot.handle(), Some(&"/models/base.bin".to_string()));
}

#[test]
fn ensure_loaded_follows_the_last_load_that_completed() {
    let mut slot: ModelSlot<u32> = ModelSlot::new();
    slot.ensure_loaded(&path("a.bin"), |_| Ok(1)).unwrap();
    assert!(slot.ensure_loaded(&path("b.bin"), |_| Err("refused".to_string())).is_err());
    assert_eq!(slot.path(), Some(&path("a.bin")));
    assert_eq!(slot.handle(), Some(&1));
    slot.ensure_loaded(&path("c.bin"), |_| Ok(3)).unwrap();
    assert_eq!(slot.path(), Some(&path("c.bin")));
    slot.ensure_loaded(&path("a.bin"), |_| Ok(4)).unwrap();
    assert_eq!(slot.path(), Some(&path("a.bin")));
    assert_eq!(slot.handle(), Some(&4));
}

#[test]
fn only_one_lease_is_out_at_a_time() {
    let mut resource: ModelResource<u32> = ModelResource::new();
    assert!(!resource.held());
    let lease = resource.acquire_exclusive();
    assert!(lease.is_some());
    assert!(resource.held());
    assert!(resource.acquire_exclusive().is_none());
    assert!(resource.acquire_exclusive().is_none());
    resource.release(lease.unwrap());
    assert!(!resource.held());
    assert!(resource.acquire_exclusive().is_some());
}

#[test]
fn the_slot_comes_back_as_the_holder_left_it() {
    let mut resource: ModelResource<u32> = ModelResource::new();
    let mut lease = resource.acquire_exclusive().unwrap();
    assert!(lease.needs_load(&path("base.bin")));
    lease.complete_load(&path("base.bin"), Ok(7)).unwrap();
    resource.release(lease);
    let mut next = resource.acquire_exclusive().unwrap();
    assert!(!next.needs_load(&path("base.bin")));
    assert_eq!(next.slot().handle(), Some(&7));
    let mut calls = 0;
    next.ensure_loaded(&path("base.bin"), |_| {
        calls += 1;
        Ok(9)
    })
    .unwrap();
    assert_eq!(calls, 0);
    assert!(next.ensure_loaded(&path("small.bin"), |_| Err("no".to_string())).is_err());
    assert_eq!(next.slot().handle(), Some(&7));
}
