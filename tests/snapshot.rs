use image_rs::overlay::{decimal_string, join_lower_roots, MountStrategy, OverLay};
use image_rs::snapshot::{
    next_state, IndexAllocator, SnapshotOp, SnapshotState, StateError,
};
use std::sync::{Arc, Mutex};

#[test]
fn ids_distinct_and_increasing() {
    let mut alloc = IndexAllocator::new();
    let ids: Vec<usize> = (0..5).map(|_| alloc.next_id().unwrap()).collect();
    assert_eq!(ids, vec![0, 1, 2, 3, 4]);
}

#[test]
fn ids_distinct_under_shared_use() {
    let shared = Arc::new(Mutex::new(IndexAllocator::new()));
    let mut ids: Vec<usize> = Vec::new();
    for _ in 0..8 {
        let a = Arc::clone(&shared);
        let id = a.lock().unwrap().next_id().unwrap();
        ids.push(id);
    }
    let mut sorted = ids.clone();
    sorted.sort();
    sorted.dedup();
    assert_eq!(sorted.len(), 8);
    assert_eq!(sorted, (0..8).collect::<Vec<usize>>());
}

#[test]
fn prepare_uses_id_scoped_dirs() {
    let mut ov = OverLay::new("/var/lib/snap".to_string());
    let a = ov.prepare(vec!["/l/a".to_string(), "/l/b".to_string()]).unwrap();
    let b = ov.prepare(vec!["/l/a".to_string()]).unwrap();
    assert_eq!(a.id(), 0);
    assert_eq!(b.id(), 1);
    assert_eq!(a.upper_dir(), "/var/lib/snap/0/upperdir");
    assert_eq!(a.work_dir(), "/var/lib/snap/0/workdir");
    assert_eq!(b.upper_dir(), "/var/lib/snap/1/upperdir");
    assert_ne!(a.upper_dir(), b.upper_dir());
    assert_eq!(a.state(), SnapshotState::Prepared);
    assert_eq!(a.lower_roots(), vec!["/l/a".to_string(), "/l/b".to_string()]);
}

#[test]
fn mount_options_keep_topmost_first() {
    let mut ov = OverLay::new("/d".to_string());
    let s = ov.prepare(vec!["/A".to_string(), "/B".to_string()]).unwrap();
    assert_eq!(
        s.mount_options(),
        "lowerdir=/A:/B,upperdir=/d/0/upperdir,workdir=/d/0/workdir"
    );
    assert_eq!(s.copy_order(), vec!["/B".to_string(), "/A".to_string()]);
}

#[test]
fn unmount_of_prepared_refused() {
    let mut ov = OverLay::new("/d".to_string());
    let mut s = ov.prepare(vec!["/A".to_string()]).unwrap();
    assert_eq!(s.apply(SnapshotOp::Unmount), Err(StateError::NotMounted));
    assert_eq!(s.state(), SnapshotState::Prepared);
}

#[test]
fn remove_of_mounted_refused() {
    let mut ov = OverLay::new("/d".to_string());
    let mut s = ov.prepare(vec!["/A".to_string()]).unwrap();
    s.record_mount("/mnt/x".to_string(), MountStrategy::KernelOverlay).unwrap();
    assert_eq!(s.apply(SnapshotOp::Remove), Err(StateError::NotRemovable));
    assert_eq!(s.state(), SnapshotState::Mounted);
}

#[test]
fn full_lifecycle_succeeds() {
    let mut ov = OverLay::new("/d".to_string());
    let mut s = ov.prepare(vec!["/A".to_string(), "/B".to_string()]).unwrap();
    let m = s.record_mount("/mnt/x".to_string(), MountStrategy::KernelOverlay).unwrap();
    assert_eq!(m.kind, "overlay");
    assert_eq!(m.mount_path, "/mnt/x");
    assert_eq!(m.work_dir, "/d/0");
    assert_eq!(s.scratch_dir(), "/d/0");
    assert_eq!(s.record_mount("/mnt/y".to_string(), MountStrategy::Flatten).unwrap_err(), StateError::NotPrepared);
    assert_eq!(s.apply(SnapshotOp::Unmount), Ok(()));
    assert_eq!(s.upper_dir(), "/d/0/upperdir");
    assert_eq!(s.apply(SnapshotOp::Remove), Ok(()));
    assert_eq!(s.state(), SnapshotState::Removed);
    assert_eq!(s.apply(SnapshotOp::Remove), Err(StateError::NotRemovable));
}

#[test]
fn failed_mount_removes() {
    assert_eq!(
        next_state(SnapshotState::Prepared, SnapshotOp::MountFailed),
        Ok(SnapshotState::Removed)
    );
    assert_eq!(
        next_state(SnapshotState::Unmounted, SnapshotOp::Mount),
        Err(StateError::NotPrepared)
    );
}

#[test]
fn decimal_and_join() {
    assert_eq!(decimal_string(0), "0");
    assert_eq!(decimal_string(7), "7");
    assert_eq!(decimal_string(1203), "1203");
    assert_eq!(decimal_string(usize::MAX), usize::MAX.to_string());
    assert_eq!(join_lower_roots(&vec![]), "");
    assert_eq!(join_lower_roots(&vec!["/x".to_string()]), "/x");
    assert_eq!(
        join_lower_roots(&vec!["/x".to_string(), "/y".to_string(), "/z".to_string()]),
        "/x:/y:/z"
    );
}

#[test]
fn flattened_mount_reports_its_strategy() {
    let mut ov = OverLay::new("/d".to_string());
    let _first = ov.prepare(vec!["/A".to_string()]).unwrap();
    let mut s = ov.prepare(vec!["/A".to_string(), "/B".to_string()]).unwrap();
    let m = s.record_mount("/mnt/f".to_string(), MountStrategy::Flatten).unwrap();
    assert_eq!(m.kind, "flatten");
    assert_ne!(m.kind, "overlay");
    assert_eq!(m.work_dir, "/d/1");
    assert_eq!(s.state(), SnapshotState::Mounted);
}
