use shmtest::bench_records::{build_light_record, LigthRecord};
use shmtest::shm::{region_capacity, MutableShmMap, ShmMap, HEADER_BYTES};
use shmtest::{Key, Record, ShmDefinition, ShmError, TestRecord};

#[test]
fn definition_keeps_name_and_size() {
    let d = ShmDefinition::new("test_region".to_string(), 1024);
    assert_eq!(d.name, "test_region");
    assert_eq!(d.size, 1024);
}

#[test]
fn capacity_formula_exact_values() {
    assert_eq!(HEADER_BYTES, 8);
    // a 1024-byte region of single bytes: everything after the header
    assert_eq!(region_capacity(1024, 1), 1016);
    // 16-byte elements in a 1024-byte region
    assert_eq!(region_capacity(1024, 16), 63);
    // a partial trailing element does not count
    assert_eq!(region_capacity(30, 16), 1);
    // no room after the header
    assert_eq!(region_capacity(8, 4), 0);
    // smaller than the header
    assert_eq!(region_capacity(7, 1), 0);
    // zero-sized elements never fit
    assert_eq!(region_capacity(1024, 0), 0);
}

#[test]
fn region_commit_publishes_in_order() {
    let d = ShmDefinition::new("test_region".to_string(), 16);
    let mut m: MutableShmMap<u8> = MutableShmMap::create(d);
    assert_eq!(m.counter(), 0);
    m.commit(5);
    m.commit(6);
    assert_eq!(m.counter(), 2);
    assert_eq!(m.read_slot(0), 5);
    assert_eq!(m.read_slot(1), 6);
    m.overwrite(0, 7);
    assert_eq!(m.counter(), 2);
    assert_eq!(m.read_slot(0), 7);
    assert_eq!(m.read_slot(1), 6);
}

#[test]
fn region_base_offset_is_zero() {
    let d = ShmDefinition::new("test_region".to_string(), 16);
    let m: MutableShmMap<u8> = MutableShmMap::create(d);
    assert_eq!(m.start_ptr(), 0);
    let attached = ShmMap::open(ShmDefinition::new("test_region".to_string(), 16));
    assert_eq!(attached.start_ptr(), 0);
    assert!(attached.close().is_ok());
    assert!(m.close().is_ok());
}

#[test]
fn key_eq_agrees_with_equality() {
    assert!(1i32.key_eq(&1));
    assert!(!1i32.key_eq(&2));
    assert!(7usize.key_eq(&7));
    assert!(!7usize.key_eq(&8));
}

#[test]
fn record_keys_come_from_first_component() {
    let t = TestRecord { value: (3, 13) };
    assert_eq!(t.key(), 3);
    let l = LigthRecord { value: (9, 99) };
    assert_eq!(l.key(), 9);
}

#[test]
fn light_record_is_one_based_with_stamp() {
    let r = build_light_record(0, 42);
    assert_eq!(r.value.0, 1);
    assert_eq!(r.value.1, 42);
    let r2 = build_light_record(9, 7);
    assert_eq!(r2.value.0, 10);
    assert_eq!(r2.value.1, 7);
}

#[test]
fn error_values_are_distinguishable() {
    assert_ne!(ShmError::AlreadyExists, ShmError::NotFound);
    assert_ne!(ShmError::OutOfCapacity, ShmError::KeyNotFound);
    assert_eq!(ShmError::Os(17), ShmError::Os(17));
    assert_ne!(ShmError::Os(17), ShmError::Os(2));
    assert_ne!(ShmError::SyncTimeout, ShmError::Os(0));
}
