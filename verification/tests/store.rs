use shmtest::shm::HEADER_BYTES;
use shmtest::store_customer::ShmStore as CustomerStore;
use shmtest::store_owner::ShmStore as OwnerStore;
use shmtest::{ShmDefinition, ShmError, TestRecord};

fn open_pair(
    size: usize,
) -> (
    OwnerStore<i32, TestRecord>,
    shmtest::shm::MutableShmMap<TestRecord>,
    CustomerStore<i32, TestRecord>,
) {
    let (owner, region) = OwnerStore::open(ShmDefinition::new("test_store".to_string(), size));
    let customer = CustomerStore::open(ShmDefinition::new("test_store".to_string(), size));
    (owner, region, customer)
}

#[test]
fn put_then_get_returns_the_record() {
    let (mut owner, mut region, mut customer) = open_pair(1024);
    assert!(owner.put(&mut region, TestRecord { value: (1, 11) }).is_ok());
    let got = customer.get(&region, &1).unwrap();
    assert_eq!(got.value, (1, 11));
}

#[test]
fn second_put_with_same_key_wins() {
    // put(r) with a new key then get(r.key()) returns r; a second put with
    // the same key then get returns the second value only
    let (mut owner, mut region, mut customer) = open_pair(1024);
    assert!(owner.put(&mut region, TestRecord { value: (1, 11) }).is_ok());
    assert_eq!(customer.get(&region, &1).unwrap().value, (1, 11));
    assert!(owner.put(&mut region, TestRecord { value: (1, 21) }).is_ok());
    assert_eq!(customer.get(&region, &1).unwrap().value, (1, 21));
    // the slot was overwritten in place: the store did not grow
    assert_eq!(region.counter(), 1);
}

#[test]
fn get_on_unwritten_key_fails_with_key_not_found() {
    // including immediately after opening against an empty store
    let (mut owner, mut region, mut customer) = open_pair(1024);
    assert_eq!(customer.get(&region, &1), Err(ShmError::KeyNotFound));
    assert!(owner.put(&mut region, TestRecord { value: (1, 11) }).is_ok());
    assert!(owner.put(&mut region, TestRecord { value: (2, 12) }).is_ok());
    assert_eq!(customer.get(&region, &3), Err(ShmError::KeyNotFound));
}

#[test]
fn put_on_full_store_fails_with_out_of_capacity() {
    // room for exactly two 8-byte records after the header
    let size = HEADER_BYTES + 2 * std::mem::size_of::<TestRecord>();
    let (mut owner, mut region, mut customer) = open_pair(size);
    assert!(owner.put(&mut region, TestRecord { value: (1, 11) }).is_ok());
    assert!(owner.put(&mut region, TestRecord { value: (2, 12) }).is_ok());
    assert_eq!(
        owner.put(&mut region, TestRecord { value: (3, 13) }),
        Err(ShmError::OutOfCapacity)
    );
    // nothing was written by the failed put
    assert_eq!(region.counter(), 2);
    assert_eq!(customer.get(&region, &3), Err(ShmError::KeyNotFound));
    // updating an existing key still works on a full store
    assert!(owner.put(&mut region, TestRecord { value: (1, 31) }).is_ok());
    assert_eq!(customer.get(&region, &1).unwrap().value, (1, 31));
}

#[test]
fn customer_catches_up_on_records_added_between_calls() {
    let (mut owner, mut region, mut customer) = open_pair(1024);
    assert!(owner.put(&mut region, TestRecord { value: (1, 11) }).is_ok());
    assert_eq!(customer.get(&region, &1).unwrap().value, (1, 11));
    // the owner appends while the customer already holds an index
    assert!(owner.put(&mut region, TestRecord { value: (4, 14) }).is_ok());
    assert_eq!(customer.get(&region, &4).unwrap().value, (4, 14));
}

#[test]
fn producer_flow_with_update_and_late_key() {
    // the demonstration flow: three fresh keys, one update, one more key
    let (mut owner, mut region, mut customer) = open_pair(1024);
    assert!(owner.put(&mut region, TestRecord { value: (1, 11) }).is_ok());
    assert!(owner.put(&mut region, TestRecord { value: (2, 12) }).is_ok());
    assert!(owner.put(&mut region, TestRecord { value: (3, 13) }).is_ok());
    assert!(owner.put(&mut region, TestRecord { value: (1, 21) }).is_ok());
    assert!(owner.put(&mut region, TestRecord { value: (4, 14) }).is_ok());
    assert_eq!(customer.get(&region, &1).unwrap().value, (1, 21));
    assert_eq!(customer.get(&region, &2).unwrap().value, (2, 12));
    assert_eq!(customer.get(&region, &3).unwrap().value, (3, 13));
    assert_eq!(customer.get(&region, &4).unwrap().value, (4, 14));
    assert_eq!(region.counter(), 4);
}

#[test]
fn two_customers_index_independently() {
    let (mut owner, mut region, mut customer) = open_pair(1024);
    let mut other = CustomerStore::<i32, TestRecord>::open(ShmDefinition::new(
        "test_store".to_string(),
        1024,
    ));
    assert!(owner.put(&mut region, TestRecord { value: (1, 11) }).is_ok());
    assert_eq!(customer.get(&region, &1).unwrap().value, (1, 11));
    assert_eq!(other.get(&region, &1).unwrap().value, (1, 11));
    assert!(owner.put(&mut region, TestRecord { value: (2, 12) }).is_ok());
    assert_eq!(other.get(&region, &2).unwrap().value, (2, 12));
    assert_eq!(customer.get(&region, &2).unwrap().value, (2, 12));
}
