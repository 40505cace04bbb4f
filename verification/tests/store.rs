use httpmsg::{Header, HeaderName, HeaderStore};

fn custom(name: &'static str, value: &'static str) -> Header<'static> {
    Header::new(HeaderName::classify(name), value)
}

#[test]
fn append_up_to_capacity_then_fail() {
    let mut store = HeaderStore::new(3);
    assert_eq!(store.capacity(), 3);
    assert_eq!(store.len(), 0);
    for i in 0..3usize {
        assert!(store.add_header(custom("X-A", "v")).is_ok());
        assert_eq!(store.len(), i + 1);
        assert!(store.len() <= store.capacity());
    }
    // the store is full: the next append is rejected and changes nothing
    assert!(store.add_header(custom("X-A", "v")).is_err());
    assert_eq!(store.len(), 3);
    assert!(store.len() <= store.capacity());
}

#[test]
fn zero_capacity_store_rejects_first_append() {
    let mut store = HeaderStore::new(0);
    assert!(store.add_header(custom("X-A", "v")).is_err());
    assert_eq!(store.len(), 0);
}

#[test]
fn get_reads_populated_slots_in_order() {
    let mut store = HeaderStore::new(2);
    store.add_header(custom("X-First", "1")).unwrap();
    store.add_header(custom("X-Second", "2")).unwrap();
    let first = store.get(0);
    assert!(matches!(first.name, HeaderName::Custom(c) if c == "X-First"));
    assert_eq!(first.value, "1");
    let second = store.get(1);
    assert!(matches!(second.name, HeaderName::Custom(c) if c == "X-Second"));
    assert_eq!(second.value, "2");
}

#[test]
fn bulk_append_that_fits() {
    let mut store = HeaderStore::new(4);
    store.add_header(custom("X-A", "a")).unwrap();
    let more = vec![custom("X-B", "b"), custom("X-C", "c")];
    assert!(store.add_headers(more).is_ok());
    assert_eq!(store.len(), 3);
    assert_eq!(store.get(1).value, "b");
    assert_eq!(store.get(2).value, "c");
}

#[test]
fn bulk_append_past_capacity_fills_then_fails() {
    let mut store = HeaderStore::new(2);
    let more = vec![custom("X-A", "a"), custom("X-B", "b"), custom("X-C", "c")];
    assert!(store.add_headers(more).is_err());
    // append-until-failure: the first headers fill the store to its capacity
    assert_eq!(store.len(), 2);
    assert_eq!(store.get(0).value, "a");
    assert_eq!(store.get(1).value, "b");
}
