use pastebin::store::classify_fetch;
use pastebin::store::classify_store;
use pastebin::store::str_eq;
use pastebin::store::KvStore;
use pastebin::store::StoreError;

#[test]
fn round_trip_returns_stored_content() {
    let mut store = KvStore::new();
    store.put("key000000001", String::from("some content")).expect("put succeeds");
    match store.get("key000000001") {
        Ok(content) => assert_eq!(content, "some content"),
        Err(_) => panic!("stored key must be found"),
    }
}

#[test]
fn round_trip_preserves_every_byte() {
    let mut store = KvStore::new();
    let content = String::from("line one\nline two\ttabbed — déjà vu ✓");
    store.put("k", content.clone()).expect("put succeeds");
    assert_eq!(store.get("k").unwrap(), content);
}

#[test]
fn round_trip_empty_content() {
    let mut store = KvStore::new();
    store.put("k", String::new()).expect("put succeeds");
    assert_eq!(store.get("k").unwrap(), "");
}

#[test]
fn overwrite_last_write_wins() {
    let mut store = KvStore::new();
    store.put("k", String::from("first")).expect("put succeeds");
    store.put("k", String::from("second")).expect("put succeeds");
    assert_eq!(store.get("k").unwrap(), "second");
}

#[test]
fn distinct_keys_do_not_interfere() {
    let mut store = KvStore::new();
    store.put("a", String::from("alpha")).expect("put succeeds");
    store.put("b", String::from("beta")).expect("put succeeds");
    assert_eq!(store.get("a").unwrap(), "alpha");
    assert_eq!(store.get("b").unwrap(), "beta");
}

#[test]
fn never_stored_key_is_not_found() {
    let store = KvStore::new();
    match store.get("neverstored1") {
        Err(StoreError::NotFound) => {}
        Err(StoreError::Backend(_)) => panic!("a missing key is not a backend failure"),
        Ok(_) => panic!("a missing key holds no content"),
    }
}

#[test]
fn missing_key_distinct_from_other_keys() {
    let mut store = KvStore::new();
    store.put("present", String::from("content")).expect("put succeeds");
    assert!(matches!(store.get("absent"), Err(StoreError::NotFound)));
}

#[test]
fn classify_fetch_present_value() {
    match classify_fetch(Ok(Some(String::from("v")))) {
        Ok(v) => assert_eq!(v, "v"),
        Err(_) => panic!("a present value passes through"),
    }
}

#[test]
fn classify_fetch_absent_key_is_not_found() {
    assert!(matches!(classify_fetch(Ok(None)), Err(StoreError::NotFound)));
}

#[test]
fn classify_fetch_failure_is_backend_not_not_found() {
    match classify_fetch(Err(String::from("connection refused"))) {
        Err(StoreError::Backend(text)) => assert_eq!(text, "connection refused"),
        Err(StoreError::NotFound) => panic!("a failure is not the not-found outcome"),
        Ok(_) => panic!("a failure is not a value"),
    }
}

#[test]
fn classify_store_failure_is_backend() {
    assert!(classify_store(Ok(())).is_ok());
    match classify_store(Err(String::from("write failed"))) {
        Err(StoreError::Backend(text)) => assert_eq!(text, "write failed"),
        _ => panic!("a failed write is a backend error"),
    }
}

#[test]
fn str_eq_compares_characters() {
    assert!(str_eq("abc", "abc"));
    assert!(!str_eq("abc", "abd"));
    assert!(!str_eq("abc", "ab"));
    assert!(str_eq("", ""));
    assert!(str_eq("déjà", "déjà"));
}
