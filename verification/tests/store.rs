use kvstore::store::{KvError, Store};

fn temp_store() -> (Store, tempfile::TempDir) {
    let dir = tempfile::tempdir().unwrap();
    let env = heed::EnvOpenOptions::new().open(dir.path()).unwrap();
    (Store::open(env).unwrap(), dir)
}

#[test]
fn get_absent_yields_not_found() {
    let (store, _dir) = temp_store();

    assert_eq!(store.get("nowhere"), Err(KvError::NotFound));
}

#[test]
fn create_then_get_round_trip() {
    let (mut store, _dir) = temp_store();

    let value = "line one\nline two \"quoted\" \\ and some unicode: \u{e9}\u{1f600}";
    assert_eq!(store.put_if_absent("k", value), Ok(()));

    assert_eq!(store.get("k").unwrap(), value);
}

#[test]
fn update_idempotent() {
    let (mut store, _dir) = temp_store();

    store.put_if_absent("a", "1").unwrap();
    store.put_unconditional("k", "v").unwrap();
    let once = store.list_all().unwrap();

    store.put_unconditional("k", "v").unwrap();
    let twice = store.list_all().unwrap();

    assert_eq!(once, twice);
}

#[test]
fn duplicate_rejection() {
    let (mut store, _dir) = temp_store();

    assert_eq!(store.put_if_absent("k", "first"), Ok(()));
    assert_eq!(store.put_if_absent("k", "second"), Err(KvError::AlreadyExists));

    assert_eq!(store.get("k").unwrap(), "first");
}

#[test]
fn delete_semantics() {
    let (mut store, _dir) = temp_store();

    assert_eq!(store.delete("k"), Err(KvError::NotFound));

    store.put_if_absent("k", "v").unwrap();
    assert_eq!(store.delete("k"), Ok(()));

    assert_eq!(store.get("k"), Err(KvError::NotFound));
}

#[test]
fn clear_all_empties() {
    let (mut store, _dir) = temp_store();

    store.put_if_absent("a", "1").unwrap();
    store.put_if_absent("b", "2").unwrap();
    store.put_unconditional("c", "3").unwrap();

    assert_eq!(store.clear_all(), Ok(()));

    assert_eq!(store.list_all().unwrap(), vec![]);
}

#[test]
fn list_all_sorted_by_key() {
    let (mut store, _dir) = temp_store();

    store.put_if_absent("pear", "3").unwrap();
    store.put_if_absent("apple", "1").unwrap();
    store.put_if_absent("banana", "2").unwrap();

    let entries = store.list_all().unwrap();

    assert_eq!(
        entries,
        vec![
            ("apple".to_string(), "1".to_string()),
            ("banana".to_string(), "2".to_string()),
            ("pear".to_string(), "3".to_string()),
        ]
    );
}

#[test]
fn update_overwrites_existing() {
    let (mut store, _dir) = temp_store();

    store.put_if_absent("k", "old").unwrap();
    store.put_unconditional("k", "new").unwrap();

    assert_eq!(store.get("k").unwrap(), "new");
    assert_eq!(store.list_all().unwrap().len(), 1);
}
