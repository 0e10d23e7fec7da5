use kvstore::store::Store;

fn open_store() -> (Store, tempfile::TempDir) {
    let dir = tempfile::tempdir().unwrap();
    let env = heed::EnvOpenOptions::new().open(dir.path()).unwrap();
    (Store::open(env).unwrap(), dir)
}

fn parse(body: &str) -> serde_json::Value {
    serde_json::from_str(body).unwrap()
}

fn kv_value(key: &str, value: &str) -> serde_json::Value {
    let mut m = serde_json::Map::new();
    m.insert("key".to_string(), serde_json::Value::String(key.to_string()));
    m.insert(
        "value".to_string(),
        serde_json::Value::String(value.to_string()),
    );
    serde_json::Value::Object(m)
}

#[test]
fn get_all() {
    let (store, _dir) = open_store();

    let response = kvstore::handler::get_all(&store);

    assert_eq!(response.status, 200);
}

#[test]
fn get_missing_key() {
    let (store, _dir) = open_store();

    let response = kvstore::handler::get_key(&store, "this-shouldn't-be-found");

    assert_eq!(response.status, 404);
}

#[test]
fn create_and_get_existing_key() {
    let (mut store, _dir) = open_store();

    kvstore::handler::create_key(&mut store, "foo", "bar");

    let response = kvstore::handler::get_key(&store, "foo");

    assert_eq!(response.status, 200);

    assert_eq!(parse(&response.body), kv_value("foo", "bar"));
}

#[test]
fn create_key() {
    let (mut store, _dir) = open_store();

    let response = kvstore::handler::create_key(&mut store, "foo", "bar");

    assert_eq!(response.status, 201);
}

#[test]
fn create_duplicate() {
    let (mut store, _dir) = open_store();

    kvstore::handler::create_key(&mut store, "foo", "bar");

    let response = kvstore::handler::create_key(&mut store, "foo", "bar");

    assert_eq!(response.status, 400);
}

#[test]
fn update_key() {
    let (mut store, _dir) = open_store();

    kvstore::handler::create_key(&mut store, "foo", "bar");

    let response = kvstore::handler::update_key(&mut store, "foo", "baz");

    assert_eq!(response.status, 200);

    let response = kvstore::handler::get_key(&store, "foo");

    assert_eq!(response.status, 200);

    assert_eq!(parse(&response.body), kv_value("foo", "baz"));
}

#[test]
fn delete_all() {
    let (mut store, _dir) = open_store();

    kvstore::handler::create_key(&mut store, "foo", "bar");

    let response = kvstore::handler::delete_all(&mut store);

    assert_eq!(response.status, 200);

    let response = kvstore::handler::get_all(&store);

    assert_eq!(response.status, 200);

    assert_eq!(parse(&response.body), serde_json::Value::Array(vec![]));
}

#[test]
fn delete_key() {
    let (mut store, _dir) = open_store();

    kvstore::handler::create_key(&mut store, "foo", "bar");

    let response = kvstore::handler::delete_key(&mut store, "foo");

    assert_eq!(response.status, 200);

    let response = kvstore::handler::get_key(&store, "foo");

    assert_eq!(response.status, 404);
}

#[test]
fn end_to_end_scenario() {
    let (mut store, _dir) = open_store();

    let response = kvstore::handler::create_key(&mut store, "foo", "bar");
    assert_eq!(response.status, 201);
    assert_eq!(response.body, "{\"key\":\"foo\",\"value\":\"bar\"}");

    let response = kvstore::handler::get_key(&store, "foo");
    assert_eq!(response.status, 200);
    assert_eq!(response.body, "{\"key\":\"foo\",\"value\":\"bar\"}");

    let response = kvstore::handler::update_key(&mut store, "foo", "baz");
    assert_eq!(response.status, 200);
    assert_eq!(response.body, "{\"key\":\"foo\",\"value\":\"baz\"}");

    let response = kvstore::handler::delete_key(&mut store, "foo");
    assert_eq!(response.status, 200);
    assert_eq!(response.body, "{\"key\":\"foo\"}");

    let response = kvstore::handler::get_key(&store, "foo");
    assert_eq!(response.status, 404);
    assert_eq!(response.body, "{\"error\":\"Key not found\"}");
}

#[test]
fn create_duplicate_error_body() {
    let (mut store, _dir) = open_store();

    kvstore::handler::create_key(&mut store, "foo", "bar");

    let response = kvstore::handler::create_key(&mut store, "foo", "other");

    assert_eq!(response.status, 400);
    assert_eq!(response.body, "{\"error\":\"Key already exists\"}");
}
