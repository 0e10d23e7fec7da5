use vstd::prelude::*;

verus! {

use vstd::string::StringExecFns;
use crate::json::{kv_body, key_body, list_body, render_kv, render_key, render_list};
use crate::store::{KvError, Store, store_map, entries_match, empty_map};

/// What a request is answered with: an HTTP status code and a JSON body
/// (empty for the one bodiless success).
pub struct Response {
    pub status: u16,
    pub body: String,
}

/// The error body sent when a key is absent.
pub open spec fn not_found_body() -> Seq<char> {
    "{\"error\":\"Key not found\"}"@
}

/// The error body sent when a create names a key that is already stored.
pub open spec fn already_exists_body() -> Seq<char> {
    "{\"error\":\"Key already exists\"}"@
}

/// The error body sent on a storage fault; it carries no internal detail.
pub open spec fn internal_error_body() -> Seq<char> {
    "{\"error\":\"Internal server error\"}"@
}

fn not_found_response() -> (r: Response)
    ensures
        r.status == 404,
        r.body@ == not_found_body(),
{
    Response { status: 404, body: String::from_str("{\"error\":\"Key not found\"}") }
}

fn internal_error_response() -> (r: Response)
    ensures
        r.status == 500,
        r.body@ == internal_error_body(),
{
    Response { status: 500, body: String::from_str("{\"error\":\"Internal server error\"}") }
}

/// Lists every entry: 200 with a JSON array of one snapshot of the store
/// in ascending key order, or 500 on a storage fault.
pub fn get_all(store: &Store) -> (r: Response)
    ensures
        r.status == 200 || r.status == 500,
        r.status == 200 ==> exists|vs: Seq<(Seq<char>, Seq<char>)>|
            #[trigger] entries_match(store_map(*store), vs) && r.body@ == list_body(vs),
        r.status == 500 ==> r.body@ == internal_error_body(),
{
    match store.list_all() {
        Ok(entries) => {
            let body = render_list(&entries);
            Response { status: 200, body }
        },
        Err(_) => internal_error_response(),
    }
}

/// Looks one key up: 200 with the entry, 404 when the key is absent, or
/// 500 on a storage fault.
pub fn get_key(store: &Store, key: &str) -> (r: Response)
    ensures
        r.status == 200 || r.status == 404 || r.status == 500,
        r.status == 200 ==> store_map(*store).contains_key(key@) && r.body@ == kv_body(
            key@,
            store_map(*store)[key@],
        ),
        r.status == 404 ==> !store_map(*store).contains_key(key@) && r.body@ == not_found_body(),
        r.status == 500 ==> r.body@ == internal_error_body(),
{
    match store.get(key) {
        Ok(value) => Response { status: 200, body: render_kv(key, value.as_str()) },
        Err(KvError::NotFound) => not_found_response(),
        Err(_) => internal_error_response(),
    }
}

/// Creates an entry: 201 with the entry when the key was absent, 400 when
/// it was already stored (the store is left untouched), or 500 on a
/// storage fault (also touching nothing). The existence check and the
/// insert cannot interleave with any other operation on the store, which
/// is held exclusively for the whole call.
pub fn create_key(store: &mut Store, key: &str, value: &str) -> (r: Response)
    ensures
        r.status == 201 || r.status == 400 || r.status == 500,
        r.status == 201 ==> !store_map(*old(store)).contains_key(key@) && store_map(*final(store))
            == store_map(*old(store)).insert(key@, value@) && r.body@ == kv_body(key@, value@),
        r.status == 400 ==> store_map(*old(store)).contains_key(key@) && store_map(*final(store))
            == store_map(*old(store)) && r.body@ == already_exists_body(),
        r.status == 500 ==> store_map(*final(store)) == store_map(*old(store)) && r.body@
            == internal_error_body(),
{
    match store.put_if_absent(key, value) {
        Ok(()) => Response { status: 201, body: render_kv(key, value) },
        Err(KvError::AlreadyExists) => Response {
            status: 400,
            body: String::from_str("{\"error\":\"Key already exists\"}"),
        },
        Err(_) => internal_error_response(),
    }
}

/// Updates an entry unconditionally: 200 with the entry after the upsert,
/// or 500 on a storage fault (touching nothing).
pub fn update_key(store: &mut Store, key: &str, value: &str) -> (r: Response)
    ensures
        r.status == 200 || r.status == 500,
        r.status == 200 ==> store_map(*final(store)) == store_map(*old(store)).insert(key@, value@)
            && r.body@ == kv_body(key@, value@),
        r.status == 500 ==> store_map(*final(store)) == store_map(*old(store)) && r.body@
            == internal_error_body(),
{
    match store.put_unconditional(key, value) {
        Ok(()) => Response { status: 200, body: render_kv(key, value) },
        Err(_) => internal_error_response(),
    }
}

/// Clears the store: 200 with an empty body once nothing is stored, or
/// 500 on a storage fault (touching nothing).
pub fn delete_all(store: &mut Store) -> (r: Response)
    ensures
        r.status == 200 || r.status == 500,
        r.status == 200 ==> store_map(*final(store)) == empty_map() && r.body@ == Seq::<
            char,
        >::empty(),
        r.status == 500 ==> store_map(*final(store)) == store_map(*old(store)) && r.body@
            == internal_error_body(),
{
    match store.clear_all() {
        Ok(()) => Response { status: 200, body: String::new() },
        Err(_) => internal_error_response(),
    }
}

/// Deletes one entry: 200 naming the key when it was stored, 404 when it
/// was absent (touching nothing), or 500 on a storage fault (touching
/// nothing).
pub fn delete_key(store: &mut Store, key: &str) -> (r: Response)
    ensures
        r.status == 200 || r.status == 404 || r.status == 500,
        r.status == 200 ==> store_map(*old(store)).contains_key(key@) && store_map(*final(store))
            == store_map(*old(store)).remove(key@) && r.body@ == key_body(key@),
        r.status == 404 ==> !store_map(*old(store)).contains_key(key@) && store_map(*final(store))
            == store_map(*old(store)) && r.body@ == not_found_body(),
        r.status == 500 ==> store_map(*final(store)) == store_map(*old(store)) && r.body@
            == internal_error_body(),
{
    match store.delete(key) {
        Ok(()) => Response { status: 200, body: render_key(key) },
        Err(KvError::NotFound) => not_found_response(),
        Err(_) => internal_error_response(),
    }
}

} // verus!
