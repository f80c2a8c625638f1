use items_api::handler::handle;
use items_api::store::MemStore;

#[test]
fn test_health_handler_returns_ok() {
    let mut store = MemStore::new();

    let response = handle(&mut store, "GET", "/health", None, &[]);
    assert_eq!(response.status, 200);

    let body_string = response.body;
    assert_eq!(body_string, "ok");
}

#[test]
fn health_ignores_query_parameters() {
    let mut store = MemStore::new();
    let key = String::from("anything");
    let response = handle(&mut store, "GET", "/health", Some(&key), b"payload");
    assert_eq!(response.status, 200);
    assert_eq!(response.body, "ok");
}

#[test]
fn post_without_key_returns_400_and_stores_nothing() {
    let mut store = MemStore::new();
    let response = handle(&mut store, "POST", "/items", None, b"body");
    assert_eq!(response.status, 400);
    assert_eq!(response.body, "missing ?key=... for POST /items");
    assert_eq!(store.list().len(), 0);
}

#[test]
fn delete_without_key_returns_400_and_stores_nothing() {
    let mut store = MemStore::new();
    let key = String::from("a");
    handle(&mut store, "POST", "/items", Some(&key), b"x");
    let response = handle(&mut store, "DELETE", "/items", None, &[]);
    assert_eq!(response.status, 400);
    assert_eq!(response.body, "missing ?key=... for DELETE /items");
    assert_eq!(store.list().len(), 1);
}

#[test]
fn list_empty_store_returns_no_items() {
    let mut store = MemStore::new();
    let response = handle(&mut store, "GET", "/items", None, &[]);
    assert_eq!(response.status, 200);
    assert_eq!(response.body, "no items");
}

#[test]
fn list_two_keys_newline_separated() {
    let mut store = MemStore::new();
    let a = String::from("a");
    let b = String::from("b");
    handle(&mut store, "POST", "/items", Some(&a), b"1");
    handle(&mut store, "POST", "/items", Some(&b), b"2");
    let response = handle(&mut store, "GET", "/items", None, &[]);
    assert_eq!(response.status, 200);
    assert_eq!(response.body, "a\nb");
    assert!(response.body.contains("a"));
    assert!(response.body.contains("b"));
}

#[test]
fn create_then_list_includes_key() {
    let mut store = MemStore::new();
    let key = String::from("foo");
    let created = handle(&mut store, "POST", "/items", Some(&key), b"bar");
    assert_eq!(created.status, 201);
    assert_eq!(created.body, "created: foo");
    let listing = handle(&mut store, "GET", "/items", None, &[]);
    assert_eq!(listing.status, 200);
    assert!(listing.body.contains("foo"));
}

#[test]
fn create_existing_key_keeps_one_listing_entry() {
    let mut store = MemStore::new();
    let key = String::from("foo");
    handle(&mut store, "POST", "/items", Some(&key), b"first");
    let second = handle(&mut store, "POST", "/items", Some(&key), b"second");
    assert_eq!(second.status, 201);
    let listing = handle(&mut store, "GET", "/items", None, &[]);
    assert_eq!(listing.body, "foo");
}

#[test]
fn delete_after_create_and_repeated_delete() {
    let mut store = MemStore::new();
    let key = String::from("foo");
    handle(&mut store, "POST", "/items", Some(&key), b"bar");
    let first = handle(&mut store, "DELETE", "/items", Some(&key), &[]);
    assert_eq!(first.status, 200);
    assert_eq!(first.body, "deleted: foo");
    let second = handle(&mut store, "DELETE", "/items", Some(&key), &[]);
    assert_eq!(second.status, 200);
    assert_eq!(second.body, "deleted: foo");
    let listing = handle(&mut store, "GET", "/items", None, &[]);
    assert_eq!(listing.body, "no items");
}

#[test]
fn unknown_path_returns_404_for_every_method() {
    for method in ["GET", "POST", "DELETE", "PATCH", "PUT", "HEAD", "OPTIONS"] {
        let mut store = MemStore::new();
        let key = String::from("k");
        let response = handle(&mut store, method, "/elsewhere", Some(&key), b"x");
        assert_eq!(response.status, 404);
        assert_eq!(response.body, "not found");
    }
}

#[test]
fn health_with_wrong_method_returns_404() {
    let mut store = MemStore::new();
    let response = handle(&mut store, "POST", "/health", None, &[]);
    assert_eq!(response.status, 404);
    assert_eq!(response.body, "not found");
}

#[test]
fn items_patch_and_put_return_405() {
    for method in ["PATCH", "PUT"] {
        let mut store = MemStore::new();
        let key = String::from("k");
        let response = handle(&mut store, method, "/items", Some(&key), b"x");
        assert_eq!(response.status, 405);
        assert_eq!(response.body, "method not allowed");
    }
}

#[test]
fn empty_key_is_accepted_verbatim() {
    let mut store = MemStore::new();
    let key = String::new();
    let response = handle(&mut store, "POST", "/items", Some(&key), b"x");
    assert_eq!(response.status, 201);
    assert_eq!(response.body, "created: ");
}
