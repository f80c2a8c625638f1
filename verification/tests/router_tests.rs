use items_api::response::{created_response, deleted_response, list_response, text_response};
use items_api::router::{require_bucket, route_request, Action, ConfigError};
use items_api::store::MemStore;

#[test]
fn route_health_is_an_immediate_reply() {
    let action = route_request("GET", "/health", None, &[]);
    match action {
        Action::Reply(resp) => {
            assert_eq!(resp.status, 200);
            assert_eq!(resp.body, "ok");
        }
        _ => panic!("expected an immediate reply"),
    }
}

#[test]
fn route_get_items_asks_for_a_listing() {
    let action = route_request("GET", "/items", None, &[]);
    assert!(matches!(action, Action::ListKeys));
}

#[test]
fn route_post_with_key_carries_key_and_body() {
    let key = String::from("foo");
    let action = route_request("POST", "/items", Some(&key), b"bar");
    match action {
        Action::PutObject { key, content } => {
            assert_eq!(key, "foo");
            assert_eq!(content, b"bar".to_vec());
        }
        _ => panic!("expected a create"),
    }
}

#[test]
fn route_delete_with_key_carries_key() {
    let key = String::from("foo");
    let action = route_request("DELETE", "/items", Some(&key), &[]);
    match action {
        Action::DeleteObject { key } => assert_eq!(key, "foo"),
        _ => panic!("expected a delete"),
    }
}

#[test]
fn response_renderers_produce_exact_bodies() {
    let created = created_response("foo");
    assert_eq!(created.status, 201);
    assert_eq!(created.body, "created: foo");

    let deleted = deleted_response("foo");
    assert_eq!(deleted.status, 200);
    assert_eq!(deleted.body, "deleted: foo");

    let plain = text_response(418, "teapot");
    assert_eq!(plain.status, 418);
    assert_eq!(plain.body, "teapot");
    assert_eq!(plain.content_type(), "text/plain");
}

#[test]
fn list_response_joins_or_reports_no_items() {
    let empty: Vec<String> = Vec::new();
    let none = list_response(&empty);
    assert_eq!(none.status, 200);
    assert_eq!(none.body, "no items");

    let keys = vec![String::from("a"), String::from("b"), String::from("c")];
    let some = list_response(&keys);
    assert_eq!(some.status, 200);
    assert_eq!(some.body, "a\nb\nc");
}

#[test]
fn require_bucket_accepts_a_name_and_rejects_absence() {
    let ok = require_bucket(Some(String::from("my-bucket")));
    assert_eq!(ok.unwrap(), "my-bucket");

    let missing = require_bucket(None);
    assert!(matches!(missing, Err(ConfigError::MissingBucket)));
}

#[test]
fn store_holds_each_key_once_and_deletes_idempotently() {
    let mut store = MemStore::new();
    let a = String::from("a");
    assert!(!store.contains_key(&a));
    store.put(&a, b"one");
    store.put(&a, b"two");
    assert!(store.contains_key(&a));
    assert_eq!(store.list(), vec![String::from("a")]);
    store.delete(&a);
    assert!(!store.contains_key(&a));
    store.delete(&a);
    assert_eq!(store.list().len(), 0);
}
