//! The whole request cycle against the in-memory store.

use vstd::prelude::*;
use crate::response::{HttpResponse, ResponseModel, list_body_spec, list_response,
    created_response, deleted_response};
use crate::router::{Action, ActionModel, key_view, route_model, route_request};
use crate::store::{MemStore, put_key, remove_key};

verus! {

/// What one request does: the keys the store holds afterwards, and the
/// response. A reply that needs no store work leaves the keys alone; a
/// listing reports them; a create adds its key and answers `201`; a
/// delete removes its key and answers `200` whether or not the key was
/// held, since the underlying delete is idempotent.
pub open spec fn handle_model(
    keys: Seq<Seq<char>>,
    method: Seq<char>,
    path: Seq<char>,
    key: Option<Seq<char>>,
    content: Seq<u8>,
) -> (Seq<Seq<char>>, ResponseModel) {
    match route_model(method, path, key, content) {
        ActionModel::Reply(resp) => (keys, resp),
        ActionModel::ListKeys => (
            keys,
            ResponseModel { status: 200, body: list_body_spec(keys) },
        ),
        ActionModel::PutObject { key: k, content: _ } => (
            put_key(keys, k),
            ResponseModel { status: 201, body: "created: "@ + k },
        ),
        ActionModel::DeleteObject { key: k } => (
            remove_key(keys, k),
            ResponseModel { status: 200, body: "deleted: "@ + k },
        ),
    }
}

/// Serves one request against the in-memory store: routes it, performs
/// the store operation the route calls for, and renders the response.
pub fn handle(
    store: &mut MemStore,
    method: &str,
    path: &str,
    key: Option<&String>,
    content: &[u8],
) -> (r: HttpResponse)
    requires
        old(store).wf(),
    ensures
        final(store).wf(),
        final(store)@ == handle_model(old(store)@, method@, path@, key_view(key), content@).0,
        r@ == handle_model(old(store)@, method@, path@, key_view(key), content@).1,
{
    let action = route_request(method, path, key, content);
    match action {
        Action::Reply(resp) => resp,
        Action::ListKeys => {
            let keys = store.list();
            list_response(&keys)
        },
        Action::PutObject { key, content } => {
            store.put(&key, content.as_slice());
            created_response(key.as_str())
        },
        Action::DeleteObject { key } => {
            store.delete(&key);
            deleted_response(key.as_str())
        },
    }
}

} // verus!
