//! The request router: from method, path and query parameter to an action.

use vstd::prelude::*;
use vstd::slice::slice_to_vec;
use crate::response::{HttpResponse, ResponseModel, text_response};
use crate::text::str_eq;

verus! {

/// What an action is mathematically.
pub enum ActionModel {
    /// Answer at once; the store is not involved.
    Reply(ResponseModel),
    /// List every key in the bucket, then answer with the listing.
    ListKeys,
    /// Store `content` under `key`, then answer `201 created`.
    PutObject { key: Seq<char>, content: Seq<u8> },
    /// Remove `key`, then answer `200 deleted`.
    DeleteObject { key: Seq<char> },
}

/// What a request asks of its handler: either a finished response, or
/// one store operation to perform before the response can be rendered.
pub enum Action {
    /// Answer at once; the store is not involved.
    Reply(HttpResponse),
    /// List every key in the bucket, then answer with the listing.
    ListKeys,
    /// Store `content` under `key`, then answer `201 created`.
    PutObject { key: String, content: Vec<u8> },
    /// Remove `key`, then answer `200 deleted`.
    DeleteObject { key: String },
}

impl View for Action {
    type V = ActionModel;

    open spec fn view(&self) -> ActionModel {
        match self {
            Action::Reply(resp) => ActionModel::Reply(resp@),
            Action::ListKeys => ActionModel::ListKeys,
            Action::PutObject { key, content } => ActionModel::PutObject {
                key: key@,
                content: content@,
            },
            Action::DeleteObject { key } => ActionModel::DeleteObject { key: key@ },
        }
    }
}

/// The view of the optional `key` query parameter.
pub open spec fn key_view(key: Option<&String>) -> Option<Seq<char>> {
    match key {
        Some(k) => Some(k@),
        None => None,
    }
}

/// The routing table. A `GET` on `/health` is the liveness probe; `/items`
/// offers list, create and delete; a `key` parameter is required for
/// create and delete, and its absence is rejected before any store work;
/// an unknown method on `/items` is refused; every other path is unknown.
pub open spec fn route_model(
    method: Seq<char>,
    path: Seq<char>,
    key: Option<Seq<char>>,
    content: Seq<u8>,
) -> ActionModel {
    if path == "/health"@ && method == "GET"@ {
        ActionModel::Reply(ResponseModel { status: 200, body: "ok"@ })
    } else if path == "/items"@ {
        if method == "GET"@ {
            ActionModel::ListKeys
        } else if method == "POST"@ {
            match key {
                Some(k) => ActionModel::PutObject { key: k, content },
                None => ActionModel::Reply(
                    ResponseModel { status: 400, body: "missing ?key=... for POST /items"@ },
                ),
            }
        } else if method == "DELETE"@ {
            match key {
                Some(k) => ActionModel::DeleteObject { key: k },
                None => ActionModel::Reply(
                    ResponseModel { status: 400, body: "missing ?key=... for DELETE /items"@ },
                ),
            }
        } else {
            ActionModel::Reply(ResponseModel { status: 405, body: "method not allowed"@ })
        }
    } else {
        ActionModel::Reply(ResponseModel { status: 404, body: "not found"@ })
    }
}

/// Routes one request. `content` is the request body, stored verbatim on a
/// create and ignored otherwise.
pub fn route_request(
    method: &str,
    path: &str,
    key: Option<&String>,
    content: &[u8],
) -> (a: Action)
    ensures
        a@ == route_model(method@, path@, key_view(key), content@),
{
    if str_eq(path, "/health") && str_eq(method, "GET") {
        Action::Reply(text_response(200, "ok"))
    } else if str_eq(path, "/items") {
        if str_eq(method, "GET") {
            Action::ListKeys
        } else if str_eq(method, "POST") {
            match key {
                Some(k) => Action::PutObject { key: k.clone(), content: slice_to_vec(content) },
                None => Action::Reply(text_response(400, "missing ?key=... for POST /items")),
            }
        } else if str_eq(method, "DELETE") {
            match key {
                Some(k) => Action::DeleteObject { key: k.clone() },
                None => Action::Reply(text_response(400, "missing ?key=... for DELETE /items")),
            }
        } else {
            Action::Reply(text_response(405, "method not allowed"))
        }
    } else {
        Action::Reply(text_response(404, "not found"))
    }
}

/// The one configuration fault: the bucket name was not supplied.
#[derive(Debug)]
pub enum ConfigError {
    MissingBucket,
}

/// Accepts the externally supplied bucket name, or reports the fatal
/// configuration fault when none was supplied.
pub fn require_bucket(name: Option<String>) -> (r: Result<String, ConfigError>)
    ensures
        r is Ok <==> name is Some,
        r is Ok ==> r->Ok_0 == name->Some_0,
        r is Err ==> r->Err_0 == ConfigError::MissingBucket,
{
    match name {
        Some(bucket) => Ok(bucket),
        None => Err(ConfigError::MissingBucket),
    }
}

} // verus!
