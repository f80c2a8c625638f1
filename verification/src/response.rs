//! Plain-text HTTP responses and the renderers for each reply body.

use vstd::prelude::*;
use crate::text::{join_lines, join_lines_spec};

verus! {

/// What a response is mathematically: a status code and a body text.
pub struct ResponseModel {
    pub status: u16,
    pub body: Seq<char>,
}

/// A plain-text HTTP response: a status code and a body.
/// Every response of this library carries the `text/plain` content type.
pub struct HttpResponse {
    pub status: u16,
    pub body: String,
}

impl View for HttpResponse {
    type V = ResponseModel;

    open spec fn view(&self) -> ResponseModel {
        ResponseModel { status: self.status, body: self.body@ }
    }
}

impl HttpResponse {
    /// The content type of every response this library produces.
    pub fn content_type(&self) -> (r: &'static str)
        ensures
            r@ == "text/plain"@,
    {
        "text/plain"
    }
}

/// A response with the given status and the given body text.
pub fn text_response(status: u16, body: &str) -> (r: HttpResponse)
    ensures
        r@ == (ResponseModel { status, body: body@ }),
{
    HttpResponse { status, body: String::from_str(body) }
}

/// The body of a listing: the keys joined by newlines, or the
/// `"no items"` sentinel when the store holds nothing, so that a caller
/// can tell an empty bucket from a missing page.
pub open spec fn list_body_spec(ks: Seq<Seq<char>>) -> Seq<char> {
    if ks.len() == 0 {
        "no items"@
    } else {
        join_lines_spec(ks)
    }
}

/// The reply to a listing request over the given keys.
pub fn list_response(keys: &Vec<String>) -> (r: HttpResponse)
    ensures
        r@ == (ResponseModel { status: 200, body: list_body_spec(keys.deep_view()) }),
{
    if keys.len() == 0 {
        text_response(200, "no items")
    } else {
        let body = join_lines(keys);
        HttpResponse { status: 200, body }
    }
}

/// The reply to a successful create of `key`.
pub fn created_response(key: &str) -> (r: HttpResponse)
    ensures
        r@ == (ResponseModel { status: 201, body: "created: "@ + key@ }),
{
    let mut body = String::from_str("created: ");
    body.append(key);
    HttpResponse { status: 201, body }
}

/// The reply to a successful delete of `key`.
pub fn deleted_response(key: &str) -> (r: HttpResponse)
    ensures
        r@ == (ResponseModel { status: 200, body: "deleted: "@ + key@ }),
{
    let mut body = String::from_str("deleted: ");
    body.append(key);
    HttpResponse { status: 200, body }
}

} // verus!
