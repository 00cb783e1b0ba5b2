//! Which requests the service answers, and how it answers those that ask for
//! no image.

use crate::response_handler::{HttpReply, STATUS_OK};
use crate::text::same_str;
use vstd::prelude::*;
use vstd::string::StrSliceExecFns;
use vstd::utf8::encode_utf8;

verus! {

/// What a request is for.
#[derive(Debug, Clone, Copy, PartialEq, Eq, Structural)]
pub enum Route {
    /// The health check.
    Status,
    /// The root, which holds nothing.
    Root,
    /// The image under the request's path.
    Image,
    /// Nothing that the service offers.
    NotFound,
}

pub const STATUS_NO_CONTENT: u16 = 204;

pub const STATUS_ENDPOINT_NOT_FOUND: u16 = 404;

/// Only `GET` is served. The health check and the root are what they are
/// only without a query; every other path, and these two with a query, name
/// an image.
pub open spec fn routed(method: Seq<char>, path: Seq<char>, has_query: bool) -> Route {
    if method != "GET"@ {
        Route::NotFound
    } else if path == "/private/status"@ && !has_query {
        Route::Status
    } else if path == "/"@ && !has_query {
        Route::Root
    } else {
        Route::Image
    }
}

/// What the request with this method, path and query is for.
pub fn route(method: &str, path: &str, query: Option<&str>) -> (route: Route)
    ensures
        route == routed(method@, path@, query is Some),
{
    if !same_str(method, "GET") {
        Route::NotFound
    } else if query.is_none() && same_str(path, "/private/status") {
        Route::Status
    } else if query.is_none() && same_str(path, "/") {
        Route::Root
    } else {
        Route::Image
    }
}

/// The status and the body text of the reply to a request that asks for no
/// image.
pub open spec fn fixed_answer(route: Route) -> Option<(u16, Seq<char>)> {
    match route {
        Route::Status => Some((STATUS_OK, "OK"@)),
        Route::Root => Some((STATUS_NO_CONTENT, Seq::empty())),
        Route::NotFound => Some((STATUS_ENDPOINT_NOT_FOUND, "Endpoint not found"@)),
        Route::Image => None,
    }
}

/// The reply to a request that asks for no image; `None` for one that asks
/// for an image.
pub fn fixed_reply(route: Route) -> (reply: Option<HttpReply>)
    ensures
        match fixed_answer(route) {
            Some((status, text)) => {
                &&& reply is Some
                &&& reply->0.status == status
                &&& reply->0.headers@.len() == 0
                &&& reply->0.body@ == encode_utf8(text)
            },
            None => reply is None,
        },
{
    match route {
        Route::Status => Some(full(STATUS_OK, "OK")),
        Route::Root => {
            proof {
                reveal_strlit("");
                assert(""@ =~= Seq::<char>::empty());
            }
            Some(full(STATUS_NO_CONTENT, ""))
        },
        Route::NotFound => Some(full(STATUS_ENDPOINT_NOT_FOUND, "Endpoint not found")),
        Route::Image => None,
    }
}

/// A reply that holds `chunk` as its whole body.
fn full(status: u16, chunk: &str) -> (reply: HttpReply)
    ensures
        reply.status == status,
        reply.headers@.len() == 0,
        reply.body@ == encode_utf8(chunk@),
{
    HttpReply { status, headers: Vec::new(), body: chunk.as_bytes_vec() }
}

} // verus!
