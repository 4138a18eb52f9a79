use vstd::prelude::*;

use crate::greeting::{greeting, hello_world};

verus! {

/// The one path that the service serves.
pub const ROOT_PATH: &'static str = "/";

/// The status code of a successful answer.
pub const STATUS_OK: u16 = 200;

/// The method of an HTTP request.
#[derive(Clone, Copy, Debug, PartialEq, Eq, Structural)]
pub enum Method {
    Get,
    Head,
    Post,
    Put,
    Delete,
    Patch,
    Options,
    Trace,
    Connect,
    Other,
}

/// What the service sends back: a status code and a text body.
#[derive(Clone, Copy, Debug, PartialEq, Eq)]
pub struct Reply {
    pub status: u16,
    pub body: &'static str,
}

impl View for Reply {
    type V = (u16, Seq<char>);

    open spec fn view(&self) -> (u16, Seq<char>) {
        (self.status, self.body@)
    }
}

/// The root path, as characters.
pub open spec fn root_path() -> Seq<char> {
    ROOT_PATH@
}

/// Whether a request falls on the service's route: `GET` on the root path.
pub open spec fn routed(method: Method, path: Seq<char>) -> bool {
    method == Method::Get && path == root_path()
}

/// The answer owed to a request with this method and path: the greeting
/// with status 200 on the route, and nothing otherwise (the framework
/// then answers on its own, with "not found" or "method not allowed").
/// Headers, query string and body take no part in it.
pub open spec fn answer(method: Method, path: Seq<char>) -> Option<(u16, Seq<char>)> {
    if routed(method, path) {
        Some((STATUS_OK, greeting()))
    } else {
        None
    }
}

/// The view of an optional reply.
pub open spec fn reply_view(r: Option<Reply>) -> Option<(u16, Seq<char>)> {
    match r {
        Some(reply) => Some(reply@),
        None => None,
    }
}

/// Whether `path` is exactly the root path.
pub fn is_root_path(path: &str) -> (r: bool)
    ensures
        r == (path@ == root_path()),
{
    proof {
        reveal_strlit("/");
    }
    if path.unicode_len() != 1 {
        return false;
    }
    let c = path.get_char(0);
    assert(c == '/' ==> path@ =~= root_path());
    c == '/'
}

/// The reply of the root route: status 200 and the greeting.
pub fn greeting_reply() -> (r: Reply)
    ensures
        r@ == (STATUS_OK, greeting()),
{
    Reply { status: STATUS_OK, body: hello_world() }
}

/// The service's answer to a request: the greeting reply for `GET /`,
/// `None` for any other method or path.
pub fn respond(method: Method, path: &str) -> (r: Option<Reply>)
    ensures
        reply_view(r) == answer(method, path@),
{
    if method == Method::Get && is_root_path(path) {
        Some(greeting_reply())
    } else {
        None
    }
}

/// Every `GET` on the root path is answered with status 200 and exactly
/// the greeting, whatever else the request carries.
pub proof fn root_get_is_greeted(path: Seq<char>)
    requires
        path == root_path(),
    ensures
        answer(Method::Get, path) == Some((STATUS_OK, greeting())),
{
}

/// The service holds no state: requests with the same method and path get
/// the same answer, however often and in whatever order they come, and all
/// requests on the route get one and the same answer.
pub proof fn answers_repeat(m1: Method, p1: Seq<char>, m2: Method, p2: Seq<char>)
    requires
        (m1 == m2 && p1 == p2) || (routed(m1, p1) && routed(m2, p2)),
    ensures
        answer(m1, p1) == answer(m2, p2),
{
}

} // verus!
