//! The service's one route and the answer to every request.
use vstd::prelude::*;

use crate::http::{
    is_bare_response, is_json_response, json_response, not_found, Method, Response,
    STATUS_INTERNAL_SERVER_ERROR, STATUS_NOT_FOUND, STATUS_OK,
};
use crate::json::{encode_object, is_plain, json_quoted, lemma_plain_escaped, object_text};

verus! {

/// Where a request goes.
#[derive(Clone, Copy, Debug, PartialEq, Eq, Structural)]
pub enum Route {
    /// The greeting.
    Hello,
    /// No route takes the request.
    NotFound,
}

/// The path of the greeting.
pub open spec fn hello_path() -> Seq<char> {
    "/hello"@
}

/// The body of the greeting.
pub open spec fn greeting_body() -> Seq<char> {
    "{\"message\":\"Hello, world!\"}"@
}

/// The route of a request: `GET /hello` is the greeting, anything else is not found.
pub open spec fn route_of(method: Method, path: Seq<char>) -> Route {
    if method == Method::Get && path == hello_path() {
        Route::Hello
    } else {
        Route::NotFound
    }
}

/// `r` answers a request with this method and path: the greeting is a JSON
/// success, anything else a bare not found.
pub open spec fn answers(method: Method, path: Seq<char>, r: Response) -> bool {
    match route_of(method, path) {
        Route::Hello => is_json_response(r, greeting_body()),
        Route::NotFound => is_bare_response(r, STATUS_NOT_FOUND),
    }
}

/// Whether `path` is the greeting's path.
pub fn is_hello_path(path: &str) -> (r: bool)
    ensures
        r == (path@ == hello_path()),
{
    let target = "/hello";
    let n = path.unicode_len();
    if n != target.unicode_len() {
        return false;
    }
    let mut i: usize = 0;
    while i < n
        invariant
            n == path@.len(),
            n == target@.len(),
            target@ == hello_path(),
            0 <= i <= n,
            forall|j: int| 0 <= j < i ==> path@[j] == target@[j],
        decreases n - i,
    {
        if path.get_char(i) != target.get_char(i) {
            assert(path@[i as int] != target@[i as int]);
            return false;
        }
        i = i + 1;
    }
    assert(path@ =~= target@);
    true
}

/// The route that a request with this method and path takes.
pub fn resolve(method: Method, path: &str) -> (r: Route)
    ensures
        r == route_of(method, path@),
{
    if method == Method::Get && is_hello_path(path) {
        Route::Hello
    } else {
        Route::NotFound
    }
}

/// The greeting: a success whose JSON body is `{"message":"Hello, world!"}`.
pub fn hello() -> (r: Response)
    ensures
        is_json_response(r, greeting_body()),
{
    let key = "message";
    let value = "Hello, world!";
    let body = encode_object(key, value);
    proof {
        reveal_strlit("message");
        reveal_strlit("Hello, world!");
        reveal_strlit("{\"message\":\"Hello, world!\"}");
        assert(is_plain(key@));
        assert(is_plain(value@));
        lemma_plain_escaped(key@);
        lemma_plain_escaped(value@);
        assert(object_text(json_quoted(key@), json_quoted(value@)) =~= greeting_body());
    }
    json_response(body)
}

/// The answer to a request with this method and path.
pub fn respond(method: Method, path: &str) -> (r: Response)
    ensures
        answers(method, path@, r),
{
    match resolve(method, path) {
        Route::Hello => hello(),
        Route::NotFound => not_found(),
    }
}

/// A `GET /hello` always succeeds, with the JSON body
/// `{"message":"Hello, world!"}`.
pub proof fn get_hello_is_greeted(r: Response)
    requires
        answers(Method::Get, hello_path(), r),
    ensures
        route_of(Method::Get, hello_path()) == Route::Hello,
        r.status == STATUS_OK,
        r.status != STATUS_INTERNAL_SERVER_ERROR,
        is_json_response(r, greeting_body()),
        r.body@ == "{\"message\":\"Hello, world!\"}"@,
{
}

/// Answers to `GET /hello` keep no state between requests: any two of them have
/// the same status, the same content type and the same body.
pub proof fn greeting_is_stateless(r1: Response, r2: Response)
    requires
        answers(Method::Get, hello_path(), r1),
        answers(Method::Get, hello_path(), r2),
    ensures
        r1.status == STATUS_OK && r2.status == STATUS_OK,
        r1.content_type is Some && r2.content_type is Some,
        r1.content_type->Some_0@ == r2.content_type->Some_0@,
        r1.body@ == r2.body@,
{
}

/// A request succeeds exactly when it is a `GET` of `/hello`.
pub proof fn ok_exactly_for_get_hello(method: Method, path: Seq<char>, r: Response)
    requires
        answers(method, path, r),
    ensures
        r.status == STATUS_OK <==> (method == Method::Get && path == hello_path()),
{
}

/// A `GET` of any path other than `/hello` (the match is exact and
/// case-sensitive) does not reach the greeting and is not found.
pub proof fn get_other_path_not_found(path: Seq<char>, r: Response)
    requires
        path != hello_path(),
        answers(Method::Get, path, r),
    ensures
        route_of(Method::Get, path) == Route::NotFound,
        r.status == STATUS_NOT_FOUND,
        r.status != STATUS_OK,
{
}

/// A request to `/hello` with any method other than `GET` does not reach the
/// greeting and does not succeed: it is not found.
pub proof fn non_get_hello_not_ok(method: Method, r: Response)
    requires
        method != Method::Get,
        answers(method, hello_path(), r),
    ensures
        route_of(method, hello_path()) == Route::NotFound,
        r.status != STATUS_OK,
        r.status == STATUS_NOT_FOUND,
        r.body@ != greeting_body(),
{
    reveal_strlit("{\"message\":\"Hello, world!\"}");
}

} // verus!
