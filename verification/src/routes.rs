//! The route table: which handler a request goes to by its method and path.

use vstd::prelude::*;
use vstd::string::*;

use crate::error::api_error::{ApiError, ApiErrorView};
use crate::error::OhMyResult;
use crate::handler::not_found::not_found_handler;
use crate::utils::jwt::{Claims, Payload};

verus! {

/// The handlers that a request can go to.
#[derive(Clone, Copy, Debug, PartialEq, Eq, Structural)]
pub enum Route {
    /// `GET /`: a greeting.
    Root,
    /// `POST /login`.
    Login,
    /// `POST /register`.
    Register,
    /// `GET /auth-required`: open only with a valid token.
    AuthRequired,
}

/// The handler for a method and a path, if a route is defined for them.
/// Both must match the route to the letter.
pub open spec fn route_of(method: Seq<char>, path: Seq<char>) -> Option<Route> {
    if method == "GET"@ && path == "/"@ {
        Some(Route::Root)
    } else if method == "POST"@ && path == "/login"@ {
        Some(Route::Login)
    } else if method == "POST"@ && path == "/register"@ {
        Some(Route::Register)
    } else if method == "GET"@ && path == "/auth-required"@ {
        Some(Route::AuthRequired)
    } else {
        None
    }
}

/// Whether `r` sends a request to `route`, and turns it away as not found
/// where there is none.
pub open spec fn leads_to(r: OhMyResult<Route>, route: Option<Route>) -> bool {
    match route {
        Some(handler) => r matches Ok(found) && found == handler,
        None => r matches Err(err) && err@ == ApiErrorView::ApiNotFound,
    }
}

/// Whether the two texts are the same.
fn same_text(a: &str, b: &str) -> (same: bool)
    ensures
        same == (a@ == b@),
{
    let n: usize = a.unicode_len();
    if n != b.unicode_len() {
        return false;
    }
    let mut i: usize = 0;
    while i < n
        invariant
            i <= n,
            n == a@.len(),
            n == b@.len(),
            forall|k: int| 0 <= k < i ==> a@[k] == b@[k],
        decreases n - i,
    {
        if a.get_char(i) != b.get_char(i) {
            return false;
        }
        i = i + 1;
    }
    assert(a@ =~= b@);
    true
}

/// Finds the handler for a request. A request for which no route is defined
/// is answered with `ApiNotFound`.
pub fn resolve(method: &str, path: &str) -> (r: OhMyResult<Route>)
    ensures
        leads_to(r, route_of(method@, path@)),
{
    if same_text(method, "GET") && same_text(path, "/") {
        Ok(Route::Root)
    } else if same_text(method, "POST") && same_text(path, "/login") {
        Ok(Route::Login)
    } else if same_text(method, "POST") && same_text(path, "/register") {
        Ok(Route::Register)
    } else if same_text(method, "GET") && same_text(path, "/auth-required") {
        Ok(Route::AuthRequired)
    } else {
        Err(not_found_handler())
    }
}

/// Whether a route is defined for the method and the path.
pub open spec fn defined(method: Seq<char>, path: Seq<char>) -> bool {
    ||| method == "GET"@ && path == "/"@
    ||| method == "POST"@ && path == "/login"@
    ||| method == "POST"@ && path == "/register"@
    ||| method == "GET"@ && path == "/auth-required"@
}

/// The greeting at the root.
pub fn root_handler() -> (greeting: &'static str)
    ensures
        greeting@ == "Hello, Askumer-API!"@,
{
    "Hello, Askumer-API!"
}

/// The answer of the route that a token opens: the user that the token
/// speaks for.
pub fn auth_required_handler(claims: Claims) -> (payload: Payload)
    ensures
        payload == claims.payload,
{
    claims.payload
}

/// A request for which no route is defined is answered with `ApiNotFound`,
/// whose number is 10002 and whose status is 404, and only such a request is
/// turned away by the route table.
pub proof fn lemma_undefined_route_is_not_found(
    method: Seq<char>,
    path: Seq<char>,
    r: OhMyResult<Route>,
)
    requires
        leads_to(r, route_of(method, path)),
    ensures
        r is Err <==> !defined(method, path),
        !defined(method, path) ==> {
            &&& r matches Err(err)
            &&& err@ == ApiErrorView::ApiNotFound
            &&& err@.code() == 10002
            &&& err@.status().number() == 404
            &&& err@.text() == "Specified api is not found, please check your url and method"@
        },
{
}

} // verus!
