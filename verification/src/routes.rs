//! The HTTP surface: which requests the service takes, and what it answers
//! to those that need no run of the relay.

use crate::envelope::Status;
use vstd::prelude::*;

verus! {

/// The method of a request, as far as the routes tell methods apart.
#[derive(Clone, Copy, Debug, PartialEq, Eq, Structural)]
pub enum Method {
    Get,
    Post,
    Other,
}

/// What a request is served by.
#[derive(Clone, Copy, Debug, PartialEq, Eq, Structural)]
pub enum Served {
    /// The liveness route: status 200 and the text of `health_check`.
    Alive,
    /// The relay route: the answer is the reply of a run.
    Relay,
    /// No route takes the request: status 404.
    NotFound,
}

/// The path of the liveness route.
pub open spec fn health_path() -> Seq<char> {
    "/health_check"@
}

/// The path of the relay route.
pub open spec fn relay_path() -> Seq<char> {
    "/post_mailchimp_stats"@
}

/// The route table. A `GET` of the liveness path is a liveness check; a
/// `POST` of the relay path that announces a JSON body starts a run of the
/// relay; nothing else is served.
pub open spec fn served_by(method: Method, path: Seq<char>, json_body: bool) -> Served {
    if method == Method::Get && path == health_path() {
        Served::Alive
    } else if method == Method::Post && path == relay_path() && json_body {
        Served::Relay
    } else {
        Served::NotFound
    }
}

impl Served {
    /// The status of the answer where the route alone decides it; the
    /// status of a relay answer is that of the run.
    pub open spec fn status_of(self) -> Option<Status> {
        match self {
            Served::Alive => Some(Status::Success),
            Served::Relay => None,
            Served::NotFound => Some(Status::NotFound),
        }
    }

    pub fn status(self) -> (status: Option<Status>)
        ensures
            status == self.status_of(),
    {
        match self {
            Served::Alive => Some(Status::Success),
            Served::Relay => None,
            Served::NotFound => Some(Status::NotFound),
        }
    }
}

/// Whether two texts are the same, character by character.
fn same_text(a: &str, b: &str) -> (same: bool)
    ensures
        same == (a@ == b@),
{
    let a = a.to_owned();
    let b = b.to_owned();
    a == b
}

/// The body of the answer to a liveness check.
pub fn health_check() -> (body: &'static str)
    ensures
        body@ == seq!['O', 'K'],
{
    proof {
        reveal_strlit("OK");
    }
    let body = "OK";
    assert(body@ =~= seq!['O', 'K']);
    body
}

/// Finds what serves a request. `json_body` says whether the request
/// announces a JSON body.
pub fn serve(method: Method, path: &str, json_body: bool) -> (served: Served)
    ensures
        served == served_by(method, path@, json_body),
{
    match method {
        Method::Get => if same_text(path, "/health_check") {
            Served::Alive
        } else {
            Served::NotFound
        },
        Method::Post => if json_body && same_text(path, "/post_mailchimp_stats") {
            Served::Relay
        } else {
            Served::NotFound
        },
        Method::Other => Served::NotFound,
    }
}

/// A liveness check is answered with status 200 on its own path and `GET`
/// only: the same request for any other path is answered with 404, and so
/// is any other method on the liveness path.
pub proof fn liveness_on_its_path_only(method: Method, path: Seq<char>, json_body: bool)
    ensures
        served_by(Method::Get, health_path(), json_body) == Served::Alive,
        served_by(Method::Get, health_path(), json_body).status_of() == Some(Status::Success),
        Status::Success.code_of() == 200,
        path != health_path() ==> served_by(Method::Get, path, json_body) == Served::NotFound,
        path != health_path() ==> served_by(Method::Get, path, json_body).status_of() == Some(
            Status::NotFound,
        ),
        Status::NotFound.code_of() == 404,
        served_by(method, path, json_body) == Served::Alive <==> method == Method::Get && path
            == health_path(),
{
}

} // verus!
