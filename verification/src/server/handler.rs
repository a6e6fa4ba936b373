//! Which endpoint a request is for, and what it is answered.

use vstd::prelude::*;

use crate::server::response::{self, HttpResponse, ResponseView};
use crate::server::state::{self, HealthResponse};
use crate::text;

verus! {

/// Where a request goes.
#[derive(Debug, Clone, Copy, PartialEq, Eq, Structural)]
pub enum Route {
    Healthz,
    Readyz,
    Metrics,
    MockLlm,
    /// The endpoint is there, but not for this method.
    MethodNotAllowed,
    NotFound,
}

/// Where a request for a path goes. The endpoints that report are read with `GET`; the stand-in
/// for a language model, where it is enabled, is called with `POST`.
pub open spec fn route_of(method: Seq<char>, path: Seq<char>, mock_llm_enabled: bool) -> Route {
    let report = if path == "/healthz"@ {
        Some(Route::Healthz)
    } else if path == "/readyz"@ {
        Some(Route::Readyz)
    } else if path == "/metrics"@ {
        Some(Route::Metrics)
    } else {
        None
    };
    match report {
        Some(route) => if method == "GET"@ {
            route
        } else {
            Route::MethodNotAllowed
        },
        None => if path == "/mock-llm"@ && mock_llm_enabled {
            if method == "POST"@ {
                Route::MockLlm
            } else {
                Route::MethodNotAllowed
            }
        } else {
            Route::NotFound
        },
    }
}

/// Where a request for a path goes.
pub fn route(method: &str, path: &str, mock_llm_enabled: bool) -> (r: Route)
    ensures
        r == route_of(method@, path@, mock_llm_enabled),
{
    let report: Option<Route> = if text::same_text(path, "/healthz") {
        Some(Route::Healthz)
    } else if text::same_text(path, "/readyz") {
        Some(Route::Readyz)
    } else if text::same_text(path, "/metrics") {
        Some(Route::Metrics)
    } else {
        None
    };
    match report {
        Some(route) => if text::same_text(method, "GET") {
            route
        } else {
            Route::MethodNotAllowed
        },
        None => if text::same_text(path, "/mock-llm") && mock_llm_enabled {
            if text::same_text(method, "POST") {
                Route::MockLlm
            } else {
                Route::MethodNotAllowed
            }
        } else {
            Route::NotFound
        },
    }
}

/// The response of an endpoint.
pub open spec fn plain_response(status: u16, content_type: Seq<char>, body: Seq<char>) -> ResponseView {
    ResponseView { status, headers: response::response_headers(content_type, None), body }
}

/// The response to a request for the health of the service, with the report as JSON.
pub fn health_response(report: &HealthResponse, body: String) -> (r: HttpResponse)
    ensures
        r@ == plain_response(
            if state::all_healthy(report.dependencies) {
                200
            } else {
                503
            },
            "application/json"@,
            body@,
        ),
{
    HttpResponse::new(report.http_status(), "application/json", None, body)
}

/// The response to a request for the metrics, with them as text.
pub fn metrics_response(body: String) -> (r: HttpResponse)
    ensures
        r@ == plain_response(200, "text/plain; version=0.0.4"@, body@),
{
    HttpResponse::new(200, "text/plain; version=0.0.4", None, body)
}

/// The response of the stand-in for a language model.
pub fn mock_llm_response() -> (r: HttpResponse)
    ensures
        r@ == plain_response(
            200,
            "application/json"@,
            "{\"text\":\"mock prompt\",\"usage\":{\"total_tokens\":0}}"@,
        ),
{
    HttpResponse::new(
        200,
        "application/json",
        None,
        "{\"text\":\"mock prompt\",\"usage\":{\"total_tokens\":0}}".to_owned(),
    )
}

/// What keeps a request from being served.
#[derive(Debug, Clone, Copy, PartialEq, Eq, Structural)]
pub enum Problem {
    NotFound,
    MethodNotAllowed,
    BodyTooLarge,
    /// The body could not be read.
    BodyBroken,
    /// The response could not be written down.
    Internal,
}

/// The response to a request that cannot be served.
pub open spec fn problem_view(problem: Problem) -> ResponseView {
    let (status, body) = match problem {
        Problem::NotFound => (404u16, "{\"error\":\"not_found\"}"@),
        Problem::MethodNotAllowed => (405u16, "{\"error\":\"method_not_allowed\"}"@),
        Problem::BodyTooLarge => (413u16, "{\"error\":\"payload_too_large\"}"@),
        Problem::BodyBroken => (400u16, "{\"error\":\"bad_request\"}"@),
        Problem::Internal => (500u16, "{\"error\":\"internal_error\"}"@),
    };
    plain_response(status, "application/json"@, body)
}

/// The response to a request that cannot be served.
pub fn problem_response(problem: Problem) -> (r: HttpResponse)
    ensures
        r@ == problem_view(problem),
{
    let (status, body): (u16, &'static str) = match problem {
        Problem::NotFound => (404, "{\"error\":\"not_found\"}"),
        Problem::MethodNotAllowed => (405, "{\"error\":\"method_not_allowed\"}"),
        Problem::BodyTooLarge => (413, "{\"error\":\"payload_too_large\"}"),
        Problem::BodyBroken => (400, "{\"error\":\"bad_request\"}"),
        Problem::Internal => (500, "{\"error\":\"internal_error\"}"),
    };
    HttpResponse::new(status, "application/json", None, body.to_owned())
}

/// The server goes on after its shutdown signal changed, to `shutdown`, unless that says so or
/// the signal's sender is gone.
pub fn serves_on(closed: bool, shutdown: bool) -> (r: bool)
    ensures
        r == (!closed && !shutdown),
{
    !(closed || shutdown)
}

/// Each endpoint is reached by its own path with its own method, and in no other way. With another
/// method it is refused, and all else is not there. The stand-in for a language model is there only
/// where it is enabled.
pub proof fn endpoints_are_reached_by_path_and_method(
    method: Seq<char>,
    path: Seq<char>,
    mock_llm_enabled: bool,
)
    ensures
        ({
            let route = route_of(method, path, mock_llm_enabled);
            let report = path == "/healthz"@ || path == "/readyz"@ || path == "/metrics"@;
            let mock = path == "/mock-llm"@ && mock_llm_enabled;
            &&& route is Healthz <==> path == "/healthz"@ && method == "GET"@
            &&& route is Readyz <==> path == "/readyz"@ && method == "GET"@
            &&& route is Metrics <==> path == "/metrics"@ && method == "GET"@
            &&& route is MockLlm <==> mock && method == "POST"@
            &&& route is MethodNotAllowed <==> (report && method != "GET"@) || (mock && method
                != "POST"@)
            &&& route is NotFound <==> !report && !mock
        }),
{
    reveal_strlit("/healthz");
    reveal_strlit("/readyz");
    reveal_strlit("/metrics");
    reveal_strlit("/mock-llm");
    assert("/healthz"@.len() == 8 && "/readyz"@.len() == 7);
    assert("/metrics"@.len() == 8 && "/mock-llm"@.len() == 9);
    assert("/healthz"@[1] == 'h' && "/metrics"@[1] == 'm');
}

/// The response of an endpoint has its status and its body, and says what the body is.
pub proof fn responses_hold_status_and_body(status: u16, content_type: Seq<char>, body: Seq<char>)
    ensures
        plain_response(status, content_type, body).status == status,
        plain_response(status, content_type, body).body == body,
        plain_response(status, content_type, body).headers.len() == 4,
        plain_response(status, content_type, body).headers[0] == ("Content-Type"@, content_type),
        response::is_secured(plain_response(status, content_type, body)),
{
    let r = plain_response(status, content_type, body);
    assert(r.headers[1] == ("X-Content-Type-Options"@, "nosniff"@));
    assert(r.headers[2] == ("X-Frame-Options"@, "DENY"@));
    assert(r.headers[3] == ("Cache-Control"@, "no-store"@));
    response::secured_responses_have_three_headers(r);
}

/// Each problem has a status and a name of its own, in JSON.
pub proof fn problems_are_named(problem: Problem)
    ensures
        ({
            let r = problem_view(problem);
            &&& problem is NotFound ==> r.status == 404 && r.body == "{\"error\":\"not_found\"}"@
            &&& problem is MethodNotAllowed ==> r.status == 405 && r.body
                == "{\"error\":\"method_not_allowed\"}"@
            &&& problem is BodyTooLarge ==> r.status == 413 && r.body
                == "{\"error\":\"payload_too_large\"}"@
            &&& problem is BodyBroken ==> r.status == 400 && r.body
                == "{\"error\":\"bad_request\"}"@
            &&& problem is Internal ==> r.status == 500 && r.body
                == "{\"error\":\"internal_error\"}"@
            &&& r.headers.len() == 4
            &&& r.headers[0] == ("Content-Type"@, "application/json"@)
            &&& response::is_secured(r)
        }),
{
    let r = problem_view(problem);
    responses_hold_status_and_body(r.status, "application/json"@, r.body);
}

} // verus!
