//! The answer to requests over the rate limit, and the forgetting of idle clients.

use vstd::prelude::*;

use crate::server::response::{self, HttpResponse, ResponseView};

verus! {

/// The answer to a request over the rate limit.
pub open spec fn too_many_requests() -> ResponseView {
    ResponseView {
        status: 429,
        headers: seq![("Content-Type"@, "application/json"@), ("Retry-After"@, "1"@)]
            + response::security_headers(),
        body: "{\"error\":\"rate_limited\"}"@,
    }
}

/// The answer to a request, where the rate limit decides it: a request that it allows is none of
/// its business.
pub fn refusal(allowed: bool) -> (r: Option<HttpResponse>)
    ensures
        match r {
            None => allowed,
            Some(answer) => !allowed && answer@ == too_many_requests(),
        },
{
    if allowed {
        None
    } else {
        let answer = HttpResponse::new(
            429,
            "application/json",
            Some("1"),
            "{\"error\":\"rate_limited\"}".to_owned(),
        );
        assert(answer@.headers =~= too_many_requests().headers);
        Some(answer)
    }
}

/// Whether a client that made no request for this long is still kept in mind: it is forgotten once
/// it has been idle for longer than the limit.
pub fn outlives_eviction(idle_secs: u64, idle_nanos: u32, max_idle_secs: u64) -> (r: bool)
    ensures
        r == (idle_secs < max_idle_secs || (idle_secs == max_idle_secs && idle_nanos == 0)),
{
    idle_secs < max_idle_secs || (idle_secs == max_idle_secs && idle_nanos == 0)
}

/// A request over the rate limit is told so, and to come back after a second.
pub proof fn refused_requests_may_come_back()
    ensures
        too_many_requests().status == 429,
        too_many_requests().body == "{\"error\":\"rate_limited\"}"@,
        too_many_requests().headers.len() == 5,
        too_many_requests().headers[0] == ("Content-Type"@, "application/json"@),
        too_many_requests().headers[1] == ("Retry-After"@, "1"@),
        too_many_requests().headers[2] == ("X-Content-Type-Options"@, "nosniff"@),
        too_many_requests().headers[3] == ("X-Frame-Options"@, "DENY"@),
        too_many_requests().headers[4] == ("Cache-Control"@, "no-store"@),
{
}

} // verus!
