//! The responses of the server.

use vstd::prelude::*;

verus! {

/// A response, which always carries the security headers.
#[derive(Debug)]
pub struct HttpResponse {
    status: u16,
    headers: Vec<(&'static str, &'static str)>,
    body: String,
}

/// The contents of an [`HttpResponse`]: its status, its headers by name, and its body.
#[verifier::ext_equal]
pub struct ResponseView {
    pub status: u16,
    pub headers: Seq<(Seq<char>, Seq<char>)>,
    pub body: Seq<char>,
}

/// The contents of a list of headers.
pub open spec fn header_views(headers: Seq<(&'static str, &'static str)>) -> Seq<
    (Seq<char>, Seq<char>),
> {
    headers.map_values(|h: (&'static str, &'static str)| (h.0@, h.1@))
}

impl View for HttpResponse {
    type V = ResponseView;

    closed spec fn view(&self) -> ResponseView {
        ResponseView {
            status: self.status,
            headers: header_views(self.headers@),
            body: self.body@,
        }
    }
}

/// The security headers.
pub open spec fn security_headers() -> Seq<(Seq<char>, Seq<char>)> {
    seq![
        ("X-Content-Type-Options"@, "nosniff"@),
        ("X-Frame-Options"@, "DENY"@),
        ("Cache-Control"@, "no-store"@),
    ]
}

/// Whether a response carries every security header.
pub open spec fn is_secured(r: ResponseView) -> bool {
    forall|i: int|
        0 <= i < security_headers().len() ==> r.headers.contains(#[trigger] security_headers()[i])
}

/// The headers of a response: what its body is, how long the client is asked to wait, where it is,
/// and the security headers.
pub open spec fn response_headers(
    content_type: Seq<char>,
    retry_after: Option<Seq<char>>,
) -> Seq<(Seq<char>, Seq<char>)> {
    let first = seq![("Content-Type"@, content_type)];
    match retry_after {
        Some(seconds) => first.push(("Retry-After"@, seconds)) + security_headers(),
        None => first + security_headers(),
    }
}

/// A response with these headers carries the security headers.
proof fn headers_secure(r: ResponseView, content_type: Seq<char>, retry_after: Option<Seq<char>>)
    requires
        r.headers == response_headers(content_type, retry_after),
    ensures
        is_secured(r),
{
    let before = r.headers.len() - security_headers().len();
    assert forall|i: int| 0 <= i < security_headers().len() implies r.headers.contains(
        #[trigger] security_headers()[i],
    ) by {
        assert(r.headers[before + i] == security_headers()[i]);
    }
}

impl HttpResponse {
    #[verifier::type_invariant]
    spec fn secured(&self) -> bool {
        is_secured(self@)
    }

    /// A response with a body of the given kind.
    pub fn new(
        status: u16,
        content_type: &'static str,
        retry_after: Option<&'static str>,
        body: String,
    ) -> (r: Self)
        ensures
            r@ == (ResponseView {
                status,
                headers: response_headers(
                    content_type@,
                    match retry_after {
                        Some(seconds) => Some(seconds@),
                        None => None,
                    },
                ),
                body: body@,
            }),
    {
        let mut headers: Vec<(&'static str, &'static str)> = Vec::new();
        headers.push(("Content-Type", content_type));
        if let Some(seconds) = retry_after {
            headers.push(("Retry-After", seconds));
        }
        headers.push(("X-Content-Type-Options", "nosniff"));
        headers.push(("X-Frame-Options", "DENY"));
        headers.push(("Cache-Control", "no-store"));
        let ghost wait = match retry_after {
            Some(seconds) => Some(seconds@),
            None => None,
        };
        proof {
            let view = ResponseView {
                status,
                headers: header_views(headers@),
                body: body@,
            };
            assert(view.headers =~= response_headers(content_type@, wait));
            headers_secure(view, content_type@, wait);
        }
        HttpResponse { status, headers, body }
    }

    /// The status, the headers and the body. The security headers are among the headers.
    pub fn into_parts(self) -> (r: (u16, Vec<(&'static str, &'static str)>, String))
        ensures
            self@ == (ResponseView { status: r.0, headers: header_views(r.1@), body: r.2@ }),
            is_secured(self@),
    {
        proof {
            use_type_invariant(&self);
        }
        (self.status, self.headers, self.body)
    }
}

/// A response says first what its body is and, where it is asked to, how long to wait. Then come the
/// three security headers, and no other.
pub proof fn headers_come_in_order(content_type: Seq<char>, wait: Seq<char>)
    ensures
        ({
            let h = response_headers(content_type, None);
            &&& h.len() == 4
            &&& h[0] == ("Content-Type"@, content_type)
            &&& h[1] == ("X-Content-Type-Options"@, "nosniff"@)
            &&& h[2] == ("X-Frame-Options"@, "DENY"@)
            &&& h[3] == ("Cache-Control"@, "no-store"@)
        }),
        ({
            let h = response_headers(content_type, Some(wait));
            &&& h.len() == 5
            &&& h[0] == ("Content-Type"@, content_type)
            &&& h[1] == ("Retry-After"@, wait)
            &&& h[2] == ("X-Content-Type-Options"@, "nosniff"@)
            &&& h[3] == ("X-Frame-Options"@, "DENY"@)
            &&& h[4] == ("Cache-Control"@, "no-store"@)
        }),
{
}

/// A response carries the security headers where each of the three is among its headers.
pub proof fn secured_responses_have_three_headers(r: ResponseView)
    ensures
        is_secured(r) <==> {
            &&& r.headers.contains(("X-Content-Type-Options"@, "nosniff"@))
            &&& r.headers.contains(("X-Frame-Options"@, "DENY"@))
            &&& r.headers.contains(("Cache-Control"@, "no-store"@))
        },
{
    let h = security_headers();
    assert(h.len() == 3);
    assert(h[0] == ("X-Content-Type-Options"@, "nosniff"@));
    assert(h[1] == ("X-Frame-Options"@, "DENY"@));
    assert(h[2] == ("Cache-Control"@, "no-store"@));
}

/// The contents of headers are their names and values.
pub proof fn header_contents(headers: Seq<(&'static str, &'static str)>, i: int)
    requires
        0 <= i < headers.len(),
    ensures
        header_views(headers).len() == headers.len(),
        header_views(headers)[i].0 == headers[i].0@,
        header_views(headers)[i].1 == headers[i].1@,
{
}

} // verus!
