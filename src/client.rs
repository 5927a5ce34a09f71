use vstd::prelude::*;
use vstd::string::StringExecFns;

use crate::auth::Auth;
use crate::method::Method;

verus! {

/// The `Accept` header's value: JSON, in the API version this library speaks.
pub open spec fn accept_value() -> Seq<char> {
    "application/json; version=9"@
}

/// The media type of a JSON request body.
pub open spec fn json_media_type() -> Seq<char> {
    "application/json"@
}

/// A list of headers as pairs of character sequences.
pub open spec fn headers_view(h: Seq<(String, String)>) -> Seq<(Seq<char>, Seq<char>)> {
    h.map_values(|p: (String, String)| (p.0@, p.1@))
}

/// The headers that every request starts with, before the configured ones:
/// `Accept`, `Authorization`, and `Content-Type` where a body is sent.
pub open spec fn fixed_headers(auth: Seq<char>, has_body: bool) -> Seq<(Seq<char>, Seq<char>)> {
    let base = seq![("accept"@, accept_value()), ("authorization"@, auth)];
    if has_body {
        base.push(("content-type"@, json_media_type()))
    } else {
        base
    }
}

/// A request ready for a transport to send: the target, the headers in the
/// order they are sent, and the JSON text of the body, if any.
#[derive(Clone, Debug)]
pub struct Request {
    pub method: Method,
    pub url: String,
    pub headers: Vec<(String, String)>,
    pub body: Option<String>,
}

/// What a transport observed of one successful exchange: the call, the
/// reply's status and headers, the time from sending to the reply, and the
/// reply's media type, if it named one.
#[derive(Debug)]
pub struct Extra {
    pub method: Method,
    pub endpoint: String,
    pub status: u16,
    pub headers: Vec<(String, String)>,
    pub duration: std::time::Duration,
    pub content_type: Option<String>,
}

/// Every request leads with `Accept`, then `Authorization` with the
/// credential's value; the configured headers follow the fixed ones, all of
/// them, in their order, so that none takes the place of a fixed one.
pub proof fn lemma_request_headers(
    auth: Seq<char>,
    has_body: bool,
    additional: Seq<(String, String)>,
)
    ensures
        ({
            let h = fixed_headers(auth, has_body) + headers_view(additional);
            let k = fixed_headers(auth, has_body).len();
            &&& h[0] == ("accept"@, accept_value())
            &&& h[1] == ("authorization"@, auth)
            &&& k == if has_body { 3int } else { 2int }
            &&& h.len() == k + additional.len()
            &&& forall|i: int|
                0 <= i < additional.len() ==> #[trigger] h[k + i] == (
                    additional[i].0@,
                    additional[i].1@,
                )
        }),
{
}

/// What every call is made with: the server's base address, the credential,
/// and headers added to every request after the fixed ones.
#[derive(Clone, Debug)]
pub struct Client {
    server_url: String,
    auth: Auth,
    additional_headers: Vec<(String, String)>,
}

impl Client {
    pub closed spec fn spec_server_url(&self) -> Seq<char> {
        self.server_url@
    }

    pub closed spec fn spec_auth(&self) -> Seq<char> {
        self.auth@
    }

    pub closed spec fn spec_additional_headers(&self) -> Vec<(String, String)> {
        self.additional_headers
    }

    /// A client of the server at `server_url`, with no additional headers.
    pub fn new(server_url: String, auth: Auth) -> (r: Client)
        ensures
            r.spec_server_url() == server_url@,
            r.spec_auth() == auth@,
            r.spec_additional_headers()@ == Seq::<(String, String)>::empty(),
    {
        Client { server_url, auth, additional_headers: Vec::new() }
    }

    /// A client of the server at `server_url` that adds `headers`, in order,
    /// to every request.
    pub fn with_headers(server_url: String, auth: Auth, headers: Vec<(String, String)>) -> (r:
        Client)
        ensures
            r.spec_server_url() == server_url@,
            r.spec_auth() == auth@,
            r.spec_additional_headers() == headers,
    {
        Client { server_url, auth, additional_headers: headers }
    }

    /// The headers added to every request.
    pub fn additional_headers(&self) -> (r: &[(String, String)])
        ensures
            r@ == self.spec_additional_headers()@,
    {
        self.additional_headers.as_slice()
    }

    /// The headers added to every request, to be changed in place.
    pub fn additional_headers_mut(&mut self) -> (r: &mut Vec<(String, String)>)
        ensures
            *r == old(self).spec_additional_headers(),
            final(self).spec_additional_headers() == *final(r),
            final(self).spec_server_url() == old(self).spec_server_url(),
            final(self).spec_auth() == old(self).spec_auth(),
    {
        &mut self.additional_headers
    }

    /// The request for `method` on `url` taken as the complete target, with
    /// the fixed headers, then the additional ones in their order.
    pub fn build_for_url(&self, method: Method, url: String, body: Option<String>) -> (r: Request)
        ensures
            r.method == method,
            r.url@ == url@,
            headers_view(r.headers@) == fixed_headers(self.spec_auth(), body is Some)
                + headers_view(self.spec_additional_headers()@),
            r.body == body,
    {
        let mut headers: Vec<(String, String)> = Vec::new();
        headers.push(("accept".to_owned(), "application/json; version=9".to_owned()));
        headers.push(("authorization".to_owned(), self.auth.header_value()));
        if body.is_some() {
            headers.push(("content-type".to_owned(), "application/json".to_owned()));
        }
        let ghost fixed = fixed_headers(self.auth@, body is Some);
        assert(headers_view(headers@) =~= fixed);
        let extra = &self.additional_headers;
        let mut i: usize = 0;
        while i < extra.len()
            invariant
                i <= extra@.len(),
                headers_view(headers@) =~= fixed + headers_view(extra@.subrange(0, i as int)),
            decreases extra@.len() - i,
        {
            let name = extra[i].0.clone();
            let value = extra[i].1.clone();
            let ghost before = headers@;
            headers.push((name, value));
            assert(extra@.subrange(0, i + 1) =~= extra@.subrange(0, i as int).push(extra@[i as int]));
            assert(headers_view(headers@) =~= headers_view(before).push((name@, value@)));
            assert(headers_view(extra@.subrange(0, i + 1)) =~= headers_view(
                extra@.subrange(0, i as int),
            ).push((extra@[i as int].0@, extra@[i as int].1@)));
            i += 1;
        }
        assert(extra@.subrange(0, extra@.len() as int) =~= extra@);
        Request { method, url, headers, body }
    }

    /// The request for `method` on `endpoint`, appended to the server's base
    /// address.
    pub fn build(&self, method: Method, endpoint: &str, body: Option<String>) -> (r: Request)
        ensures
            r.method == method,
            r.url@ == self.spec_server_url() + endpoint@,
            headers_view(r.headers@) == fixed_headers(self.spec_auth(), body is Some)
                + headers_view(self.spec_additional_headers()@),
            r.body == body,
    {
        let url = self.server_url.clone().concat(endpoint);
        self.build_for_url(method, url, body)
    }
}

} // verus!
