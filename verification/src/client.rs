//! The HTTP client core: it resolves headers, builds the full URL, applies
//! the authentication strategy, follows redirects and classifies error
//! responses.
//!
//! The transport itself stands outside the library: one logical call is
//! driven against a sequence of [`Exchange`] values, one per request issued,
//! each holding what the transport produced for it.  A caller that owns a
//! real transport prepares a request with [`Client::prepare_request`], sends
//! it, and consults [`Client::get_redirect`] and [`Client::get_error`] to
//! continue exactly as [`dispatch`] does.

use vstd::prelude::*;
use vstd::string::*;

use crate::auth::Auth;
use crate::encoding::{base64_of, form_encoded, form_urlencode};
use crate::encoding::to_base64;
use crate::error::{github_error_of, Error, GithubError};
use crate::headers::{clone_string, remove_name, Headers};

verus! {

broadcast use vstd::string::group_string_axioms;

/// The request methods the API is called with.
#[derive(Clone, Copy, Debug, PartialEq, Eq, Structural)]
pub enum Method {
    Get,
    Post,
    Put,
    Patch,
    Delete,
}

/// One request, ready to be sent: method, absolute URL, headers and an
/// optional body.
#[derive(Debug)]
pub struct Request {
    pub method: Method,
    pub url: String,
    pub headers: Headers,
    pub body: Option<String>,
}

/// The character view of an optional request body.
pub open spec fn opt_body_view(b: Option<String>) -> Option<Seq<char>> {
    match b {
        Some(s) => Some(s@),
        None => None,
    }
}

impl Clone for Request {
    /// A copy with the same method, URL, header entries and body text.
    fn clone(&self) -> (r: Request)
        ensures
            r.method == self.method,
            r.url@ == self.url@,
            r.headers.entries() == self.headers.entries(),
            opt_body_view(r.body) == opt_body_view(self.body),
    {
        let body = match &self.body {
            Some(b) => Some(clone_string(b)),
            None => None,
        };
        Request {
            method: self.method,
            url: clone_string(&self.url),
            headers: self.headers.clone(),
            body,
        }
    }
}

/// One response, with its body fully read.
#[derive(Debug)]
pub struct Response {
    pub status: u16,
    pub headers: Headers,
    pub body: String,
}

impl Clone for Response {
    /// A copy with the same status, header entries and body text.
    fn clone(&self) -> (r: Response)
        ensures
            r.status == self.status,
            r.headers.entries() == self.headers.entries(),
            r.body@ == self.body@,
    {
        Response { status: self.status, headers: self.headers.clone(), body: clone_string(&self.body) }
    }
}

/// What the transport produced for one request: a fully read response, or
/// the fault that prevented one.
pub enum Exchange {
    /// A response arrived and its body was read.
    Delivered(Response),
    /// The connection or the protocol failed before a response settled.
    TransportFault(String),
    /// A response arrived but reading its body stream failed.
    BodyFault(String),
}

/// How one logical call settles, as a mathematical value: the shape of what
/// the caller gets back once redirects are followed.
pub enum Settled {
    /// A non-error response is handed back as it stands.
    Done { status: u16, headers: Seq<(Seq<char>, Seq<char>)>, body: Seq<char> },
    /// An error status with a well-formed structured body.
    Api { err: GithubError },
    /// An error status whose body could not be parsed.
    Unparsed { body: Seq<char> },
    /// The transport failed.
    Transport { msg: Seq<char> },
    /// A body stream could not be read.
    Read { msg: Seq<char> },
    /// The transport produced nothing for a request.
    NoResponse,
}

/// Statuses after which the request is re-issued to the `Location` header.
pub open spec fn spec_is_redirect_status(status: u16) -> bool {
    status == 301 || status == 307 || status == 308
}

/// Redirect statuses that also produce the informational notice.
pub open spec fn spec_is_permanent_status(status: u16) -> bool {
    status == 301 || status == 308
}

/// Statuses whose body is read and classified as an error.
pub open spec fn spec_is_error_status(status: u16) -> bool {
    status == 400 || status == 404 || status == 422
}

/// Where a response redirects to: its `Location` header, when its status is
/// a redirect status.
pub open spec fn spec_redirect_target(r: Response) -> Option<Seq<char>> {
    if spec_is_redirect_status(r.status) {
        r.headers.lookup("Location"@)
    } else {
        None
    }
}

/// How a settled (non-redirected) response is classified.
pub open spec fn spec_classify(r: Response) -> Settled {
    if spec_is_error_status(r.status) {
        match github_error_of(r.body@) {
            Some(e) => Settled::Api { err: e },
            None => Settled::Unparsed { body: r.body@ },
        }
    } else {
        Settled::Done { status: r.status, headers: r.headers.entries(), body: r.body@ }
    }
}

/// How a call settles when the transport produces `script[i]`, `script[i+1]`,
/// ... for the requests issued from step `i` on.
pub open spec fn spec_settle(script: Seq<Exchange>, i: nat) -> Settled
    decreases script.len() - i,
{
    if i >= script.len() {
        Settled::NoResponse
    } else {
        match script[i as int] {
            Exchange::TransportFault(m) => Settled::Transport { msg: m@ },
            Exchange::BodyFault(m) => Settled::Read { msg: m@ },
            Exchange::Delivered(r) => if spec_redirect_target(r) is Some {
                spec_settle(script, i + 1)
            } else {
                spec_classify(r)
            },
        }
    }
}

/// The URL of every request issued, in order, starting at `start`.
pub open spec fn spec_urls(start: Seq<char>, script: Seq<Exchange>, i: nat) -> Seq<Seq<char>>
    decreases script.len() - i,
{
    if i >= script.len() {
        seq![start]
    } else {
        match script[i as int] {
            Exchange::Delivered(r) => match spec_redirect_target(r) {
                Some(loc) => seq![start] + spec_urls(loc, script, i + 1),
                None => seq![start],
            },
            _ => seq![start],
        }
    }
}

/// How many permanent redirects are followed, each producing one
/// informational notice.
pub open spec fn spec_permanent_count(script: Seq<Exchange>, i: nat) -> int
    decreases script.len() - i,
{
    if i >= script.len() {
        0
    } else {
        match script[i as int] {
            Exchange::Delivered(r) => match spec_redirect_target(r) {
                Some(_) => (if spec_is_permanent_status(r.status) {
                    1int
                } else {
                    0int
                }) + spec_permanent_count(script, i + 1),
                None => 0,
            },
            _ => 0,
        }
    }
}

/// Whether `r` is what `s` says the call settles to.
pub open spec fn result_matches(r: Result<Response, Error>, s: Settled) -> bool {
    match s {
        Settled::Done { status, headers, body } => r matches Ok(resp) && resp.status == status
            && resp.headers.entries() == headers && resp.body@ == body,
        Settled::Api { err } => r == Err::<Response, Error>(Error::Github(err)),
        Settled::Unparsed { body } => r matches Err(Error::Parsing(m)) && m@ == body,
        Settled::Transport { msg } => r matches Err(Error::HTTP(m)) && m@ == msg,
        Settled::Read { msg } => r matches Err(Error::STDIO(m)) && m@ == msg,
        Settled::NoResponse => r matches Err(Error::HTTP(m)) && m@ == "no response from transport"@,
    }
}

/// The URL views of a sequence of requests.
pub open spec fn urls_of(rs: Seq<Request>) -> Seq<Seq<char>> {
    rs.map(|i: int, x: Request| x.url@)
}

/// Whether `u` already carries a query string.
pub open spec fn has_query(u: Seq<char>) -> bool {
    exists|i: int| 0 <= i < u.len() && u[i] == '?'
}

/// The separator that starts or extends the query of `u`.
pub open spec fn query_sep(u: Seq<char>) -> Seq<char> {
    if has_query(u) {
        "&"@
    } else {
        "?"@
    }
}

/// What the authentication strategy appends to the request URL.
pub open spec fn spec_auth_url(auth: Auth, url: Seq<char>) -> Seq<char> {
    match auth {
        Auth::NoAuth => url,
        Auth::OAuth2Token(_) => url,
        Auth::OAuth2KeySecret(id, secret) => url + query_sep(url) + "client_id="@ + form_encoded(
            id@,
        ) + "&client_secret="@ + form_encoded(secret@),
        Auth::Basic(_, _, otp) => match otp {
            Some(t) => url + query_sep(url) + "X-GitHub-OTP="@ + form_encoded(t@),
            None => url,
        },
    }
}

/// The `Authorization` header value the authentication strategy sets, if any.
pub open spec fn spec_auth_header(auth: Auth) -> Option<Seq<char>> {
    match auth {
        Auth::NoAuth => None,
        Auth::OAuth2Token(t) => Some("Bearer "@ + t@),
        Auth::OAuth2KeySecret(_, _) => None,
        Auth::Basic(user, pass, _) => Some("Basic "@ + base64_of(user@ + ":"@ + pass@)),
    }
}

/// What the default header set maps `n` to.
pub open spec fn spec_default_lookup(ua: Seq<char>, n: Seq<char>) -> Option<Seq<char>> {
    if n == "Accept"@ {
        Some("application/vnd.github.v3+json"@)
    } else if n == "User-Agent"@ {
        Some(ua)
    } else {
        None
    }
}

/// What the resolved base headers (the override, or the defaults) map `n` to.
pub open spec fn spec_base_lookup(ua: Seq<char>, headers: Option<Headers>, n: Seq<char>) -> Option<
    Seq<char>,
> {
    match headers {
        Some(h) => h.lookup(n),
        None => spec_default_lookup(ua, n),
    }
}

/// The default header set, pair for pair.
pub open spec fn spec_default_entries(ua: Seq<char>) -> Seq<(Seq<char>, Seq<char>)> {
    seq![("Accept"@, "application/vnd.github.v3+json"@), ("User-Agent"@, ua)]
}

/// The resolved base headers (the override, or the defaults), pair for pair.
pub open spec fn spec_base_entries(ua: Seq<char>, headers: Option<Headers>) -> Seq<
    (Seq<char>, Seq<char>),
> {
    match headers {
        Some(h) => h.entries(),
        None => spec_default_entries(ua),
    }
}

fn contains_qmark(s: &str) -> (r: bool)
    ensures
        r == has_query(s@),
{
    let n = s.unicode_len();
    let mut i: usize = 0;
    while i < n
        invariant
            n == s@.len(),
            i <= n,
            forall|j: int| 0 <= j < i ==> s@[j] != '?',
        decreases n - i,
    {
        if s.get_char(i) == '?' {
            proof {
                assert(has_query(s@));
            }
            return true;
        }
        i = i + 1;
    }
    false
}

/// The outcome of one logical call: its result, every request issued in
/// order, and one informational notice per permanent redirect followed.
pub struct Dispatch {
    pub result: Result<Response, Error>,
    pub requests: Vec<Request>,
    pub permanent_notes: u64,
}

/// The request a redirect is followed with: a GET to `location`, reusing
/// the redirected request's headers, with no body.
pub fn follow_request(original: &Request, location: &String) -> (r: Request)
    ensures
        r.method == Method::Get,
        r.url@ == location@,
        r.headers.entries() == original.headers.entries(),
        (r.body is None),
{
    Request {
        method: Method::Get,
        url: clone_string(location),
        headers: original.headers.clone(),
        body: None,
    }
}

/// Drives one logical call against `script`: follows each redirect with a
/// GET to its `Location` under the original headers and no body, then
/// classifies the response the call settles on.
pub fn dispatch(req: &Request, script: &Vec<Exchange>) -> (r: Dispatch)
    ensures
        result_matches(r.result, spec_settle(script@, 0)),
        urls_of(r.requests@) == spec_urls(req.url@, script@, 0),
        r.requests@.len() >= 1,
        r.requests@[0].method == req.method,
        r.requests@[0].headers.entries() == req.headers.entries(),
        opt_body_view(r.requests@[0].body) == opt_body_view(req.body),
        forall|k: int|
            1 <= k < r.requests@.len() ==> (#[trigger] r.requests@[k]).method == Method::Get
                && r.requests@[k].headers.entries() == req.headers.entries()
                && r.requests@[k].body is None,
        r.permanent_notes == spec_permanent_count(script@, 0),
{
    let ghost url0 = req.url@;
    let mut requests: Vec<Request> = Vec::new();
    requests.push(req.clone());
    let mut notes: u64 = 0;
    let n = script.len();
    let mut i: usize = 0;
    proof {
        assert(urls_of(requests@) =~= seq![url0]);
    }
    while i < n
        invariant
            n == script@.len(),
            i <= n,
            requests@.len() == i + 1,
            notes <= i,
            url0 == req.url@,
            requests@[0].method == req.method,
            requests@[0].headers.entries() == req.headers.entries(),
            opt_body_view(requests@[0].body) == opt_body_view(req.body),
            forall|k: int|
                1 <= k < requests@.len() ==> (#[trigger] requests@[k]).method == Method::Get
                    && requests@[k].headers.entries() == req.headers.entries()
                    && requests@[k].body is None,
            spec_settle(script@, 0) == spec_settle(script@, i as nat),
            spec_permanent_count(script@, 0) == notes + spec_permanent_count(script@, i as nat),
            spec_urls(url0, script@, 0) == urls_of(requests@).drop_last() + spec_urls(
                urls_of(requests@).last(),
                script@,
                i as nat,
            ),
        decreases n - i,
    {
        let ghost cur = urls_of(requests@).last();
        let ghost done = urls_of(requests@).drop_last();
        match &script[i] {
            Exchange::TransportFault(m) => {
                proof {
                    assert(spec_urls(cur, script@, i as nat) =~= seq![cur]);
                    assert(done + seq![cur] =~= urls_of(requests@));
                }
                return Dispatch {
                    result: Err(Error::HTTP(clone_string(m))),
                    requests,
                    permanent_notes: notes,
                };
            },
            Exchange::BodyFault(m) => {
                proof {
                    assert(spec_urls(cur, script@, i as nat) =~= seq![cur]);
                    assert(done + seq![cur] =~= urls_of(requests@));
                }
                return Dispatch {
                    result: Err(Error::STDIO(clone_string(m))),
                    requests,
                    permanent_notes: notes,
                };
            },
            Exchange::Delivered(resp) => {
                match Client::get_redirect(resp) {
                    Some(loc) => {
                        if resp.status == 301 || resp.status == 308 {
                            notes = notes + 1;
                        }
                        let next = follow_request(req, loc);
                        let ghost prev = requests@;
                        let ghost locv = loc@;
                        requests.push(next);
                        proof {
                            assert(urls_of(requests@) =~= urls_of(prev).push(locv));
                            assert(urls_of(requests@).drop_last() =~= urls_of(prev));
                            assert(done + (seq![cur] + spec_urls(locv, script@, (i + 1) as nat))
                                =~= urls_of(prev) + spec_urls(locv, script@, (i + 1) as nat));
                        }
                        i = i + 1;
                    },
                    None => {
                        proof {
                            assert(spec_urls(cur, script@, i as nat) =~= seq![cur]);
                            assert(done + seq![cur] =~= urls_of(requests@));
                            assert(spec_settle(script@, i as nat) == spec_classify(*resp));
                        }
                        let result = match Client::get_error(resp) {
                            Some(e) => Err(e),
                            None => Ok(resp.clone()),
                        };
                        return Dispatch { result, requests, permanent_notes: notes };
                    },
                }
            },
        }
    }
    proof {
        assert(urls_of(requests@).drop_last() + seq![urls_of(requests@).last()] =~= urls_of(
            requests@,
        ));
    }
    Dispatch {
        result: Err(Error::HTTP(String::from_str("no response from transport"))),
        requests,
        permanent_notes: notes,
    }
}

/// Applying `BearerToken` sets `Authorization: Bearer <token>` and mutates
/// no query: the URL comes back unchanged.
pub proof fn lemma_bearer_token_mutation(token: String, url: Seq<char>)
    ensures
        spec_auth_url(Auth::OAuth2Token(token), url) == url,
        spec_auth_header(Auth::OAuth2Token(token)) == Some("Bearer "@ + token@),
{
}

/// Applying `NoAuth` changes nothing: no header value and no URL mutation.
pub proof fn lemma_no_auth_mutation(url: Seq<char>)
    ensures
        spec_auth_url(Auth::NoAuth, url) == url,
        (spec_auth_header(Auth::NoAuth) is None),
{
}

/// Applying `Basic` sets `Authorization: Basic <base64 of user:password>`;
/// without a one-time password the URL is unchanged, and with one the query
/// gains exactly the one-time-password pair.
pub proof fn lemma_basic_mutation(user: String, password: String, otp: String, url: Seq<char>)
    requires
        !has_query(url),
    ensures
        spec_auth_header(Auth::Basic(user, password, None)) == Some(
            "Basic "@ + base64_of(user@ + ":"@ + password@),
        ),
        spec_auth_url(Auth::Basic(user, password, None), url) == url,
        spec_auth_url(Auth::Basic(user, password, Some(otp)), url) == url + "?"@
            + "X-GitHub-OTP="@ + form_encoded(otp@),
{
}

/// Applying `ClientCredentials` to a URL without a query appends exactly
/// `?client_id=<id>&client_secret=<secret>`, both values form-urlencoded,
/// and sets no header.
pub proof fn lemma_client_credentials_mutation(id: String, secret: String, url: Seq<char>)
    requires
        !has_query(url),
    ensures
        spec_auth_url(Auth::OAuth2KeySecret(id, secret), url) == url + "?"@ + "client_id="@
            + form_encoded(id@) + "&client_secret="@ + form_encoded(secret@),
        (spec_auth_header(Auth::OAuth2KeySecret(id, secret)) is None),
{
}

/// A 301, then a 307, then a plain 200 response: the call issues exactly two
/// additional requests, one to each `Location`, returns the final response,
/// and notes the one permanent redirect exactly once.
pub proof fn lemma_redirect_chain(
    start: Seq<char>,
    r1: Response,
    r2: Response,
    r3: Response,
    loc1: Seq<char>,
    loc2: Seq<char>,
    script: Seq<Exchange>,
)
    requires
        script == seq![
            Exchange::Delivered(r1),
            Exchange::Delivered(r2),
            Exchange::Delivered(r3),
        ],
        r1.status == 301,
        r1.headers.lookup("Location"@) == Some(loc1),
        r2.status == 307,
        r2.headers.lookup("Location"@) == Some(loc2),
        !spec_is_redirect_status(r3.status),
        !spec_is_error_status(r3.status),
    ensures
        spec_urls(start, script, 0) == seq![start, loc1, loc2],
        spec_settle(script, 0) == (Settled::Done {
            status: r3.status,
            headers: r3.headers.entries(),
            body: r3.body@,
        }),
        spec_permanent_count(script, 0) == 1,
{
    assert(spec_settle(script, 2) == spec_classify(r3));
    assert(spec_settle(script, 1) == spec_settle(script, 2));
    assert(spec_settle(script, 0) == spec_settle(script, 1));
    assert(spec_urls(loc2, script, 2) =~= seq![loc2]);
    assert(spec_urls(loc1, script, 1) =~= seq![loc1] + spec_urls(loc2, script, 2));
    assert(spec_urls(start, script, 0) =~= seq![start] + spec_urls(loc1, script, 1));
    assert(spec_urls(start, script, 0) =~= seq![start, loc1, loc2]);
    assert(spec_permanent_count(script, 2) == 0);
    assert(spec_permanent_count(script, 1) == spec_permanent_count(script, 2));
    assert(spec_permanent_count(script, 0) == 1 + spec_permanent_count(script, 1));
}

/// The client: the base API URL, the `User-Agent` value, and the active
/// authentication strategy.  A value of it is reused across sequential
/// calls; none of its fields change during a call.
#[derive(Debug)]
pub struct Client {
    /// Base URL of the API; another value reaches an enterprise instance.
    pub api_url: String,
    /// Value sent as the `User-Agent` request header.
    pub user_agent: String,
    /// The active authentication strategy.
    pub authentication: Auth,
}

impl Client {
    /// A client against the default API URL.
    pub fn new(user_agent: &str, auth: Auth) -> (r: Client)
        ensures
            r.api_url@ == "https://api.github.com"@,
            r.user_agent@ == user_agent@,
            r.authentication == auth,
    {
        Client::with_url("https://api.github.com", user_agent, auth)
    }

    /// A client against another API URL.
    pub fn with_url(url: &str, user_agent: &str, auth: Auth) -> (r: Client)
        ensures
            r.api_url@ == url@,
            r.user_agent@ == user_agent@,
            r.authentication == auth,
    {
        Client { api_url: url.to_owned(), user_agent: user_agent.to_owned(), authentication: auth }
    }

    /// The default header set: the v3 media type and the configured
    /// `User-Agent`, and nothing else.
    pub fn get_default_headers(&self) -> (r: Headers)
        ensures
            r.entries() == spec_default_entries(self.user_agent@),
            forall|n: Seq<char>| #[trigger]
                r.lookup(n) == spec_default_lookup(self.user_agent@, n),
    {
        proof {
            reveal_strlit("Accept");
            reveal_strlit("User-Agent");
            assert("Accept"@.len() == 6);
            assert("User-Agent"@.len() == 10);
        }
        let mut headers = Headers::new();
        headers.set("Accept", String::from_str("application/vnd.github.v3+json"));
        proof {
            assert(remove_name(Seq::<(Seq<char>, Seq<char>)>::empty(), "Accept"@) =~= Seq::<
                (Seq<char>, Seq<char>),
            >::empty());
            assert(headers.entries() =~= seq![("Accept"@, "application/vnd.github.v3+json"@)]);
        }
        let ghost after_accept = headers.entries();
        headers.set("User-Agent", clone_string(&self.user_agent));
        proof {
            assert(after_accept.drop_last() =~= Seq::<(Seq<char>, Seq<char>)>::empty());
            assert(remove_name(Seq::<(Seq<char>, Seq<char>)>::empty(), "User-Agent"@) =~= Seq::<
                (Seq<char>, Seq<char>),
            >::empty());
            assert(remove_name(after_accept, "User-Agent"@) =~= after_accept);
            assert(headers.entries() =~= spec_default_entries(self.user_agent@));
        }
        proof {
            assert forall|n: Seq<char>| #[trigger] headers.lookup(n) == spec_default_lookup(
                self.user_agent@,
                n,
            ) by {
                if n == "Accept"@ {
                    assert(headers.lookup(n) == Some("application/vnd.github.v3+json"@));
                } else if n == "User-Agent"@ {
                    assert(headers.lookup(n) == Some(self.user_agent@));
                } else {
                    assert(headers.lookup(n) is None);
                }
            }
        }
        headers
    }

    /// Applies `auth` to a pending request: sets the `Authorization` header
    /// and appends the query parameters its variant calls for, leaving every
    /// other header and the rest of the URL untouched.
    pub fn set_request_authentication(auth: &Auth, url: String, headers: &mut Headers) -> (r:
        String)
        ensures
            r@ == spec_auth_url(*auth, url@),
            (spec_auth_header(*auth) is None) ==> *final(headers) == *old(headers),
            final(headers).entries() == match spec_auth_header(*auth) {
                Some(v) => remove_name(old(headers).entries(), "Authorization"@).push(
                    ("Authorization"@, v),
                ),
                None => old(headers).entries(),
            },
            forall|n: Seq<char>|
                n != "Authorization"@ ==> #[trigger] final(headers).lookup(n) == old(
                    headers,
                ).lookup(n),
            final(headers).lookup("Authorization"@) == match spec_auth_header(*auth) {
                Some(v) => Some(v),
                None => old(headers).lookup("Authorization"@),
            },
    {
        match auth {
            Auth::NoAuth => url,
            Auth::OAuth2Token(token) => {
                let value = String::from_str("Bearer ").concat(token.as_str());
                headers.set("Authorization", value);
                url
            },
            Auth::OAuth2KeySecret(id, secret) => {
                let sep: &str = if contains_qmark(url.as_str()) {
                    "&"
                } else {
                    "?"
                };
                let eid = form_urlencode(id.as_str());
                let esecret = form_urlencode(secret.as_str());
                url.concat(sep).concat("client_id=").concat(eid.as_str()).concat(
                    "&client_secret=",
                ).concat(esecret.as_str())
            },
            Auth::Basic(user, pass, otp) => {
                let creds = clone_string(user).concat(":").concat(pass.as_str());
                let value = String::from_str("Basic ").concat(to_base64(creds.as_str()).as_str());
                headers.set("Authorization", value);
                match otp {
                    Some(t) => {
                        let sep: &str = if contains_qmark(url.as_str()) {
                            "&"
                        } else {
                            "?"
                        };
                        let et = form_urlencode(t.as_str());
                        url.concat(sep).concat("X-GitHub-OTP=").concat(et.as_str())
                    },
                    None => url,
                }
            },
        }
    }

    /// Builds the request one call will issue: the resolved headers (the
    /// override, or the defaults), the base URL and endpoint joined, and the
    /// authentication strategy applied to both.
    pub fn prepare_request(
        &self,
        method: Method,
        endpoint: String,
        headers: Option<Headers>,
        body: Option<String>,
    ) -> (r: Request)
        ensures
            r.method == method,
            r.body == body,
            r.url@ == spec_auth_url(self.authentication, self.api_url@ + endpoint@),
            r.headers.entries() == match spec_auth_header(self.authentication) {
                Some(v) => remove_name(
                    spec_base_entries(self.user_agent@, headers),
                    "Authorization"@,
                ).push(("Authorization"@, v)),
                None => spec_base_entries(self.user_agent@, headers),
            },
            forall|n: Seq<char>|
                n != "Authorization"@ ==> #[trigger] r.headers.lookup(n) == spec_base_lookup(
                    self.user_agent@,
                    headers,
                    n,
                ),
            r.headers.lookup("Authorization"@) == match spec_auth_header(self.authentication) {
                Some(v) => Some(v),
                None => spec_base_lookup(self.user_agent@, headers, "Authorization"@),
            },
    {
        proof {
            reveal_strlit("Accept");
            reveal_strlit("User-Agent");
            reveal_strlit("Authorization");
        }
        let mut resolved = match headers {
            Some(h) => h,
            None => self.get_default_headers(),
        };
        let url = clone_string(&self.api_url).concat(endpoint.as_str());
        let url = Client::set_request_authentication(&self.authentication, url, &mut resolved);
        Request { method, url, headers: resolved, body }
    }

    /// Where `response` redirects to: its `Location` header, when its status
    /// is a redirect status.
    pub fn get_redirect(response: &Response) -> (r: Option<&String>)
        ensures
            match r {
                Some(loc) => spec_redirect_target(*response) == Some(loc@),
                None => spec_redirect_target(*response) is None,
            },
    {
        if response.status == 301 || response.status == 307 || response.status == 308 {
            response.headers.get("Location")
        } else {
            None
        }
    }

    /// Classifies `response`: on an error status its body is parsed as a
    /// structured error, and an unparsable body is handed back inside the
    /// parse error.
    pub fn get_error(response: &Response) -> (r: Option<Error>)
        ensures
            match spec_classify(*response) {
                Settled::Done { .. } => r is None,
                Settled::Api { err } => r == Some(Error::Github(err)),
                Settled::Unparsed { body } => r matches Some(Error::Parsing(m)) && m@ == body,
                _ => false,
            },
    {
        if response.status == 400 || response.status == 404 || response.status == 422 {
            match crate::error::parse_error_body(response.body.as_str()) {
                Some(e) => Some(Error::Github(e)),
                None => Some(Error::Parsing(clone_string(&response.body))),
            }
        } else {
            None
        }
    }

    /// The body text of a read attempt, or the read failure as an error.
    pub fn response_to_string(read: Result<String, String>) -> (r: Result<String, Error>)
        ensures
            match read {
                Ok(body) => r matches Ok(b) && b == body,
                Err(msg) => r matches Err(e) && e == Error::STDIO(msg),
            },
    {
        match read {
            Ok(body) => Ok(body),
            Err(msg) => Err(Error::STDIO(msg)),
        }
    }

    fn make_request(
        &self,
        method: Method,
        endpoint: String,
        headers: Option<Headers>,
        script: &Vec<Exchange>,
    ) -> (r: Result<Response, Error>)
        ensures
            result_matches(r, spec_settle(script@, 0)),
    {
        let req = self.prepare_request(method, endpoint, headers, None);
        dispatch(&req, script).result
    }

    fn make_request_body(
        &self,
        method: Method,
        endpoint: String,
        headers: Option<Headers>,
        body: String,
        script: &Vec<Exchange>,
    ) -> (r: Result<Response, Error>)
        ensures
            result_matches(r, spec_settle(script@, 0)),
    {
        let req = self.prepare_request(method, endpoint, headers, Some(body));
        dispatch(&req, script).result
    }

    /// GET request with optionally overridden headers.
    pub fn get(&self, endpoint: String, headers: Option<Headers>, script: &Vec<Exchange>) -> (r:
        Result<Response, Error>)
        ensures
            result_matches(r, spec_settle(script@, 0)),
    {
        self.make_request(Method::Get, endpoint, headers, script)
    }

    /// POST request with optionally overridden headers.
    pub fn post(&self, endpoint: String, headers: Option<Headers>, script: &Vec<Exchange>) -> (r:
        Result<Response, Error>)
        ensures
            result_matches(r, spec_settle(script@, 0)),
    {
        self.make_request(Method::Post, endpoint, headers, script)
    }

    /// PUT request with optionally overridden headers.
    pub fn put(&self, endpoint: String, headers: Option<Headers>, script: &Vec<Exchange>) -> (r:
        Result<Response, Error>)
        ensures
            result_matches(r, spec_settle(script@, 0)),
    {
        self.make_request(Method::Put, endpoint, headers, script)
    }

    /// PATCH request with optionally overridden headers.
    pub fn patch(&self, endpoint: String, headers: Option<Headers>, script: &Vec<Exchange>) -> (r:
        Result<Response, Error>)
        ensures
            result_matches(r, spec_settle(script@, 0)),
    {
        self.make_request(Method::Patch, endpoint, headers, script)
    }

    /// DELETE request with optionally overridden headers.
    pub fn delete(&self, endpoint: String, headers: Option<Headers>, script: &Vec<Exchange>) -> (r:
        Result<Response, Error>)
        ensures
            result_matches(r, spec_settle(script@, 0)),
    {
        self.make_request(Method::Delete, endpoint, headers, script)
    }

    /// GET request with optionally overridden headers and a body.
    pub fn get_body(
        &self,
        endpoint: String,
        headers: Option<Headers>,
        body: String,
        script: &Vec<Exchange>,
    ) -> (r: Result<Response, Error>)
        ensures
            result_matches(r, spec_settle(script@, 0)),
    {
        self.make_request_body(Method::Get, endpoint, headers, body, script)
    }

    /// POST request with optionally overridden headers and a body.
    pub fn post_body(
        &self,
        endpoint: String,
        headers: Option<Headers>,
        body: String,
        script: &Vec<Exchange>,
    ) -> (r: Result<Response, Error>)
        ensures
            result_matches(r, spec_settle(script@, 0)),
    {
        self.make_request_body(Method::Post, endpoint, headers, body, script)
    }

    /// PUT request with optionally overridden headers and a body.
    pub fn put_body(
        &self,
        endpoint: String,
        headers: Option<Headers>,
        body: String,
        script: &Vec<Exchange>,
    ) -> (r: Result<Response, Error>)
        ensures
            result_matches(r, spec_settle(script@, 0)),
    {
        self.make_request_body(Method::Put, endpoint, headers, body, script)
    }

    /// PATCH request with optionally overridden headers and a body.
    pub fn patch_body(
        &self,
        endpoint: String,
        headers: Option<Headers>,
        body: String,
        script: &Vec<Exchange>,
    ) -> (r: Result<Response, Error>)
        ensures
            result_matches(r, spec_settle(script@, 0)),
    {
        self.make_request_body(Method::Patch, endpoint, headers, body, script)
    }

    /// DELETE request with optionally overridden headers and a body.
    pub fn delete_body(
        &self,
        endpoint: String,
        headers: Option<Headers>,
        body: String,
        script: &Vec<Exchange>,
    ) -> (r: Result<Response, Error>)
        ensures
            result_matches(r, spec_settle(script@, 0)),
    {
        self.make_request_body(Method::Delete, endpoint, headers, body, script)
    }
}

} // verus!
