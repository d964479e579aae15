//! The client: turns a typed request into a wire call description and
//! maps the HTTP outcome onto a typed result.
use vstd::prelude::*;

use crate::errors::Error;
use crate::request::{Method, Request};

verus! {

/// The main client used for making requests to IEX.
///
/// Holds the base url to which requests are sent and the api token
/// appended to every call. Immutable after construction; many
/// concurrent calls may share one value.
#[derive(Debug, Clone)]
pub struct Client {
    /// The url to which the requests are sent.
    pub url: String,
    /// The api token.
    pub token: String,
}

/// `s` with every leading '/' removed.
pub open spec fn trim_leading_slashes(s: Seq<char>) -> Seq<char>
    decreases s.len(),
{
    if s.len() > 0 && s[0] == '/' {
        trim_leading_slashes(s.drop_first())
    } else {
        s
    }
}

/// `s` with every trailing '/' removed.
pub open spec fn trim_trailing_slashes(s: Seq<char>) -> Seq<char>
    decreases s.len(),
{
    if s.len() > 0 && s.last() == '/' {
        trim_trailing_slashes(s.drop_last())
    } else {
        s
    }
}

/// `s` with every leading and trailing '/' removed, as `str::trim_matches`
/// with a '/' pattern leaves a string.
pub open spec fn trim_slashes(s: Seq<char>) -> Seq<char> {
    trim_trailing_slashes(trim_leading_slashes(s))
}

proof fn lemma_trim_leading_skip(s: Seq<char>, k: int)
    requires
        0 <= k <= s.len(),
        forall|j: int| 0 <= j < k ==> s[j] == '/',
    ensures
        trim_leading_slashes(s) == trim_leading_slashes(s.subrange(k, s.len() as int)),
    decreases k,
{
    if k == 0 {
        assert(s.subrange(0, s.len() as int) =~= s);
    } else {
        let t = s.drop_first();
        assert(t =~= s.subrange(1, s.len() as int));
        lemma_trim_leading_skip(t, k - 1);
        assert(t.subrange(k - 1, t.len() as int) =~= s.subrange(k, s.len() as int));
    }
}

proof fn lemma_trim_leading_noop(s: Seq<char>)
    requires
        s.len() == 0 || s[0] != '/',
    ensures
        trim_leading_slashes(s) == s,
{
}

proof fn lemma_trim_trailing_skip(s: Seq<char>, k: int)
    requires
        0 <= k <= s.len(),
        forall|j: int| k <= j < s.len() ==> s[j] == '/',
    ensures
        trim_trailing_slashes(s) == trim_trailing_slashes(s.subrange(0, k)),
    decreases s.len() - k,
{
    if k == s.len() {
        assert(s.subrange(0, k) =~= s);
    } else {
        let t = s.drop_last();
        assert(t =~= s.subrange(0, s.len() - 1));
        lemma_trim_trailing_skip(t, k);
        assert(t.subrange(0, k) =~= s.subrange(0, k));
    }
}

proof fn lemma_trim_trailing_noop(s: Seq<char>)
    requires
        s.len() == 0 || s.last() != '/',
    ensures
        trim_trailing_slashes(s) == s,
{
}

proof fn lemma_trim_leading_head(s: Seq<char>)
    ensures
        trim_leading_slashes(s).len() > 0 ==> trim_leading_slashes(s)[0] != '/',
    decreases s.len(),
{
    if s.len() > 0 && s[0] == '/' {
        lemma_trim_leading_head(s.drop_first());
    }
}

proof fn lemma_trim_trailing_last(s: Seq<char>)
    ensures
        trim_trailing_slashes(s).len() > 0 ==> trim_trailing_slashes(s).last() != '/',
    decreases s.len(),
{
    if s.len() > 0 && s.last() == '/' {
        lemma_trim_trailing_last(s.drop_last());
    }
}

proof fn lemma_trim_trailing_prefix(s: Seq<char>)
    ensures
        trim_trailing_slashes(s).len() <= s.len(),
        trim_trailing_slashes(s) == s.subrange(0, trim_trailing_slashes(s).len() as int),
    decreases s.len(),
{
    if s.len() > 0 && s.last() == '/' {
        let t = s.drop_last();
        lemma_trim_trailing_prefix(t);
        let r = trim_trailing_slashes(s);
        assert(t.subrange(0, r.len() as int) =~= s.subrange(0, r.len() as int));
    } else {
        assert(s.subrange(0, s.len() as int) =~= s);
    }
}

/// Law: a trimmed path segment never starts or ends with a '/', however
/// many slashes the endpoint description produced.
pub proof fn lemma_trim_slashes_no_edge_slash(s: Seq<char>)
    ensures
        trim_slashes(s).len() > 0 ==> trim_slashes(s)[0] != '/',
        trim_slashes(s).len() > 0 ==> trim_slashes(s).last() != '/',
{
    let t = trim_leading_slashes(s);
    lemma_trim_leading_head(s);
    lemma_trim_trailing_last(t);
    lemma_trim_trailing_prefix(t);
}

/// Law: trimming the slash ends of a path segment is idempotent, so a
/// segment that was already normalized passes through unchanged.
pub proof fn lemma_trim_slashes_idempotent(s: Seq<char>)
    ensures
        trim_slashes(trim_slashes(s)) == trim_slashes(s),
{
    lemma_trim_slashes_no_edge_slash(s);
    let u = trim_slashes(s);
    lemma_trim_leading_noop(u);
    lemma_trim_trailing_noop(u);
}

/// Remove every leading and trailing '/' from `s`.
pub fn trim_slash_ends(s: &str) -> (r: String)
    ensures
        r@ == trim_slashes(s@),
{
    let n = s.unicode_len();
    let mut lo: usize = 0;
    while lo < n && s.get_char(lo) == '/'
        invariant
            n == s@.len(),
            lo <= n,
            forall|j: int| 0 <= j < lo ==> s@[j] == '/',
        decreases n - lo,
    {
        lo = lo + 1;
    }
    let mut hi: usize = n;
    while hi > lo && s.get_char(hi - 1) == '/'
        invariant
            n == s@.len(),
            lo <= hi <= n,
            forall|j: int| hi <= j < n ==> s@[j] == '/',
        decreases hi,
    {
        hi = hi - 1;
    }
    let r = s.substring_char(lo, hi);
    proof {
        lemma_trim_leading_skip(s@, lo as int);
        let t = s@.subrange(lo as int, n as int);
        lemma_trim_leading_noop(t);
        lemma_trim_trailing_skip(t, hi - lo);
        assert(t.subrange(0, hi - lo) =~= s@.subrange(lo as int, hi as int));
        lemma_trim_trailing_noop(s@.subrange(lo as int, hi as int));
    }
    String::from_str(r)
}

/// Classification of an HTTP status code into the three outcome bands
/// the client distinguishes.
#[derive(Debug, Clone, Copy, PartialEq, Eq, Structural)]
pub enum StatusClass {
    /// A 2xx status: the body is decoded as the declared response type.
    Success,
    /// A 4xx status: the body is returned verbatim in a client-error.
    ClientStatus,
    /// Any other status: the body is returned verbatim in a server-error.
    ServerStatus,
}

/// The band a status code falls in: 2xx is a success, 4xx is a client
/// error, and everything else is reported as a server error.
pub open spec fn spec_status_class(status: u16) -> StatusClass {
    if 200 <= status <= 299 {
        StatusClass::Success
    } else if 400 <= status <= 499 {
        StatusClass::ClientStatus
    } else {
        StatusClass::ServerStatus
    }
}

/// Classify an HTTP status code into its outcome band.
pub fn classify_status(status: u16) -> (c: StatusClass)
    ensures
        c == spec_status_class(status),
{
    if 200 <= status && status <= 299 {
        StatusClass::Success
    } else if 400 <= status && status <= 499 {
        StatusClass::ClientStatus
    } else {
        StatusClass::ServerStatus
    }
}

/// Build the typed error for a non-success HTTP outcome: a 4xx status
/// yields a client-error and any other status a server-error, each
/// carrying the exact numeric code and the raw body text untouched.
pub fn status_error(status: u16, body: String) -> (e: Error)
    requires
        spec_status_class(status) != StatusClass::Success,
    ensures
        spec_status_class(status) == StatusClass::ClientStatus ==> e == Error::ClientError(
            status,
            body,
        ),
        spec_status_class(status) == StatusClass::ServerStatus ==> e == Error::ServerError(
            status,
            body,
        ),
{
    if 400 <= status && status <= 499 {
        Error::ClientError(status, body)
    } else {
        Error::ServerError(status, body)
    }
}

/// Map the outcome of decoding a success body into the typed result: a
/// decoded value passes through unchanged, and a parse failure becomes
/// a decoding error carrying the parser's cause and the given message —
/// never a silent default value.
pub fn decode_outcome<T>(parsed: Result<T, String>, context: String) -> (r: Result<T, Error>)
    ensures
        parsed matches Ok(v) ==> (r matches Ok(w) && w == v),
        parsed matches Err(e) ==> (r matches Err(Error::Decode { cause, msg }) && cause == e && msg
            == context),
{
    match parsed {
        Ok(v) => Ok(v),
        Err(cause) => Err(Error::Decode { cause, msg: context }),
    }
}

/// Map one completed HTTP exchange onto the typed result, applying the
/// whole outcome policy at once: on a success status the decode outcome
/// passes through (the decoded value, or a decoding error that is never
/// a silent default), a 4xx status becomes a client-status error and any
/// other status a server-status error, each carrying the exact numeric
/// code and the raw body text untouched.
///
/// `parsed` is the decode outcome of the body, present exactly when the
/// status is in the success band (the body is not decoded otherwise).
pub fn response_outcome<T>(
    status: u16,
    body: String,
    parsed: Option<Result<T, String>>,
    context: String,
) -> (r: Result<T, Error>)
    requires
        parsed is Some <==> spec_status_class(status) == StatusClass::Success,
    ensures
        parsed matches Some(p) ==> (p matches Ok(v) ==> (r matches Ok(w) && w == v)),
        parsed matches Some(p) ==> (p matches Err(e) ==> (r matches Err(Error::Decode {
            cause,
            msg,
        }) && cause == e && msg == context)),
        spec_status_class(status) == StatusClass::ClientStatus ==> (r matches Err(e) && e
            == Error::ClientError(status, body)),
        spec_status_class(status) == StatusClass::ServerStatus ==> (r matches Err(e) && e
            == Error::ServerError(status, body)),
{
    match parsed {
        Some(p) => decode_outcome(p, context),
        None => Err(status_error(status, body)),
    }
}

/// Everything the transport needs to issue one wire call:
/// `{method} {url}?token={token}` with the listed headers and body.
pub struct PreparedCall {
    /// The verb of the call.
    pub method: Method,
    /// The composed final URL: base url, one '/', trimmed endpoint.
    pub url: String,
    /// Additional header name/value pairs.
    pub headers: Vec<(String, String)>,
    /// The serialized body payload, if the endpoint has one.
    pub body: Option<String>,
    /// Query parameters appended to the call: the single `token` pair.
    pub query: Vec<(String, String)>,
}

impl Client {
    /// Create a new `Client` with an explicit base url and api token.
    pub fn new(url: &str, token: &str) -> (c: Client)
        ensures
            c.url@ == url@,
            c.token@ == token@,
    {
        Client { url: String::from_str(url), token: String::from_str(token) }
    }

    /// Create a `Client` from the two named process settings
    /// `IEX_BASE_URL` and `IEX_TOKEN`, handed in as looked-up values.
    ///
    /// Fails with a configuration error naming the first missing
    /// setting: the base url is checked before the token.
    pub fn from_settings(base_url: Option<String>, token: Option<String>) -> (r: Result<
        Client,
        Error,
    >)
        ensures
            base_url is None ==> (r matches Err(Error::MissingEnv { variable }) && variable@
                == "IEX_BASE_URL"@),
            base_url is Some && token is None ==> (r matches Err(Error::MissingEnv { variable })
                && variable@ == "IEX_TOKEN"@),
            base_url is Some && token is Some ==> (r matches Ok(c) && c.url == base_url->0
                && c.token == token->0),
    {
        let url = match base_url {
            Some(u) => u,
            None => {
                return Err(Error::MissingEnv { variable: String::from_str("IEX_BASE_URL") });
            },
        };
        let tok = match token {
            Some(t) => t,
            None => {
                return Err(Error::MissingEnv { variable: String::from_str("IEX_TOKEN") });
            },
        };
        Ok(Client { url, token: tok })
    }

    /// Turn a typed request into the description of one wire call.
    ///
    /// The final URL is the base url, one '/', and the endpoint path
    /// with its leading and trailing slashes stripped — however many
    /// slashes the endpoint description produced. The api token is
    /// appended as the single query parameter named `token`; verb,
    /// headers and body are taken from the request unchanged.
    pub fn prepare<R: Request>(&self, request: &R) -> (p: PreparedCall)
        ensures
            p.method == request.spec_method(),
            p.url@ == self.url@ + "/"@ + trim_slashes(request.spec_endpoint()),
            p.headers.deep_view() == request.spec_headers(),
            p.body.deep_view() == request.spec_body(),
            p.query@.len() == 1,
            p.query@[0].0@ == "token"@,
            p.query@[0].1@ == self.token@,
    {
        let endpoint = request.endpoint();
        let trimmed = trim_slash_ends(endpoint.as_str());
        let mut url = self.url.clone();
        url.append("/");
        url.append(trimmed.as_str());
        let mut query: Vec<(String, String)> = Vec::new();
        query.push((String::from_str("token"), self.token.clone()));
        let p = PreparedCall {
            method: request.method(),
            url,
            headers: request.headers(),
            body: request.body(),
            query,
        };
        proof {
            assert(p.url@ =~= self.url@ + "/"@ + trim_slashes(request.spec_endpoint()));
        }
        p
    }
}

/// Number of successes in a sequence of batch outcomes.
pub open spec fn count_successes<T>(results: Seq<Result<T, Error>>) -> nat
    decreases results.len(),
{
    if results.len() == 0 {
        0
    } else {
        count_successes(results.drop_last()) + if results.last() is Ok {
            1nat
        } else {
            0nat
        }
    }
}

/// Number of failures in a sequence of batch outcomes.
pub open spec fn count_failures<T>(results: Seq<Result<T, Error>>) -> nat
    decreases results.len(),
{
    if results.len() == 0 {
        0
    } else {
        count_failures(results.drop_last()) + if results.last() is Err {
            1nat
        } else {
            0nat
        }
    }
}

/// Law: a batch of outcomes partitions exactly into successes and
/// failures — each entry is exactly one of the two, so over any batch
/// result of length N with M failures there are N - M successes, and
/// no outcome is dropped or double-counted.
pub proof fn lemma_batch_outcomes_partition<T>(results: Seq<Result<T, Error>>)
    ensures
        count_successes(results) + count_failures(results) == results.len(),
    decreases results.len(),
{
    if results.len() > 0 {
        lemma_batch_outcomes_partition(results.drop_last());
    }
}

} // verus!
