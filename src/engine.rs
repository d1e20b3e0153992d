//! The request engine's decisions: how a call becomes a request, how long to
//! wait between attempts, when to try again, and what a response means.
//! The transport performs the request and the waits; each decision here is a
//! function of plain values.
use crate::classify::{error_from_response, is_error_for, is_response_error};
use crate::config::ClientConfig;
use crate::error::{is_retryable_status, Error, Result};
use crate::text::{i64_text, int_text};
use vstd::prelude::*;

verus! {

/// The identifier the client sends with every request.
pub const CLIENT_ID: &'static str = "mailbreeze-rust/0.1.0";

/// The media type of request and response bodies.
pub const JSON_MEDIA_TYPE: &'static str = "application/json";

/// An HTTP method.
#[derive(Clone, Copy, Debug, PartialEq, Eq)]
pub enum Method {
    Get,
    Post,
    Put,
    Patch,
    Delete,
}

impl Method {
    pub open spec fn name(self) -> Seq<char> {
        match self {
            Method::Get => "GET"@,
            Method::Post => "POST"@,
            Method::Put => "PUT"@,
            Method::Patch => "PATCH"@,
            Method::Delete => "DELETE"@,
        }
    }

    /// The method's name on the wire.
    pub fn as_str(&self) -> (r: &'static str)
        ensures
            r@ == self.name(),
    {
        match self {
            Method::Get => "GET",
            Method::Post => "POST",
            Method::Put => "PUT",
            Method::Patch => "PATCH",
            Method::Delete => "DELETE",
        }
    }
}

/// A scalar value of a query parameter.
#[derive(Clone, Debug, PartialEq, Eq)]
pub enum QueryValue {
    Null,
    Bool(bool),
    Int(i64),
    Str(String),
}

/// The text a query value is sent as; a null value is not sent.
pub open spec fn query_text(v: QueryValue) -> Option<Seq<char>> {
    match v {
        QueryValue::Null => None,
        QueryValue::Bool(b) => Some(
            if b {
                "true"@
            } else {
                "false"@
            },
        ),
        QueryValue::Int(n) => Some(int_text(n as int)),
        QueryValue::Str(s) => Some(s@),
    }
}

/// The query pairs sent for a parameter mapping, in its order: each key
/// with the text of its value, keys with a null value left out.
pub open spec fn encoded_query(params: Seq<(String, QueryValue)>) -> Seq<(Seq<char>, Seq<char>)>
    decreases params.len(),
{
    if params.len() == 0 {
        Seq::empty()
    } else {
        let rest = encoded_query(params.drop_last());
        match query_text(params.last().1) {
            Some(t) => rest.push((params.last().0@, t)),
            None => rest,
        }
    }
}

/// The pair sent for one parameter, if any.
pub open spec fn query_pair(key: Seq<char>, value: QueryValue) -> Seq<(Seq<char>, Seq<char>)> {
    match query_text(value) {
        Some(t) => seq![(key, t)],
        None => Seq::empty(),
    }
}

pub(crate) proof fn lemma_encoded_query_push(s: Seq<(String, QueryValue)>, x: (String, QueryValue))
    ensures
        encoded_query(s.push(x)) == encoded_query(s) + query_pair(x.0@, x.1),
{
    assert(s.push(x).drop_last() =~= s);
    assert(encoded_query(s.push(x)) =~= encoded_query(s) + query_pair(x.0@, x.1));
}

pub open spec fn pairs_view(s: Seq<(String, String)>) -> Seq<(Seq<char>, Seq<char>)> {
    s.map_values(|p: (String, String)| (p.0@, p.1@))
}

/// What a call asks of the engine.
#[derive(Clone, Debug)]
pub struct RequestDescriptor {
    pub method: Method,
    /// The path below the configured endpoint, starting with `/`.
    pub path: String,
    /// The JSON text of the request body, if any.
    pub body: Option<String>,
    /// The query parameters, in order.
    pub query: Vec<(String, QueryValue)>,
}

/// A request ready for the transport.
#[derive(Clone, Debug)]
pub struct PreparedRequest {
    pub method: Method,
    pub url: String,
    pub headers: Vec<(String, String)>,
    pub body: Option<String>,
    pub query: Vec<(String, String)>,
}

/// The headers sent with every request for a credential.
pub open spec fn standard_headers(api_key: Seq<char>) -> Seq<(Seq<char>, Seq<char>)> {
    seq![
        ("Authorization"@, "Bearer "@ + api_key),
        ("Content-Type"@, JSON_MEDIA_TYPE@),
        ("Accept"@, JSON_MEDIA_TYPE@),
        ("User-Agent"@, CLIENT_ID@),
    ]
}

fn query_value_text(v: &QueryValue) -> (r: Option<String>)
    ensures
        match r {
            Some(t) => query_text(*v) == Some(t@),
            None => query_text(*v) is None,
        },
{
    match v {
        QueryValue::Null => None,
        QueryValue::Bool(b) => {
            proof {
                reveal_strlit("true");
                reveal_strlit("false");
            }
            Some(
                String::from_str(
                    if *b {
                        "true"
                    } else {
                        "false"
                    },
                ),
            )
        },
        QueryValue::Int(n) => Some(i64_text(*n)),
        QueryValue::Str(s) => Some(s.clone()),
    }
}

/// Encodes query parameters: a string value verbatim, a number or a boolean
/// as its text, a null value not at all.
pub fn encode_query(params: &Vec<(String, QueryValue)>) -> (r: Vec<(String, String)>)
    ensures
        pairs_view(r@) == encoded_query(params@),
{
    let mut out: Vec<(String, String)> = Vec::new();
    let mut i: usize = 0;
    while i < params.len()
        invariant
            i <= params@.len(),
            pairs_view(out@) == encoded_query(params@.subrange(0, i as int)),
        decreases params@.len() - i,
    {
        let ghost prefix = params@.subrange(0, i as int + 1);
        assert(prefix.drop_last() =~= params@.subrange(0, i as int));
        let (key, value) = &params[i];
        match query_value_text(value) {
            Some(t) => {
                out.push((key.clone(), t));
                assert(pairs_view(out@) =~= encoded_query(prefix));
            },
            None => {},
        }
        i = i + 1;
    }
    assert(params@.subrange(0, params@.len() as int) =~= params@);
    out
}

fn header(name: &str, value: String) -> (r: (String, String))
    ensures
        r.0@ == name@,
        r.1@ == value@,
{
    (String::from_str(name), value)
}

/// Builds the request for a call: the endpoint followed by the path, the
/// standard headers with a bearer credential, the body as given, and the
/// encoded query.
pub fn prepare_request(config: &ClientConfig, req: &RequestDescriptor) -> (r: PreparedRequest)
    ensures
        r.method == req.method,
        r.url@ == config.base_url@ + req.path@,
        pairs_view(r.headers@) == standard_headers(config.api_key@),
        r.body == req.body,
        pairs_view(r.query@) == encoded_query(req.query@),
{
    let url = config.base_url.clone().concat(req.path.as_str());
    let bearer = String::from_str("Bearer ").concat(config.api_key.as_str());
    let mut headers: Vec<(String, String)> = Vec::new();
    headers.push(header("Authorization", bearer));
    headers.push(header("Content-Type", String::from_str(JSON_MEDIA_TYPE)));
    headers.push(header("Accept", String::from_str(JSON_MEDIA_TYPE)));
    headers.push(header("User-Agent", String::from_str(CLIENT_ID)));
    assert(pairs_view(headers@) =~= standard_headers(config.api_key@));
    PreparedRequest {
        method: req.method,
        url,
        headers,
        body: req.body.clone(),
        query: encode_query(&req.query),
    }
}

pub open spec fn pow2(e: nat) -> nat
    decreases e,
{
    if e == 0 {
        1
    } else {
        2 * pow2((e - 1) as nat)
    }
}

/// The wait before attempt `n` (from 2 on), in milliseconds: 100 ms before
/// the second attempt, doubling for each one after.
pub open spec fn delay_before_ms(n: nat) -> nat {
    100 * pow2((n - 2) as nat)
}

/// A wait in milliseconds, held at the largest `u64` where it exceeds it.
pub open spec fn saturated_ms(ms: nat) -> u64 {
    if ms <= u64::MAX {
        ms as u64
    } else {
        u64::MAX
    }
}

proof fn lemma_pow2_grows(a: nat, b: nat)
    requires
        a <= b,
    ensures
        pow2(a) <= pow2(b),
    decreases b - a,
{
    if a < b {
        lemma_pow2_grows(a, (b - 1) as nat);
    }
}

/// The wait before attempt `n`, saturated at the largest `u64`.
pub fn backoff_delay_ms(n: u32) -> (r: u64)
    requires
        n >= 2,
    ensures
        r == saturated_ms(delay_before_ms(n as nat)),
{
    let mut d: u64 = 100;
    let mut k: u32 = 2;
    while k < n
        invariant
            2 <= k <= n,
            d as nat == delay_before_ms(k as nat),
        decreases n - k,
    {
        if d > u64::MAX / 2 {
            proof {
                assert(delay_before_ms((k + 1) as nat) == 2 * delay_before_ms(k as nat));
                lemma_pow2_grows((k + 1 - 2) as nat, (n - 2) as nat);
                assert(delay_before_ms(n as nat) >= delay_before_ms((k + 1) as nat)) by (
                nonlinear_arith)
                    requires
                        pow2((k + 1 - 2) as nat) <= pow2((n - 2) as nat),
                        delay_before_ms(n as nat) == 100 * pow2((n - 2) as nat),
                        delay_before_ms((k + 1) as nat) == 100 * pow2((k + 1 - 2) as nat),
                ;
            }
            return u64::MAX;
        }
        assert(delay_before_ms((k + 1) as nat) == 2 * delay_before_ms(k as nat));
        d = d * 2;
        k = k + 1;
    }
    d
}

/// What the engine does after an attempt.
#[derive(Debug)]
pub enum Step<T> {
    /// The call is over, with this result.
    Finish(Result<T>),
    /// Wait, then make attempt `next_attempt`.
    Retry { delay_ms: u64, next_attempt: u32 },
}

/// The engine's decision after attempt `attempt` of at most `max_attempts`
/// ended in `outcome`: a retryable error with attempts left is tried again
/// after the backoff wait; anything else ends the call.
pub open spec fn step_spec<T>(attempt: u32, max_attempts: u32, outcome: Result<T>) -> Step<T> {
    match outcome {
        Ok(v) => Step::Finish(Ok(v)),
        Err(e) => if e.is_retryable_spec() && attempt < max_attempts {
            Step::Retry {
                delay_ms: saturated_ms(delay_before_ms(attempt as nat + 1)),
                next_attempt: (attempt + 1) as u32,
            }
        } else {
            Step::Finish(Err(e))
        },
    }
}

/// Decides what follows attempt `attempt` (counted from 1) of a call that
/// may make at most `max_attempts` attempts.
pub fn next_step<T>(attempt: u32, max_attempts: u32, outcome: Result<T>) -> (r: Step<T>)
    requires
        attempt >= 1,
    ensures
        r == step_spec(attempt, max_attempts, outcome),
{
    match outcome {
        Ok(v) => Step::Finish(Ok(v)),
        Err(e) => if e.is_retryable() && attempt < max_attempts {
            Step::Retry { delay_ms: backoff_delay_ms(attempt + 1), next_attempt: attempt + 1 }
        } else {
            Step::Finish(Err(e))
        },
    }
}

pub open spec fn is_success(status: u16) -> bool {
    200 <= status <= 299
}

/// Reads a response to a call that expects a JSON body: the body text of a
/// successful response, a decode failure for an empty one, and the domain
/// error of an unsuccessful one.
pub fn interpret_response(status: u16, retry_after: Option<&str>, body: &str) -> (r: Result<
    String,
>)
    ensures
        is_success(status) && body@.len() > 0 ==> (r matches Ok(t) && t@ == body@),
        is_success(status) && body@.len() == 0 ==> (r matches Err(Error::Json(m)) && m@
            == "Empty response body"@),
        !is_success(status) ==> (r matches Err(e) && is_response_error(
            e,
            status,
            crate::error::opt_str_text(retry_after),
            body@,
        )),
{
    if 200 <= status && status <= 299 {
        if body.unicode_len() == 0 {
            proof {
                reveal_strlit("Empty response body");
            }
            Err(Error::Json(String::from_str("Empty response body")))
        } else {
            Ok(String::from_str(body))
        }
    } else {
        Err(error_from_response(status, retry_after, body))
    }
}

/// Reads a response to a call that expects no content: any successful
/// status, 204 included, succeeds whatever the body holds; an unsuccessful
/// one gives its domain error.
pub fn interpret_empty_response(status: u16, retry_after: Option<&str>, body: &str) -> (r: Result<
    (),
>)
    ensures
        is_success(status) ==> (r matches Ok(())),
        !is_success(status) ==> (r matches Err(e) && is_response_error(
            e,
            status,
            crate::error::opt_str_text(retry_after),
            body@,
        )),
{
    if 200 <= status && status <= 299 {
        Ok(())
    } else {
        Err(error_from_response(status, retry_after, body))
    }
}

/// An error that a response is classified as is retryable exactly when its
/// status is 500, 502, 503 or 504; a transport failure is retryable exactly
/// when it failed to connect or timed out; a decode failure never is.
pub proof fn lemma_retryable_exactly(
    e: Error,
    status: u16,
    message: Seq<char>,
    code: Option<Seq<char>>,
    errors: Seq<(Seq<char>, Seq<Seq<char>>)>,
    retry_after: Option<u64>,
    t: crate::error::TransportError,
    m: String,
)
    requires
        is_error_for(e, status, message, code, errors, retry_after),
    ensures
        e.is_retryable_spec() <==> is_retryable_status(status),
        Error::Http(t).is_retryable_spec() <==> (t.is_connect || t.is_timeout),
        !Error::Json(m).is_retryable_spec(),
{
}

/// With a budget of `n` attempts against a server that answers every
/// attempt with status 500, the engine tries again after each of the first
/// `n - 1` attempts and hands the server error back after attempt `n`:
/// exactly `n` attempts are made.
pub proof fn lemma_server_error_uses_every_attempt<T>(
    n: u32,
    e: Error,
    message: Seq<char>,
    code: Option<Seq<char>>,
    errors: Seq<(Seq<char>, Seq<Seq<char>>)>,
    retry_after: Option<u64>,
)
    requires
        n >= 1,
        is_error_for(e, 500, message, code, errors, retry_after),
    ensures
        (e is Server),
        forall|k: u32|
            1 <= k < n ==> #[trigger] step_spec::<T>(k, n, Err(e)) == (Step::<T>::Retry {
                delay_ms: saturated_ms(delay_before_ms(k as nat + 1)),
                next_attempt: (k + 1) as u32,
            }),
        step_spec::<T>(n, n, Err(e)) == Step::<T>::Finish(Err(e)),
{
}

/// The attempt counter moves by one with each retry and never passes the
/// budget: a retry is decided only while attempts are left.
pub proof fn lemma_attempts_stay_within_budget<T>(
    attempt: u32,
    max_attempts: u32,
    outcome: Result<T>,
)
    requires
        attempt >= 1,
    ensures
        step_spec(attempt, max_attempts, outcome) matches Step::Retry { next_attempt, .. } ==> (
        next_attempt == attempt + 1 && next_attempt <= max_attempts),
{
}

/// A rate-limit error is never retried by the engine, whatever attempts are
/// left: the caller decides whether to honour the wait it carries.
pub proof fn lemma_rate_limit_not_retried<T>(attempt: u32, max_attempts: u32, e: Error)
    requires
        (e is RateLimit),
    ensures
        step_spec::<T>(attempt, max_attempts, Err(e)) == Step::<T>::Finish(Err(e)),
{
}

} // verus!
