//! A minimal HTTP request/response model: verb builders, headers and body,
//! and the status-aware retry loop shared by the provider clients.
//!
//! The model carries plain values only. The network round-trip itself is
//! performed by the surrounding runtime, which hands the resulting
//! responses (or transport failures) back to the verified retry driver.

use vstd::prelude::*;

verus! {

use vstd::string::StringExecFns;
use crate::error::{DomainError, TransportFailure, err_view};
use crate::text::{push_dec_u64, spec_dec_u64};
use crate::translate::{tts_error_from_status, spec_error_from_status};

/// The HTTP verbs the adapters use.
#[derive(Debug, Clone, Copy, PartialEq, Eq, Structural)]
pub enum Method {
    Get,
    Post,
    Put,
    Delete,
}

/// A request under construction: verb, URL, headers in order, and an
/// optional body.
#[derive(Debug, PartialEq, Eq)]
pub struct RequestBuilder {
    pub method: Method,
    pub url: String,
    pub headers: Vec<(String, String)>,
    pub body: Option<Vec<u8>>,
}

/// The view of a header list: each pair as character sequences.
pub open spec fn headers_view(h: Seq<(String, String)>) -> Seq<(Seq<char>, Seq<char>)> {
    h.map_values(|p: (String, String)| (p.0@, p.1@))
}

impl RequestBuilder {
    /// Appends one header.
    pub fn header(self, key: &str, value: &str) -> (r: RequestBuilder)
        ensures
            r.method == self.method,
            r.url@ == self.url@,
            headers_view(r.headers@) == headers_view(self.headers@).push((key@, value@)),
            r.body == self.body,
    {
        let mut headers = self.headers;
        headers.push((key.to_owned(), value.to_owned()));
        proof {
            assert(headers_view(headers@) =~= headers_view(self.headers@).push((key@, value@)));
        }
        RequestBuilder { method: self.method, url: self.url, headers, body: self.body }
    }

    /// Replaces the body with raw bytes.
    pub fn body(self, body: Vec<u8>) -> (r: RequestBuilder)
        ensures
            r.method == self.method,
            r.url@ == self.url@,
            r.headers == self.headers,
            r.body == Some(body),
    {
        RequestBuilder { method: self.method, url: self.url, headers: self.headers, body: Some(body) }
    }

    /// Replaces the body with already-serialized JSON bytes and marks the
    /// content type accordingly.
    pub fn json_bytes(self, body: Vec<u8>) -> (r: RequestBuilder)
        ensures
            r.method == self.method,
            r.url@ == self.url@,
            headers_view(r.headers@) == headers_view(self.headers@).push(
                ("content-type"@, "application/json"@),
            ),
            r.body == Some(body),
    {
        let with_header = self.header("content-type", "application/json");
        with_header.body(body)
    }
}

/// The request-builder factory, one verb per method.
pub struct WstdHttpClient {
}

impl WstdHttpClient {
    /// Creates the factory.
    pub fn new() -> (r: WstdHttpClient) {
        WstdHttpClient {  }
    }

    /// Starts a GET request.
    pub fn get(&self, url: &str) -> (r: RequestBuilder)
        ensures
            r.method == Method::Get,
            r.url@ == url@,
            r.headers@.len() == 0,
            r.body is None,
    {
        RequestBuilder { method: Method::Get, url: url.to_owned(), headers: Vec::new(), body: None }
    }

    /// Starts a POST request.
    pub fn post(&self, url: &str) -> (r: RequestBuilder)
        ensures
            r.method == Method::Post,
            r.url@ == url@,
            r.headers@.len() == 0,
            r.body is None,
    {
        RequestBuilder { method: Method::Post, url: url.to_owned(), headers: Vec::new(), body: None }
    }

    /// Starts a PUT request.
    pub fn put(&self, url: &str) -> (r: RequestBuilder)
        ensures
            r.method == Method::Put,
            r.url@ == url@,
            r.headers@.len() == 0,
            r.body is None,
    {
        RequestBuilder { method: Method::Put, url: url.to_owned(), headers: Vec::new(), body: None }
    }

    /// Starts a DELETE request.
    pub fn delete(&self, url: &str) -> (r: RequestBuilder)
        ensures
            r.method == Method::Delete,
            r.url@ == url@,
            r.headers@.len() == 0,
            r.body is None,
    {
        RequestBuilder {
            method: Method::Delete,
            url: url.to_owned(),
            headers: Vec::new(),
            body: None,
        }
    }
}

/// The text that `String::from_utf8_lossy` produces for a byte sequence.
pub uninterp spec fn utf8_lossy_of(b: Seq<u8>) -> Seq<char>;

/// Relies on `String::from_utf8_lossy`: decodes a body as UTF-8, replacing
/// invalid sequences; bytes below 128 decode to themselves, so an ASCII
/// body comes back unchanged.
#[verifier::external_body]
fn bytes_to_text(b: &Vec<u8>) -> (r: String)
    ensures
        r@ == utf8_lossy_of(b@),
        (forall|i: int| 0 <= i < b@.len() ==> b@[i] < 128) ==> r@ == b@.map_values(
            |x: u8| x as char,
        ),
{
    String::from_utf8_lossy(b).into_owned()
}

/// A completed HTTP round-trip: status, response headers, body bytes.
#[derive(Debug, PartialEq, Eq)]
pub struct Response {
    pub status: u16,
    pub headers: Vec<(String, String)>,
    pub body: Vec<u8>,
}

/// The value of the first header named `name`, if any.
pub open spec fn spec_header_value(h: Seq<(Seq<char>, Seq<char>)>, name: Seq<char>) -> Option<
    Seq<char>,
>
    decreases h.len(),
{
    if h.len() == 0 {
        None
    } else if h[0].0 == name {
        Some(h[0].1)
    } else {
        spec_header_value(h.drop_first(), name)
    }
}

impl Response {
    /// A successful status is strictly below 400.
    pub open spec fn spec_is_error(self) -> bool {
        self.status >= 400
    }

    /// Converts a response with status 400 or above into a transport-level
    /// failure carrying "HTTP status: body-text"; passes a successful
    /// response through.
    pub fn error_for_status(self) -> (r: Result<Response, TransportFailure>)
        ensures
            !self.spec_is_error() ==> r == Ok::<Response, TransportFailure>(self),
            self.spec_is_error() ==> (match r {
                Err(TransportFailure::Io(m)) => m@ == "HTTP "@ + spec_dec_u64(self.status as nat)
                    + ": "@ + utf8_lossy_of(self.body@),
                _ => false,
            }),
    {
        proof {
            reveal_strlit("HTTP ");
            reveal_strlit(": ");
        }
        if self.status >= 400 {
            let text = bytes_to_text(&self.body);
            let mut m = String::from_str("HTTP ");
            push_dec_u64(&mut m, self.status as u64);
            m.append(": ");
            m.append(text.as_str());
            proof {
                assert("HTTP "@ + spec_dec_u64(self.status as nat) + ": "@ + utf8_lossy_of(
                    self.body@,
                ) =~= (("HTTP "@ + spec_dec_u64(self.status as nat)) + ": "@) + utf8_lossy_of(
                    self.body@,
                ));
            }
            Err(TransportFailure::Io(m))
        } else {
            Ok(self)
        }
    }

    /// The body bytes.
    pub fn bytes(self) -> (r: Vec<u8>)
        ensures
            r == self.body,
    {
        self.body
    }

    /// The body decoded as text, UTF-8 with replacement.
    pub fn text(self) -> (r: String)
        ensures
            r@ == utf8_lossy_of(self.body@),
    {
        bytes_to_text(&self.body)
    }

    /// Looks up the first response header with the given (exact) name.
    pub fn header_value(&self, name: &str) -> (r: Option<String>)
        ensures
            match r {
                Some(v) => spec_header_value(headers_view(self.headers@), name@) == Some(v@),
                None => spec_header_value(headers_view(self.headers@), name@) is None,
            },
    {
        let mut i: usize = 0;
        proof {
            assert(self.headers@.subrange(0, self.headers@.len() as int) =~= self.headers@);
        }
        while i < self.headers.len()
            invariant
                i <= self.headers@.len(),
                spec_header_value(headers_view(self.headers@), name@) == spec_header_value(
                    headers_view(self.headers@.subrange(i as int, self.headers@.len() as int)),
                    name@,
                ),
            decreases self.headers@.len() - i,
        {
            proof {
                assert(headers_view(
                    self.headers@.subrange(i as int, self.headers@.len() as int),
                )[0] == (self.headers@[i as int].0@, self.headers@[i as int].1@));
            }
            if crate::text::str_eq(self.headers[i].0.as_str(), name) {
                return Some(self.headers[i].1.clone());
            }
            proof {
                assert(headers_view(
                    self.headers@.subrange(i as int, self.headers@.len() as int),
                ).drop_first() =~= headers_view(
                    self.headers@.subrange(i + 1, self.headers@.len() as int),
                ));
            }
            i = i + 1;
        }
        proof {
            assert(headers_view(
                self.headers@.subrange(i as int, self.headers@.len() as int),
            ) =~= Seq::<(Seq<char>, Seq<char>)>::empty());
        }
        None
    }
}

/// Configuration of the status-aware retry loop in the provider clients.
/// The delay starts at `initial_delay_ms` and is multiplied (capping at
/// `max_delay_ms`) after each failed attempt.
#[derive(Debug, Clone)]
pub struct RateLimitConfig {
    pub max_retries: u32,
    pub initial_delay_ms: u64,
    pub max_delay_ms: u64,
    pub backoff_multiplier: u64,
}

impl RateLimitConfig {
    /// A well-formed configuration: the backoff factor actually grows the
    /// delay.
    pub open spec fn wf(self) -> bool {
        self.backoff_multiplier >= 2
    }

    /// The standard schedule with a caller-chosen retry budget: one second
    /// doubling up to thirty seconds.
    pub fn new(max_retries: u32) -> (r: RateLimitConfig)
        ensures
            r.max_retries == max_retries,
            r.initial_delay_ms == 1000,
            r.max_delay_ms == 30000,
            r.backoff_multiplier == 2,
            r.wf(),
    {
        RateLimitConfig {
            max_retries,
            initial_delay_ms: 1000,
            max_delay_ms: 30000,
            backoff_multiplier: 2,
        }
    }

    /// The sleep before the retry after attempt `j`: the initial delay for
    /// the first, then multiplied and capped at the maximum.
    pub open spec fn spec_http_delay(self, j: nat) -> int
        decreases j,
    {
        if j == 0 {
            self.initial_delay_ms as int
        } else {
            let raw = self.spec_http_delay((j - 1) as nat) * self.backoff_multiplier;
            if raw <= self.max_delay_ms {
                raw
            } else {
                self.max_delay_ms as int
            }
        }
    }
}

impl Default for RateLimitConfig {
    /// Three retries with the standard schedule.
    fn default() -> (r: RateLimitConfig)
        ensures
            r.max_retries == 3,
            r.initial_delay_ms == 1000,
            r.max_delay_ms == 30000,
            r.backoff_multiplier == 2,
            r.wf(),
    {
        RateLimitConfig {
            max_retries: 3,
            initial_delay_ms: 1000,
            max_delay_ms: 30000,
            backoff_multiplier: 2,
        }
    }
}

/// A status is a success exactly when it is in the 2xx range.
pub open spec fn spec_status_success(status: u16) -> bool {
    200 <= status < 300
}

/// A response status worth retrying: 429 or any 5xx.
pub open spec fn spec_status_retryable(status: u16) -> bool {
    status == 429 || status >= 500
}

/// The attempt at index `i` ends the status-aware retry loop: a response
/// arrived whose status is not one worth retrying, or the budget is spent.
/// A transport failure is always retried while budget remains.
pub open spec fn http_terminal_at(
    cfg: RateLimitConfig,
    outcomes: Seq<Result<Response, DomainError>>,
    i: nat,
) -> bool {
    i >= cfg.max_retries || (outcomes[i as int] is Ok && !spec_status_retryable(
        outcomes[i as int]->Ok_0.status,
    ))
}

/// The index of the attempt whose outcome the loop acts on, scanning from
/// `i`.
pub open spec fn http_stop_from(
    cfg: RateLimitConfig,
    outcomes: Seq<Result<Response, DomainError>>,
    i: nat,
) -> nat
    decreases cfg.max_retries - i,
{
    if http_terminal_at(cfg, outcomes, i) {
        i
    } else {
        http_stop_from(cfg, outcomes, i + 1)
    }
}

/// The index of the attempt whose outcome the loop acts on.
pub open spec fn http_stop(cfg: RateLimitConfig, outcomes: Seq<Result<Response, DomainError>>) -> nat {
    http_stop_from(cfg, outcomes, 0)
}

proof fn lemma_http_stop_from(
    cfg: RateLimitConfig,
    outcomes: Seq<Result<Response, DomainError>>,
    i: nat,
    t: nat,
)
    requires
        i <= t,
        http_terminal_at(cfg, outcomes, t),
        forall|j: nat| i <= j < t ==> !http_terminal_at(cfg, outcomes, j),
    ensures
        http_stop_from(cfg, outcomes, i) == t,
    decreases t - i,
{
    if i < t {
        assert(!http_terminal_at(cfg, outcomes, i));
        lemma_http_stop_from(cfg, outcomes, i + 1, t);
    }
}

/// The result of the status-aware retry loop.
pub struct HttpRetryRun {
    pub result: Result<Response, DomainError>,
    pub attempts: u64,
    pub total_sleep_ms: u64,
}

/// Drives the provider clients' retry loop over the outcomes of successive
/// request attempts: a 2xx response is returned; a 429 or 5xx response and
/// any transport failure are retried while budget remains, sleeping the
/// doubling delay in between; any other response status, or exhaustion of
/// the budget on a response, yields the status's domain error; exhaustion
/// on a transport failure yields that failure.
pub fn execute_with_retry(cfg: &RateLimitConfig, outcomes: Vec<Result<Response, DomainError>>) -> (r:
    HttpRetryRun)
    requires
        cfg.wf(),
        outcomes@.len() > cfg.max_retries,
    ensures
        r.attempts == http_stop(*cfg, outcomes@) + 1,
        ({
            let stop = http_stop(*cfg, outcomes@) as int;
            match outcomes@[stop] {
                Ok(resp) => {
                    if spec_status_success(resp.status) {
                        r.result == Ok::<Response, DomainError>(resp)
                    } else {
                        r.result is Err && err_view(r.result->Err_0) == spec_error_from_status(
                            resp.status,
                        )
                    }
                },
                Err(e) => r.result == Err::<Response, DomainError>(e),
            }
        }),
{
    let ghost orig = outcomes@;
    let mut rest = outcomes;
    let mut attempt: u32 = 0;
    let mut delay: u64 = cfg.initial_delay_ms;
    let mut slept: u64 = 0;
    loop
        invariant
            cfg.wf(),
            orig == outcomes@,
            orig.len() > cfg.max_retries,
            attempt <= cfg.max_retries,
            rest@ == orig.subrange(attempt as int, orig.len() as int),
            forall|j: nat| j < attempt ==> !http_terminal_at(*cfg, orig, j),
            delay == cfg.spec_http_delay(attempt as nat),
        decreases cfg.max_retries - attempt,
    {
        let outcome = rest.remove(0);
        proof {
            assert(outcome == orig[attempt as int]);
        }
        let is_last = attempt >= cfg.max_retries;
        match outcome {
            Ok(resp) => {
                let status = resp.status;
                if 200 <= status && status < 300 {
                    proof {
                        lemma_http_stop_from(*cfg, orig, 0, attempt as nat);
                    }
                    return HttpRetryRun {
                        result: Ok(resp),
                        attempts: attempt as u64 + 1,
                        total_sleep_ms: slept,
                    };
                } else if (status == 429 || status >= 500) && !is_last {
                    // fall through to the backoff below
                } else {
                    proof {
                        lemma_http_stop_from(*cfg, orig, 0, attempt as nat);
                    }
                    return HttpRetryRun {
                        result: Err(tts_error_from_status(status)),
                        attempts: attempt as u64 + 1,
                        total_sleep_ms: slept,
                    };
                }
            },
            Err(e) => {
                if is_last {
                    proof {
                        lemma_http_stop_from(*cfg, orig, 0, attempt as nat);
                    }
                    return HttpRetryRun {
                        result: Err(e),
                        attempts: attempt as u64 + 1,
                        total_sleep_ms: slept,
                    };
                }
            },
        }
        slept = slept.saturating_add(delay);
        delay = match delay.checked_mul(cfg.backoff_multiplier) {
            Some(x) => {
                if x <= cfg.max_delay_ms {
                    x
                } else {
                    cfg.max_delay_ms
                }
            },
            None => cfg.max_delay_ms,
        };
        attempt = attempt + 1;
        proof {
            assert(rest@ =~= orig.subrange(attempt as int, orig.len() as int));
        }
    }
}

} // verus!
