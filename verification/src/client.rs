//! The transport: configuration, URL construction, and the classification
//! and retry logic that turns raw HTTP answers into payloads or errors.
//!
//! The library does no networking itself. A driver issues the request this
//! module's URL builder describes, wraps what came back in an
//! [`HttpResponse`], and feeds it to [`classify`]; on [`Step::Retry`] it
//! sleeps `retry_wait` milliseconds and asks again, at most `retry_count`
//! times after the first attempt.

use vstd::prelude::*;
use vstd::string::StringExecFns;
use crate::error::{ErrV, StreakError, decode_status, spec_status_of};
use crate::json::{JsonValue, json_of, parse_json};
use crate::query::{encode_query, spec_query};

verus! {

/// The Streak API client: the configuration every request is built from.
#[derive(Debug)]
pub struct Client {
    /// How many times a request is retried when the service is unavailable,
    /// beyond the first attempt.
    pub retry_count: u8,
    /// Milliseconds to wait between retry attempts.
    pub retry_wait: u16,
    /// The base URL every request address starts with.
    pub api_url: String,
    /// The credential sent as the Basic-credentials user name.
    pub api_key: String,
}

impl Client {
    /// Create a new client to the Streak service.
    pub fn new(api_key: &str) -> (c: Client)
        ensures
            c.retry_count == 3,
            c.retry_wait == 250,
            c.api_url@ == "https://www.streak.com/api"@,
            c.api_key@ == api_key@,
    {
        Client {
            retry_count: 3,
            retry_wait: 250,
            api_url: "https://www.streak.com/api".to_owned(),
            api_key: api_key.to_owned(),
        }
    }

    /// The address of a request: base URL, version segment, resource path,
    /// and the encoded query string.
    pub open spec fn spec_url(
        &self,
        version: Seq<char>,
        path: Seq<char>,
        pairs: Seq<(String, String)>,
    ) -> Seq<char> {
        self.api_url@ + "/"@ + version + "/"@ + path + "?"@ + spec_query(pairs)
    }

    /// Builds the fully resolved address of a request.
    pub fn url(&self, version: &str, path: &str, pairs: &Vec<(String, String)>) -> (r: String)
        ensures
            r@ == self.spec_url(version@, path@, pairs@),
    {
        let mut r = self.api_url.clone();
        r.append("/");
        r.append(version);
        r.append("/");
        r.append(path);
        r.append("?");
        let q = encode_query(pairs);
        r.append(q.as_str());
        proof {
            assert(r@ =~= self.spec_url(version@, path@, pairs@));
        }
        r
    }

    /// The address of a `get` request against the stable API version.
    pub fn get_url(&self, path: &str, pairs: &Vec<(String, String)>) -> (r: String)
        ensures
            r@ == self.spec_url("v1"@, path@, pairs@),
    {
        self.url("v1", path, pairs)
    }

    /// The address of a `get` request against the newer API version.
    pub fn get_v2_url(&self, path: &str, pairs: &Vec<(String, String)>) -> (r: String)
        ensures
            r@ == self.spec_url("v2"@, path@, pairs@),
    {
        self.url("v2", path, pairs)
    }
}

/// The fixed password placeholder sent beside the API key in the
/// Basic-credentials header.
pub fn basic_password() -> (r: &'static str)
    ensures
        r@ == "X"@,
{
    "X"
}

/// What the transport reads out of one HTTP answer: the status code, the
/// body text, and whether a redirect/location header came with it.
#[derive(Debug, Clone, PartialEq, Eq)]
pub struct HttpResponse {
    pub status: u16,
    pub body: String,
    pub has_location: bool,
}

/// What one answer tells the retry loop to do.
#[derive(Debug, PartialEq, Eq)]
pub enum Step {
    /// A success status with a JSON body: the parsed payload.
    Success(JsonValue),
    /// A non-JSON body beside a redirect header: implicit creation.
    Created,
    /// A terminal error; the loop returns it at once.
    Failure(StreakError),
    /// Transient unavailability with retry budget left: ask again after
    /// the configured wait.
    Retry,
}

/// The mathematical counterpart of [`Step`], with errors by their view.
pub enum StepV {
    Payload(JsonValue),
    Created,
    Failed(ErrV),
    Retry,
}

/// Classification of a JSON-bodied answer by its status code.
pub open spec fn spec_step_json(status: u16, jv: JsonValue) -> StepV {
    if status == 200 || status == 201 {
        StepV::Payload(jv)
    } else if status == 400 || status == 401 || status == 403 || status == 404 || status == 500 {
        match spec_status_of(jv) {
            Some(sv) => StepV::Failed(
                if status == 400 {
                    ErrV::BadRequest(sv)
                } else if status == 401 {
                    ErrV::UnauthorizedKey(sv)
                } else if status == 403 {
                    ErrV::Forbidden(sv)
                } else if status == 404 {
                    ErrV::ResourceNotFound(sv)
                } else {
                    ErrV::InternalServerError(sv)
                },
            ),
            None => StepV::Failed(ErrV::JsonParseError("malformed status envelope"@)),
        }
    } else {
        StepV::Failed(ErrV::UnexpectedStatus(status))
    }
}

/// Classification of one answer, given the retry budget still left.
pub open spec fn spec_step(resp: HttpResponse, remaining: u8) -> StepV {
    match json_of(resp.body@) {
        Some(jv) => spec_step_json(resp.status, jv),
        None => if resp.has_location {
            StepV::Created
        } else if resp.status == 503 {
            if remaining > 0 {
                StepV::Retry
            } else {
                StepV::Failed(ErrV::ServiceUnavailable)
            }
        } else {
            StepV::Failed(ErrV::InvalidServerResponse)
        },
    }
}

/// Classifies one HTTP answer.
///
/// A JSON body is terminal at once: a success payload on 200/201, the typed
/// error its status maps to otherwise. A non-JSON body is the created
/// sentinel when a redirect header is present; else it retries on 503 while
/// budget is left, and is the invalid-response error in every other case.
pub fn classify(resp: &HttpResponse, remaining: u8) -> (r: Step)
    ensures
        (match spec_step(*resp, remaining) {
            StepV::Payload(v) => r == Step::Success(v),
            StepV::Created => r is Created,
            StepV::Failed(e) => r matches Step::Failure(err) && err@ == e,
            StepV::Retry => r is Retry,
        }),
{
    match parse_json(resp.body.as_str()) {
        Some(v) => {
            if resp.status == 200 || resp.status == 201 {
                Step::Success(v)
            } else if resp.status == 400 {
                match decode_status(&v) {
                    Ok(st) => Step::Failure(StreakError::BadRequest(st)),
                    Err(e) => Step::Failure(e),
                }
            } else if resp.status == 401 {
                match decode_status(&v) {
                    Ok(st) => Step::Failure(StreakError::UnauthorizedKey(st)),
                    Err(e) => Step::Failure(e),
                }
            } else if resp.status == 403 {
                match decode_status(&v) {
                    Ok(st) => Step::Failure(StreakError::Forbidden(st)),
                    Err(e) => Step::Failure(e),
                }
            } else if resp.status == 404 {
                match decode_status(&v) {
                    Ok(st) => Step::Failure(StreakError::ResourceNotFound(st)),
                    Err(e) => Step::Failure(e),
                }
            } else if resp.status == 500 {
                match decode_status(&v) {
                    Ok(st) => Step::Failure(StreakError::InternalServerError(st)),
                    Err(e) => Step::Failure(e),
                }
            } else {
                Step::Failure(StreakError::UnexpectedStatus(resp.status))
            }
        },
        None => {
            if resp.has_location {
                Step::Created
            } else if resp.status == 503 {
                if remaining > 0 {
                    Step::Retry
                } else {
                    Step::Failure(StreakError::ServiceUnavailable)
                }
            } else {
                Step::Failure(StreakError::InvalidServerResponse)
            }
        },
    }
}

/// The outcome of running the retry loop over a sequence of answers.
pub enum RunOutcomeV {
    /// A success payload was returned.
    Payload(JsonValue),
    /// The created sentinel was returned.
    Created,
    /// A terminal error was returned.
    Failed(ErrV),
    /// The given answers ran out while the loop would still have retried.
    Exhausted,
}

/// What the retry loop does on a sequence of answers with a given budget:
/// the outcome, and how many retries (sleeps) happen before it.
pub open spec fn spec_run(rs: Seq<HttpResponse>, remaining: u8) -> (RunOutcomeV, nat)
    decreases rs.len(),
{
    if rs.len() == 0 {
        (RunOutcomeV::Exhausted, 0 as nat)
    } else {
        match spec_step(rs[0], remaining) {
            StepV::Payload(v) => (RunOutcomeV::Payload(v), 0 as nat),
            StepV::Created => (RunOutcomeV::Created, 0 as nat),
            StepV::Failed(e) => (RunOutcomeV::Failed(e), 0 as nat),
            StepV::Retry => {
                let rest = spec_run(rs.drop_first(), (remaining - 1) as u8);
                (rest.0, (rest.1 + 1) as nat)
            },
        }
    }
}

impl Client {
    /// Runs the retry loop over answers given in advance, as the live loop
    /// consumes them one by one: the result, and how many retries (each one
    /// sleep of `retry_wait`) happened. `None` means the answers ran out
    /// while the loop would still have retried.
    pub fn run(&self, responses: &Vec<HttpResponse>) -> (r: (
        Option<Result<JsonValue, StreakError>>,
        usize,
    ))
        ensures
            ({
                let (o, s) = spec_run(responses@, self.retry_count);
                &&& r.1 == s
                &&& (match o {
                    RunOutcomeV::Payload(v) => r.0 == Some(Ok::<JsonValue, StreakError>(v)),
                    RunOutcomeV::Created => r.0 matches Some(res) && res matches Ok(v)
                        && v matches JsonValue::Str(t) && t@ == "Created"@,
                    RunOutcomeV::Failed(e) => r.0 matches Some(res) && res matches Err(err)
                        && err@ == e,
                    RunOutcomeV::Exhausted => r.0 is None,
                })
            }),
    {
        let mut remaining = self.retry_count;
        let mut sleeps: usize = 0;
        let mut i: usize = 0;
        proof {
            assert(responses@.skip(0) =~= responses@);
        }
        while i < responses.len()
            invariant
                i <= responses.len(),
                sleeps == i,
                i <= self.retry_count,
                remaining == self.retry_count - i,
                ({
                    let full = spec_run(responses@, self.retry_count);
                    let rest = spec_run(responses@.skip(i as int), remaining);
                    full.0 == rest.0 && full.1 == rest.1 + sleeps
                }),
            decreases responses.len() - i,
        {
            proof {
                assert(responses@.skip(i as int)[0] == responses@[i as int]);
            }
            match classify(&responses[i], remaining) {
                Step::Success(v) => {
                    return (Some(Ok(v)), sleeps);
                },
                Step::Created => {
                    return (Some(Ok(JsonValue::Str("Created".to_owned()))), sleeps);
                },
                Step::Failure(e) => {
                    return (Some(Err(e)), sleeps);
                },
                Step::Retry => {
                    proof {
                        assert(spec_step(responses@[i as int], remaining) is Retry);
                        assert(remaining > 0);
                        assert(responses@.skip(i as int).drop_first() =~= responses@.skip(
                            i as int + 1,
                        ));
                    }
                    remaining = remaining - 1;
                    sleeps = sleeps + 1;
                    i = i + 1;
                },
            }
        }
        proof {
            assert(responses@.skip(i as int) =~= Seq::<HttpResponse>::empty());
        }
        (None, sleeps)
    }
}

/// An answer that is eligible for retry: the unavailable status under a
/// non-JSON body, with no redirect header.
pub open spec fn is_unavailable_response(r: HttpResponse) -> bool {
    &&& json_of(r.body@) is None
    &&& !r.has_location
    &&& r.status == 503
}

/// For every retry budget `n`: a sequence of `n + 1` unavailable answers
/// ends in the terminal service-unavailable error, after exactly `n`
/// retries.
pub proof fn lemma_retries_exhausted(rs: Seq<HttpResponse>, n: u8)
    requires
        rs.len() == n as int + 1,
        forall|i: int| 0 <= i < rs.len() ==> is_unavailable_response(#[trigger] rs[i]),
    ensures
        spec_run(rs, n) == (RunOutcomeV::Failed(ErrV::ServiceUnavailable), n as nat),
    decreases n,
{
    if n > 0 {
        lemma_retries_exhausted(rs.drop_first(), (n - 1) as u8);
    }
}

/// If the answer after `k` unavailable ones parses as JSON under a success
/// status and `k` is within the budget, the run returns that payload after
/// exactly `k` retries and never looks further.
pub proof fn lemma_success_stops_retries(rs: Seq<HttpResponse>, n: u8, k: int)
    requires
        0 <= k < rs.len(),
        k <= n,
        forall|i: int| 0 <= i < k ==> is_unavailable_response(#[trigger] rs[i]),
        json_of(rs[k].body@) is Some,
        rs[k].status == 200 || rs[k].status == 201,
    ensures
        spec_run(rs, n) == (RunOutcomeV::Payload(json_of(rs[k].body@)->Some_0), k as nat),
    decreases k,
{
    if k > 0 {
        lemma_success_stops_retries(rs.drop_first(), (n - 1) as u8, k - 1);
    }
}

/// A well-formed JSON error body is terminal on the first answer: under a
/// 404 it yields the resource-not-found error at once, with no retry,
/// whatever the budget.
pub proof fn lemma_json_error_terminal(rs: Seq<HttpResponse>, n: u8)
    requires
        rs.len() > 0,
        json_of(rs[0].body@) is Some,
        rs[0].status == 404,
        spec_status_of(json_of(rs[0].body@)->Some_0) is Some,
    ensures
        spec_run(rs, n) == (
            RunOutcomeV::Failed(
                ErrV::ResourceNotFound(spec_status_of(json_of(rs[0].body@)->Some_0)->Some_0),
            ),
            0 as nat,
        ),
{
}

/// A non-JSON body beside a redirect header is the created sentinel on the
/// first answer, with no retry.
pub proof fn lemma_redirect_sentinel(rs: Seq<HttpResponse>, n: u8)
    requires
        rs.len() > 0,
        json_of(rs[0].body@) is None,
        rs[0].has_location,
    ensures
        spec_run(rs, n) == (RunOutcomeV::Created, 0 as nat),
{
}

} // verus!
