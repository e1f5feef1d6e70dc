//! The protocol client's decisions: endpoint derivation, response
//! interpretation, and the bounded linear-backoff retry policy.
//!
//! The network edge performs one HTTP exchange at a time and hands the
//! library the outcome; everything the client decides — what counts as
//! a transient failure, whether to try again, how long to wait — is
//! verified here.

use vstd::prelude::*;

use crate::error::PixooError;
use crate::protocol::parse_response;
use crate::protocol::PixooResponse;

verus! {

/// The client's immutable policy: per-attempt timeout, how many
/// retries may follow the first attempt, and the backoff base of the
/// linear schedule.
#[derive(Clone, Copy, Debug, PartialEq, Eq, Structural)]
pub struct PixooClientConfig {
    pub timeout_ms: u64,
    pub retries: usize,
    pub backoff_ms: u64,
}

impl PixooClientConfig {
    pub fn new(timeout_ms: u64, retries: usize, backoff_ms: u64) -> (r: PixooClientConfig)
        ensures
            r.timeout_ms == timeout_ms,
            r.retries == retries,
            r.backoff_ms == backoff_ms,
    {
        PixooClientConfig { timeout_ms, retries, backoff_ms }
    }
}

impl Default for PixooClientConfig {
    /// The default policy: 10 s per attempt, 2 retries, 200 ms backoff.
    fn default() -> (r: PixooClientConfig)
        ensures
            r.timeout_ms == 10000,
            r.retries == 2,
            r.backoff_ms == 200,
    {
        PixooClientConfig { timeout_ms: 10000, retries: 2, backoff_ms: 200 }
    }
}

/// The post and health endpoints derived from the device's base URL.
#[derive(Clone, Debug)]
pub struct ClientEndpoints {
    pub post_url: String,
    pub get_url: String,
}

/// Names what `url_with_path` returns: the base URL with its path
/// replaced, or nothing when the base does not parse as a URL.
pub uninterp spec fn url_path_of(base: Seq<char>, path: Seq<char>) -> Option<Seq<char>>;

/// Relies on `url::Url::parse`, `Url::set_path` and `Url` display: a
/// parseable absolute URL comes back with its path replaced; the error
/// message of an unparseable one is handed through.
#[verifier::external_body]
fn url_with_path(base: &str, path: &str) -> (r: Result<String, String>)
    ensures
        match r {
            Ok(s) => url_path_of(base@, path@) == Some(s@),
            Err(_) => url_path_of(base@, path@) is None,
        },
{
    match url::Url::parse(base) {
        Ok(mut u) => {
            u.set_path(path);
            Ok(u.to_string())
        },
        Err(e) => Err(e.to_string()),
    }
}

/// Derives the two device endpoints from the configured base URL: the
/// command endpoint under `/post` and the liveness endpoint under
/// `/get`. An unparseable base URL is the one configuration error the
/// client itself reports.
pub fn client_endpoints(base_url: &str) -> (r: Result<ClientEndpoints, PixooError>)
    ensures
        match r {
            Ok(e) => {
                &&& url_path_of(base_url@, "/post"@) == Some(e.post_url@)
                &&& url_path_of(base_url@, "/get"@) == Some(e.get_url@)
            },
            Err(err) => {
                &&& err is InvalidBaseUrl
                &&& (url_path_of(base_url@, "/post"@) is None || url_path_of(
                    base_url@,
                    "/get"@,
                ) is None)
            },
        },
{
    let post_url = match url_with_path(base_url, "/post") {
        Ok(u) => u,
        Err(m) => {
            return Err(PixooError::InvalidBaseUrl(m));
        },
    };
    let get_url = match url_with_path(base_url, "/get") {
        Ok(u) => u,
        Err(m) => {
            return Err(PixooError::InvalidBaseUrl(m));
        },
    };
    Ok(ClientEndpoints { post_url, get_url })
}

/// Whether an HTTP status is a success (2xx).
pub open spec fn is_success_status(status: u16) -> bool {
    200 <= status && status < 300
}

/// Interprets one completed command exchange: a non-2xx status is the
/// failure itself; a 2xx body goes through the response envelope.
pub fn interpret_post_response(status: u16, body: &str) -> (r: Result<PixooResponse, PixooError>)
    ensures
        !is_success_status(status) ==> r == Result::<PixooResponse, PixooError>::Err(
            PixooError::HttpStatus(status),
        ),
        is_success_status(status) ==> match crate::protocol::json_object_fields(body@) {
            Option::None => r matches Err(PixooError::InvalidResponse(_)),
            Option::Some(fields) => match crate::protocol::spec_parse_response(fields) {
                crate::protocol::ResponseOutcome::MissingStatus => r == Result::<
                    PixooResponse,
                    PixooError,
                >::Err(PixooError::MissingErrorCode),
                crate::protocol::ResponseOutcome::InvalidStatus(v) => r matches Err(
                    PixooError::InvalidErrorCode(w),
                ) && w == v,
                crate::protocol::ResponseOutcome::Rejected { code, payload } => r matches Err(
                    PixooError::DeviceError { code: c, payload: p },
                ) && c == code && p@ == payload,
                crate::protocol::ResponseOutcome::Accepted { payload } => r matches Ok(p) && p@
                    == payload,
            },
        },
{
    if !(status >= 200 && status < 300) {
        return Err(PixooError::HttpStatus(status));
    }
    parse_response(body)
}

/// Interprets one completed liveness probe: any 2xx is healthy, the
/// body is ignored.
pub fn interpret_health_response(status: u16) -> (r: Result<(), PixooError>)
    ensures
        r is Ok <==> is_success_status(status),
        r matches Err(e) ==> e == PixooError::HttpStatus(status),
{
    if status >= 200 && status < 300 {
        Ok(())
    } else {
        Err(PixooError::HttpStatus(status))
    }
}

/// Whether a failed attempt may be retried: transport failures and
/// server-side (5xx) statuses are transient; everything else —
/// malformed requests (4xx), malformed responses, device rejections —
/// is not.
pub open spec fn spec_retriable(e: PixooError) -> bool {
    match e {
        PixooError::Http { .. } => true,
        PixooError::HttpStatus(status) => status >= 500,
        _ => false,
    }
}

pub fn is_retriable(err: &PixooError) -> (r: bool)
    ensures
        r == spec_retriable(*err),
{
    match err {
        PixooError::Http { .. } => true,
        PixooError::HttpStatus(status) => *status >= 500,
        _ => false,
    }
}

/// The delay before retry `n` (1-based): `backoff * n`, saturating.
pub open spec fn spec_retry_delay(backoff_ms: u64, n: int) -> u64 {
    if backoff_ms * n > u64::MAX {
        u64::MAX
    } else {
        (backoff_ms * n) as u64
    }
}

/// What the client does after a failed attempt.
#[derive(Clone, Copy, Debug, PartialEq, Eq, Structural)]
pub enum RetryDecision {
    /// Wait this long, then send again.
    Retry { delay_ms: u64 },
    /// Surface the error as it stands.
    GiveUp,
}

/// Decides whether a failed attempt is sent again: only a transient
/// failure, and only while fewer than `retries` retries have been
/// made; the wait grows linearly with the retry number.
pub fn next_retry(policy: &PixooClientConfig, retries_made: usize, err: &PixooError) -> (r:
    RetryDecision)
    ensures
        (r is Retry) <==> (spec_retriable(*err) && retries_made < policy.retries),
        r matches RetryDecision::Retry { delay_ms } ==> delay_ms == spec_retry_delay(
            policy.backoff_ms,
            retries_made + 1,
        ),
{
    if retries_made >= policy.retries || !is_retriable(err) {
        return RetryDecision::GiveUp;
    }
    let n = if retries_made < usize::MAX {
        retries_made + 1
    } else {
        retries_made
    };
    let delay_ms = match policy.backoff_ms.checked_mul(n as u64) {
        Some(d) => d,
        None => u64::MAX,
    };
    RetryDecision::Retry { delay_ms }
}

/// Where a retrying client stops in a given run of attempt outcomes
/// (`None` is a success): the first success, the first non-transient
/// failure, the failure that exhausts the retry budget, or the last
/// outcome there is.
pub open spec fn spec_stop_index(
    policy: PixooClientConfig,
    outcomes: Seq<Option<PixooError>>,
    i: int,
) -> int
    decreases outcomes.len() - i,
{
    if i >= outcomes.len() - 1 {
        i
    } else {
        match outcomes[i] {
            Option::None => i,
            Option::Some(e) => if spec_retriable(e) && i < policy.retries {
                spec_stop_index(policy, outcomes, i + 1)
            } else {
                i
            },
        }
    }
}

/// The observable shape of one retried call: how many requests went
/// out, the delay before each retry, and whether the call ended in
/// success.
#[derive(Clone, Debug)]
pub struct RetrySchedule {
    pub attempts: usize,
    pub delays_ms: Vec<u64>,
    pub succeeded: bool,
}

/// Replays the retry policy over a fixed run of attempt outcomes, the
/// injectable-clock form of the retry loop: attempt counts and delays
/// are decided here, with no time passing. The network edge runs the
/// same decisions through `next_retry`, one real exchange per step.
pub fn retry_schedule(policy: &PixooClientConfig, outcomes: &Vec<Option<PixooError>>) -> (r:
    RetrySchedule)
    requires
        outcomes@.len() > 0,
    ensures
        ({
            let stop = spec_stop_index(*policy, outcomes@, 0);
            &&& r.attempts == stop + 1
            &&& r.succeeded == (outcomes@[stop] is None)
            &&& r.delays_ms@.len() == stop
            &&& forall|k: int|
                0 <= k < stop ==> r.delays_ms@[k] == spec_retry_delay(policy.backoff_ms, k + 1)
        }),
{
    let mut i: usize = 0;
    let mut delays: Vec<u64> = Vec::new();
    loop
        invariant
            0 <= i < outcomes@.len(),
            spec_stop_index(*policy, outcomes@, 0) == spec_stop_index(*policy, outcomes@, i as int),
            delays@.len() == i,
            forall|k: int|
                0 <= k < i ==> delays@[k] == spec_retry_delay(policy.backoff_ms, k + 1),
            i <= policy.retries || i == 0,
        decreases outcomes@.len() - i,
    {
        let stop_here: bool = if i >= outcomes.len() - 1 {
            true
        } else {
            match &outcomes[i] {
                None => true,
                Some(e) => {
                    match next_retry(policy, i, e) {
                        RetryDecision::GiveUp => true,
                        RetryDecision::Retry { delay_ms } => {
                            delays.push(delay_ms);
                            false
                        },
                    }
                },
            }
        };
        if stop_here {
            let succeeded = outcomes[i].is_none();
            return RetrySchedule { attempts: i + 1, delays_ms: delays, succeeded };
        }
        i = i + 1;
    }
}

/// Law: a transient failure is retried while budget remains, a 4xx
/// never is. Under the default budget of 2 retries, a run of two
/// server errors followed by a success is observed as exactly three
/// requests, with delays of one and two backoff units; a single 400
/// stops after exactly one request.
pub proof fn lemma_retry_laws(policy: PixooClientConfig, e500: PixooError, e400: PixooError)
    requires
        policy.retries == 2,
        e500 == PixooError::HttpStatus(500u16),
        e400 == PixooError::HttpStatus(400u16),
    ensures
        spec_stop_index(policy, seq![Some(e500), Some(e500), None], 0) == 2,
        spec_stop_index(policy, seq![Some(e400), Some(e500), None], 0) == 0,
{
    let s = seq![Some(e500), Some(e500), None];
    assert(spec_stop_index(policy, s, 2) == 2);
    assert(spec_stop_index(policy, s, 1) == 2);
    assert(spec_stop_index(policy, s, 0) == 2);
}

} // verus!
