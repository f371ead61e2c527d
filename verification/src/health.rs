//! The health probe: candidate endpoints tried strictly in order, with
//! stop-on-success and the 404-or-transport-failure fallback rule. The
//! caller issues the HTTP requests and hands each outcome back; every
//! decision — which URL to try, when to stop, what the result says — is
//! made and verified here.

use vstd::prelude::*;
use vstd::string::*;

use crate::errors::ConfigError;
use crate::urlnorm::{normalize_base_url, normalize_error_detail, normalize_ok, normalized_of};

verus! {

#[verifier::external_type_specification]
#[verifier::external_body]
pub struct ExJsonValue(serde_json::Value);

/// Whether a string is a well-formed JSON document.
pub uninterp spec fn json_accepts(s: Seq<char>) -> bool;

/// Relies on `serde_json::from_str::<Value>`: whether a string parses
/// as JSON depends on the string alone.
#[verifier::external_body]
fn parse_json_payload(s: &str) -> (r: Option<serde_json::Value>)
    ensures
        r is Some <==> json_accepts(s@),
{
    serde_json::from_str::<serde_json::Value>(s).ok()
}

/// The outcome of one probe: the exact URL requested, whether the
/// response counted as success, the HTTP status if a response arrived
/// at all, the elapsed round-trip time, the response body parsed as
/// JSON when it was JSON, and the transport error text otherwise.
pub struct HealthCheckResult {
    pub request_url: String,
    pub ok: bool,
    pub status_code: Option<u16>,
    pub elapsed_ms: u128,
    pub payload: Option<serde_json::Value>,
    pub error: Option<String>,
}

/// What the transport reported for one GET: either a failure to get
/// any HTTP response (with its description), or a response with its
/// status code and body text.
pub enum ProbeOutcome {
    Transport(String),
    Response(u16, String),
}

/// The status code an outcome carries: absent for transport failures.
pub open spec fn outcome_status(o: ProbeOutcome) -> Option<u16> {
    match o {
        ProbeOutcome::Transport(_) => None,
        ProbeOutcome::Response(s, _) => Some(s),
    }
}

/// Whether an outcome is a success: a response with a 2xx status.
pub open spec fn outcome_is_success(o: ProbeOutcome) -> bool {
    match o {
        ProbeOutcome::Transport(_) => false,
        ProbeOutcome::Response(s, _) => 200 <= s && s < 300,
    }
}

/// Whether an outcome permits falling back to the next candidate: a
/// 404 (wrong path for this deployment) or a pure transport failure.
pub open spec fn outcome_retriable(o: ProbeOutcome) -> bool {
    outcome_status(o) == Some(404u16) || outcome_status(o) is None
}

/// How a result reflects one outcome for one requested URL.
pub open spec fn reflects(
    res: HealthCheckResult,
    url: Seq<char>,
    outcome: ProbeOutcome,
    elapsed_ms: u128,
) -> bool {
    &&& res.request_url@ == url
    &&& res.elapsed_ms == elapsed_ms
    &&& res.ok == outcome_is_success(outcome)
    &&& res.status_code == outcome_status(outcome)
    &&& match outcome {
        ProbeOutcome::Transport(e) => (res.error matches Some(m) && m@ == e@) && res.payload
            is None,
        ProbeOutcome::Response(_, b) => res.error is None && (res.payload is Some <==> json_accepts(
            b@,
        )),
    }
}

/// Builds the result recorded for one probe of `request_url`: success
/// is a 2xx status, the body is parsed as JSON when possible (a
/// non-JSON success is still a success, with no payload), and a
/// transport failure carries its description with no status.
pub fn evaluate_probe(request_url: String, outcome: ProbeOutcome, elapsed_ms: u128) -> (r:
    HealthCheckResult)
    ensures
        reflects(r, request_url@, outcome, elapsed_ms),
{
    match outcome {
        ProbeOutcome::Transport(e) => HealthCheckResult {
            request_url,
            ok: false,
            status_code: None,
            elapsed_ms,
            payload: None,
            error: Some(e),
        },
        ProbeOutcome::Response(status, body) => {
            let payload = parse_json_payload(body.as_str());
            HealthCheckResult {
                request_url,
                ok: 200 <= status && status < 300,
                status_code: Some(status),
                elapsed_ms,
                payload,
                error: None,
            }
        },
    }
}

/// The fallback policy in isolation: advance to the next candidate only
/// when one exists and the current status is exactly 404 or absent.
pub fn should_try_next(status_code: Option<u16>, has_more: bool) -> (r: bool)
    ensures
        r == (has_more && (status_code == Some(404u16) || status_code is None)),
{
    has_more && (match status_code {
        None => true,
        Some(c) => c == 404,
    })
}

/// The ordered candidate endpoints for a normalized base URL: the plain
/// health path first, then the `/backend`-proxied one.
pub open spec fn candidate_of(base: Seq<char>, i: int) -> Seq<char> {
    if i == 0 {
        base + "/api/health"@
    } else {
        base + "/backend/api/health"@
    }
}

/// A health-probe session: the base URL is validated once at the start,
/// then candidates are handed out in order and one outcome is consumed
/// per candidate until a stop rule fires.
pub struct HealthProbe {
    pub base: String,
    pub idx: usize,
}

impl HealthProbe {
    /// Starts a probe session; an invalid base URL aborts immediately
    /// and no probe is attempted.
    pub fn start(base_url: &str) -> (r: Result<HealthProbe, ConfigError>)
        ensures
            r is Ok <==> normalize_ok(base_url@),
            (r matches Ok(p) ==> p.base@ == normalized_of(base_url@) && p.idx == 0),
            (r matches Err(e) ==> e matches ConfigError::InvalidUrl(d) && d@
                == normalize_error_detail(base_url@)),
    {
        match normalize_base_url(base_url) {
            Ok(base) => Ok(HealthProbe { base, idx: 0 }),
            Err(e) => Err(e),
        }
    }

    /// The URL of the candidate to probe now.
    pub fn next_request(&self) -> (r: String)
        requires
            self.idx < 2,
        ensures
            r@ == candidate_of(self.base@, self.idx as int),
    {
        if self.idx == 0 {
            String::from_str(self.base.as_str()).concat("/api/health")
        } else {
            String::from_str(self.base.as_str()).concat("/backend/api/health")
        }
    }

    /// Consumes the outcome of probing the current candidate. Success
    /// stops with that result at once; a 404 or transport failure
    /// advances to the next candidate while one exists; any other
    /// failure — and the last candidate's failure — is terminal and
    /// comes back as the final result.
    pub fn feed(&mut self, outcome: ProbeOutcome, elapsed_ms: u128) -> (r: Option<
        HealthCheckResult,
    >)
        requires
            old(self).idx < 2,
        ensures
            final(self).base@ == old(self).base@,
            r is Some <==> (outcome_is_success(outcome) || !(outcome_retriable(outcome) && old(
                self,
            ).idx == 0)),
            (r matches Some(res) ==> final(self).idx == old(self).idx && reflects(
                res,
                candidate_of(old(self).base@, old(self).idx as int),
                outcome,
                elapsed_ms,
            )),
            (r is None ==> final(self).idx == old(self).idx + 1),
    {
        let has_more = self.idx + 1 < 2;
        let status: Option<u16> = match &outcome {
            ProbeOutcome::Transport(_) => None,
            ProbeOutcome::Response(s, _) => Some(*s),
        };
        let url = self.next_request();
        let result = evaluate_probe(url, outcome, elapsed_ms);
        if result.ok {
            Some(result)
        } else if should_try_next(status, has_more) {
            self.idx = self.idx + 1;
            None
        } else {
            Some(result)
        }
    }
}

} // verus!
