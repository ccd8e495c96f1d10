//! Per-request middleware bookkeeping.
//!
//! Every inbound request gets a request id (the caller's, or a fresh random
//! one), a running latency timer and a logging-context entry; when the
//! response is ready, the counter labels are computed and the timer stops,
//! exactly once; when the request finishes, the logging context is cleared
//! and the id is echoed for the response header. [`RequestScope`] carries
//! that state and its functions enforce the order.

use vstd::prelude::*;

use rand::Rng;

use crate::decimal::{dec_rep, is_digit_char, lemma_dec_rep_digits, u64_to_string};

verus! {

/// The per-request timeout bound, a configuration constant of the endpoint
/// layer.
pub const REQUEST_TIMEOUT_SECS: u64 = 10;

/// Relies on rand's `thread_rng` and `Rng::gen`: a fresh 64-bit value from
/// the thread-local generator. Nothing is assumed about the value.
#[verifier::external_body]
fn random_u64() -> u64 {
    rand::thread_rng().gen()
}

/// The request id to use: the caller-supplied value unchanged, or the
/// decimal rendering of `fresh` when none was supplied.
pub fn ensure_request_id(existing: Option<String>, fresh: u64) -> (r: String)
    ensures
        match existing {
            Some(s) => r@ == s@,
            None => r@ == dec_rep(fresh as nat),
        },
{
    match existing {
        Some(s) => s,
        None => u64_to_string(fresh),
    }
}

/// A freshly generated request id: the decimal form of a random 64-bit
/// value, so always one to twenty digit characters.
pub fn make_request_id() -> (r: String)
    ensures
        1 <= r@.len(),
        forall|i: int| 0 <= i < r@.len() ==> is_digit_char(#[trigger] r@[i]),
{
    let fresh = random_u64();
    proof {
        lemma_dec_rep_digits(fresh as nat);
    }
    u64_to_string(fresh)
}

/// The ephemeral state of one request inside the middleware pipeline. It
/// never outlives the request.
pub struct RequestScope {
    /// The correlation token carried into every log line and echoed on the
    /// response.
    pub request_id: String,
    /// The request path, as a metrics label.
    pub endpoint: String,
    /// The HTTP method, as a metrics label.
    pub method: String,
    /// The latency timer is running.
    pub timing: bool,
    /// The request id sits in the logging context.
    pub context_set: bool,
    /// The request counter has been incremented for this request.
    pub counted: bool,
    /// The latency histogram has received this request's duration.
    pub observed: bool,
}

/// The labels under which one finished request is counted.
pub struct CounterLabels {
    pub endpoint: String,
    pub status: String,
    pub method: String,
}

/// Open the scope for an inbound request: settle the request id, place it
/// in the logging context, and start the timer. Nothing is counted yet.
pub fn open_scope(inbound_id: Option<String>, fresh: u64, endpoint: String, method: String) -> (s:
    RequestScope)
    ensures
        s.request_id@ == match inbound_id {
            Some(v) => v@,
            None => dec_rep(fresh as nat),
        },
        s.endpoint == endpoint,
        s.method == method,
        s.timing,
        s.context_set,
        !s.counted,
        !s.observed,
{
    let request_id = ensure_request_id(inbound_id, fresh);
    RequestScope {
        request_id,
        endpoint,
        method,
        timing: true,
        context_set: true,
        counted: false,
        observed: false,
    }
}

/// Record the outcome of the inner handler, successful or not: stop the
/// timer, mark the duration observed, count the request once, and hand back
/// the labels — endpoint, status code and method — under which to count it.
pub fn record_outcome(scope: &mut RequestScope, status: u16) -> (labels: CounterLabels)
    requires
        old(scope).timing,
        !old(scope).counted,
        !old(scope).observed,
    ensures
        final(scope).request_id == old(scope).request_id,
        final(scope).endpoint == old(scope).endpoint,
        final(scope).method == old(scope).method,
        final(scope).context_set == old(scope).context_set,
        !final(scope).timing,
        final(scope).counted,
        final(scope).observed,
        labels.endpoint@ == old(scope).endpoint@,
        labels.status@ == dec_rep(status as nat),
        labels.method@ == old(scope).method@,
{
    scope.timing = false;
    scope.counted = true;
    scope.observed = true;
    CounterLabels {
        endpoint: scope.endpoint.clone(),
        status: u64_to_string(status as u64),
        method: scope.method.clone(),
    }
}

/// Close the scope once the outcome is recorded: clear the logging context
/// unconditionally and hand back the request id to echo on the response.
pub fn close_scope(scope: &mut RequestScope) -> (echoed: String)
    requires
        old(scope).counted,
        old(scope).observed,
    ensures
        final(scope).request_id == old(scope).request_id,
        !final(scope).context_set,
        echoed@ == old(scope).request_id@,
{
    scope.context_set = false;
    scope.request_id.clone()
}

} // verus!
