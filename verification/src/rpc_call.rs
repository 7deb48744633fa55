//! The decisions of one JSON-RPC call: when to send, when to retry and after how
//! long, and what the call yields. The caller performs each action and reports
//! what happened; sending, sleeping and JSON text conversion stay with the caller.
use vstd::prelude::*;

use crate::json::{json_parse, json_render, member, parse_json, render_json, JsonNumber, JsonValue};
use crate::text::{decimal_text, occurs_in, push_decimal};
use crate::soroban_rpc::{
    is_success_status, lowercase, retryable_status, should_retry_http_status, should_retry_rpc_error,
    transient_error_text, exp2, RetryPolicy,
};

verus! {

/// Why an RPC call failed.
#[derive(Debug, PartialEq, Eq)]
pub enum RpcError {
    /// The endpoint answered with a status outside 2xx.
    HttpStatus { method: String, status: u16, body: String },
    /// A 2xx reply whose body is not JSON.
    Decode { method: String, body: String },
    /// The reply carried a JSON-RPC `error`, given by its JSON text.
    Rpc { method: String, message: String },
    /// The reply carried neither `error` nor `result`.
    MissingResult { method: String },
    /// The request could not be sent.
    Transport { method: String, detail: String },
    /// The retry policy allowed no attempt at all.
    Exhausted { method: String },
    /// The `getLatestLedger` result holds no readable `sequence`.
    MissingSequence,
}

/// The reason phrase that the `http` crate gives a status code in `100..=999`
/// (`StatusCode::canonical_reason`, or "<unknown status code>" where it has none).
pub uninterp spec fn status_reason(status: u16) -> Seq<char>;

/// `StatusCode::from_u16` and `StatusCode`'s `Display` from the `http` crate, for a
/// code in `100..=999` (the codes that `from_u16` accepts). `Display` writes the
/// number, a space and the reason phrase.
#[verifier::external_body]
fn status_display(status: u16) -> (r: String)
    requires
        100 <= status <= 999,
    ensures
        r@ == decimal_text(status as nat) + " "@ + status_reason(status),
{
    match reqwest::StatusCode::from_u16(status) {
        Ok(code) => code.to_string(),
        Err(_) => String::new(),
    }
}

/// How a status is written in an error: the number and its reason phrase, or the
/// bare number for a value that is no HTTP status code.
pub open spec fn status_text(status: u16) -> Seq<char> {
    if 100 <= status <= 999 {
        decimal_text(status as nat) + " "@ + status_reason(status)
    } else {
        decimal_text(status as nat)
    }
}

/// The message of each error, as the RPC client reports it.
pub open spec fn error_text(e: RpcError) -> Seq<char> {
    match e {
        RpcError::HttpStatus { method, status, body } =>
            "RPC "@ + method@ + " HTTP "@ + status_text(status) + ": "@ + body@,
        RpcError::Decode { method, body } =>
            "failed to decode RPC "@ + method@ + " response body: "@ + body@,
        RpcError::Rpc { method, message } => "RPC "@ + method@ + " error: "@ + message@,
        RpcError::MissingResult { method } => "missing result field in RPC "@ + method@ + " response"@,
        RpcError::Transport { method, .. } => "RPC request failed for "@ + method@,
        RpcError::Exhausted { method } => "RPC request exhausted retries for method "@ + method@,
        RpcError::MissingSequence => "missing sequence in getLatestLedger response"@,
    }
}

impl RpcError {
    /// The error's message. A transport failure reads "RPC request failed for
    /// {method}", its cause being kept in `detail`.
    pub fn message(&self) -> (m: String)
        ensures
            m@ == error_text(*self),
    {
        match self {
            RpcError::HttpStatus { method, status, body } => {
                let mut m = String::from_str("RPC ");
                m.append(method.as_str());
                m.append(" HTTP ");
                if 100 <= *status && *status <= 999 {
                    let line = status_display(*status);
                    m.append(line.as_str());
                } else {
                    push_decimal(&mut m, *status as u64);
                }
                m.append(": ");
                m.append(body.as_str());
                m
            },
            RpcError::Decode { method, body } => {
                let mut m = String::from_str("failed to decode RPC ");
                m.append(method.as_str());
                m.append(" response body: ");
                m.append(body.as_str());
                m
            },
            RpcError::Rpc { method, message } => {
                let mut m = String::from_str("RPC ");
                m.append(method.as_str());
                m.append(" error: ");
                m.append(message.as_str());
                m
            },
            RpcError::MissingResult { method } => {
                let mut m = String::from_str("missing result field in RPC ");
                m.append(method.as_str());
                m.append(" response");
                m
            },
            RpcError::Transport { method, .. } => {
                let mut m = String::from_str("RPC request failed for ");
                m.append(method.as_str());
                m
            },
            RpcError::Exhausted { method } => {
                let mut m = String::from_str("RPC request exhausted retries for method ");
                m.append(method.as_str());
                m
            },
            RpcError::MissingSequence => String::from_str("missing sequence in getLatestLedger response"),
        }
    }
}

/// What the endpoint answered: the HTTP status and the body text.
pub struct HttpReply {
    pub status: u16,
    pub body: String,
}

/// What happened after the last send.
pub enum RpcEvent {
    /// The request was sent and answered.
    Replied(HttpReply),
    /// The request could not be sent.
    SendFailed { detail: String },
}

/// What the caller does next.
#[derive(Debug, PartialEq, Eq)]
pub enum RpcAction {
    /// Wait for the rate limit, then send the request.
    Send,
    /// Count a retry, report `cause`, sleep `delay_ms` milliseconds, then wait for
    /// the rate limit and send the request again.
    Retry { delay_ms: u64, cause: RpcError },
    /// The call is over: it yields this `result` value.
    Succeed { result: JsonValue },
    /// The call is over: it failed.
    Fail { error: RpcError },
}

/// Where a call stands: waiting for the reply to a request, or over.
#[derive(Clone, Copy, Debug, PartialEq, Eq)]
pub enum CallPhase {
    AwaitingReply,
    Finished,
}

/// One JSON-RPC call in progress. `attempt` counts the sends before the current
/// one, so `attempt + 1` requests have been sent while a reply is awaited.
pub struct RpcCall {
    pub method: String,
    pub policy: RetryPolicy,
    pub attempt: u32,
    pub phase: CallPhase,
}

/// `v` is the JSON string `t`.
pub open spec fn json_text(v: JsonValue, t: Seq<char>) -> bool {
    match v {
        JsonValue::Str(s) => s@ == t,
        _ => false,
    }
}

/// The JSON-RPC 2.0 envelope `{"jsonrpc": "2.0", "id": 1, "method": .., "params": ..}`.
pub open spec fn is_request_envelope(body: JsonValue, method: Seq<char>, params: JsonValue) -> bool {
    match body {
        JsonValue::Object(m) => {
            &&& m@.len() == 4
            &&& m@[0].0@ == "jsonrpc"@
            &&& json_text(m@[0].1, "2.0"@)
            &&& m@[1].0@ == "id"@
            &&& m@[1].1 == JsonValue::Number(JsonNumber::PosInt(1))
            &&& m@[2].0@ == "method"@
            &&& json_text(m@[2].1, method)
            &&& m@[3].0@ == "params"@
            &&& m@[3].1 == params
        },
        _ => false,
    }
}

/// The request body for `method` with `params`.
pub fn request_body(method: &str, params: JsonValue) -> (body: JsonValue)
    ensures
        is_request_envelope(body, method@, params),
{
    let mut m: Vec<(String, JsonValue)> = Vec::new();
    m.push((String::from_str("jsonrpc"), JsonValue::Str(String::from_str("2.0"))));
    m.push((String::from_str("id"), JsonValue::Number(JsonNumber::PosInt(1))));
    m.push((String::from_str("method"), JsonValue::Str(String::from_str(method))));
    m.push((String::from_str("params"), params));
    JsonValue::Object(m)
}

/// The request body for `method` with `params`, as the JSON text that is posted.
pub fn request_text(method: &str, params: JsonValue) -> (text: String)
    ensures
        exists|body: JsonValue| is_request_envelope(body, method@, params) && text@ == json_render(body),
{
    let body = request_body(method, params);
    render_json(&body)
}

impl RpcCall {
    /// A call in progress has a send left to it: `attempt < max_attempts`.
    pub open spec fn wf(self) -> bool {
        self.phase != CallPhase::Finished ==> self.attempt < self.policy.max_attempts
    }

    /// A bound on the events the call still takes before it finishes: one per
    /// attempt left.
    pub open spec fn events_left(self) -> nat {
        match self.phase {
            CallPhase::Finished => 0,
            CallPhase::AwaitingReply => (self.policy.max_attempts - self.attempt) as nat,
        }
    }

    /// Another attempt is allowed after the current one.
    pub open spec fn may_retry(self) -> bool {
        self.attempt + 1 < self.policy.max_attempts
    }

    /// The backoff before the next attempt, in milliseconds.
    pub open spec fn backoff(self) -> u64 {
        self.policy.delay_spec(self.attempt as nat) as u64
    }

    /// `next` is this call after one more send.
    pub open spec fn retried_as(self, next: RpcCall) -> bool {
        &&& next.method == self.method
        &&& next.policy == self.policy
        &&& next.attempt == self.attempt + 1
        &&& next.phase == CallPhase::AwaitingReply
    }

    /// `next` is this call, over, with no further send.
    pub open spec fn finished_as(self, next: RpcCall) -> bool {
        &&& next.method == self.method
        &&& next.policy == self.policy
        &&& next.attempt == self.attempt
        &&& next.phase == CallPhase::Finished
    }

    /// The call retries for `cause` when `retry` holds and another attempt is
    /// allowed, and fails with it otherwise.
    pub open spec fn retry_or_fail(self, next: RpcCall, a: RpcAction, retry: bool, cause: RpcError) -> bool {
        if retry && self.may_retry() {
            self.retried_as(next) && a == (RpcAction::Retry { delay_ms: self.backoff(), cause })
        } else {
            self.finished_as(next) && a == (RpcAction::Fail { error: cause })
        }
    }

    /// The outcome of a JSON-RPC error whose JSON text is `text`: retried when the
    /// lowercased text names a transient condition and another attempt is allowed,
    /// failed otherwise; either way with an `Rpc` error carrying the text.
    pub open spec fn rpc_error_outcome(self, next: RpcCall, a: RpcAction, text: Seq<char>) -> bool {
        let retry = transient_error_text(lowercase(text)) && self.may_retry();
        match a {
            RpcAction::Retry { delay_ms, cause: RpcError::Rpc { method, message } } => {
                &&& retry
                &&& self.retried_as(next)
                &&& delay_ms == self.backoff()
                &&& method == self.method
                &&& message@ == text
            },
            RpcAction::Fail { error: RpcError::Rpc { method, message } } => {
                &&& !retry
                &&& self.finished_as(next)
                &&& method == self.method
                &&& message@ == text
            },
            _ => false,
        }
    }

    /// The outcome of a 2xx reply whose body reads as `payload` (none when it is not
    /// JSON).
    pub open spec fn payload_outcome(self, next: RpcCall, a: RpcAction, body: String, payload: Option<JsonValue>) -> bool {
        match payload {
            None => self.finished_as(next) && a == (RpcAction::Fail {
                error: RpcError::Decode { method: self.method, body },
            }),
            Some(p) => match member(p, "error"@) {
                Some(e) => self.rpc_error_outcome(next, a, json_render(e)),
                None => match member(p, "result"@) {
                    Some(v) => self.finished_as(next) && a == (RpcAction::Succeed { result: v }),
                    None => self.finished_as(next) && a == (RpcAction::Fail {
                        error: RpcError::MissingResult { method: self.method },
                    }),
                },
            },
        }
    }

    /// Begins a call of `method`: the first action is to send, unless the policy
    /// allows no attempt.
    pub fn start(method: String, policy: RetryPolicy) -> (r: (RpcCall, RpcAction))
        ensures
            r.0.wf(),
            r.0.method == method,
            r.0.policy == policy,
            r.0.attempt == 0,
            r.0.events_left() == policy.max_attempts,
            policy.max_attempts > 0 ==> r.0.phase == CallPhase::AwaitingReply && r.1 == RpcAction::Send,
            policy.max_attempts == 0 ==> r.0.phase == CallPhase::Finished && r.1 == (RpcAction::Fail {
                error: RpcError::Exhausted { method },
            }),
    {
        if policy.max_attempts == 0 {
            let error = RpcError::Exhausted { method: method.clone() };
            (RpcCall { method, policy, attempt: 0, phase: CallPhase::Finished }, RpcAction::Fail { error })
        } else {
            (RpcCall { method, policy, attempt: 0, phase: CallPhase::AwaitingReply }, RpcAction::Send)
        }
    }

    fn retry_or_finish(&mut self, retry: bool, cause: RpcError) -> (a: RpcAction)
        requires
            old(self).wf(),
            old(self).phase == CallPhase::AwaitingReply,
        ensures
            final(self).wf(),
            old(self).retry_or_fail(*final(self), a, retry, cause),
    {
        if retry && self.attempt < u32::MAX && self.attempt + 1 < self.policy.max_attempts {
            let delay_ms = self.policy.delay_for_attempt(self.attempt);
            self.attempt = self.attempt + 1;
            RpcAction::Retry { delay_ms, cause }
        } else {
            self.phase = CallPhase::Finished;
            RpcAction::Fail { error: cause }
        }
    }

    /// Decides on a JSON-RPC error whose JSON text is `text`: retry when the
    /// lowercased text names rate limiting, too many requests, a temporary condition
    /// or a timeout and another attempt is allowed; fail otherwise.
    pub fn on_rpc_error(&mut self, text: String) -> (a: RpcAction)
        requires
            old(self).wf(),
            old(self).phase == CallPhase::AwaitingReply,
        ensures
            final(self).wf(),
            old(self).rpc_error_outcome(*final(self), a, text@),
    {
        let transient = should_retry_rpc_error(text.as_str());
        let cause = RpcError::Rpc { method: self.method.clone(), message: text };
        self.retry_or_finish(transient, cause)
    }

    /// Decides on a 2xx reply whose body reads as `payload` (none when the body is
    /// not JSON): a body that is not JSON fails; an `error` member is decided on by
    /// its JSON text; a `result` member is what the call yields; anything else fails.
    pub fn on_payload(&mut self, body: String, payload: Option<JsonValue>) -> (a: RpcAction)
        requires
            old(self).wf(),
            old(self).phase == CallPhase::AwaitingReply,
        ensures
            final(self).wf(),
            old(self).payload_outcome(*final(self), a, body, payload),
    {
        match payload {
            None => {
                let error = RpcError::Decode { method: self.method.clone(), body };
                self.phase = CallPhase::Finished;
                RpcAction::Fail { error }
            },
            Some(p) => {
                match p.get("error") {
                    Some(e) => {
                        let text = render_json(e);
                        self.on_rpc_error(text)
                    },
                    None => match p.into_member("result") {
                        Some(v) => {
                            self.phase = CallPhase::Finished;
                            RpcAction::Succeed { result: v }
                        },
                        None => {
                            let error = RpcError::MissingResult { method: self.method.clone() };
                            self.phase = CallPhase::Finished;
                            RpcAction::Fail { error }
                        },
                    },
                }
            },
        }
    }

    /// Takes in what happened after the last send and decides the next action.
    ///
    /// A reply outside 2xx is retried when its status is 429 or 5xx and another
    /// attempt is allowed, and fails otherwise. A 2xx reply body is read as JSON
    /// and decided on by `on_payload`. A request that could not be sent is retried
    /// while another attempt is allowed.
    pub fn step(&mut self, event: RpcEvent) -> (a: RpcAction)
        requires
            old(self).wf(),
            old(self).phase == CallPhase::AwaitingReply,
        ensures
            final(self).wf(),
            final(self).events_left() < old(self).events_left(),
            // A retry happens only while attempts are left, and counts one more send.
            a is Retry ==> old(self).attempt + 1 < old(self).policy.max_attempts
                && final(self).attempt == old(self).attempt + 1
                && final(self).phase == CallPhase::AwaitingReply,
            !(a is Retry) ==> final(self).phase == CallPhase::Finished
                && final(self).attempt == old(self).attempt,
            // It waits the initial backoff doubled once per earlier attempt, capped.
            a matches RpcAction::Retry { delay_ms, .. } ==> delay_ms as int == (
                if old(self).policy.initial_backoff_ms * exp2(old(self).attempt as nat)
                    < old(self).policy.max_backoff_ms {
                    old(self).policy.initial_backoff_ms * exp2(old(self).attempt as nat)
                } else {
                    old(self).policy.max_backoff_ms as int
                }),
            // 429 and every 5xx are retried exactly while attempts are left.
            event matches RpcEvent::Replied(r) && (r.status == 429 || (500 <= r.status && r.status <= 599))
                ==> (a is Retry <==> old(self).attempt + 1 < old(self).policy.max_attempts),
            // Any other status outside 2xx fails at once.
            event matches RpcEvent::Replied(r) && (r.status < 200 || r.status > 299) && r.status != 429
                && !(500 <= r.status && r.status <= 599) ==> a is Fail,
            // A request that could not be sent is retried exactly while attempts are left.
            event is SendFailed ==> (a is Retry <==> old(self).attempt + 1 < old(self).policy.max_attempts),
            // A 2xx JSON-RPC error is retried exactly when its lowercased JSON text names
            // rate limiting, too many requests, a temporary condition or a timeout, and
            // attempts are left.
            match event {
                RpcEvent::Replied(r) => (200 <= r.status && r.status <= 299) ==> match json_parse(r.body@) {
                    Some(p) => match member(p, "error"@) {
                        Some(e) => (a is Retry <==> (old(self).attempt + 1 < old(self).policy.max_attempts && (
                            occurs_in(lowercase(json_render(e)), "rate limit"@)
                            || occurs_in(lowercase(json_render(e)), "too many requests"@)
                            || occurs_in(lowercase(json_render(e)), "temporar"@)
                            || occurs_in(lowercase(json_render(e)), "timeout"@)))),
                        None => true,
                    },
                    None => true,
                },
                _ => true,
            },
            match event {
                RpcEvent::Replied(reply) => if !is_success_status(reply.status) {
                    old(self).retry_or_fail(
                        *final(self),
                        a,
                        retryable_status(reply.status),
                        RpcError::HttpStatus { method: old(self).method, status: reply.status, body: reply.body },
                    )
                } else {
                    old(self).payload_outcome(*final(self), a, reply.body, json_parse(reply.body@))
                },
                RpcEvent::SendFailed { detail } => old(self).retry_or_fail(
                    *final(self),
                    a,
                    true,
                    RpcError::Transport { method: old(self).method, detail },
                ),
            },
    {
        match event {
            RpcEvent::Replied(reply) => {
                if !(200 <= reply.status && reply.status < 300) {
                    let retry = should_retry_http_status(reply.status);
                    let cause = RpcError::HttpStatus {
                        method: self.method.clone(),
                        status: reply.status,
                        body: reply.body,
                    };
                    self.retry_or_finish(retry, cause)
                } else {
                    let payload = parse_json(reply.body.as_str());
                    self.on_payload(reply.body, payload)
                }
            },
            RpcEvent::SendFailed { detail } => {
                let cause = RpcError::Transport { method: self.method.clone(), detail };
                self.retry_or_finish(true, cause)
            },
        }
    }
}

/// While a call awaits a reply, it has sent `attempt + 1` requests, and that is
/// never more than the policy's `max_attempts`.
pub proof fn law_sends_within_max_attempts(call: RpcCall)
    requires
        call.wf(),
        call.phase == CallPhase::AwaitingReply,
    ensures
        call.attempt + 1 <= call.policy.max_attempts,
{
}

/// A retry waits the policy's backoff for the attempt that failed, never more than
/// the maximum backoff.
pub proof fn law_retry_wait_capped(call: RpcCall)
    ensures
        call.backoff() <= call.policy.max_backoff_ms,
{
}

/// Every call ends: a call in progress has events left, never more than one per
/// allowed attempt, and each `step` lowers that count, so a call takes at most
/// `max_attempts` replies or send failures before it finishes.
pub proof fn law_call_ends(call: RpcCall)
    requires
        call.wf(),
    ensures
        call.events_left() <= call.policy.max_attempts,
        call.phase != CallPhase::Finished ==> call.events_left() > 0,
{
}

/// A retryable failure is retried exactly while attempts are left: the retry
/// counts one more send, and the failure that ends the call comes at the
/// `max_attempts`-th send. So a call whose every reply is retryable sends exactly
/// `max_attempts` requests.
pub proof fn law_retry_exactly_while_attempts_left(call: RpcCall, next: RpcCall, a: RpcAction, cause: RpcError)
    requires
        call.wf(),
        call.phase == CallPhase::AwaitingReply,
        call.retry_or_fail(next, a, true, cause),
    ensures
        a is Retry <==> call.attempt + 1 < call.policy.max_attempts,
        a is Retry ==> next.attempt == call.attempt + 1 && next.phase == CallPhase::AwaitingReply,
        a is Fail ==> next.attempt + 1 == call.policy.max_attempts && next.phase == CallPhase::Finished,
{
}

/// A retry waits `min(initial_backoff * 2^attempt, max_backoff)` for the attempt
/// that failed: the initial backoff after the first send, doubled after each later
/// one, never past the cap.
pub proof fn law_retry_wait_is_capped_doubling(
    call: RpcCall,
    next: RpcCall,
    a: RpcAction,
    retry: bool,
    cause: RpcError,
)
    requires
        call.retry_or_fail(next, a, retry, cause),
    ensures
        a matches RpcAction::Retry { delay_ms, .. } ==> {
            &&& call.attempt == 0 ==> delay_ms as int == (if call.policy.initial_backoff_ms
                < call.policy.max_backoff_ms {
                call.policy.initial_backoff_ms as int
            } else {
                call.policy.max_backoff_ms as int
            })
            &&& delay_ms <= call.policy.max_backoff_ms
            &&& delay_ms as int == (if call.policy.initial_backoff_ms * exp2(call.attempt as nat)
                < call.policy.max_backoff_ms {
                call.policy.initial_backoff_ms * exp2(call.attempt as nat)
            } else {
                call.policy.max_backoff_ms as int
            })
        },
{
    assert(exp2(0) == 1);
    let d = call.policy.delay_spec(call.attempt as nat);
    assert(d <= call.policy.max_backoff_ms);
    assert(call.backoff() as int == d);
    assert(call.policy.initial_backoff_ms * exp2(0) == call.policy.initial_backoff_ms);
}

} // verus!
