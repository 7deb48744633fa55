//! Configuration, retry policy and reply decoding for the Soroban JSON-RPC client.
use vstd::prelude::*;

use crate::json::{json_as_i64, json_as_str, json_as_u64, member, JsonNumber, JsonValue};
use crate::rpc_call::RpcError;
use crate::text::{law_occurs_in_context, law_i64_text_round_trip, signed_decimal_text, chars_of, contains_text, occurs_in, parse_i64 as parse_i64_text, parse_u32,
    parse_u64, spec_parse_i64, spec_parse_u32, spec_parse_u64};

verus! {

pub const DEFAULT_RPC_RATE_LIMIT_MS: u64 = 250;
pub const DEFAULT_RPC_RETRY_ATTEMPTS: u32 = 4;
pub const DEFAULT_RPC_RETRY_INITIAL_BACKOFF_MS: u64 = 500;
pub const DEFAULT_RPC_RETRY_MAX_BACKOFF_MS: u64 = 5_000;

/// `2^n`.
pub open spec fn exp2(n: nat) -> nat
    decreases n,
{
    if n == 0 {
        1
    } else {
        2 * exp2((n - 1) as nat)
    }
}

/// Exponential backoff capped at `max`: `min(initial * 2^attempt, max)`.
pub open spec fn backoff_delay(initial: nat, max: nat, attempt: nat) -> nat {
    if initial * exp2(attempt) < max {
        initial * exp2(attempt)
    } else {
        max
    }
}

pub proof fn lemma_exp2_monotone(a: nat, b: nat)
    requires
        a <= b,
    ensures
        1 <= exp2(a) <= exp2(b),
    decreases b,
{
    if b > 0 {
        if a < b {
            lemma_exp2_monotone(a, (b - 1) as nat);
        } else {
            lemma_exp2_monotone((a - 1) as nat, (b - 1) as nat);
        }
    }
}

/// How often, and how long apart, a failed request is tried again.
/// Backoffs are in milliseconds.
#[derive(Clone, Copy, Debug, PartialEq, Eq)]
pub struct RetryPolicy {
    pub max_attempts: u32,
    pub initial_backoff_ms: u64,
    pub max_backoff_ms: u64,
}

/// The values that the retry settings are read from: the text of the environment
/// variables `{prefix}_MAX_ATTEMPTS`, `{prefix}_INITIAL_BACKOFF_MS` and
/// `{prefix}_MAX_BACKOFF_MS`, where they are set.
pub struct RetryEnv {
    pub max_attempts: Option<String>,
    pub initial_backoff_ms: Option<String>,
    pub max_backoff_ms: Option<String>,
}

/// A setting read as a `u64`, or `default` where it is unset or not a `u64`.
pub open spec fn env_u64(value: Option<String>, default: u64) -> u64 {
    match value {
        Some(text) => match spec_parse_u64(text@) {
            Some(v) => v,
            None => default,
        },
        None => default,
    }
}

/// A setting read as a `u32`, or `default` where it is unset or not a `u32`.
pub open spec fn env_u32(value: Option<String>, default: u32) -> u32 {
    match value {
        Some(text) => match spec_parse_u32(text@) {
            Some(v) => v,
            None => default,
        },
        None => default,
    }
}

fn read_env_u64(value: &Option<String>, default: u64) -> (r: u64)
    ensures
        r == env_u64(*value, default),
{
    match value {
        Some(text) => match parse_u64(text.as_str()) {
            Some(v) => v,
            None => default,
        },
        None => default,
    }
}

fn read_env_u32(value: &Option<String>, default: u32) -> (r: u32)
    ensures
        r == env_u32(*value, default),
{
    match value {
        Some(text) => match parse_u32(text.as_str()) {
            Some(v) => v,
            None => default,
        },
        None => default,
    }
}

impl RetryPolicy {
    /// The delay before the retry that follows attempt number `attempt` (counted from 0).
    pub open spec fn delay_spec(self, attempt: nat) -> nat {
        backoff_delay(self.initial_backoff_ms as nat, self.max_backoff_ms as nat, attempt)
    }

    /// The policy that the environment settings give, with the given defaults.
    /// At least one attempt is always made; the default cap is never below the
    /// default initial backoff.
    pub fn from_env(
        env: &RetryEnv,
        default_attempts: u32,
        default_initial_ms: u64,
        default_max_ms: u64,
    ) -> (p: RetryPolicy)
        ensures
            p.max_attempts >= 1,
            p.max_attempts == (if env_u32(env.max_attempts, default_attempts) >= 1 {
                env_u32(env.max_attempts, default_attempts)
            } else {
                1
            }),
            p.initial_backoff_ms == env_u64(env.initial_backoff_ms, default_initial_ms),
            p.max_backoff_ms == env_u64(
                env.max_backoff_ms,
                if default_max_ms >= default_initial_ms { default_max_ms } else { default_initial_ms },
            ),
    {
        let attempts = read_env_u32(&env.max_attempts, default_attempts);
        let default_cap = if default_max_ms >= default_initial_ms {
            default_max_ms
        } else {
            default_initial_ms
        };
        RetryPolicy {
            max_attempts: if attempts >= 1 { attempts } else { 1 },
            initial_backoff_ms: read_env_u64(&env.initial_backoff_ms, default_initial_ms),
            max_backoff_ms: read_env_u64(&env.max_backoff_ms, default_cap),
        }
    }

    /// The backoff before retrying after attempt number `attempt` (counted from 0), in
    /// milliseconds: the initial backoff doubled once per earlier attempt, capped at
    /// the maximum backoff.
    pub fn delay_for_attempt(&self, attempt: u32) -> (d: u64)
        ensures
            d == self.delay_spec(attempt as nat),
    {
        let ghost initial = self.initial_backoff_ms as nat;
        let max: u128 = self.max_backoff_ms as u128;
        let mut cur: u128 = self.initial_backoff_ms as u128;
        let mut i: u32 = 0;
        assert(exp2(0) == 1);
        while i < attempt && cur < max
            invariant
                i <= attempt,
                max == self.max_backoff_ms,
                initial == self.initial_backoff_ms,
                cur == initial * exp2(i as nat),
                cur <= 2 * (u64::MAX as int),
            decreases attempt - i,
        {
            assert(exp2((i + 1) as nat) == 2 * exp2(i as nat));
            assert(initial * exp2((i + 1) as nat) == 2 * (initial * exp2(i as nat))) by (nonlinear_arith)
                requires exp2((i + 1) as nat) == 2 * exp2(i as nat);
            cur = cur * 2;
            i = i + 1;
        }
        if cur < max {
            assert(i == attempt);
            cur as u64
        } else {
            proof {
                lemma_exp2_monotone(i as nat, attempt as nat);
                assert(initial * exp2(i as nat) <= initial * exp2(attempt as nat)) by (nonlinear_arith)
                    requires exp2(i as nat) <= exp2(attempt as nat);
            }
            self.max_backoff_ms
        }
    }
}

/// The settings of the RPC client: where to send requests, the least time between
/// two request starts (milliseconds) and the retry policy.
pub struct RpcClientConfig {
    pub url: String,
    pub rate_limit_interval_ms: u64,
    pub retry_policy: RetryPolicy,
}

/// The text of the environment variables that configure the RPC client, where set:
/// `SOROBAN_RPC_URL`, `STELLAR_RPC_URL`, `INDEXER_RPC_RATE_LIMIT_MS`, and the
/// `INDEXER_RPC_RETRY_*` retry settings.
pub struct RpcEnv {
    pub soroban_rpc_url: Option<String>,
    pub stellar_rpc_url: Option<String>,
    pub rate_limit_ms: Option<String>,
    pub retry: RetryEnv,
}

/// The endpoint used when no URL is configured.
pub open spec fn default_rpc_url() -> Seq<char> {
    "https://soroban-testnet.stellar.org"@
}

impl RpcClientConfig {
    /// The configuration that the environment settings give: `SOROBAN_RPC_URL`, else
    /// `STELLAR_RPC_URL`, else the public testnet endpoint; the rate limit and the
    /// retry settings fall back to their defaults.
    pub fn from_env(env: &RpcEnv) -> (c: RpcClientConfig)
        ensures
            c.url@ == match env.soroban_rpc_url {
                Some(u) => u@,
                None => match env.stellar_rpc_url {
                    Some(u) => u@,
                    None => default_rpc_url(),
                },
            },
            c.rate_limit_interval_ms == env_u64(env.rate_limit_ms, DEFAULT_RPC_RATE_LIMIT_MS),
            c.retry_policy.max_attempts == (if env_u32(env.retry.max_attempts, DEFAULT_RPC_RETRY_ATTEMPTS) >= 1 {
                env_u32(env.retry.max_attempts, DEFAULT_RPC_RETRY_ATTEMPTS)
            } else {
                1
            }),
            c.retry_policy.initial_backoff_ms == env_u64(
                env.retry.initial_backoff_ms,
                DEFAULT_RPC_RETRY_INITIAL_BACKOFF_MS,
            ),
            c.retry_policy.max_backoff_ms == env_u64(
                env.retry.max_backoff_ms,
                DEFAULT_RPC_RETRY_MAX_BACKOFF_MS,
            ),
    {
        let url = match &env.soroban_rpc_url {
            Some(u) => u.clone(),
            None => match &env.stellar_rpc_url {
                Some(u) => u.clone(),
                None => String::from_str("https://soroban-testnet.stellar.org"),
            },
        };
        RpcClientConfig {
            url,
            rate_limit_interval_ms: read_env_u64(&env.rate_limit_ms, DEFAULT_RPC_RATE_LIMIT_MS),
            retry_policy: RetryPolicy::from_env(
                &env.retry,
                DEFAULT_RPC_RETRY_ATTEMPTS,
                DEFAULT_RPC_RETRY_INITIAL_BACKOFF_MS,
                DEFAULT_RPC_RETRY_MAX_BACKOFF_MS,
            ),
        }
    }
}

/// How long to wait before starting a request so that two request starts are at
/// least `interval_ms` apart: `since_last_nanos` is the time since the previous
/// request started (none before the first request). In nanoseconds.
pub open spec fn rate_limit_wait(interval_ms: nat, since_last_nanos: Option<nat>) -> nat {
    if interval_ms == 0 {
        0
    } else {
        match since_last_nanos {
            Some(elapsed) => if elapsed < interval_ms * 1_000_000 {
                (interval_ms * 1_000_000 - elapsed) as nat
            } else {
                0
            },
            None => 0,
        }
    }
}

/// The wait, in nanoseconds, that the rate limit asks for before the next request.
pub fn rate_limit_delay(interval_ms: u64, since_last_nanos: Option<u128>) -> (w: u128)
    ensures
        w == rate_limit_wait(
            interval_ms as nat,
            match since_last_nanos {
                Some(e) => Some(e as nat),
                None => None,
            },
        ),
{
    if interval_ms == 0 {
        return 0;
    }
    let interval: u128 = interval_ms as u128 * 1_000_000;
    match since_last_nanos {
        Some(elapsed) => if elapsed < interval {
            interval - elapsed
        } else {
            0
        },
        None => 0,
    }
}

/// HTTP statuses in the 2xx range.
pub open spec fn is_success_status(status: u16) -> bool {
    200 <= status < 300
}

/// HTTP statuses worth retrying: 429 Too Many Requests and every 5xx status.
pub open spec fn retryable_status(status: u16) -> bool {
    status == 429 || (500 <= status < 600)
}

/// Whether a failed HTTP status is worth retrying.
pub fn should_retry_http_status(status: u16) -> (r: bool)
    ensures
        r == retryable_status(status),
        r <==> (status == 429 || (500 <= status && status <= 599)),
{
    status == 429 || (500 <= status && status < 600)
}

/// `str::to_lowercase` from std: the Unicode lowercase mapping of the text.
pub uninterp spec fn lowercase(text: Seq<char>) -> Seq<char>;

/// `str::to_lowercase` from std: the text under Unicode's lowercase mapping, which
/// is context-dependent in places and can turn one character into several.
#[verifier::external_body]
fn to_lowercase(text: &str) -> (r: String)
    ensures
        r@ == lowercase(text@),
{
    text.to_lowercase()
}

/// An RPC error whose lowercased text names rate limiting, too many requests, a
/// temporary condition or a timeout.
pub open spec fn transient_error_text(lowered: Seq<char>) -> bool {
    ||| occurs_in(lowered, "rate limit"@)
    ||| occurs_in(lowered, "too many requests"@)
    ||| occurs_in(lowered, "temporar"@)
    ||| occurs_in(lowered, "timeout"@)
}

fn occurs(hay: &Vec<char>, needle: &str) -> (r: bool)
    ensures
        r == occurs_in(hay@, needle@),
{
    let n = chars_of(needle);
    contains_text(hay, &n)
}

/// Whether already-lowercased RPC error text names a transient condition.
pub fn is_transient_error_text(lowered: &str) -> (r: bool)
    ensures
        r == transient_error_text(lowered@),
        r <==> (occurs_in(lowered@, "rate limit"@) || occurs_in(lowered@, "too many requests"@)
            || occurs_in(lowered@, "temporar"@) || occurs_in(lowered@, "timeout"@)),
{
    let hay = chars_of(lowered);
    let a = occurs(&hay, "rate limit");
    let b = occurs(&hay, "too many requests");
    let c = occurs(&hay, "temporar");
    let d = occurs(&hay, "timeout");
    a || b || c || d
}

/// Whether an RPC error, given by its JSON text, is worth retrying: its lowercased
/// text names rate limiting, too many requests, a temporary condition or a timeout.
pub fn should_retry_rpc_error(error_text: &str) -> (r: bool)
    ensures
        r == transient_error_text(lowercase(error_text@)),
        r <==> (occurs_in(lowercase(error_text@), "rate limit"@)
            || occurs_in(lowercase(error_text@), "too many requests"@)
            || occurs_in(lowercase(error_text@), "temporar"@)
            || occurs_in(lowercase(error_text@), "timeout"@)),
{
    let lowered = to_lowercase(error_text);
    is_transient_error_text(lowered.as_str())
}

/// The ledger number a reply field holds: a JSON integer in the `i64` range, or a
/// JSON string that parses as an `i64`.
pub open spec fn json_i64(value: JsonValue) -> Option<i64> {
    match json_as_i64(value) {
        Some(v) => Some(v),
        None => match json_as_u64(value) {
            Some(u) => if u <= i64::MAX { Some(u as i64) } else { None },
            None => match json_as_str(value) {
                Some(s) => spec_parse_i64(s),
                None => None,
            },
        },
    }
}

/// Reads an `i64` out of a JSON value: an integer in range, or a string holding one.
pub fn parse_i64(value: &JsonValue) -> (r: Option<i64>)
    ensures
        r == json_i64(*value),
{
    match value {
        JsonValue::Number(JsonNumber::PosInt(n)) => if *n <= i64::MAX as u64 {
            Some(*n as i64)
        } else {
            None
        },
        JsonValue::Number(JsonNumber::NegInt(n)) => Some(*n),
        JsonValue::Str(s) => parse_i64_text(s.as_str()),
        _ => None,
    }
}

/// The events of one `getEvents` page and the network's latest ledger.
pub struct EventsResponse {
    pub latest_network_ledger: i64,
    pub events: Vec<JsonValue>,
}

/// The ledger sequence in a `getLatestLedger` result.
pub open spec fn latest_ledger_of(result: JsonValue) -> Option<i64> {
    match member(result, "sequence"@) {
        Some(v) => json_i64(v),
        None => None,
    }
}

/// Reads the ledger sequence out of a `getLatestLedger` result; fails with
/// `MissingSequence` when the `sequence` member is missing or holds no `i64`.
pub fn latest_ledger_from_result(result: &JsonValue) -> (r: Result<i64, RpcError>)
    ensures
        r == match latest_ledger_of(*result) {
            Some(n) => Ok::<i64, RpcError>(n),
            None => Err(RpcError::MissingSequence),
        },
{
    match result.get("sequence") {
        Some(v) => match parse_i64(v) {
            Some(n) => Ok(n),
            None => Err(RpcError::MissingSequence),
        },
        None => Err(RpcError::MissingSequence),
    }
}

/// `start_ledger - 1`, saturating at `i64::MIN`.
pub open spec fn ledger_before(start_ledger: i64) -> i64 {
    if start_ledger == i64::MIN {
        i64::MIN
    } else {
        (start_ledger - 1) as i64
    }
}

/// The events page that a `getEvents` result gives for a request from
/// `start_ledger`: the `latestLedger` member, or the ledger before
/// `start_ledger` where it is missing or unreadable; and the `events` array, or no
/// events where it is missing or not an array.
pub fn events_from_result(result: JsonValue, start_ledger: i64) -> (r: EventsResponse)
    ensures
        r.latest_network_ledger == match member(result, "latestLedger"@) {
            Some(v) => match json_i64(v) {
                Some(n) => n,
                None => ledger_before(start_ledger),
            },
            None => ledger_before(start_ledger),
        },
        r.events@ == match member(result, "events"@) {
            Some(JsonValue::Array(events)) => events@,
            _ => Seq::<JsonValue>::empty(),
        },
{
    let fallback = if start_ledger == i64::MIN {
        i64::MIN
    } else {
        start_ledger - 1
    };
    let latest_network_ledger = match result.get("latestLedger") {
        Some(v) => match parse_i64(v) {
            Some(n) => n,
            None => fallback,
        },
        None => fallback,
    };
    let events = match result.into_member("events") {
        Some(JsonValue::Array(events)) => events,
        _ => Vec::new(),
    };
    EventsResponse { latest_network_ledger, events }
}

/// The JSON number for an `i64`, as `serde_json` makes it: nonnegative values are
/// kept as unsigned integers.
pub open spec fn i64_number(n: i64) -> JsonNumber {
    if n >= 0 {
        JsonNumber::PosInt(n as u64)
    } else {
        JsonNumber::NegInt(n)
    }
}

/// The parameters of `getEvents` from `start_ledger`:
/// `{"startLedger": start_ledger, "filters": []}`.
pub fn events_params(start_ledger: i64) -> (p: JsonValue)
    ensures
        p matches JsonValue::Object(m) && m@.len() == 2 && m@[0].0@ == "startLedger"@
            && m@[0].1 == JsonValue::Number(i64_number(start_ledger)) && m@[1].0@ == "filters"@
            && (m@[1].1 matches JsonValue::Array(a) && a@.len() == 0),
{
    let number = if start_ledger >= 0 {
        JsonNumber::PosInt(start_ledger as u64)
    } else {
        JsonNumber::NegInt(start_ledger)
    };
    let mut m: Vec<(String, JsonValue)> = Vec::new();
    m.push((String::from_str("startLedger"), JsonValue::Number(number)));
    m.push((String::from_str("filters"), JsonValue::Array(Vec::new())));
    JsonValue::Object(m)
}

/// The parameters of `getLatestLedger`: the empty object `{}`.
pub fn latest_ledger_params() -> (p: JsonValue)
    ensures
        p matches JsonValue::Object(m) && m@.len() == 0,
{
    JsonValue::Object(Vec::new())
}

/// The backoff never exceeds the policy's maximum backoff.
pub proof fn law_backoff_capped(policy: RetryPolicy, attempt: nat)
    ensures
        policy.delay_spec(attempt) <= policy.max_backoff_ms,
{
}

/// The first retry waits the initial backoff, or the maximum backoff where that is smaller.
pub proof fn law_first_backoff(policy: RetryPolicy)
    ensures
        policy.delay_spec(0) == (if policy.initial_backoff_ms < policy.max_backoff_ms {
            policy.initial_backoff_ms
        } else {
            policy.max_backoff_ms
        }),
{
    assert(exp2(0) == 1);
}

/// Each further attempt doubles the backoff, until it reaches the maximum backoff.
pub proof fn law_backoff_doubles(policy: RetryPolicy, attempt: nat)
    ensures
        policy.delay_spec(attempt + 1) == (if 2 * policy.delay_spec(attempt) < policy.max_backoff_ms {
            2 * policy.delay_spec(attempt)
        } else {
            policy.max_backoff_ms as nat
        }),
{
    let i = policy.initial_backoff_ms as nat;
    let e = exp2(attempt);
    assert(exp2(attempt + 1) == 2 * e);
    assert(i * exp2(attempt + 1) == 2 * (i * e)) by (nonlinear_arith)
        requires exp2(attempt + 1) == 2 * e;
}

/// The backoff never shrinks from one attempt to a later one.
pub proof fn law_backoff_monotone(policy: RetryPolicy, a: nat, b: nat)
    requires
        a <= b,
    ensures
        policy.delay_spec(a) <= policy.delay_spec(b),
{
    lemma_exp2_monotone(a, b);
    let i = policy.initial_backoff_ms as nat;
    assert(i * exp2(a) <= i * exp2(b)) by (nonlinear_arith)
        requires exp2(a) <= exp2(b);
}

/// Two request starts are at least the rate-limit interval apart, and the wait is
/// never longer than the interval; with no interval there is no wait.
pub proof fn law_rate_limit_spacing(interval_ms: nat, since_last_nanos: Option<nat>)
    ensures
        rate_limit_wait(interval_ms, since_last_nanos) <= interval_ms * 1_000_000,
        interval_ms == 0 ==> rate_limit_wait(interval_ms, since_last_nanos) == 0,
        since_last_nanos matches Some(e) ==> e + rate_limit_wait(interval_ms, since_last_nanos)
            >= interval_ms * 1_000_000,
{
}

/// A ledger number that `serde_json` wrote from an `i64` reads back as that number.
pub proof fn law_ledger_number_round_trip(n: i64)
    ensures
        json_i64(JsonValue::Number(i64_number(n))) == Some(n),
{
}

/// A ledger number written as decimal text, sign included, reads back as that number.
pub proof fn law_ledger_text_round_trip(n: i64, text: String)
    requires
        text@ == signed_decimal_text(n as int),
    ensures
        json_i64(JsonValue::Str(text)) == Some(n),
{
    law_i64_text_round_trip(n);
}

/// The HTTP statuses worth retrying are exactly 429 Too Many Requests and the
/// server errors 500 to 599.
pub proof fn law_retryable_statuses(status: u16)
    ensures
        retryable_status(status) <==> (status == 429 || (500 <= status && status <= 599)),
        500 <= status <= 599 ==> retryable_status(status),
        status < 500 && status != 429 ==> !retryable_status(status),
        status >= 600 ==> !retryable_status(status),
{
}

/// An RPC error is transient exactly when its lowercased text contains "rate limit",
/// "too many requests", "temporar" or "timeout" anywhere: text around one of these
/// does not matter, and text containing none of them is not transient.
pub proof fn law_transient_error_text(before: Seq<char>, after: Seq<char>, lowered: Seq<char>)
    ensures
        transient_error_text(before + "rate limit"@ + after),
        transient_error_text(before + "too many requests"@ + after),
        transient_error_text(before + "temporar"@ + after),
        transient_error_text(before + "timeout"@ + after),
        transient_error_text(lowered) <==> (occurs_in(lowered, "rate limit"@) || occurs_in(
            lowered,
            "too many requests"@,
        ) || occurs_in(lowered, "temporar"@) || occurs_in(lowered, "timeout"@)),
{
    law_occurs_in_context(before, "rate limit"@, after);
    law_occurs_in_context(before, "too many requests"@, after);
    law_occurs_in_context(before, "temporar"@, after);
    law_occurs_in_context(before, "timeout"@, after);
}

/// `2^0 = 1` and each step doubles: `2^(n+1) = 2 * 2^n`.
pub proof fn law_exp2(n: nat)
    ensures
        exp2(0) == 1,
        exp2(n + 1) == 2 * exp2(n),
{
}

} // verus!
