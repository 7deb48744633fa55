use std::time::Duration;

use backend::json::{JsonNumber, JsonValue};
use backend::rpc_call::RpcError;
use backend::soroban_rpc::{
    events_from_result, events_params, latest_ledger_from_result, latest_ledger_params, parse_i64,
    rate_limit_delay, should_retry_http_status, should_retry_rpc_error, RetryEnv, RetryPolicy,
    RpcClientConfig, RpcEnv,
};

fn text(s: &str) -> JsonValue {
    JsonValue::Str(s.to_string())
}

fn object(members: Vec<(&str, JsonValue)>) -> JsonValue {
    JsonValue::Object(members.into_iter().map(|(k, v)| (k.to_string(), v)).collect())
}

fn no_env() -> RetryEnv {
    RetryEnv { max_attempts: None, initial_backoff_ms: None, max_backoff_ms: None }
}

#[test]
fn retry_policy_caps_exponential_backoff() {
    let policy = RetryPolicy {
        max_attempts: 4,
        initial_backoff_ms: Duration::from_millis(100).as_millis() as u64,
        max_backoff_ms: Duration::from_millis(350).as_millis() as u64,
    };

    assert_eq!(Duration::from_millis(policy.delay_for_attempt(0)), Duration::from_millis(100));
    assert_eq!(Duration::from_millis(policy.delay_for_attempt(1)), Duration::from_millis(200));
    assert_eq!(Duration::from_millis(policy.delay_for_attempt(2)), Duration::from_millis(350));
    assert_eq!(Duration::from_millis(policy.delay_for_attempt(6)), Duration::from_millis(350));
}

#[test]
fn backoff_saturates_for_large_attempts() {
    let policy = RetryPolicy { max_attempts: 4, initial_backoff_ms: u64::MAX, max_backoff_ms: u64::MAX };
    assert_eq!(policy.delay_for_attempt(0), u64::MAX);
    assert_eq!(policy.delay_for_attempt(200), u64::MAX);
    let policy = RetryPolicy { max_attempts: 4, initial_backoff_ms: 0, max_backoff_ms: 1000 };
    assert_eq!(policy.delay_for_attempt(u32::MAX), 0);
    let policy = RetryPolicy { max_attempts: 4, initial_backoff_ms: 3, max_backoff_ms: 1_000_000 };
    assert_eq!(policy.delay_for_attempt(5), 96);
}

#[test]
fn backoff_doubles_until_cap() {
    let policy = RetryPolicy { max_attempts: 9, initial_backoff_ms: 7, max_backoff_ms: 100 };
    let delays: Vec<u64> = (0..8).map(|a| policy.delay_for_attempt(a)).collect();
    assert_eq!(delays, vec![7, 14, 28, 56, 100, 100, 100, 100]);
}

#[test]
fn retry_policy_from_env_uses_defaults() {
    let p = RetryPolicy::from_env(&no_env(), 4, 500, 5000);
    assert_eq!(p, RetryPolicy { max_attempts: 4, initial_backoff_ms: 500, max_backoff_ms: 5000 });
    // The default cap is never below the default initial backoff.
    let p = RetryPolicy::from_env(&no_env(), 4, 500, 100);
    assert_eq!(p.max_backoff_ms, 500);
}

#[test]
fn retry_policy_from_env_reads_settings() {
    let env = RetryEnv {
        max_attempts: Some("7".to_string()),
        initial_backoff_ms: Some("+25".to_string()),
        max_backoff_ms: Some("90".to_string()),
    };
    let p = RetryPolicy::from_env(&env, 4, 500, 5000);
    assert_eq!(p, RetryPolicy { max_attempts: 7, initial_backoff_ms: 25, max_backoff_ms: 90 });
}

#[test]
fn retry_policy_from_env_ignores_bad_settings() {
    let env = RetryEnv {
        max_attempts: Some("0".to_string()),
        initial_backoff_ms: Some("-5".to_string()),
        max_backoff_ms: Some("18446744073709551616".to_string()),
    };
    let p = RetryPolicy::from_env(&env, 4, 500, 5000);
    // Zero attempts becomes one; a negative or out-of-range value falls back.
    assert_eq!(p, RetryPolicy { max_attempts: 1, initial_backoff_ms: 500, max_backoff_ms: 5000 });
    let env = RetryEnv {
        max_attempts: Some("4294967296".to_string()),
        initial_backoff_ms: Some("".to_string()),
        max_backoff_ms: Some("18446744073709551615".to_string()),
    };
    let p = RetryPolicy::from_env(&env, 3, 500, 5000);
    assert_eq!(p, RetryPolicy { max_attempts: 3, initial_backoff_ms: 500, max_backoff_ms: u64::MAX });
}

#[test]
fn rpc_config_from_env_prefers_soroban_url() {
    let env = RpcEnv {
        soroban_rpc_url: Some("http://a".to_string()),
        stellar_rpc_url: Some("http://b".to_string()),
        rate_limit_ms: None,
        retry: no_env(),
    };
    let c = RpcClientConfig::from_env(&env);
    assert_eq!(c.url, "http://a");
    assert_eq!(c.rate_limit_interval_ms, 250);
    assert_eq!(c.retry_policy, RetryPolicy { max_attempts: 4, initial_backoff_ms: 500, max_backoff_ms: 5000 });

    let env = RpcEnv {
        soroban_rpc_url: None,
        stellar_rpc_url: Some("http://b".to_string()),
        rate_limit_ms: Some("0".to_string()),
        retry: no_env(),
    };
    let c = RpcClientConfig::from_env(&env);
    assert_eq!(c.url, "http://b");
    assert_eq!(c.rate_limit_interval_ms, 0);

    let env = RpcEnv { soroban_rpc_url: None, stellar_rpc_url: None, rate_limit_ms: None, retry: no_env() };
    let c = RpcClientConfig::from_env(&env);
    assert_eq!(c.url, "https://soroban-testnet.stellar.org");
}

#[test]
fn rate_limit_spacing() {
    assert_eq!(rate_limit_delay(0, Some(5)), 0);
    assert_eq!(rate_limit_delay(250, None), 0);
    assert_eq!(rate_limit_delay(250, Some(100_000_000)), 150_000_000);
    assert_eq!(rate_limit_delay(250, Some(250_000_000)), 0);
    assert_eq!(rate_limit_delay(250, Some(900_000_000)), 0);
}

#[test]
fn retryable_http_statuses() {
    assert!(should_retry_http_status(429));
    assert!(should_retry_http_status(500));
    assert!(should_retry_http_status(503));
    assert!(should_retry_http_status(599));
    assert!(!should_retry_http_status(404));
    assert!(!should_retry_http_status(400));
    assert!(!should_retry_http_status(600));
    assert!(!should_retry_http_status(200));
}

#[test]
fn retryable_rpc_errors() {
    assert!(should_retry_rpc_error("{\"code\":-32000,\"message\":\"Rate Limit exceeded\"}"));
    assert!(should_retry_rpc_error("\"TOO MANY REQUESTS\""));
    assert!(should_retry_rpc_error("{\"message\":\"Temporarily unavailable\"}"));
    assert!(should_retry_rpc_error("{\"message\":\"request TimeOut\"}"));
    assert!(!should_retry_rpc_error("{\"code\":-32602,\"message\":\"invalid params\"}"));
    assert!(!should_retry_rpc_error("null"));
}

#[test]
fn parse_i64_reads_numbers_and_strings() {
    assert_eq!(parse_i64(&JsonValue::Number(JsonNumber::PosInt(12345))), Some(12345));
    assert_eq!(parse_i64(&JsonValue::Number(JsonNumber::NegInt(-7))), Some(-7));
    assert_eq!(parse_i64(&JsonValue::Number(JsonNumber::PosInt(u64::MAX))), None);
    assert_eq!(parse_i64(&JsonValue::Number(JsonNumber::Float("1.5".to_string()))), None);
    assert_eq!(parse_i64(&text("987")), Some(987));
    assert_eq!(parse_i64(&text("-9223372036854775808")), Some(i64::MIN));
    assert_eq!(parse_i64(&text("9223372036854775808")), None);
    assert_eq!(parse_i64(&text("+42")), Some(42));
    assert_eq!(parse_i64(&text("4 2")), None);
    assert_eq!(parse_i64(&text("")), None);
    assert_eq!(parse_i64(&text("-")), None);
    assert_eq!(parse_i64(&JsonValue::Null), None);
    assert_eq!(parse_i64(&JsonValue::Bool(true)), None);
}

#[test]
fn latest_ledger_from_result_reads_sequence() {
    let result = object(vec![("id", text("x")), ("sequence", JsonValue::Number(JsonNumber::PosInt(12345)))]);
    assert_eq!(latest_ledger_from_result(&result), Ok(12345));
    let result = object(vec![("sequence", text("54321"))]);
    assert_eq!(latest_ledger_from_result(&result), Ok(54321));
    let result = object(vec![("sequence", JsonValue::Null)]);
    assert_eq!(latest_ledger_from_result(&result), Err(RpcError::MissingSequence));
    let result = object(vec![]);
    assert_eq!(latest_ledger_from_result(&result), Err(RpcError::MissingSequence));
    assert_eq!(latest_ledger_from_result(&JsonValue::Null), Err(RpcError::MissingSequence));
}

#[test]
fn events_from_result_reads_page() {
    let result = object(vec![
        ("latestLedger", JsonValue::Number(JsonNumber::PosInt(1200))),
        ("events", JsonValue::Array(vec![text("a"), text("b")])),
    ]);
    let page = events_from_result(result, 1000);
    assert_eq!(page.latest_network_ledger, 1200);
    assert_eq!(page.events, vec![text("a"), text("b")]);
}

#[test]
fn events_from_result_falls_back() {
    let page = events_from_result(object(vec![("events", text("none"))]), 1000);
    assert_eq!(page.latest_network_ledger, 999);
    assert!(page.events.is_empty());
    let page = events_from_result(JsonValue::Null, i64::MIN);
    assert_eq!(page.latest_network_ledger, i64::MIN);
    assert!(page.events.is_empty());
}

#[test]
fn request_params() {
    assert_eq!(
        events_params(77),
        object(vec![
            ("startLedger", JsonValue::Number(JsonNumber::PosInt(77))),
            ("filters", JsonValue::Array(vec![])),
        ])
    );
    assert_eq!(
        events_params(-3),
        object(vec![
            ("startLedger", JsonValue::Number(JsonNumber::NegInt(-3))),
            ("filters", JsonValue::Array(vec![])),
        ])
    );
    assert_eq!(latest_ledger_params(), object(vec![]));
}
