use backend::indexer_metrics::IndexerMetrics;
use backend::json::JsonValue;
use backend::soroban_rpc::parse_i64;
use backend::text::parse_i64 as parse_i64_text;

fn text(s: &str) -> JsonValue {
    JsonValue::Str(s.to_string())
}

fn object(members: Vec<(&str, JsonValue)>) -> JsonValue {
    JsonValue::Object(members.into_iter().map(|(k, v)| (k.to_string(), v)).collect())
}

fn as_str(v: &JsonValue) -> Option<&str> {
    match v {
        JsonValue::Str(s) => Some(s.as_str()),
        _ => None,
    }
}

fn as_array(v: &JsonValue) -> Option<&Vec<JsonValue>> {
    match v {
        JsonValue::Array(a) => Some(a),
        _ => None,
    }
}

#[test]
fn test_dispute_event_parsing() {
    let event = object(vec![
        ("id", text("test-event-id-001")),
        ("ledger", JsonValue::Number(backend::json::JsonNumber::PosInt(1000))),
        ("contractId", text("CAAAAAAAAAAAAAAAAAAAAAAAAAAAAAAAAAAAAAAAAAAAAAAAAAAABSC4")),
        (
            "topic",
            JsonValue::Array(vec![
                text("disputeopened"),
                text("123"),
                text("GXXXXXXXXXXXXXXXXXXXXXXXXXXXXXXXXXXXXXXXXXXXXXXXXXXXXX"),
            ]),
        ),
    ]);

    let topics = event.get("topic").and_then(as_array);
    let first_topic = topics.and_then(|items| items.first()).and_then(as_str).unwrap_or("");
    assert_eq!(first_topic, "disputeopened");

    let job_id = parse_i64_text(topics.and_then(|items| items.get(1)).and_then(as_str).unwrap_or("0")).unwrap_or(0);
    assert_eq!(job_id, 123);

    let opened_by = topics.and_then(|items| items.get(2)).and_then(as_str).unwrap_or("").to_string();
    assert_eq!(opened_by, "GXXXXXXXXXXXXXXXXXXXXXXXXXXXXXXXXXXXXXXXXXXXXXXXXXXXXX");
}

#[test]
fn test_dispute_event_case_insensitive() {
    // Test that both "dispute" and "disputeopened" topics are recognized
    let topics_lower = vec!["dispute".to_string()];
    let topics_full = vec!["disputeopened".to_string()];

    for topic_str in &topics_lower {
        match topic_str.as_str() {
            "dispute" | "disputeopened" => {
                // Event should be processed
                assert!(true);
            }
            _ => panic!("Topic not recognized: {}", topic_str),
        }
    }

    for topic_str in &topics_full {
        match topic_str.as_str() {
            "dispute" | "disputeopened" => {
                // Event should be processed
                assert!(true);
            }
            _ => panic!("Topic not recognized: {}", topic_str),
        }
    }
}

#[test]
fn test_dispute_event_optional_fields() {
    let event_minimal = object(vec![
        ("id", text("test-event-minimal")),
        ("ledger", JsonValue::Number(backend::json::JsonNumber::PosInt(500))),
    ]);

    let event_id = event_minimal.get("id").and_then(as_str).unwrap_or_default();
    assert_eq!(event_id, "test-event-minimal");

    let ledger = event_minimal.get("ledger").and_then(parse_i64).unwrap_or(0);
    assert_eq!(ledger, 500);

    let contract_id = event_minimal.get("contractId").and_then(as_str).unwrap_or_default();
    assert_eq!(contract_id, "");
}

#[test]
fn json_get_finds_first_member() {
    let v = object(vec![("a", text("first")), ("a", text("second")), ("b", JsonValue::Null)]);
    assert_eq!(v.get("a"), Some(&text("first")));
    assert_eq!(v.get("b"), Some(&JsonValue::Null));
    assert_eq!(v.get("c"), None);
    assert_eq!(text("a").get("a"), None);
    assert_eq!(v.into_member("b"), Some(JsonValue::Null));
}

#[test]
fn metrics_start_at_zero_and_count_retries() {
    let mut m = IndexerMetrics::default();
    assert_eq!(m.total_rpc_retries, 0);
    assert_eq!(m.last_network_ledger, 0);
    m.record_rpc_retry();
    m.record_rpc_retry();
    assert_eq!(m.total_rpc_retries, 2);
    m.total_rpc_retries = u64::MAX;
    m.record_rpc_retry();
    assert_eq!(m.total_rpc_retries, 0);
    assert_eq!(m.total_errors, 0);
}
