use agenticos::payload::{
    extract_payload_type, extract_trace_message, summarize_payload, summarize_payload_checked,
};

#[test]
fn payload_type_is_first_key() {
    assert_eq!(extract_payload_type(r#"{"Observation":{"source":"Cpu"}}"#), "Observation");
    assert_eq!(extract_payload_type(r#"{"b":1,"a":2}"#), "a");
    assert_eq!(extract_payload_type("not json"), "Unknown");
    assert_eq!(extract_payload_type("[1,2]"), "Unknown");
    assert_eq!(extract_payload_type("{}"), "Unknown");
}

#[test]
fn summaries_of_each_variant() {
    let s = |json: &str, t: &str| summarize_payload(json, t);
    assert_eq!(s(r#"{"Observation":{"source":"Cpu","id":"o1"}}"#, "Observation"), "source=Cpu");
    assert_eq!(s(r#"{"Proposal":{"agent_id":"memory-agent"}}"#, "Proposal"), "agent=memory-agent");
    assert_eq!(
        s(r#"{"Decision":{"outcome":{"Denied":{"reason":"MissingCapability"}},"decided_by":"kernel"}}"#, "Decision"),
        "outcome=Denied by=kernel"
    );
    assert_eq!(
        s(r#"{"Decision":{"outcome":{"Approved":null}}}"#, "Decision"),
        "outcome=Approved by=?"
    );
    assert_eq!(s(r#"{"Decision":{"outcome":"Approved","decided_by":"k"}}"#, "Decision"), "outcome=? by=k");
    assert_eq!(s(r#"{"ActionResult":{"status":"Succeeded"}}"#, "ActionResult"), "status=Succeeded");
    assert_eq!(
        s(r#"{"Incident":{"category":"Security"}}"#, "Incident"),
        "category=Security severity=?"
    );
    assert_eq!(s(r#"{"Trace":{"message":"short"}}"#, "Trace"), "short");
    let long = "x".repeat(70);
    assert_eq!(
        s(&format!(r#"{{"Trace":{{"message":"{long}"}}}}"#), "Trace"),
        format!("{}...", "x".repeat(60))
    );
    assert_eq!(s(r#"{"Other":{"x":1}}"#, "Other"), "");
    assert_eq!(s(r#"{"Observation":{"source":3}}"#, "Observation"), "");
    assert_eq!(s(r#"{"Observation":{}}"#, "Proposal"), "");
    assert_eq!(s("garbage", "Observation"), "");
}

#[test]
fn checked_summary_refuses_to_split_a_character() {
    let message = format!("{}é", "a".repeat(59));
    let json = format!(r#"{{"Trace":{{"message":"{message}tail"}}}}"#);
    assert_eq!(summarize_payload_checked(&json, "Trace"), None);
    let fine = format!(r#"{{"Trace":{{"message":"{}"}}}}"#, "b".repeat(61));
    assert_eq!(
        summarize_payload_checked(&fine, "Trace"),
        Some(format!("{}...", "b".repeat(60)))
    );
    assert_eq!(
        summarize_payload_checked(r#"{"Proposal":{"agent_id":"a"}}"#, "Proposal"),
        Some("agent=a".to_string())
    );
}

#[test]
fn trace_message_extraction() {
    assert_eq!(extract_trace_message(r#"{"Trace":{"message":"tick 4 done"}}"#), "tick 4 done");
    assert_eq!(extract_trace_message(r#"{"Trace":{"level":"info"}}"#), "");
    assert_eq!(extract_trace_message(r#"{"Observation":{"message":"x"}}"#), "");
    assert_eq!(extract_trace_message("{"), "");
}
