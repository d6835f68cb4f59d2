use agenticos::inspect::{decision_latency_from, last_recommendation_from, skipped_total_from};
use agenticos::payload::{payload_type_from, trace_message_from, JsonValue};
use agenticos::inspect::{
    cgroup_state_lines, classification_debug_lines, classification_debug_report, intelligence_status_lines, IntelligenceStatus,
    decision_latency_number, decision_row, health_rows, incident_row, last_recommendation, metrics_rows,
    recommendation_row, skipped_total_text, status_row, veto_breakdown, veto_row, HealthCounts, MetricsCounts,
};
use agenticos::table::render_table;

fn strings(v: &[&str]) -> Vec<String> {
    v.iter().map(|s| s.to_string()).collect()
}

#[test]
fn tables_pad_columns_to_their_widest_cell() {
    let headers = strings(&["ID", "TYPE"]);
    let rows = vec![strings(&["agent-1", "Memory"]), strings(&["a", "Process"])];
    let lines = render_table(&headers, &rows);
    assert_eq!(
        lines,
        vec![
            "ID       TYPE   ".to_string(),
            "-------  -------".to_string(),
            "agent-1  Memory ".to_string(),
            "a        Process".to_string(),
        ]
    );
}

#[test]
fn tables_measure_widths_in_bytes_and_pad_in_characters() {
    let headers = strings(&["A", "B"]);
    let rows = vec![strings(&["é"]), strings(&["xy", "z"])];
    let lines = render_table(&headers, &rows);
    // "é" is two bytes wide but one character: it is padded by one space.
    assert_eq!(lines[0], "A   B");
    assert_eq!(lines[1], "--  -");
    assert_eq!(lines[2], "é ");
    assert_eq!(lines[3], "xy  z");
    assert_eq!(lines[2], format!("{:width$}", "é", width = "é".len()));
}

#[test]
fn incident_rows_need_an_id_and_the_other_members() {
    let json = r#"{"Incident":{"incident_id":"IncidentId-1","category":"Security","severity":7,"source_agent":"security-agent"}}"#;
    let row = incident_row(json, "t0".into()).unwrap();
    assert_eq!(row.incident_id, "IncidentId-1");
    assert_eq!(row.category, "Security");
    assert_eq!(row.severity, "unknown");
    assert_eq!(row.source_agent, "security-agent");
    assert_eq!(row.timestamp, "t0");
    assert!(incident_row(r#"{"Incident":{"category":"Security","severity":"Info","source_agent":"a"}}"#, "t".into()).is_none());
    assert!(incident_row(r#"{"Incident":{"incident_id":"i","severity":"Info","source_agent":"a"}}"#, "t".into()).is_none());
    assert!(incident_row("not json", "t".into()).is_none());
}

#[test]
fn decision_rows_show_outcomes() {
    let denied = r#"{"Decision":{"id":"d1","proposal_id":"p1","outcome":{"Denied":{"reason":"BudgetExceeded"}},"explanation":"too much"}}"#;
    let row = decision_row(denied).unwrap();
    assert_eq!(
        (row.decision_id.as_str(), row.proposal_id.as_str(), row.outcome.as_str(), row.explanation.as_str()),
        ("d1", "p1", "Denied(BudgetExceeded)", "too much")
    );
    // A unit variant is stored as a string, not an object: it shows as awaiting approval.
    let approved = r#"{"Decision":{"id":"d2","proposal_id":"p2","outcome":"Approved"}}"#;
    let row = decision_row(approved).unwrap();
    assert_eq!(row.outcome, "RequiresApproval");
    assert_eq!(row.explanation, "");
    let object = r#"{"Decision":{"outcome":{"Approved":null}}}"#;
    let row = decision_row(object).unwrap();
    assert_eq!((row.decision_id.as_str(), row.outcome.as_str()), ("?", "Approved"));
    assert!(decision_row(r#"{"Proposal":{}}"#).is_none());

    let veto = r#"{"Trace":{"message":"veto proposal=ProposalId-4 reason=Freeze explanation=x"}}"#;
    let row = veto_row(veto);
    assert_eq!(row.decision_id, "-");
    assert_eq!(row.proposal_id, "ProposalId-4");
    assert_eq!(row.outcome, "Vetoed");
    assert_eq!(row.explanation, "veto proposal=ProposalId-4 reason=Freeze explanation=x");
}

#[test]
fn health_report_checks() {
    let c = HealthCounts {
        security_proposals: 0,
        vetoes: 2,
        safety_metrics: 1,
        observations: 10,
        decisions: 3,
        proposals: 4,
        total_events: 30,
    };
    let rows = health_rows(c, |d, p| format!("{:.1}%", (d as f64 / p as f64) * 100.0));
    let got: Vec<(String, String, String)> = rows.into_iter().map(|r| (r.check, r.status, r.detail)).collect();
    assert_eq!(got[0], ("Security Agent proposals".into(), "PASS".into(), "Security Agent produced 0 proposals (must be 0)".into()));
    assert_eq!(got[1], ("Safety Governor active".into(), "PASS".into(), "Safety Governor active, 2 vetoes recorded".into()));
    assert_eq!(got[2], ("Observation→Decision pipeline".into(), "PASS".into(), "10 observations, 3 decisions".into()));
    assert_eq!(got[3], ("Trace store integrity".into(), "PASS".into(), "30 events stored".into()));
    assert_eq!(got[4], ("Decision coverage".into(), "WARN".into(), "4 proposals → 3 decisions (75.0%)".into()));

    let empty = HealthCounts { security_proposals: 1, vetoes: 0, safety_metrics: 0, observations: 0, decisions: 0, proposals: 0, total_events: 0 };
    let rows = health_rows(empty, |_, _| panic!("no coverage without proposals"));
    assert_eq!(rows[0].status, "FAIL");
    assert_eq!(rows[1].status, "WARN");
    assert_eq!(rows[1].detail, "Safety Governor metrics found, no vetoes yet");
    assert_eq!(rows[2].status, "WARN");
    assert_eq!(rows[4].status, "PASS");
    assert_eq!(rows[4].detail, "0 proposals → 0 decisions (N/A)");
}

#[test]
fn status_rows() {
    let r = status_row(12, Some("5.000000000Z".into()), 3, 2, 4, 1);
    assert_eq!(r.daemon, "active");
    assert_eq!(r.last_event_timestamp, "5.000000000Z");
    let r = status_row(0, None, 0, 0, 0, 0);
    assert_eq!(r.daemon, "unknown");
    assert_eq!(r.last_event_timestamp, "never");
}

#[test]
fn veto_breakdown_orders_reasons_and_keeps_the_last_count() {
    let rows = vec![
        ("vetoes.selective-veto".to_string(), 3u64),
        ("vetoes.freeze".to_string(), 1),
        ("VETOES.odd".to_string(), 2),
        ("vetoes.freeze".to_string(), 5),
    ];
    let b = veto_breakdown(&rows);
    assert_eq!(b, vec![("VETOES.odd".to_string(), 2), ("freeze".to_string(), 5), ("selective-veto".to_string(), 3)]);
}

#[test]
fn metrics_samples_and_rows() {
    let json = r#"{"source":"daemon.service","samples":[
        {"name":"decision_latency_ms","value":{"Histogram":[2.5]}},
        {"name":"classifications_skipped_total","value":{"Counter":7}}]}"#;
    assert_eq!(skipped_total_text(Some(json)), "7");
    assert_eq!(decision_latency_number(Some(json)).as_deref(), Some("2.5"));
    assert_eq!(skipped_total_text(None), "0");
    // The scan stops at a sample without a name.
    let broken = r#"{"samples":[{"value":1},{"name":"classifications_skipped_total","value":{"Counter":7}}]}"#;
    assert_eq!(skipped_total_text(Some(broken)), "0");
    let negative = r#"{"samples":[{"name":"classifications_skipped_total","value":{"Counter":-1}}]}"#;
    assert_eq!(skipped_total_text(Some(negative)), "0");
    let huge = r#"{"samples":[{"name":"classifications_skipped_total","value":{"Counter":18446744073709551615}}]}"#;
    assert_eq!(skipped_total_text(Some(huge)), "18446744073709551615");

    let c = MetricsCounts {
        proposals: 1,
        incidents: 2,
        vetoes: 3,
        approved: 4,
        denied: 5,
        results: 6,
        recommendations: 7,
        gemini_requests: 8,
        cache_hits: 9,
        cache_misses: 10,
    };
    let rows = metrics_rows(c, "2.5ms".into(), "7".into(), &[("freeze".to_string(), 5)]);
    let got: Vec<(String, String)> = rows.into_iter().map(|r| (r.metric, r.value)).collect();
    assert_eq!(got.len(), 13);
    assert_eq!(got[0], ("proposal_count".into(), "1".into()));
    assert_eq!(got[5], ("executor_count".into(), "6".into()));
    assert_eq!(got[6], ("decision_latency".into(), "2.5ms".into()));
    assert_eq!(got[11], ("classifications_skipped_total".into(), "7".into()));
    assert_eq!(got[12], ("veto_reason/freeze".into(), "5".into()));
}

#[test]
fn recommendation_rows() {
    let json = r#"{"Recommendation":{"id":"r","source_agent":"classifier","timestamp":"9.0Z","confidence":0.85,
        "summary":"Workload classified as database","reasoning":"","provider":{"provider_name":"gemini","model_name":"m","cache_hit":true}}}"#;
    let row = recommendation_row(json, "t".into()).unwrap();
    assert_eq!(row.classification, "database");
    assert_eq!(row.confidence, "0.85");
    assert_eq!(row.agent, "classifier");
    assert_eq!(row.provider_name, "gemini");
    assert!(row.cache_hit);
    let bare = r#"{"Recommendation":{"source_agent":"c","confidence":1,"summary":"other","provider":null}}"#;
    let row = recommendation_row(bare, "t".into()).unwrap();
    assert_eq!(row.classification, "?");
    assert_eq!(row.provider_name, "unknown");
    assert!(!row.cache_hit);
    assert!(recommendation_row(r#"{"Recommendation":{"source_agent":"c","confidence":"x","summary":"s"}}"#, "t".into()).is_none());
    assert_eq!(last_recommendation(json), Some(("gemini".to_string(), "9.0Z".to_string())));
    assert_eq!(last_recommendation(bare), None);
}

#[test]
fn intelligence_status_report() {
    let mut s = IntelligenceStatus {
        provider: "gemini".into(),
        model: "gemini-2.0-flash".into(),
        api_key_present: false,
        cache_entries: 4,
        recommendation_count: 9,
        gemini_requests_total: 3,
        cache_hits_total: 2,
        cache_misses_total: 7,
        classifications_skipped_total: "1".into(),
        last_recommendation: Some(("gemini".into(), "9.0Z".into())),
    };
    let lines = intelligence_status_lines(&s);
    assert_eq!(
        lines.join("\n"),
        "configured_provider            = gemini
selected_provider            = gemini
model                        = gemini-2.0-flash
api_key_present              = false
cache_entries                = 4
recommendation_count         = 9
gemini_requests_total        = 3
cache_hits_total             = 2
cache_misses_total           = 7
classifications_skipped_total = 1
last_provider_used           = gemini
last_recommendation_timestamp = 9.0Z"
    );
    s.last_recommendation = None;
    let lines = intelligence_status_lines(&s);
    assert_eq!(lines[10], "last_provider_used           = none");
    assert_eq!(lines[11], "last_recommendation_timestamp = none");
}

#[test]
fn classification_debug_shows_recorded_details() {
    let full = r#"{"Recommendation":{"timestamp":"3.0Z","summary":"Workload classified as web","confidence":0.91,
        "provider":{"cache_hit":true,"extra":{"prompt":"classify","raw_response":"{\"class\":\"web\"}",
        "parsed_classification":"web","observation_summary":"cpu=0.9","fallback_reason":"none needed"}}}}"#;
    let bare = r#"{"Recommendation":{"timestamp":"2.0Z"}}"#;
    let failed = r#"{"Recommendation":{"provider":{"extra":{"raw_response":"API call failed"}}}}"#;
    let payloads = vec![full.to_string(), "not json".to_string(), r#"{"Other":1}"#.to_string(), bare.to_string(), failed.to_string()];
    let (count, shown) = classification_debug_report(&payloads);
    assert_eq!(count, 4);
    let numbers: Vec<u64> = shown.iter().map(|d| d.number).collect();
    assert_eq!(numbers, vec![1, 3, 4]);

    let d = &shown[0];
    assert_eq!(d.confidence.as_deref(), Some("0.91"));
    let lines = classification_debug_lines(d, "0.91");
    assert_eq!(lines[0], "─".repeat(60));
    assert_eq!(lines[1], "#1 — 3.0Z  cache_hit=true");
    assert_eq!(lines[3], "Parsed Classification: web");
    assert_eq!(lines[4], "Confidence:            0.91");
    assert_eq!(lines[5], "Fallback Reason:       none needed");
    assert_eq!(lines[6], "Parse Error:           (none)");
    assert_eq!(lines[7], "Summary:               Workload classified as web");
    assert_eq!(lines[10], "cpu=0.9");
    assert_eq!(lines[13], "classify");
    assert_eq!(lines[15], "--- Raw Gemini Response (JSON) ---");
    assert_eq!(lines[16], "{\n  \"class\": \"web\"\n}");
    assert_eq!(lines[17], "");
    assert_eq!(lines.len(), 18);

    let lines = classification_debug_lines(&shown[1], "0.00");
    assert_eq!(lines[1], "#3 — 2.0Z  cache_hit=false");
    assert_eq!(lines[3], "Parsed Classification: (not recorded)");
    assert_eq!(lines[7], "Summary:               ?");
    assert_eq!(lines[15], "--- Raw Gemini Response ---");
    assert_eq!(lines[16], "(not recorded)");
    let lines = classification_debug_lines(&shown[2], "0.00");
    assert_eq!(lines[1], "#4 — ?  cache_hit=false");
    assert_eq!(lines[16], "API call failed");
}

#[test]
fn cgroup_state_report_lines() {
    let lines = cgroup_state_lines(
        "/sys/fs/cgroup/agenticos",
        Some("100\n"),
        Some("max 100000\n"),
        None,
        Some("12\n34\n"),
        Some("cpu memory pids\n"),
    );
    assert_eq!(
        lines,
        vec![
            "Cgroup:           /sys/fs/cgroup/agenticos",
            "cpu.weight:       100",
            "cpu.max:          max 100000",
            "memory.max:       N/A",
            "cgroup.procs:     2",
            "controllers:      cpu memory pids",
            "",
            "Processes in cgroup: 2 PIDs",
        ]
    );
    let lines = cgroup_state_lines("/x", None, None, None, Some(""), None);
    assert_eq!(lines[4], "cgroup.procs:     0");
    // An unreadable process list reads as "N/A": one line.
    let lines = cgroup_state_lines("/x", None, None, None, None, None);
    assert_eq!(lines[7], "Processes in cgroup: 1 PIDs");
}

#[test]
fn readers_take_the_parsed_document() {
    let trace = Some(JsonValue::Object(vec![(
        "Trace".to_string(),
        JsonValue::Object(vec![("message".to_string(), JsonValue::Str("vetoed p-1".to_string()))]),
    )]));
    assert_eq!(payload_type_from(&trace), "Trace");
    assert_eq!(trace_message_from(&trace), "vetoed p-1");
    assert_eq!(payload_type_from(&None), "Unknown");
    assert_eq!(skipped_total_from(&None), "0");
    assert_eq!(decision_latency_from(&None), None);
    assert_eq!(last_recommendation_from(&trace), None);
}
