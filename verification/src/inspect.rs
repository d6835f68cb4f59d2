//! The rows that the console's inspection commands show, computed from what the trace
//! store holds: stored payloads (JSON text), topics and counts. Querying the store and
//! printing happen outside the library.
use vstd::prelude::*;
use crate::console::proposal_id_in;
use crate::payload::{
    as_str, get, json_document, json_get, json_string, opt_get, parse_json, text_or, trace_message_of, JsonValue,
};
use crate::text::{all_digits, concat2, concat3, decimal, digits_value, starts_with_seq, with_decimal};

verus! {

/// A row of the incident listing.
#[derive(Debug)]
pub struct IncidentRow {
    pub incident_id: String,
    pub category: String,
    pub severity: String,
    pub source_agent: String,
    pub timestamp: String,
}

/// The text of `v` when it is present: its string, or `unknown` when it is no string.
/// `None` when `v` is absent.
pub open spec fn present_text(v: Option<JsonValue>) -> Option<Seq<char>> {
    match v {
        Some(x) => Some(text_or(json_string(Some(x)), "unknown"@)),
        None => None,
    }
}

/// The incident row of a stored payload with `timestamp`: the document must be an object
/// with an `Incident` object whose `incident_id` is a string and which has `category`,
/// `severity` and `source_agent` members (each shown as `unknown` when it is no string);
/// else there is no row.
pub open spec fn incident_row_of(doc: Option<JsonValue>, timestamp: Seq<char>) -> Option<(Seq<char>, Seq<char>, Seq<char>, Seq<char>, Seq<char>)> {
    let inc = opt_get(doc, "Incident"@);
    match (
        json_string(opt_get(inc, "incident_id"@)),
        present_text(opt_get(inc, "category"@)),
        present_text(opt_get(inc, "severity"@)),
        present_text(opt_get(inc, "source_agent"@)),
    ) {
        (Some(id), Some(c), Some(s), Some(a)) => Some((id@, c, s, a, timestamp)),
        _ => None,
    }
}

impl IncidentRow {
    pub open spec fn view_row(self) -> (Seq<char>, Seq<char>, Seq<char>, Seq<char>, Seq<char>) {
        (self.incident_id@, self.category@, self.severity@, self.source_agent@, self.timestamp@)
    }
}

/// The text of a present member (see `present_text`).
fn present(v: Option<&JsonValue>) -> (r: Option<String>)
    ensures
        match r {
            Some(s) => present_text(match v { Some(x) => Some(*x), None => None }) == Some(s@),
            None => present_text(match v { Some(x) => Some(*x), None => None }).is_none(),
        },
{
    match v {
        Some(x) => match as_str(Some(x)) {
            Some(s) => Some(s.clone()),
            None => Some("unknown".to_owned()),
        },
        None => None,
    }
}

/// The incident row of the stored payload `payload_json` (see `incident_row_of`).
pub fn incident_row(payload_json: &str, timestamp: String) -> (r: Option<IncidentRow>)
    ensures
        match r {
            Some(row) => incident_row_of(json_document(payload_json@), timestamp@) == Some(row.view_row()),
            None => incident_row_of(json_document(payload_json@), timestamp@).is_none(),
        },
{
    incident_row_from(&parse_json(payload_json), timestamp)
}

/// The incident row of a stored payload whose document is `doc` (see `incident_row_of`).
pub fn incident_row_from(doc: &Option<JsonValue>, timestamp: String) -> (r: Option<IncidentRow>)
    ensures
        match r {
            Some(row) => incident_row_of(*doc, timestamp@) == Some(row.view_row()),
            None => incident_row_of(*doc, timestamp@).is_none(),
        },
{
    let inc = match doc {
        Some(v) => get(v, "Incident"),
        None => None,
    };
    let inc = match inc {
        Some(i) => i,
        None => return None,
    };
    let id = match as_str(get(inc, "incident_id")) {
        Some(s) => s.clone(),
        None => return None,
    };
    let category = match present(get(inc, "category")) {
        Some(s) => s,
        None => return None,
    };
    let severity = match present(get(inc, "severity")) {
        Some(s) => s,
        None => return None,
    };
    let source_agent = match present(get(inc, "source_agent")) {
        Some(s) => s,
        None => return None,
    };
    Some(IncidentRow { incident_id: id, category, severity, source_agent, timestamp })
}

/// A row of the decision listing.
#[derive(Debug)]
pub struct DecisionRow {
    pub decision_id: String,
    pub proposal_id: String,
    pub outcome: String,
    pub explanation: String,
}

impl DecisionRow {
    pub open spec fn view_row(self) -> (Seq<char>, Seq<char>, Seq<char>, Seq<char>) {
        (self.decision_id@, self.proposal_id@, self.outcome@, self.explanation@)
    }
}

/// The outcome shown for a stored decision whose `outcome` member is `o`: `Approved` when
/// it is an object with an `Approved` member, `Denied(<reason>)` when it is one with a
/// `Denied` member (the reason its string `reason`, else `?`), else `RequiresApproval`.
pub open spec fn decision_outcome_text(o: Option<JsonValue>) -> Seq<char> {
    if opt_get(o, "Approved"@).is_some() {
        "Approved"@
    } else {
        match opt_get(o, "Denied"@) {
            Some(d) => "Denied("@ + text_or(json_string(json_get(d, "reason"@)), "?"@) + ")"@,
            None => "RequiresApproval"@,
        }
    }
}

/// The decision row of a stored payload: the document must be an object with a
/// `Decision` member; its `id` and `proposal_id` strings (else `?`), its outcome (see
/// `decision_outcome_text`) and its `explanation` string (else nothing).
pub open spec fn decision_row_of(doc: Option<JsonValue>) -> Option<(Seq<char>, Seq<char>, Seq<char>, Seq<char>)> {
    match opt_get(doc, "Decision"@) {
        Some(d) => Some((
            text_or(json_string(json_get(d, "id"@)), "?"@),
            text_or(json_string(json_get(d, "proposal_id"@)), "?"@),
            decision_outcome_text(json_get(d, "outcome"@)),
            text_or(json_string(json_get(d, "explanation"@)), Seq::empty()),
        )),
        None => None,
    }
}

fn string_or(v: Option<&JsonValue>, default: &str) -> (r: String)
    ensures
        r@ == text_or(json_string(match v { Some(x) => Some(*x), None => None }), default@),
{
    match as_str(v) {
        Some(s) => s.clone(),
        None => default.to_owned(),
    }
}

/// The decision row of the stored payload `payload_json` (see `decision_row_of`).
pub fn decision_row(payload_json: &str) -> (r: Option<DecisionRow>)
    ensures
        match r {
            Some(row) => decision_row_of(json_document(payload_json@)) == Some(row.view_row()),
            None => decision_row_of(json_document(payload_json@)).is_none(),
        },
{
    decision_row_from(&parse_json(payload_json))
}

/// The decision row of a stored payload whose document is `doc` (see `decision_row_of`).
pub fn decision_row_from(doc: &Option<JsonValue>) -> (r: Option<DecisionRow>)
    ensures
        match r {
            Some(row) => decision_row_of(*doc) == Some(row.view_row()),
            None => decision_row_of(*doc).is_none(),
        },
{
    let d = match doc {
        Some(v) => get(v, "Decision"),
        None => None,
    };
    let d = match d {
        Some(d) => d,
        None => return None,
    };
    let o = get(d, "outcome");
    let outcome = match o {
        Some(ov) => {
            if get(ov, "Approved").is_some() {
                "Approved".to_owned()
            } else {
                match get(ov, "Denied") {
                    Some(dn) => concat3("Denied(", string_or(get(dn, "reason"), "?").as_str(), ")"),
                    None => "RequiresApproval".to_owned(),
                }
            }
        },
        None => "RequiresApproval".to_owned(),
    };
    proof {
        reveal_strlit("");
    }
    Some(DecisionRow {
        decision_id: string_or(get(d, "id"), "?"),
        proposal_id: string_or(get(d, "proposal_id"), "?"),
        outcome,
        explanation: string_or(get(d, "explanation"), ""),
    })
}

/// The decision-listing row of a stored veto trace: no decision id (`-`), the proposal
/// named in the trace message (see `proposal_id_in`), outcome `Vetoed`, and the message.
pub fn veto_row(payload_json: &str) -> (r: DecisionRow)
    ensures
        r.decision_id@ == "-"@,
        r.proposal_id@ == proposal_id_in(trace_message_of(json_document(payload_json@))),
        r.outcome@ == "Vetoed"@,
        r.explanation@ == trace_message_of(json_document(payload_json@)),
{
    veto_row_from(&parse_json(payload_json))
}

/// The decision-listing row of a stored veto trace whose document is `doc` (see
/// `veto_row`).
pub fn veto_row_from(doc: &Option<JsonValue>) -> (r: DecisionRow)
    ensures
        r.decision_id@ == "-"@,
        r.proposal_id@ == proposal_id_in(trace_message_of(*doc)),
        r.outcome@ == "Vetoed"@,
        r.explanation@ == trace_message_of(*doc),
{
    let msg = crate::payload::trace_message_from(doc);
    DecisionRow {
        decision_id: "-".to_owned(),
        proposal_id: crate::console::extract_proposal_id_from_msg(msg.as_str()),
        outcome: "Vetoed".to_owned(),
        explanation: msg,
    }
}

/// A row of the health report.
#[derive(Debug)]
pub struct HealthRow {
    pub check: String,
    pub status: String,
    pub detail: String,
}

impl HealthRow {
    pub open spec fn view_row(self) -> (Seq<char>, Seq<char>, Seq<char>) {
        (self.check@, self.status@, self.detail@)
    }
}

/// The counts of the trace store that the health report checks.
#[derive(Clone, Copy, Debug, PartialEq, Eq, Structural)]
pub struct HealthCounts {
    /// Proposals on `proposals.security-agent`.
    pub security_proposals: u64,
    /// Traces on `vetoes.*`.
    pub vetoes: u64,
    /// Daemon metrics traces that carry safety counts.
    pub safety_metrics: u64,
    pub observations: u64,
    pub decisions: u64,
    pub proposals: u64,
    pub total_events: u64,
}

/// `PASS` when `ok`, else `otherwise`.
pub open spec fn verdict(ok: bool, otherwise: Seq<char>) -> Seq<char> {
    if ok { "PASS"@ } else { otherwise }
}

/// The health report of `c`, with `coverage` the decision coverage shown when there are
/// proposals: the Security Agent never proposes; the safety governor reports metrics; the
/// pipeline has observations and decisions; the store holds events; every proposal has
/// a decision.
pub open spec fn health_report(c: HealthCounts, coverage: Seq<char>) -> Seq<(Seq<char>, Seq<char>, Seq<char>)> {
    seq![
        (
            "Security Agent proposals"@,
            verdict(c.security_proposals == 0, "FAIL"@),
            "Security Agent produced "@ + decimal(c.security_proposals as nat) + " proposals (must be 0)"@,
        ),
        (
            "Safety Governor active"@,
            verdict(c.safety_metrics > 0, "WARN"@),
            if c.vetoes > 0 {
                "Safety Governor active, "@ + decimal(c.vetoes as nat) + " vetoes recorded"@
            } else {
                "Safety Governor metrics found, no vetoes yet"@
            },
        ),
        (
            "Observation→Decision pipeline"@,
            verdict(c.observations > 0 && c.decisions > 0, "WARN"@),
            decimal(c.observations as nat) + " observations, "@ + decimal(c.decisions as nat) + " decisions"@,
        ),
        ("Trace store integrity"@, "PASS"@, decimal(c.total_events as nat) + " events stored"@),
        (
            "Decision coverage"@,
            verdict(c.proposals == 0 || c.decisions >= c.proposals, "WARN"@),
            decimal(c.proposals as nat) + " proposals → "@ + decimal(c.decisions as nat) + " decisions ("@
                + (if c.proposals > 0 { coverage } else { "N/A"@ }) + ")"@,
        ),
    ]
}

fn health_row(check: &str, ok: bool, otherwise: &str, detail: String) -> (r: HealthRow)
    ensures
        r.view_row() == (check@, verdict(ok, otherwise@), detail@),
{
    HealthRow { check: check.to_owned(), status: (if ok { "PASS" } else { otherwise }).to_owned(), detail }
}

/// The health report of `c` (see `health_report`); `coverage_text` renders the decisions
/// per proposal, in percent, when there are proposals.
pub fn health_rows<F: Fn(u64, u64) -> String>(c: HealthCounts, coverage_text: F) -> (rows: Vec<HealthRow>)
    requires
        c.proposals > 0 ==> call_requires(coverage_text, (c.decisions, c.proposals)),
    ensures
        rows@.len() == 5,
        exists|cov: Seq<char>| #![trigger health_report(c, cov)] {
            &&& (c.proposals > 0 ==> exists|s: String| s@ == cov && call_ensures(coverage_text, (c.decisions, c.proposals), s))
            &&& forall|k: int| 0 <= k < 5 ==> (#[trigger] rows@[k]).view_row() == health_report(c, cov)[k]
        },
{
    let mut rows: Vec<HealthRow> = Vec::new();
    let mut d = with_decimal("Security Agent produced ", c.security_proposals);
    d.append(" proposals (must be 0)");
    rows.push(health_row("Security Agent proposals", c.security_proposals == 0, "FAIL", d));
    let d = if c.vetoes > 0 {
        let mut d = with_decimal("Safety Governor active, ", c.vetoes);
        d.append(" vetoes recorded");
        d
    } else {
        "Safety Governor metrics found, no vetoes yet".to_owned()
    };
    rows.push(health_row("Safety Governor active", c.safety_metrics > 0, "WARN", d));
    let mut d = with_decimal("", c.observations);
    d.append(" observations, ");
    crate::text::push_decimal(&mut d, c.decisions);
    d.append(" decisions");
    rows.push(health_row("Observation→Decision pipeline", c.observations > 0 && c.decisions > 0, "WARN", d));
    let mut d = with_decimal("", c.total_events);
    d.append(" events stored");
    rows.push(health_row("Trace store integrity", true, "PASS", d));
    let cov = if c.proposals > 0 { coverage_text(c.decisions, c.proposals) } else { "N/A".to_owned() };
    let mut d = with_decimal("", c.proposals);
    d.append(" proposals → ");
    crate::text::push_decimal(&mut d, c.decisions);
    d.append(" decisions (");
    d.append(cov.as_str());
    d.append(")");
    rows.push(health_row("Decision coverage", c.proposals == 0 || c.decisions >= c.proposals, "WARN", d));
    proof {
        reveal_strlit("");
        assert(forall|k: int| 0 <= k < 5 ==> (#[trigger] rows@[k]).view_row() == health_report(c, cov@)[k]);
        assert(c.proposals > 0 ==> call_ensures(coverage_text, (c.decisions, c.proposals), cov));
        let w = cov@;
        assert(forall|k: int| 0 <= k < 5 ==> (#[trigger] rows@[k]).view_row() == health_report(c, w)[k]);
    }
    rows
}

/// The status row of the console: whether the daemon is `active` (the store holds events)
/// or `unknown`, and the time of the last event (`never` when there is none).
#[derive(Debug)]
pub struct StatusRow {
    pub daemon: String,
    pub tick_count: u64,
    pub active_agents: u64,
    pub total_events: u64,
    pub last_event_timestamp: String,
    pub recent_proposals: u64,
    pub recent_incidents: u64,
}

/// The status row for the given counts and the last event's time, if any.
pub fn status_row(
    total_events: u64,
    last_event: Option<String>,
    tick_count: u64,
    active_agents: u64,
    recent_proposals: u64,
    recent_incidents: u64,
) -> (r: StatusRow)
    ensures
        r.daemon@ == (if total_events > 0 { "active"@ } else { "unknown"@ }),
        r.last_event_timestamp@ == match last_event {
            Some(t) => t@,
            None => "never"@,
        },
        r.total_events == total_events,
        r.tick_count == tick_count,
        r.active_agents == active_agents,
        r.recent_proposals == recent_proposals,
        r.recent_incidents == recent_incidents,
{
    StatusRow {
        daemon: (if total_events > 0 { "active" } else { "unknown" }).to_owned(),
        tick_count,
        active_agents,
        total_events,
        last_event_timestamp: match last_event {
            Some(t) => t,
            None => "never".to_owned(),
        },
        recent_proposals,
        recent_incidents,
    }
}

/// `a` comes before `b` in the order of their characters (byte order of their UTF-8
/// encodings), a proper prefix first.
pub open spec fn text_lt(a: Seq<char>, b: Seq<char>) -> bool
    decreases a.len(),
{
    if b.len() == 0 {
        false
    } else if a.len() == 0 {
        true
    } else if a[0] != b[0] {
        (a[0] as int) < (b[0] as int)
    } else {
        text_lt(a.skip(1), b.skip(1))
    }
}

/// Of two different texts, one comes before the other, and never both ways.
pub proof fn lemma_text_order_total(a: Seq<char>, b: Seq<char>)
    ensures
        !(text_lt(a, b) && text_lt(b, a)),
        !text_lt(a, a),
        a != b ==> text_lt(a, b) || text_lt(b, a),
    decreases a.len(),
{
    if a.len() == 0 || b.len() == 0 {
        if a.len() == 0 && b.len() == 0 {
            assert(a =~= b);
        }
        if a.len() > 0 {
            lemma_text_order_total(a.skip(1), a.skip(1));
        }
    } else if a[0] != b[0] {
        lemma_text_order_total(a.skip(1), a.skip(1));
    } else {
        lemma_text_order_total(a.skip(1), b.skip(1));
        lemma_text_order_total(a.skip(1), a.skip(1));
        if a != b {
            assert(a.skip(1) != b.skip(1)) by {
                if a.skip(1) == b.skip(1) {
                    assert(a =~= seq![a[0]] + a.skip(1));
                    assert(b =~= seq![b[0]] + b.skip(1));
                }
            }
        }
    }
}

/// The order of texts is transitive.
pub proof fn lemma_text_order_transitive(a: Seq<char>, b: Seq<char>, c: Seq<char>)
    requires
        text_lt(a, b),
        text_lt(b, c),
    ensures
        text_lt(a, c),
    decreases a.len(),
{
    if a.len() > 0 && a[0] == b[0] && b[0] == c[0] {
        lemma_text_order_transitive(a.skip(1), b.skip(1), c.skip(1));
    }
}

/// `a` comes before `b` (see `text_lt`).
fn text_before(a: &str, b: &str) -> (r: bool)
    ensures
        r == text_lt(a@, b@),
{
    let x = crate::text::chars_of(a);
    let y = crate::text::chars_of(b);
    let mut i: usize = 0;
    assert(a@.skip(0) =~= a@ && b@.skip(0) =~= b@);
    while i < x.len() && i < y.len() && x[i] == y[i]
        invariant
            x@ == a@,
            y@ == b@,
            i <= x@.len(),
            i <= y@.len(),
            text_lt(a@, b@) == text_lt(a@.skip(i as int), b@.skip(i as int)),
        decreases x.len() - i,
    {
        proof {
            assert(a@.skip(i as int).skip(1) =~= a@.skip(i + 1));
            assert(b@.skip(i as int).skip(1) =~= b@.skip(i + 1));
        }
        i = i + 1;
    }
    if i == y.len() {
        false
    } else if i == x.len() {
        true
    } else {
        x[i] < y[i]
    }
}

/// The veto reason of a topic: what follows `vetoes.`, or the whole topic when it does
/// not start so.
pub open spec fn veto_reason_of(topic: Seq<char>) -> Seq<char> {
    if crate::text::starts_with_seq(topic, "vetoes."@) { topic.skip(7) } else { topic }
}

/// The count of each veto reason among `(topic, count)` rows, a later row of the same
/// reason replacing an earlier one.
pub open spec fn reason_counts(rows: Seq<(String, u64)>) -> Map<Seq<char>, u64>
    decreases rows.len(),
{
    if rows.len() == 0 {
        Map::empty()
    } else {
        reason_counts(rows.drop_last()).insert(veto_reason_of(rows.last().0@), rows.last().1)
    }
}

/// `entries` lists the reasons and counts of `m` in the order of the reasons, each once.
pub open spec fn lists_in_order(entries: Seq<(String, u64)>, m: Map<Seq<char>, u64>) -> bool {
    &&& forall|i: int, j: int| 0 <= i < j < entries.len() ==> text_lt(#[trigger] entries[i].0@, #[trigger] entries[j].0@)
    &&& forall|i: int| 0 <= i < entries.len() ==> #[trigger] m.contains_key(entries[i].0@) && m[entries[i].0@] == entries[i].1
    &&& forall|k: Seq<char>| #[trigger] m.contains_key(k) ==> exists|i: int| 0 <= i < entries.len() && entries[i].0@ == k
}

/// The veto reason of `topic` (see `veto_reason_of`).
fn veto_reason(topic: &str) -> (r: String)
    ensures
        r@ == veto_reason_of(topic@),
{
    if crate::text::str_starts_with(topic, "vetoes.") {
        proof {
            reveal_strlit("vetoes.");
        }
        let n = topic.unicode_len();
        proof {
            assert(topic@.skip(7) =~= topic@.subrange(7, n as int));
        }
        topic.substring_char(7, n).to_owned()
    } else {
        topic.to_owned()
    }
}

/// The veto counts by reason, in the order of the reasons, from `(topic, count)` rows of
/// `vetoes.*` topics (see `reason_counts`).
pub fn veto_breakdown(rows: &[(String, u64)]) -> (entries: Vec<(String, u64)>)
    ensures
        lists_in_order(entries@, reason_counts(rows@)),
{
    let mut out: Vec<(String, u64)> = Vec::new();
    let mut j: usize = 0;
    while j < rows.len()
        invariant
            j <= rows@.len(),
            lists_in_order(out@, reason_counts(rows@.take(j as int))),
        decreases rows.len() - j,
    {
        let reason = veto_reason(rows[j].0.as_str());
        let count = rows[j].1;
        let ghost m0 = reason_counts(rows@.take(j as int));
        proof {
            assert(rows@.take(j + 1).drop_last() =~= rows@.take(j as int));
        }
        let mut p: usize = 0;
        while p < out.len() && text_before(out[p].0.as_str(), reason.as_str())
            invariant
                p <= out@.len(),
                forall|i: int| 0 <= i < p ==> text_lt(#[trigger] out@[i].0@, reason@),
            decreases out.len() - p,
        {
            p = p + 1;
        }
        let ghost before = out@;
        let ghost rv = reason@;
        proof {
            assert(reason_counts(rows@.take(j + 1)) == m0.insert(rv, count));
        }
        if p < out.len() && crate::text::str_eq(out[p].0.as_str(), reason.as_str()) {
            out.set(p, (reason, count));
            proof {
                let m1 = m0.insert(before[p as int].0@, count);
                assert forall|a: int, b: int| 0 <= a < b < out@.len() implies text_lt(#[trigger] out@[a].0@, #[trigger] out@[b].0@) by {
                    assert(out@[a].0@ == before[a].0@);
                    assert(out@[b].0@ == before[b].0@);
                }
                assert forall|i: int| 0 <= i < out@.len() implies #[trigger] m1.contains_key(out@[i].0@) && m1[out@[i].0@] == out@[i].1 by {
                    if i != p as int {
                        assert(out@[i] == before[i]);
                        if i < p {
                            assert(text_lt(before[i].0@, before[p as int].0@));
                        } else {
                            assert(text_lt(before[p as int].0@, before[i].0@));
                        }
                        lemma_text_order_total(before[i].0@, before[p as int].0@);
                        assert(before[i].0@ != before[p as int].0@);
                    }
                }
                assert forall|k: Seq<char>| #[trigger] m1.contains_key(k) implies exists|i: int| 0 <= i < out@.len() && out@[i].0@ == k by {
                    if k != before[p as int].0@ {
                        let i = choose|i: int| 0 <= i < before.len() && before[i].0@ == k;
                        assert(out@[i].0@ == k);
                    } else {
                        assert(out@[p as int].0@ == k);
                    }
                }
            }
        } else {
            proof {
                if p < before.len() {
                    lemma_text_order_total(before[p as int].0@, reason@);
                }
                assert(!m0.contains_key(reason@)) by {
                    if m0.contains_key(reason@) {
                        let i = choose|i: int| 0 <= i < before.len() && before[i].0@ == reason@;
                        lemma_text_order_total(reason@, reason@);
                        if i >= p {
                            if i > p {
                                lemma_text_order_transitive(reason@, before[p as int].0@, before[i].0@);
                            }
                        }
                    }
                }
            }
            out.insert(p, (reason, count));
            proof {
                let m1 = m0.insert(reason@, count);
                assert forall|a: int, b: int| 0 <= a < b < out@.len() implies text_lt(#[trigger] out@[a].0@, #[trigger] out@[b].0@) by {
                    if b == p as int {
                    } else if a == p as int {
                        if b > p + 1 {
                            lemma_text_order_transitive(reason@, before[p as int].0@, before[b - 1].0@);
                        }
                    } else if a < p && b > p {
                        assert(text_lt(before[a].0@, reason@));
                        if b > p + 1 {
                            lemma_text_order_transitive(reason@, before[p as int].0@, before[b - 1].0@);
                        }
                        assert(text_lt(reason@, out@[b].0@));
                        lemma_text_order_transitive(before[a].0@, reason@, out@[b].0@);
                    }
                }
                assert forall|i: int| 0 <= i < out@.len() implies #[trigger] m1.contains_key(out@[i].0@) && m1[out@[i].0@] == out@[i].1 by {
                    if i != p as int {
                        let bi = if i < p { i } else { i - 1 };
                        assert(out@[i] == before[bi]);
                        assert(m0.contains_key(before[bi].0@));
                        assert(before[bi].0@ != reason@);
                    } else {
                        assert(out@[i].0@ == reason@);
                        assert(out@[i].1 == count);
                    }
                }
                assert forall|k: Seq<char>| #[trigger] m1.contains_key(k) implies exists|i: int| 0 <= i < out@.len() && out@[i].0@ == k by {
                    if k == reason@ {
                        assert(out@[p as int].0@ == k);
                    } else {
                        let i = choose|i: int| 0 <= i < before.len() && before[i].0@ == k;
                        if i < p {
                            assert(out@[i].0@ == k);
                        } else {
                            assert(out@[i + 1].0@ == k);
                        }
                    }
                }
            }
        }
        j = j + 1;
    }
    proof {
        assert(rows@.take(rows@.len() as int) =~= rows@);
    }
    out
}

/// The member `variant` of the value of the first sample named `name` among the `samples`
/// of a stored daemon metrics collection. The scan gives up (`None`) at a sample without
/// a string `name` before it finds one.
pub open spec fn sample_scan(samples: Seq<JsonValue>, name: Seq<char>, variant: Seq<char>) -> Option<JsonValue>
    decreases samples.len(),
{
    if samples.len() == 0 {
        None
    } else {
        match json_string(json_get(samples[0], "name"@)) {
            None => None,
            Some(n) => if n@ == name {
                opt_get(json_get(samples[0], "value"@), variant)
            } else {
                sample_scan(samples.skip(1), name, variant)
            },
        }
    }
}

/// The member `variant` of the value of sample `name` in the metrics document `doc` (see
/// `sample_scan`); `None` when the document has no `samples` array.
pub open spec fn sample_member(doc: Option<JsonValue>, name: Seq<char>, variant: Seq<char>) -> Option<JsonValue> {
    match opt_get(doc, "samples"@) {
        Some(JsonValue::Array(a)) => sample_scan(a@, name, variant),
        _ => None,
    }
}

/// The unsigned integer that `v` holds: a number printed with decimal digits only (how
/// serde_json prints an unsigned integer; it prints every other number with a sign, a
/// point or an exponent).
pub open spec fn json_u64(v: Option<JsonValue>) -> Option<u64> {
    match v {
        Some(JsonValue::Number(t)) => if t@.len() > 0 && all_digits(t@) && digits_value(t@) <= u64::MAX {
            Some(digits_value(t@) as u64)
        } else {
            None
        },
        _ => None,
    }
}

/// The number text of the first element of `v`, when it is an array whose first element
/// is a number.
pub open spec fn first_number(v: Option<JsonValue>) -> Option<Seq<char>> {
    match v {
        Some(JsonValue::Array(a)) => if a@.len() > 0 {
            match a@[0] {
                JsonValue::Number(t) => Some(t@),
                _ => None,
            }
        } else {
            None
        },
        _ => None,
    }
}

fn scan_samples<'a>(samples: &'a Vec<JsonValue>, name: &str, variant: &str) -> (r: Option<&'a JsonValue>)
    ensures
        match r {
            Some(x) => sample_scan(samples@, name@, variant@) == Some(*x),
            None => sample_scan(samples@, name@, variant@).is_none(),
        },
{
    let mut i: usize = 0;
    assert(samples@.skip(0) =~= samples@);
    while i < samples.len()
        invariant
            i <= samples@.len(),
            sample_scan(samples@, name@, variant@) == sample_scan(samples@.skip(i as int), name@, variant@),
        decreases samples.len() - i,
    {
        proof {
            assert(samples@.skip(i as int)[0] == samples@[i as int]);
            assert(samples@.skip(i as int).skip(1) =~= samples@.skip(i + 1));
        }
        let s = &samples[i];
        match as_str(get(s, "name")) {
            None => return None,
            Some(n) => {
                if crate::text::str_eq(n.as_str(), name) {
                    return match get(s, "value") {
                        Some(v) => get(v, variant),
                        None => None,
                    };
                }
            },
        }
        i = i + 1;
    }
    None
}

fn find_sample<'a>(doc: &'a Option<JsonValue>, name: &str, variant: &str) -> (r: Option<&'a JsonValue>)
    ensures
        match r {
            Some(x) => sample_member(*doc, name@, variant@) == Some(*x),
            None => sample_member(*doc, name@, variant@).is_none(),
        },
{
    match doc {
        Some(v) => match get(v, "samples") {
            Some(JsonValue::Array(a)) => scan_samples(a, name, variant),
            _ => None,
        },
        None => None,
    }
}

/// The unsigned integer that `v` holds (see `json_u64`).
fn as_u64(v: Option<&JsonValue>) -> (r: Option<u64>)
    ensures
        r == json_u64(match v { Some(x) => Some(*x), None => None }),
{
    match v {
        Some(JsonValue::Number(t)) => {
            let cs = crate::text::chars_of(t.as_str());
            if cs.len() == 0 {
                return None;
            }
            let mut value: u64 = 0;
            let mut i: usize = 0;
            let ghost expected = json_u64(match v { Some(x) => Some(*x), None => None });
            assert(t@.subrange(0, 0) =~= Seq::<char>::empty());
            while i < cs.len()
                invariant
                    expected == json_u64(match v { Some(x) => Some(*x), None => None }),
                    expected == (if t@.len() > 0 && all_digits(t@) && digits_value(t@) <= u64::MAX {
                        Some(digits_value(t@) as u64)
                    } else {
                        None
                    }),
                    cs@ == t@,
                    i <= cs@.len(),
                    all_digits(t@.subrange(0, i as int)),
                    value == digits_value(t@.subrange(0, i as int)),
                decreases cs.len() - i,
            {
                let c = cs[i];
                let ghost pre = t@.subrange(0, i as int);
                let ghost next = t@.subrange(0, i + 1);
                proof {
                    assert(next.drop_last() =~= pre);
                    assert(next.last() == c);
                    crate::text::lemma_digits_value_nonnegative(pre);
                }
                if c < '0' || c > '9' {
                    proof {
                        assert(t@[i as int] == c);
                        assert(!all_digits(t@));
                    }
                    return None;
                }
                let digit = (c as u32 - '0' as u32) as u64;
                proof {
                    assert forall|k: int| 0 <= k < next.len() implies '0' <= #[trigger] next[k] <= '9' by {
                        if k < i {
                            assert(next[k] == pre[k]);
                        }
                    }
                }
                if value > (u64::MAX - digit) / 10 {
                    proof {
                        assert(digits_value(next) == value * 10 + digit);
                        assert(value * 10 + digit > u64::MAX) by (nonlinear_arith)
                            requires
                                value > (u64::MAX - digit) / 10,
                                digit <= 9;
                        crate::text::lemma_digits_prefix_grows(t@, i as int + 1);
                    }
                    return None;
                }
                value = value * 10 + digit;
                i = i + 1;
            }
            assert(t@.subrange(0, i as int) =~= t@);
            Some(value)
        },
        _ => None,
    }
}

/// The classifier's count of skipped classifications in the latest stored daemon
/// metrics, `metrics_json` (the `Counter` of sample `classifications_skipped_total`), in
/// decimal; `0` when there is none.
pub fn skipped_total_text(metrics_json: Option<&str>) -> (t: String)
    ensures
        t@ == match metrics_json {
            Some(j) => match json_u64(sample_member(json_document(j@), "classifications_skipped_total"@, "Counter"@)) {
                Some(v) => decimal(v as nat),
                None => "0"@,
            },
            None => "0"@,
        },
{
    match metrics_json {
        Some(j) => skipped_total_from(&parse_json(j)),
        None => "0".to_owned(),
    }
}

/// The classifier's count of skipped classifications in stored daemon metrics whose
/// document is `doc`, in decimal; `0` when there is none (see `skipped_total_text`).
pub fn skipped_total_from(doc: &Option<JsonValue>) -> (t: String)
    ensures
        t@ == match json_u64(sample_member(*doc, "classifications_skipped_total"@, "Counter"@)) {
            Some(v) => decimal(v as nat),
            None => "0"@,
        },
{
    proof {
        reveal_strlit("");
    }
    match as_u64(find_sample(doc, "classifications_skipped_total", "Counter")) {
        Some(v) => with_decimal("", v),
        None => "0".to_owned(),
    }
}

/// The number text of the decision latency in the latest stored daemon metrics,
/// `metrics_json`: the first entry of the `Histogram` of sample `decision_latency_ms`.
pub fn decision_latency_number(metrics_json: Option<&str>) -> (t: Option<String>)
    ensures
        match t {
            Some(x) => metrics_json matches Some(j)
                && first_number(sample_member(json_document(j@), "decision_latency_ms"@, "Histogram"@)) == Some(x@),
            None => metrics_json matches Some(j)
                ==> first_number(sample_member(json_document(j@), "decision_latency_ms"@, "Histogram"@)).is_none(),
        },
{
    match metrics_json {
        Some(j) => decision_latency_from(&parse_json(j)),
        None => None,
    }
}

/// The number text of the decision latency in stored daemon metrics whose document is
/// `doc` (see `decision_latency_number`).
pub fn decision_latency_from(doc: &Option<JsonValue>) -> (t: Option<String>)
    ensures
        match t {
            Some(x) => first_number(sample_member(*doc, "decision_latency_ms"@, "Histogram"@)) == Some(x@),
            None => first_number(sample_member(*doc, "decision_latency_ms"@, "Histogram"@)).is_none(),
        },
{
    match find_sample(doc, "decision_latency_ms", "Histogram") {
        Some(JsonValue::Array(a)) => if a.len() > 0 {
            match &a[0] {
                JsonValue::Number(t) => Some(t.clone()),
                _ => None,
            }
        } else {
            None
        },
        _ => None,
    }
}

/// A row of the metrics report.
#[derive(Debug)]
pub struct MetricsRow {
    pub metric: String,
    pub value: String,
}

/// The counts of the trace store that the metrics report shows.
#[derive(Clone, Copy, Debug, PartialEq, Eq, Structural)]
pub struct MetricsCounts {
    pub proposals: u64,
    pub incidents: u64,
    pub vetoes: u64,
    pub approved: u64,
    pub denied: u64,
    /// Traces on `results.*`: the executions.
    pub results: u64,
    pub recommendations: u64,
    pub gemini_requests: u64,
    pub cache_hits: u64,
    pub cache_misses: u64,
}

/// The metrics report: the counts of `c` in a fixed order, with the decision `latency` and
/// the skipped-classification total as texts, then a `veto_reason/<reason>` row for each
/// entry of `breakdown`.
pub open spec fn metrics_report(
    c: MetricsCounts,
    latency: Seq<char>,
    skipped: Seq<char>,
    breakdown: Seq<(String, u64)>,
) -> Seq<(Seq<char>, Seq<char>)> {
    seq![
        ("proposal_count"@, decimal(c.proposals as nat)),
        ("incident_count"@, decimal(c.incidents as nat)),
        ("veto_count"@, decimal(c.vetoes as nat)),
        ("approved_count"@, decimal(c.approved as nat)),
        ("denied_count"@, decimal(c.denied as nat)),
        ("executor_count"@, decimal(c.results as nat)),
        ("decision_latency"@, latency),
        ("recommendation_count"@, decimal(c.recommendations as nat)),
        ("gemini_requests_total"@, decimal(c.gemini_requests as nat)),
        ("cache_hits_total"@, decimal(c.cache_hits as nat)),
        ("cache_misses_total"@, decimal(c.cache_misses as nat)),
        ("classifications_skipped_total"@, skipped),
    ] + breakdown.map_values(|e: (String, u64)| ("veto_reason/"@ + e.0@, decimal(e.1 as nat)))
}

impl MetricsRow {
    pub open spec fn view_row(self) -> (Seq<char>, Seq<char>) {
        (self.metric@, self.value@)
    }
}

fn count_row(metric: &str, n: u64) -> (r: MetricsRow)
    ensures
        r.view_row() == (metric@, decimal(n as nat)),
{
    proof {
        reveal_strlit("");
    }
    MetricsRow { metric: metric.to_owned(), value: with_decimal("", n) }
}

/// The rows of the metrics report (see `metrics_report`).
pub fn metrics_rows(c: MetricsCounts, latency: String, skipped: String, breakdown: &[(String, u64)]) -> (rows: Vec<MetricsRow>)
    ensures
        rows@.len() == 12 + breakdown@.len(),
        forall|k: int| 0 <= k < rows@.len() ==> (#[trigger] rows@[k]).view_row()
            == metrics_report(c, latency@, skipped@, breakdown@)[k],
{
    let mut rows: Vec<MetricsRow> = Vec::new();
    rows.push(count_row("proposal_count", c.proposals));
    rows.push(count_row("incident_count", c.incidents));
    rows.push(count_row("veto_count", c.vetoes));
    rows.push(count_row("approved_count", c.approved));
    rows.push(count_row("denied_count", c.denied));
    rows.push(count_row("executor_count", c.results));
    rows.push(MetricsRow { metric: "decision_latency".to_owned(), value: latency });
    rows.push(count_row("recommendation_count", c.recommendations));
    rows.push(count_row("gemini_requests_total", c.gemini_requests));
    rows.push(count_row("cache_hits_total", c.cache_hits));
    rows.push(count_row("cache_misses_total", c.cache_misses));
    rows.push(MetricsRow { metric: "classifications_skipped_total".to_owned(), value: skipped });
    let ghost report = metrics_report(c, latency@, skipped@, breakdown@);
    assert(forall|k: int| 0 <= k < 12 ==> (#[trigger] rows@[k]).view_row() == report[k]);
    let mut j: usize = 0;
    while j < breakdown.len()
        invariant
            report == metrics_report(c, latency@, skipped@, breakdown@),
            j <= breakdown@.len(),
            rows@.len() == 12 + j,
            forall|k: int| 0 <= k < 12 + j ==> (#[trigger] rows@[k]).view_row() == report[k],
        decreases breakdown.len() - j,
    {
        let mut value = String::new();
        crate::text::push_decimal(&mut value, breakdown[j].1);
        proof {
            reveal_strlit("");
        }
        rows.push(MetricsRow { metric: concat2("veto_reason/", breakdown[j].0.as_str()), value });
        j = j + 1;
    }
    rows
}

/// A row of the recommendation listing; the confidence is the stored number's text.
#[derive(Debug)]
pub struct RecommendationRow {
    pub timestamp: String,
    pub agent: String,
    pub classification: String,
    pub confidence: String,
    pub summary: String,
    pub provider_name: String,
    pub model_name: String,
    pub cache_hit: bool,
}

/// The boolean that `v` holds, when it is one.
pub open spec fn json_bool(v: Option<JsonValue>) -> Option<bool> {
    match v {
        Some(JsonValue::Bool(b)) => Some(b),
        _ => None,
    }
}

/// The classification named in a recommendation's summary: what follows
/// `Workload classified as `, or `?`.
pub open spec fn classification_of(summary: Seq<char>) -> Seq<char> {
    if crate::text::starts_with_seq(summary, "Workload classified as "@) { summary.skip(23) } else { "?"@ }
}

/// The recommendation row of a stored payload with `timestamp`: the document must be an
/// object with a `Recommendation` object whose `summary` and `source_agent` are strings
/// and whose `confidence` is a number; the provider's name and model (else `unknown`)
/// and whether it was a cache hit (else not) come from its `provider` member, if any.
pub open spec fn recommendation_row_of(doc: Option<JsonValue>, timestamp: Seq<char>)
    -> Option<(Seq<char>, Seq<char>, Seq<char>, Seq<char>, Seq<char>, Seq<char>, Seq<char>, bool)>
{
    let rec = opt_get(doc, "Recommendation"@);
    let provider = opt_get(rec, "provider"@);
    match (json_string(opt_get(rec, "summary"@)), opt_get(rec, "confidence"@), json_string(opt_get(rec, "source_agent"@))) {
        (Some(summary), Some(JsonValue::Number(conf)), Some(agent)) => Some((
            timestamp,
            agent@,
            classification_of(summary@),
            conf@,
            summary@,
            text_or(json_string(opt_get(provider, "provider_name"@)), "unknown"@),
            text_or(json_string(opt_get(provider, "model_name"@)), "unknown"@),
            match json_bool(opt_get(provider, "cache_hit"@)) {
                Some(b) => b,
                None => false,
            },
        )),
        _ => None,
    }
}

impl RecommendationRow {
    pub open spec fn view_row(self) -> (Seq<char>, Seq<char>, Seq<char>, Seq<char>, Seq<char>, Seq<char>, Seq<char>, bool) {
        (
            self.timestamp@,
            self.agent@,
            self.classification@,
            self.confidence@,
            self.summary@,
            self.provider_name@,
            self.model_name@,
            self.cache_hit,
        )
    }
}

fn opt_member<'a>(v: Option<&'a JsonValue>, key: &str) -> (r: Option<&'a JsonValue>)
    ensures
        match r {
            Some(x) => opt_get(match v { Some(y) => Some(*y), None => None }, key@) == Some(*x),
            None => opt_get(match v { Some(y) => Some(*y), None => None }, key@).is_none(),
        },
{
    match v {
        Some(y) => get(y, key),
        None => None,
    }
}

/// The classification named in `summary` (see `classification_of`).
fn classification(summary: &str) -> (c: String)
    ensures
        c@ == classification_of(summary@),
{
    if crate::text::str_starts_with(summary, "Workload classified as ") {
        proof {
            reveal_strlit("Workload classified as ");
        }
        let n = summary.unicode_len();
        proof {
            assert(summary@.skip(23) =~= summary@.subrange(23, n as int));
        }
        summary.substring_char(23, n).to_owned()
    } else {
        "?".to_owned()
    }
}

/// The recommendation row of the stored payload `payload_json` (see
/// `recommendation_row_of`).
pub fn recommendation_row(payload_json: &str, timestamp: String) -> (r: Option<RecommendationRow>)
    ensures
        match r {
            Some(row) => recommendation_row_of(json_document(payload_json@), timestamp@) == Some(row.view_row()),
            None => recommendation_row_of(json_document(payload_json@), timestamp@).is_none(),
        },
{
    recommendation_row_from(&parse_json(payload_json), timestamp)
}

/// The recommendation row of a stored payload whose document is `doc` (see
/// `recommendation_row_of`).
pub fn recommendation_row_from(doc: &Option<JsonValue>, timestamp: String) -> (r: Option<RecommendationRow>)
    ensures
        match r {
            Some(row) => recommendation_row_of(*doc, timestamp@) == Some(row.view_row()),
            None => recommendation_row_of(*doc, timestamp@).is_none(),
        },
{
    let rec = match doc {
        Some(v) => get(v, "Recommendation"),
        None => None,
    };
    let summary = match as_str(opt_member(rec, "summary")) {
        Some(s) => s,
        None => return None,
    };
    let confidence = match opt_member(rec, "confidence") {
        Some(JsonValue::Number(t)) => t.clone(),
        _ => return None,
    };
    let agent = match as_str(opt_member(rec, "source_agent")) {
        Some(s) => s.clone(),
        None => return None,
    };
    let provider = opt_member(rec, "provider");
    let cache_hit = match opt_member(provider, "cache_hit") {
        Some(JsonValue::Bool(b)) => *b,
        _ => false,
    };
    Some(RecommendationRow {
        timestamp,
        agent,
        classification: classification(summary.as_str()),
        confidence,
        summary: summary.clone(),
        provider_name: string_or(opt_member(provider, "provider_name"), "unknown"),
        model_name: string_or(opt_member(provider, "model_name"), "unknown"),
        cache_hit,
    })
}

/// The provider and time of the latest stored recommendation, `payload_json`: the
/// provider's name (else `unknown`) and the recommendation's `timestamp` string, which
/// must be there.
pub open spec fn last_recommendation_of(doc: Option<JsonValue>) -> Option<(Seq<char>, Seq<char>)> {
    let rec = opt_get(doc, "Recommendation"@);
    match json_string(opt_get(rec, "timestamp"@)) {
        Some(ts) => Some((text_or(json_string(opt_get(opt_get(rec, "provider"@), "provider_name"@)), "unknown"@), ts@)),
        None => None,
    }
}

/// The provider and time of the latest stored recommendation (see
/// `last_recommendation_of`).
pub fn last_recommendation(payload_json: &str) -> (r: Option<(String, String)>)
    ensures
        match r {
            Some(p) => last_recommendation_of(json_document(payload_json@)) == Some((p.0@, p.1@)),
            None => last_recommendation_of(json_document(payload_json@)).is_none(),
        },
{
    last_recommendation_from(&parse_json(payload_json))
}

/// The provider and time of the latest stored recommendation, whose document is `doc`
/// (see `last_recommendation_of`).
pub fn last_recommendation_from(doc: &Option<JsonValue>) -> (r: Option<(String, String)>)
    ensures
        match r {
            Some(p) => last_recommendation_of(*doc) == Some((p.0@, p.1@)),
            None => last_recommendation_of(*doc).is_none(),
        },
{
    let rec = match doc {
        Some(v) => get(v, "Recommendation"),
        None => None,
    };
    let provider_name = string_or(opt_member(opt_member(rec, "provider"), "provider_name"), "unknown");
    match as_str(opt_member(rec, "timestamp")) {
        Some(ts) => Some((provider_name, ts.clone())),
        None => None,
    }
}

/// What the intelligence status report shows.
#[derive(Debug)]
pub struct IntelligenceStatus {
    /// The configured provider (it is also the one selected).
    pub provider: String,
    pub model: String,
    pub api_key_present: bool,
    pub cache_entries: u64,
    pub recommendation_count: u64,
    pub gemini_requests_total: u64,
    pub cache_hits_total: u64,
    pub cache_misses_total: u64,
    /// See `skipped_total_text`.
    pub classifications_skipped_total: String,
    /// The provider and time of the latest recommendation (see `last_recommendation`).
    pub last_recommendation: Option<(String, String)>,
}

/// The lines of the intelligence status report, `name = value` with the names aligned
/// (`none` for the latest provider and time when there is no recommendation).
pub open spec fn intelligence_report(s: IntelligenceStatus) -> Seq<Seq<char>> {
    seq![
        "configured_provider            = "@ + s.provider@,
        "selected_provider            = "@ + s.provider@,
        "model                        = "@ + s.model@,
        "api_key_present              = "@ + (if s.api_key_present { "true"@ } else { "false"@ }),
        "cache_entries                = "@ + decimal(s.cache_entries as nat),
        "recommendation_count         = "@ + decimal(s.recommendation_count as nat),
        "gemini_requests_total        = "@ + decimal(s.gemini_requests_total as nat),
        "cache_hits_total             = "@ + decimal(s.cache_hits_total as nat),
        "cache_misses_total           = "@ + decimal(s.cache_misses_total as nat),
        "classifications_skipped_total = "@ + s.classifications_skipped_total@,
        "last_provider_used           = "@ + match s.last_recommendation {
            Some(r) => r.0@,
            None => "none"@,
        },
        "last_recommendation_timestamp = "@ + match s.last_recommendation {
            Some(r) => r.1@,
            None => "none"@,
        },
    ]
}

/// The lines of the intelligence status report (see `intelligence_report`).
pub fn intelligence_status_lines(s: &IntelligenceStatus) -> (lines: Vec<String>)
    ensures
        crate::table::texts(lines@) == intelligence_report(*s),
{
    let mut lines: Vec<String> = Vec::new();
    lines.push(concat2("configured_provider            = ", s.provider.as_str()));
    lines.push(concat2("selected_provider            = ", s.provider.as_str()));
    lines.push(concat2("model                        = ", s.model.as_str()));
    lines.push(concat2("api_key_present              = ", if s.api_key_present { "true" } else { "false" }));
    lines.push(with_decimal("cache_entries                = ", s.cache_entries));
    lines.push(with_decimal("recommendation_count         = ", s.recommendation_count));
    lines.push(with_decimal("gemini_requests_total        = ", s.gemini_requests_total));
    lines.push(with_decimal("cache_hits_total             = ", s.cache_hits_total));
    lines.push(with_decimal("cache_misses_total           = ", s.cache_misses_total));
    lines.push(concat2("classifications_skipped_total = ", s.classifications_skipped_total.as_str()));
    match &s.last_recommendation {
        Some(r) => {
            lines.push(concat2("last_provider_used           = ", r.0.as_str()));
            lines.push(concat2("last_recommendation_timestamp = ", r.1.as_str()));
        },
        None => {
            lines.push(concat2("last_provider_used           = ", "none"));
            lines.push(concat2("last_recommendation_timestamp = ", "none"));
        },
    }
    proof {
        assert(crate::table::texts(lines@) =~= intelligence_report(*s));
    }
    lines
}

/// The text that `serde_json::to_string_pretty` gives of the JSON document read from
/// `text`.
pub uninterp spec fn json_pretty(text: Seq<char>) -> Seq<char>;

/// Reads `text` with `serde_json::from_str` into a `serde_json::Value` and prints it with
/// `serde_json::to_string_pretty` (keeping `text` should printing fail); `None` where
/// reading fails. The printed text is named `json_pretty`: serde_json's layout is not
/// stated.
#[verifier::external_body]
fn pretty_json(text: &str) -> (r: Option<String>)
    ensures
        r.is_some() == json_document(text@).is_some(),
        r matches Some(p) ==> p@ == json_pretty(text@),
{
    serde_json::from_str::<serde_json::Value>(text)
        .ok()
        .map(|v| serde_json::to_string_pretty(&v).unwrap_or_else(|_| text.to_owned()))
}

/// What the classification debug report shows of one stored recommendation.
#[derive(Debug)]
pub struct ClassificationDebug {
    /// The position of the stored recommendation among those that read as JSON, from 1.
    pub number: u64,
    pub timestamp: String,
    pub summary: String,
    /// The text of the confidence, when it is a number.
    pub confidence: Option<String>,
    pub cache_hit: bool,
    pub prompt: String,
    pub raw_response: String,
    pub parsed_classification: String,
    pub observation_summary: String,
    pub fallback_reason: String,
    pub parse_error: String,
}

/// The string under `key` of the provider's `extra` object, when both are there.
pub open spec fn extra_text(provider: Option<JsonValue>, key: Seq<char>) -> Option<String> {
    match opt_get(provider, "extra"@) {
        Some(JsonValue::Object(m)) => json_string(crate::payload::member(m@, key)),
        _ => None,
    }
}

/// The number text of `v`, when it is a number.
pub open spec fn number_text(v: Option<JsonValue>) -> Option<Seq<char>> {
    match v {
        Some(JsonValue::Number(t)) => Some(t@),
        _ => None,
    }
}

/// `d` shows the recommendation of document `doc` as number `number`: its time and
/// summary (else `?`), its confidence, whether it was a cache hit (else not), and the
/// provider's recorded prompt, raw response, parsed classification and observation summary
/// (else `(not recorded)`), fallback reason and parse error (else `(none)`).
pub open spec fn shows_classification(d: ClassificationDebug, doc: Option<JsonValue>, number: u64) -> bool {
    let rec = opt_get(doc, "Recommendation"@);
    let provider = opt_get(rec, "provider"@);
    &&& d.number == number
    &&& d.timestamp@ == text_or(json_string(opt_get(rec, "timestamp"@)), "?"@)
    &&& d.summary@ == text_or(json_string(opt_get(rec, "summary"@)), "?"@)
    &&& match d.confidence {
        Some(c) => number_text(opt_get(rec, "confidence"@)) == Some(c@),
        None => number_text(opt_get(rec, "confidence"@)).is_none(),
    }
    &&& d.cache_hit == match json_bool(opt_get(provider, "cache_hit"@)) {
        Some(b) => b,
        None => false,
    }
    &&& d.prompt@ == text_or(extra_text(provider, "prompt"@), "(not recorded)"@)
    &&& d.raw_response@ == text_or(extra_text(provider, "raw_response"@), "(not recorded)"@)
    &&& d.parsed_classification@ == text_or(extra_text(provider, "parsed_classification"@), "(not recorded)"@)
    &&& d.observation_summary@ == text_or(extra_text(provider, "observation_summary"@), "(not recorded)"@)
    &&& d.fallback_reason@ == text_or(extra_text(provider, "fallback_reason"@), "(none)"@)
    &&& d.parse_error@ == text_or(extra_text(provider, "parse_error"@), "(none)"@)
}

fn extra_string(extra: Option<&JsonValue>, key: &str, default: &str) -> (r: String)
    ensures
        r@ == text_or(match extra {
            Some(JsonValue::Object(m)) => json_string(crate::payload::member(m@, key@)),
            _ => None,
        }, default@),
{
    match extra {
        Some(e) => match e {
            JsonValue::Object(_) => string_or(get(e, key), default),
            _ => default.to_owned(),
        },
        None => default.to_owned(),
    }
}

/// What the report shows of the stored recommendation `doc` as number `number` (see
/// `shows_classification`); `None` when the document has no `Recommendation`.
pub fn classification_debug(doc: &JsonValue, number: u64) -> (r: Option<ClassificationDebug>)
    ensures
        match r {
            Some(d) => opt_get(Some(*doc), "Recommendation"@).is_some() && shows_classification(d, Some(*doc), number),
            None => opt_get(Some(*doc), "Recommendation"@).is_none(),
        },
{
    let rec = match get(doc, "Recommendation") {
        Some(r) => r,
        None => return None,
    };
    let provider = get(rec, "provider");
    let extra = opt_member(provider, "extra");
    let confidence = match get(rec, "confidence") {
        Some(JsonValue::Number(t)) => Some(t.clone()),
        _ => None,
    };
    let cache_hit = match opt_member(provider, "cache_hit") {
        Some(JsonValue::Bool(b)) => *b,
        _ => false,
    };
    Some(ClassificationDebug {
        number,
        timestamp: string_or(get(rec, "timestamp"), "?"),
        summary: string_or(get(rec, "summary"), "?"),
        confidence,
        cache_hit,
        prompt: extra_string(extra, "prompt", "(not recorded)"),
        raw_response: extra_string(extra, "raw_response", "(not recorded)"),
        parsed_classification: extra_string(extra, "parsed_classification", "(not recorded)"),
        observation_summary: extra_string(extra, "observation_summary", "(not recorded)"),
        fallback_reason: extra_string(extra, "fallback_reason", "(none)"),
        parse_error: extra_string(extra, "parse_error", "(none)"),
    })
}

/// The stored payloads among `payloads` that read as JSON, in order.
pub open spec fn readable(payloads: Seq<String>) -> Seq<Option<JsonValue>>
    decreases payloads.len(),
{
    if payloads.len() == 0 {
        Seq::empty()
    } else {
        let before = readable(payloads.drop_last());
        let doc = json_document(payloads.last()@);
        if doc.is_some() { before.push(doc) } else { before }
    }
}

/// What the classification debug report shows of the stored recommendations `payloads`
/// (most recent first): those that read as JSON are numbered from 1 in order, and each
/// that has a `Recommendation` is shown (see `shows_classification`).
pub fn classification_debug_report(payloads: &[String]) -> (r: (usize, Vec<ClassificationDebug>))
    requires
        payloads@.len() < u64::MAX,
    ensures
        r.0 == readable(payloads@).len(),
        forall|k: int| 0 <= k < r.1@.len() ==> {
            let n = (#[trigger] r.1@[k]).number;
            &&& 1 <= n <= r.0
            &&& opt_get(readable(payloads@)[n - 1], "Recommendation"@).is_some()
            &&& shows_classification(r.1@[k], readable(payloads@)[n - 1], n)
        },
        forall|k: int, l: int| 0 <= k < l < r.1@.len() ==> r.1@[k].number < r.1@[l].number,
        forall|m: int| 1 <= m <= r.0 && opt_get(#[trigger] readable(payloads@)[m - 1], "Recommendation"@).is_some()
            ==> exists|k: int| 0 <= k < r.1@.len() && r.1@[k].number == m,
{
    let mut out: Vec<ClassificationDebug> = Vec::new();
    let mut count: usize = 0;
    let mut i: usize = 0;
    let ghost docs = readable(payloads@);
    while i < payloads.len()
        invariant
            i <= payloads@.len(),
            payloads@.len() < u64::MAX,
            docs == readable(payloads@),
            count == readable(payloads@.take(i as int)).len(),
            count <= i,
            forall|k: int| 0 <= k < out@.len() ==> {
                let n = (#[trigger] out@[k]).number;
                &&& 1 <= n <= count
                &&& opt_get(readable(payloads@.take(i as int))[n - 1], "Recommendation"@).is_some()
                &&& shows_classification(out@[k], readable(payloads@.take(i as int))[n - 1], n)
            },
            forall|k: int, l: int| 0 <= k < l < out@.len() ==> out@[k].number < out@[l].number,
            forall|m: int| 1 <= m <= count && opt_get(#[trigger] readable(payloads@.take(i as int))[m - 1], "Recommendation"@).is_some()
                ==> exists|k: int| 0 <= k < out@.len() && out@[k].number == m,
        decreases payloads.len() - i,
    {
        let ghost before = readable(payloads@.take(i as int));
        proof {
            assert(payloads@.take(i + 1).drop_last() =~= payloads@.take(i as int));
        }
        let doc = parse_json(payloads[i].as_str());
        match doc {
            Some(v) => {
                count = count + 1;
                let ghost now = readable(payloads@.take(i + 1));
                assert(now == before.push(Some(v)));
                let d = classification_debug(&v, count as u64);
                match d {
                    Some(d) => {
                        let ghost old_out = out@;
                        out.push(d);
                        proof {
                            assert forall|k: int| 0 <= k < out@.len() implies {
                                let n = (#[trigger] out@[k]).number;
                                &&& 1 <= n <= count
                                &&& opt_get(now[n - 1], "Recommendation"@).is_some()
                                &&& shows_classification(out@[k], now[n - 1], n)
                            } by {
                                if k < old_out.len() {
                                    assert(out@[k] == old_out[k]);
                                    assert(now[out@[k].number - 1] == before[out@[k].number - 1]);
                                }
                            }
                            assert forall|m: int| 1 <= m <= count && opt_get(#[trigger] now[m - 1], "Recommendation"@).is_some()
                                implies exists|k: int| 0 <= k < out@.len() && out@[k].number == m by {
                                if m < count {
                                    assert(now[m - 1] == before[m - 1]);
                                    let k = choose|k: int| 0 <= k < old_out.len() && old_out[k].number == m;
                                    assert(out@[k] == old_out[k]);
                                } else {
                                    assert(out@[old_out.len() as int].number == m);
                                }
                            }
                        }
                    },
                    None => {
                        proof {
                            assert forall|k: int| 0 <= k < out@.len() implies {
                                let n = (#[trigger] out@[k]).number;
                                &&& 1 <= n <= count
                                &&& opt_get(now[n - 1], "Recommendation"@).is_some()
                                &&& shows_classification(out@[k], now[n - 1], n)
                            } by {
                                assert(now[out@[k].number - 1] == before[out@[k].number - 1]);
                            }
                            assert forall|m: int| 1 <= m <= count && opt_get(#[trigger] now[m - 1], "Recommendation"@).is_some()
                                implies exists|k: int| 0 <= k < out@.len() && out@[k].number == m by {
                                assert(now[m - 1] == before[m - 1]);
                            }
                        }
                    },
                }
            },
            None => {},
        }
        i = i + 1;
    }
    proof {
        assert(payloads@.take(i as int) =~= payloads@);
    }
    (count, out)
}

/// The horizontal rule between recommendations: sixty `─`.
pub open spec fn debug_rule() -> Seq<char> {
    repeated_char('\u{2500}', 60)
}

/// `n` copies of `c`.
pub open spec fn repeated_char(c: char, n: nat) -> Seq<char> {
    Seq::new(n, |k: int| c)
}

/// The lines of the raw response: pretty-printed under a `(JSON)` heading when it was
/// recorded, did not fail and reads as JSON; else as it is.
pub open spec fn raw_response_lines(raw: Seq<char>) -> Seq<Seq<char>> {
    if raw != "(not recorded)"@ && raw != "API call failed"@ && json_document(raw).is_some() {
        seq!["--- Raw Gemini Response (JSON) ---"@, json_pretty(raw)]
    } else {
        seq!["--- Raw Gemini Response ---"@, raw]
    }
}

/// The lines that show `d`, with its confidence rendered as `confidence`.
pub open spec fn classification_lines(d: ClassificationDebug, confidence: Seq<char>) -> Seq<Seq<char>> {
    seq![
        debug_rule(),
        "#"@ + decimal(d.number as nat) + " \u{2014} "@ + d.timestamp@ + "  cache_hit="@ + (if d.cache_hit { "true"@ } else { "false"@ }),
        Seq::empty(),
        "Parsed Classification: "@ + d.parsed_classification@,
        "Confidence:            "@ + confidence,
        "Fallback Reason:       "@ + d.fallback_reason@,
        "Parse Error:           "@ + d.parse_error@,
        "Summary:               "@ + d.summary@,
        Seq::empty(),
        "--- Observation Summary ---"@,
        d.observation_summary@,
        Seq::empty(),
        "--- Prompt Sent To Gemini ---"@,
        d.prompt@,
        Seq::empty(),
    ] + raw_response_lines(d.raw_response@) + seq![Seq::empty()]
}

/// The lines that show `d` (see `classification_lines`).
pub fn classification_debug_lines(d: &ClassificationDebug, confidence: &str) -> (lines: Vec<String>)
    ensures
        crate::table::texts(lines@) == classification_lines(*d, confidence@),
{
    let mut lines: Vec<String> = Vec::new();
    let mut rule = String::new();
    let mut k: usize = 0;
    while k < 60
        invariant
            k <= 60,
            rule@ == repeated_char('\u{2500}', k as nat),
        decreases 60 - k,
    {
        proof {
            reveal_strlit("\u{2500}");
        }
        rule.append("\u{2500}");
        k = k + 1;
        assert(rule@ =~= repeated_char('\u{2500}', k as nat));
    }
    lines.push(rule);
    let mut head = with_decimal("#", d.number);
    head.append(" \u{2014} ");
    head.append(d.timestamp.as_str());
    head.append("  cache_hit=");
    head.append(if d.cache_hit { "true" } else { "false" });
    lines.push(head);
    lines.push(String::new());
    lines.push(concat2("Parsed Classification: ", d.parsed_classification.as_str()));
    lines.push(concat2("Confidence:            ", confidence));
    lines.push(concat2("Fallback Reason:       ", d.fallback_reason.as_str()));
    lines.push(concat2("Parse Error:           ", d.parse_error.as_str()));
    lines.push(concat2("Summary:               ", d.summary.as_str()));
    lines.push(String::new());
    lines.push("--- Observation Summary ---".to_owned());
    lines.push(d.observation_summary.clone());
    lines.push(String::new());
    lines.push("--- Prompt Sent To Gemini ---".to_owned());
    lines.push(d.prompt.clone());
    lines.push(String::new());
    let raw = d.raw_response.as_str();
    let recorded = !crate::text::str_eq(raw, "(not recorded)") && !crate::text::str_eq(raw, "API call failed");
    let pretty = if recorded { pretty_json(raw) } else { None };
    match pretty {
        Some(p) => {
            lines.push("--- Raw Gemini Response (JSON) ---".to_owned());
            lines.push(p);
        },
        None => {
            lines.push("--- Raw Gemini Response ---".to_owned());
            lines.push(d.raw_response.clone());
        },
    }
    lines.push(String::new());
    proof {
        reveal_strlit("");
        assert(crate::table::texts(lines@) =~= classification_lines(*d, confidence@));
    }
    lines
}

/// A cgroup file's contents as the state report shows them: trimmed, `N/A` when the file
/// could not be read.
pub open spec fn shown_file(contents: Option<Seq<char>>) -> Seq<char> {
    crate::text::trim_seq(match contents {
        Some(c) => c,
        None => "N/A"@,
    })
}

/// The contents of a file that was read, if it was.
pub open spec fn read_text(contents: Option<&str>) -> Option<Seq<char>> {
    match contents {
        Some(c) => Some(c@),
        None => None,
    }
}

/// The cgroup state report for the cgroup at `path`, from the contents of its files:
/// `cpu.weight`, `cpu.max`, `memory.max` and `cgroup.controllers` as they read (see
/// `shown_file`), and the number of lines of `cgroup.procs` (its processes).
pub open spec fn cgroup_state_report(
    path: Seq<char>,
    cpu_weight: Option<Seq<char>>,
    cpu_max: Option<Seq<char>>,
    memory_max: Option<Seq<char>>,
    procs: Option<Seq<char>>,
    controllers: Option<Seq<char>>,
) -> Seq<Seq<char>> {
    let pids = crate::text::lines_of(shown_file(procs)).len();
    seq![
        "Cgroup:           "@ + path,
        "cpu.weight:       "@ + shown_file(cpu_weight),
        "cpu.max:          "@ + shown_file(cpu_max),
        "memory.max:       "@ + shown_file(memory_max),
        "cgroup.procs:     "@ + decimal(pids),
        "controllers:      "@ + shown_file(controllers),
        Seq::empty(),
        "Processes in cgroup: "@ + decimal(pids) + " PIDs"@,
    ]
}

fn shown(contents: Option<&str>) -> (s: String)
    ensures
        s@ == shown_file(read_text(contents)),
{
    match contents {
        Some(c) => crate::text::trim(c),
        None => crate::text::trim("N/A"),
    }
}

/// The cgroup state report (see `cgroup_state_report`).
pub fn cgroup_state_lines(
    path: &str,
    cpu_weight: Option<&str>,
    cpu_max: Option<&str>,
    memory_max: Option<&str>,
    procs: Option<&str>,
    controllers: Option<&str>,
) -> (lines: Vec<String>)
    ensures
        crate::table::texts(lines@) == cgroup_state_report(
            path@,
            read_text(cpu_weight),
            read_text(cpu_max),
            read_text(memory_max),
            read_text(procs),
            read_text(controllers),
        ),
{
    let procs_text = shown(procs);
    let pids = crate::text::text_lines(procs_text.as_str()).len() as u64;
    let mut lines: Vec<String> = Vec::new();
    lines.push(concat2("Cgroup:           ", path));
    lines.push(concat2("cpu.weight:       ", shown(cpu_weight).as_str()));
    lines.push(concat2("cpu.max:          ", shown(cpu_max).as_str()));
    lines.push(concat2("memory.max:       ", shown(memory_max).as_str()));
    lines.push(with_decimal("cgroup.procs:     ", pids));
    lines.push(concat2("controllers:      ", shown(controllers).as_str()));
    lines.push(String::new());
    let mut last = with_decimal("Processes in cgroup: ", pids);
    last.append(" PIDs");
    lines.push(last);
    proof {
        reveal_strlit("");
        assert(crate::table::texts(lines@) =~= cgroup_state_report(
            path@,
            read_text(cpu_weight),
            read_text(cpu_max),
            read_text(memory_max),
            read_text(procs),
            read_text(controllers),
        ));
    }
    lines
}

} // verus!
