//! Fixed parts of the benchmark scenarios: the escalation chain's incidents per tick and
//! the status a live-mutation scenario records for each proposal.
use vstd::prelude::*;
use crate::agents::security::{after_incidents, drawn_incident_ids, lemma_draw_push};
use crate::application::AppError;
use crate::daemon::{disposition, disposition_of, Disposition};
use crate::domain::action::ActionResult;
use crate::domain::decision::Decision;
use crate::domain::event::{Incident, IncidentCategory, IncidentSeverity};
use crate::domain::render::{status_debug, status_text};
use crate::executor::linux::opt_view;
use crate::ids::{sequence_after, AgentId, IdSource, ProposalId};
use crate::text::{concat2, decimal, push_decimal};

verus! {

/// An incident of a scenario: category, severity, source agent, description and
/// correlation id.
pub type ChainEntry = (IncidentCategory, IncidentSeverity, Seq<char>, Seq<char>, Option<Seq<char>>);

/// The incidents the escalation-chain scenario raises at `tick`: a security observation
/// at tick 1; at tick 2 an escalated security warning and resource contention, both
/// correlated with the first; at tick 3 a critical security incident, a governance
/// violation and an executor failure; at ticks 4 and 5 an ongoing critical security
/// incident correlated with the previous tick's first; none at other ticks.
pub open spec fn escalation_chain(tick: u64) -> Seq<ChainEntry> {
    if tick == 1 {
        seq![(IncidentCategory::Security, IncidentSeverity::Info, "security-agent"@,
            "initial security observation"@, None)]
    } else if tick == 2 {
        seq![
            (IncidentCategory::Security, IncidentSeverity::Warning, "security-agent"@,
                "escalated: persistent fork activity"@, Some("tick-1-incident-0"@)),
            (IncidentCategory::ResourceContention, IncidentSeverity::Warning, "security-agent"@,
                "resource contention detected following fork event"@, Some("tick-1-incident-0"@)),
        ]
    } else if tick == 3 {
        seq![
            (IncidentCategory::Security, IncidentSeverity::Critical, "security-agent"@,
                "critical: cascading process creation"@, Some("tick-2-incident-0"@)),
            (IncidentCategory::GovernanceViolation, IncidentSeverity::Warning, "security-agent"@,
                "policy violation: resource limits approaching"@, Some("tick-2-incident-1"@)),
            (IncidentCategory::ExecutorFailure, IncidentSeverity::Error, "executor"@,
                "executor unable to enforce cgroup limits"@, Some("tick-3-incident-0"@)),
        ]
    } else if tick == 4 || tick == 5 {
        seq![(IncidentCategory::Security, IncidentSeverity::Critical, "security-agent"@,
            "ongoing security incident — all actions vetoed by governor"@,
            Some("tick-"@ + decimal((tick - 1) as nat) + "-incident-0"@))]
    } else {
        seq![]
    }
}

/// `i` is the incident `e`, raised now and tied to no observation.
pub open spec fn incident_is(i: Incident, e: ChainEntry) -> bool {
    &&& i.category == e.0
    &&& i.severity == e.1
    &&& i.source_agent@ == e.2
    &&& i.description@ == e.3
    &&& opt_view(i.correlation_id) == e.4
    &&& i.source_observation.is_none()
    &&& crate::clock::is_timestamp(i.timestamp@)
}

/// Appends the incident `(category, severity, source, description, correlation)` with the
/// next incident id.
fn push_entry(
    incs: &mut Vec<Incident>,
    category: IncidentCategory,
    severity: IncidentSeverity,
    source: &str,
    description: &str,
    correlation: Option<String>,
    ids: &mut IdSource,
    Ghost(start): Ghost<u64>,
)
    requires
        drawn_incident_ids(old(incs)@, start),
        old(ids).incident == sequence_after(start, old(incs)@.len()),
    ensures
        final(incs)@.len() == old(incs)@.len() + 1,
        final(incs)@.subrange(0, old(incs)@.len() as int) == old(incs)@,
        incident_is(final(incs)@.last(), (category, severity, source@, description@, opt_view(correlation))),
        drawn_incident_ids(final(incs)@, start),
        *final(ids) == (IdSource { incident: sequence_after(start, final(incs)@.len()), ..*old(ids) }),
{
    let base = Incident::new(
        category,
        severity,
        AgentId::from_string(source),
        None,
        description.to_owned(),
        ids,
    );
    let inc = match correlation {
        Some(c) => base.with_correlation(c),
        None => base,
    };
    proof {
        lemma_draw_push(incs@, start, inc);
    }
    incs.push(inc);
    proof {
        assert(incs@.subrange(0, incs@.len() - 1) =~= old(incs)@);
    }
}

/// The incidents of the escalation-chain scenario at `tick` (see `escalation_chain`), with
/// fresh incident ids drawn in order.
pub fn escalation_chain_incidents(tick: u64, ids: &mut IdSource) -> (incs: Vec<Incident>)
    ensures
        incs@.len() == escalation_chain(tick).len(),
        forall|k: int| 0 <= k < incs@.len() ==> incident_is(#[trigger] incs@[k], escalation_chain(tick)[k]),
        drawn_incident_ids(incs@, old(ids).incident),
        *final(ids) == after_incidents(*old(ids), incs@),
{
    let ghost start = old(ids).incident;
    let mut incs: Vec<Incident> = Vec::new();
    proof {
        assert(drawn_incident_ids(incs@, start));
    }
    if tick == 1 {
        push_entry(&mut incs, IncidentCategory::Security, IncidentSeverity::Info, "security-agent",
            "initial security observation", None, ids, Ghost(start));
    } else if tick == 2 {
        push_entry(&mut incs, IncidentCategory::Security, IncidentSeverity::Warning, "security-agent",
            "escalated: persistent fork activity", Some("tick-1-incident-0".to_owned()), ids, Ghost(start));
        let ghost first = incs@[0];
        push_entry(&mut incs, IncidentCategory::ResourceContention, IncidentSeverity::Warning, "security-agent",
            "resource contention detected following fork event", Some("tick-1-incident-0".to_owned()), ids,
            Ghost(start));
        assert(incs@[0] == first);
    } else if tick == 3 {
        push_entry(&mut incs, IncidentCategory::Security, IncidentSeverity::Critical, "security-agent",
            "critical: cascading process creation", Some("tick-2-incident-0".to_owned()), ids, Ghost(start));
        let ghost first = incs@[0];
        push_entry(&mut incs, IncidentCategory::GovernanceViolation, IncidentSeverity::Warning, "security-agent",
            "policy violation: resource limits approaching", Some("tick-2-incident-1".to_owned()), ids,
            Ghost(start));
        let ghost second = incs@[1];
        assert(incs@[0] == first);
        push_entry(&mut incs, IncidentCategory::ExecutorFailure, IncidentSeverity::Error, "executor",
            "executor unable to enforce cgroup limits", Some("tick-3-incident-0".to_owned()), ids, Ghost(start));
        assert(incs@[0] == first);
        assert(incs@[1] == second);
    } else if tick == 4 || tick == 5 {
        let mut c = "tick-".to_owned();
        push_decimal(&mut c, tick - 1);
        c.append("-incident-0");
        push_entry(&mut incs, IncidentCategory::Security, IncidentSeverity::Critical, "security-agent",
            "ongoing security incident — all actions vetoed by governor", Some(c), ids, Ghost(start));
    }
    proof {
        assert(incs@.len() == escalation_chain(tick).len());
    }
    incs
}

/// The status a live-mutation scenario records for a proposal whose decision has
/// disposition `d`: `"Vetoed"` when safety vetoed it, `"Denied"` when policy did not
/// approve it; for an executed action, the `Debug` name of the result's status, or
/// `"ExecutorError(<error message>)"` when the executor failed.
pub open spec fn mutation_status_text(d: Disposition, result: Option<Result<ActionResult, AppError>>) -> Seq<char> {
    match d {
        Disposition::SafetyVetoed => "Vetoed"@,
        Disposition::Deny => "Denied"@,
        Disposition::Execute => match result {
            Some(Ok(r)) => status_text(r.status),
            Some(Err(AppError::Message(m))) => "ExecutorError(application error: "@ + m@ + ")"@,
            None => Seq::empty(),
        },
    }
}

/// The status a live-mutation scenario records for the proposal of `decision` when the
/// proposals `safe` passed safety, `result` being what executing it returned (see
/// `mutation_status_text`).
pub fn mutation_status(
    decision: &Decision,
    safe: &[ProposalId],
    result: Option<&Result<ActionResult, AppError>>,
) -> (s: String)
    requires
        disposition_of(*decision, safe@) == Disposition::Execute ==> result.is_some(),
    ensures
        s@ == mutation_status_text(
            disposition_of(*decision, safe@),
            match result {
                Some(r) => Some(*r),
                None => None,
            },
        ),
{
    match disposition(decision, safe) {
        Disposition::SafetyVetoed => "Vetoed".to_owned(),
        Disposition::Deny => "Denied".to_owned(),
        Disposition::Execute => match result {
            Some(Ok(r)) => status_debug(&r.status).to_owned(),
            Some(Err(e)) => {
                let msg = e.to_message();
                let mut s = concat2("ExecutorError(", msg.as_str());
                s.append(")");
                proof {
                    reveal_strlit("ExecutorError(");
                    reveal_strlit("application error: ");
                    reveal_strlit("ExecutorError(application error: ");
                    let AppError::Message(m) = *e;
                    assert(s@ =~= "ExecutorError(application error: "@ + m@ + ")"@);
                }
                s
            },
            None => String::new(),
        },
    }
}

} // verus!
