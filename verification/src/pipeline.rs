//! One pass of the decision pipeline as the benchmarks count it: which approved actions a
//! pass executes, and the per-tick counts of each pipeline mode. The agents, the policy
//! kernel, the safety governor and the executor run around these, outside the library.
use vstd::prelude::*;
use crate::bench::{mode_label, ComparativeTickResult, PipelineMode, TickCounts};
use crate::daemon::{disposition, disposition_of, Disposition};
use crate::daemon_tick::{dispositions, next_execution};
use crate::domain::action::ApprovedAction;
use crate::domain::decision::{Decision, DecisionOutcome};
use crate::domain::proposal::Proposal;
use crate::ids::ProposalId;

verus! {

/// The approved actions of the first `n` proposal–decision pairs, in order: the proposal's
/// action under the decision, for each pair whose disposition is `Execute` (approved by
/// policy and passed by safety; see `disposition_of`).
pub open spec fn execution_plan(ps: Seq<Proposal>, ds: Seq<Decision>, safe: Seq<ProposalId>, n: int) -> Seq<ApprovedAction>
    decreases n,
{
    if n <= 0 {
        seq![]
    } else {
        let before = execution_plan(ps, ds, safe, n - 1);
        if disposition_of(ds[n - 1], safe) == Disposition::Execute {
            before.push(ApprovedAction { request: ps[n - 1].requested_action, decision_id: ds[n - 1].id })
        } else {
            before
        }
    }
}

/// The number of paired proposals and decisions: the shorter of the two.
pub open spec fn pair_count(ps: Seq<Proposal>, ds: Seq<Decision>) -> int {
    if ps.len() < ds.len() { ps.len() as int } else { ds.len() as int }
}

/// The approved actions that a pass executes: for the proposals and decisions paired in
/// order, as far as both go, the proposal's action under the decision, for each decision
/// that policy approved and whose proposal is among `safe`.
pub fn planned_executions(proposals: &[Proposal], decisions: &[Decision], safe: &[ProposalId]) -> (plan: Vec<ApprovedAction>)
    ensures
        plan@ == execution_plan(proposals@, decisions@, safe@, pair_count(proposals@, decisions@)),
{
    let n: usize = if proposals.len() < decisions.len() { proposals.len() } else { decisions.len() };
    let mut plan: Vec<ApprovedAction> = Vec::new();
    let mut k: usize = 0;
    while k < n
        invariant
            n as int == pair_count(proposals@, decisions@),
            k <= n,
            plan@ == execution_plan(proposals@, decisions@, safe@, k as int),
        decreases n - k,
    {
        if disposition(&decisions[k], safe) == Disposition::Execute {
            plan.push(ApprovedAction {
                request: proposals[k].requested_action.clone(),
                decision_id: decisions[k].id.clone(),
            });
        }
        k = k + 1;
    }
    plan
}

/// The number of decisions among `ds` that policy approved.
pub open spec fn approved_in(ds: Seq<Decision>) -> nat
    decreases ds.len(),
{
    if ds.len() == 0 {
        0
    } else {
        approved_in(ds.drop_last()) + if ds.last().outcome is Approved { 1nat } else { 0nat }
    }
}

/// The number of decisions among `ds` that policy denied (those awaiting approval aside).
pub open spec fn denied_in(ds: Seq<Decision>) -> nat
    decreases ds.len(),
{
    if ds.len() == 0 {
        0
    } else {
        denied_in(ds.drop_last()) + if ds.last().outcome is Denied { 1nat } else { 0nat }
    }
}

proof fn lemma_counts_bounded(ds: Seq<Decision>)
    ensures
        approved_in(ds) <= ds.len(),
        denied_in(ds) <= ds.len(),
    decreases ds.len(),
{
    if ds.len() > 0 {
        lemma_counts_bounded(ds.drop_last());
    }
}

/// The number of approved decisions (see `approved_in`).
pub fn count_approved(decisions: &[Decision]) -> (c: u64)
    ensures
        c == approved_in(decisions@),
{
    let mut c: u64 = 0;
    let mut k: usize = 0;
    while k < decisions.len()
        invariant
            k <= decisions@.len(),
            c == approved_in(decisions@.take(k as int)),
        decreases decisions.len() - k,
    {
        proof {
            assert(decisions@.take(k + 1).drop_last() == decisions@.take(k as int));
            lemma_counts_bounded(decisions@.take(k as int));
        }
        if matches!(decisions[k].outcome, DecisionOutcome::Approved) {
            c = c + 1;
        }
        k = k + 1;
    }
    assert(decisions@.take(k as int) == decisions@);
    c
}

/// The number of denied decisions (see `denied_in`).
pub fn count_denied(decisions: &[Decision]) -> (c: u64)
    ensures
        c == denied_in(decisions@),
{
    let mut c: u64 = 0;
    let mut k: usize = 0;
    while k < decisions.len()
        invariant
            k <= decisions@.len(),
            c == denied_in(decisions@.take(k as int)),
        decreases decisions.len() - k,
    {
        proof {
            assert(decisions@.take(k + 1).drop_last() == decisions@.take(k as int));
            lemma_counts_bounded(decisions@.take(k as int));
        }
        if matches!(decisions[k].outcome, DecisionOutcome::Denied { .. }) {
            c = c + 1;
        }
        k = k + 1;
    }
    assert(decisions@.take(k as int) == decisions@);
    c
}

/// What one pass of a pipeline produced: its proposals and the number of its incidents
/// (none policy-only), the policy decisions, and, through the full pipeline, the
/// decisions that passed the safety governor and the number of its vetoes.
#[derive(Debug)]
pub struct PassOutcome {
    pub proposals: Vec<Proposal>,
    pub incident_count: u64,
    pub decisions: Vec<Decision>,
    pub safety_approved: Vec<Decision>,
    pub veto_count: u64,
}

/// The proposals whose decisions are among `ds`.
pub open spec fn decided_proposals(ds: Seq<Decision>) -> Seq<ProposalId> {
    ds.map_values(|d: Decision| d.proposal_id)
}

/// The approved actions that a full pass executes: those of its proposals and decisions
/// paired in order whose decision policy approved and safety passed (see
/// `execution_plan`).
pub open spec fn pass_executions(pass: PassOutcome) -> Seq<ApprovedAction> {
    execution_plan(
        pass.proposals@,
        pass.decisions@,
        decided_proposals(pass.safety_approved@),
        pair_count(pass.proposals@, pass.decisions@),
    )
}

/// The approved actions that a pass in `mode` executes: those of `pass_executions` through
/// the full pipeline, none in the other modes (which have no safety governor and do not
/// execute).
pub open spec fn mode_executions(mode: PipelineMode, pass: PassOutcome) -> Seq<ApprovedAction> {
    if mode is Full { pass_executions(pass) } else { Seq::empty() }
}

/// The proposals of `decisions`, in order (see `decided_proposals`).
fn proposals_of(decisions: &[Decision]) -> (ids: Vec<ProposalId>)
    ensures
        ids@ == decided_proposals(decisions@),
{
    let mut ids: Vec<ProposalId> = Vec::new();
    let mut k: usize = 0;
    while k < decisions.len()
        invariant
            k <= decisions@.len(),
            ids@ == decided_proposals(decisions@.take(k as int)),
        decreases decisions.len() - k,
    {
        ids.push(decisions[k].proposal_id.clone());
        proof {
            assert(decided_proposals(decisions@.take(k + 1)) =~= decided_proposals(decisions@.take(k as int)).push(decisions@[k as int].proposal_id));
        }
        k = k + 1;
    }
    proof {
        assert(decisions@.take(decisions@.len() as int) =~= decisions@);
    }
    ids
}

/// The approved actions that a pass in `mode` executes, in order (see `mode_executions`).
pub fn pass_plan(mode: PipelineMode, pass: &PassOutcome) -> (plan: Vec<ApprovedAction>)
    ensures
        plan@ == mode_executions(mode, *pass),
{
    match mode {
        PipelineMode::Full => {
            let safe = proposals_of(pass.safety_approved.as_slice());
            planned_executions(pass.proposals.as_slice(), pass.decisions.as_slice(), safe.as_slice())
        },
        _ => Vec::new(),
    }
}

/// A plan never has more actions than the pairs it is drawn from.
proof fn lemma_plan_len(ps: Seq<Proposal>, ds: Seq<Decision>, safe: Seq<ProposalId>, n: int)
    requires
        0 <= n,
    ensures
        execution_plan(ps, ds, safe, n).len() <= n,
    decreases n,
{
    if n > 0 {
        lemma_plan_len(ps, ds, safe, n - 1);
    }
}

/// No decision is both approved and denied.
proof fn lemma_approved_and_denied_bounded(ds: Seq<Decision>)
    ensures
        approved_in(ds) + denied_in(ds) <= ds.len(),
    decreases ds.len(),
{
    if ds.len() > 0 {
        lemma_approved_and_denied_bounded(ds.drop_last());
    }
}

/// The counts of tick `tick` run in `mode`. Policy-only counts only the decisions; with
/// agents and policy, the proposals, incidents, and approved and denied decisions; the
/// full pipeline also the vetoes, the approved decisions that passed safety (in place of
/// all approved ones) and the executed actions (see `mode_executions`).
pub fn comparative_tick_result(mode: PipelineMode, tick: u64, pass: &PassOutcome) -> (r: ComparativeTickResult)
    ensures
        r.mode@ == mode_label(mode),
        r.tick == tick,
        r.decision_count == pass.decisions@.len(),
        r.denied_count == (if mode is PolicyOnly { 0 } else { denied_in(pass.decisions@) }),
        r.proposal_count == (if mode is PolicyOnly { 0 } else { pass.proposals@.len() }),
        r.incident_count == (if mode is PolicyOnly { 0 } else { pass.incident_count }),
        r.approved_count == match mode {
            PipelineMode::PolicyOnly => 0,
            PipelineMode::AgentsAndPolicy => approved_in(pass.decisions@),
            PipelineMode::Full => approved_in(pass.safety_approved@),
        },
        r.veto_count == (if mode is Full { pass.veto_count } else { 0 }),
        r.executor_count == mode_executions(mode, *pass).len(),
        r.executor_count <= r.decision_count,
        mode is AgentsAndPolicy ==> r.approved_count + r.denied_count <= r.decision_count,
{
    let decision_count = pass.decisions.len() as u64;
    let plan = pass_plan(mode, pass);
    proof {
        lemma_plan_len(
            pass.proposals@,
            pass.decisions@,
            decided_proposals(pass.safety_approved@),
            pair_count(pass.proposals@, pass.decisions@),
        );
        lemma_approved_and_denied_bounded(pass.decisions@);
    }
    let executor_count = plan.len() as u64;
    match mode {
        PipelineMode::PolicyOnly => ComparativeTickResult {
            mode: mode.label().to_owned(),
            tick,
            proposal_count: 0,
            incident_count: 0,
            veto_count: 0,
            decision_count,
            approved_count: 0,
            denied_count: 0,
            executor_count,
        },
        PipelineMode::AgentsAndPolicy => ComparativeTickResult {
            mode: mode.label().to_owned(),
            tick,
            proposal_count: pass.proposals.len() as u64,
            incident_count: pass.incident_count,
            veto_count: 0,
            decision_count,
            approved_count: count_approved(pass.decisions.as_slice()),
            denied_count: count_denied(pass.decisions.as_slice()),
            executor_count,
        },
        PipelineMode::Full => ComparativeTickResult {
            mode: mode.label().to_owned(),
            tick,
            proposal_count: pass.proposals.len() as u64,
            incident_count: pass.incident_count,
            veto_count: pass.veto_count,
            decision_count,
            approved_count: count_approved(pass.safety_approved.as_slice()),
            denied_count: count_denied(pass.decisions.as_slice()),
            executor_count,
        },
    }
}

/// The counts of benchmark tick `tick` with `obs_count` observations, run through the
/// full pipeline: the approved count is that of the decisions that passed safety, the
/// denied count that of all decisions, the executions those of `pass_executions`.
pub fn workload_tick_counts(tick: u64, obs_count: u64, pass: &PassOutcome) -> (c: TickCounts)
    ensures
        c == (TickCounts {
            tick,
            obs_count,
            proposal_count: pass.proposals@.len() as u64,
            incident_count: pass.incident_count,
            approved_count: approved_in(pass.safety_approved@) as u64,
            denied_count: denied_in(pass.decisions@) as u64,
            veto_count: pass.veto_count,
            executor_count: pass_executions(*pass).len() as u64,
        }),
{
    let plan = pass_plan(PipelineMode::Full, pass);
    TickCounts {
        tick,
        obs_count,
        proposal_count: pass.proposals.len() as u64,
        incident_count: pass.incident_count,
        approved_count: count_approved(pass.safety_approved.as_slice()),
        denied_count: count_denied(pass.decisions.as_slice()),
        veto_count: pass.veto_count,
        executor_count: plan.len() as u64,
    }
}

/// The positions at or after `i`, below `n`, whose disposition is `Execute`, in order.
pub open spec fn execution_positions(ds: Seq<Disposition>, n: int, i: int) -> Seq<int>
    decreases n - i,
{
    if i >= n {
        Seq::empty()
    } else if ds[i] == Disposition::Execute {
        seq![i] + execution_positions(ds, n, i + 1)
    } else {
        execution_positions(ds, n, i + 1)
    }
}

/// The daemon's disposal visits the execution positions in order: from `i`, the next
/// decision it executes is the first of them, and it goes on from just after it.
pub proof fn lemma_next_execution_heads_positions(ds: Seq<Disposition>, n: int, i: int)
    requires
        0 <= i <= n <= ds.len(),
    ensures
        ({
            let j = next_execution(ds, n, i);
            if j < n {
                execution_positions(ds, n, i) == seq![j] + execution_positions(ds, n, j + 1)
            } else {
                execution_positions(ds, n, i) == Seq::<int>::empty()
            }
        }),
    decreases n - i,
{
    if i < n && ds[i] != Disposition::Execute {
        lemma_next_execution_heads_positions(ds, n, i + 1);
    }
}

proof fn lemma_positions_extend(ds: Seq<Disposition>, n: int, i: int)
    requires
        0 <= i <= n < ds.len(),
    ensures
        execution_positions(ds, n + 1, i) == execution_positions(ds, n, i) + if ds[n] == Disposition::Execute {
            seq![n]
        } else {
            Seq::<int>::empty()
        },
    decreases n - i,
{
    if i < n {
        lemma_positions_extend(ds, n, i + 1);
        if ds[i] == Disposition::Execute {
            assert(seq![i] + (execution_positions(ds, n, i + 1) + if ds[n] == Disposition::Execute {
                seq![n]
            } else {
                Seq::<int>::empty()
            }) =~= (seq![i] + execution_positions(ds, n, i + 1)) + if ds[n] == Disposition::Execute {
                seq![n]
            } else {
                Seq::<int>::empty()
            });
        }
    } else {
        assert(execution_positions(ds, n + 1, n + 1) == Seq::<int>::empty());
        if ds[n] == Disposition::Execute {
            assert(seq![n] + Seq::<int>::empty() =~= seq![n]);
        }
        assert(Seq::<int>::empty() + execution_positions(ds, n + 1, n) =~= execution_positions(ds, n + 1, n));
    }
}

/// The action executed at position `j`: the `j`-th proposal's action under the `j`-th
/// decision.
pub open spec fn action_at(ps: Seq<Proposal>, ds: Seq<Decision>, j: int) -> ApprovedAction {
    ApprovedAction { request: ps[j].requested_action, decision_id: ds[j].id }
}

/// The daemon tick and the benchmark pipeline execute the same actions in the same order:
/// the planned executions of the first `n` pairs are the actions at the positions that
/// the daemon's disposal visits from the first pair (see
/// `lemma_next_execution_heads_positions`).
pub proof fn lemma_daemon_executes_the_plan(ps: Seq<Proposal>, ds: Seq<Decision>, safe: Seq<ProposalId>, n: int)
    requires
        0 <= n <= ps.len(),
        n <= ds.len(),
    ensures
        execution_plan(ps, ds, safe, n)
            == execution_positions(dispositions(ds, safe), n, 0).map_values(|j: int| action_at(ps, ds, j)),
    decreases n,
{
    let dd = dispositions(ds, safe);
    if n == 0 {
        assert(execution_positions(dd, 0, 0).map_values(|j: int| action_at(ps, ds, j)) =~= Seq::<ApprovedAction>::empty());
    } else {
        lemma_daemon_executes_the_plan(ps, ds, safe, n - 1);
        lemma_positions_extend(dd, n - 1, 0);
        assert(dd[n - 1] == disposition_of(ds[n - 1], safe));
        let before = execution_positions(dd, n - 1, 0);
        if dd[n - 1] == Disposition::Execute {
            assert((before + seq![n - 1]).map_values(|j: int| action_at(ps, ds, j))
                =~= before.map_values(|j: int| action_at(ps, ds, j)).push(action_at(ps, ds, n - 1)));
        } else {
            assert(before + Seq::<int>::empty() =~= before);
        }
    }
}

} // verus!
