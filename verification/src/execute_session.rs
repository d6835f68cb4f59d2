//! Executing a plan's proposals through governance, one at a time, as a step machine: the
//! console checks each proposal against the action proposal policy, validates the allowed
//! ones for safety, executes those that pass both, and hands each outcome back; the
//! session decides what comes next and writes the report lines.
use vstd::prelude::*;
use crate::application::AppError;
use crate::clock::now_utc;
use crate::daemon_tick::app_error_text;
use crate::domain::action::{ActionResult, ApprovedAction};
use crate::domain::action_graph::ActionGraph;
use crate::domain::decision::{Decision, DecisionOutcome};
use crate::domain::plan::TaskPlan;
use crate::domain::proposal::Proposal;
use crate::domain::render::{kind_debug, kind_text, safety_debug, safety_text, status_debug, status_text};
use crate::ids::{next_sequence, AgentId, IdSource};
use crate::table::texts;
use crate::text::{decimal, push_decimal, with_decimal};

verus! {

/// The action proposal policy's answer about a proposal.
#[derive(Debug)]
pub enum PolicyCheck {
    Allow,
    /// Denied, with the policy's explanation.
    Deny(String),
    Error(AppError),
}

/// What the console does next.
#[derive(Debug)]
pub enum SessionRequest {
    /// Check the proposal at this position against the policy; call `policy_checked`.
    CheckPolicy(usize),
    /// Validate the proposal at this position for safety; call `safety_checked`.
    ValidateSafety(usize),
    /// Execute the action; call `executed`.
    Execute(ApprovedAction),
    /// Every proposal is done; print the `summary`.
    Finish,
}

/// What one step prints, and what comes next.
#[derive(Debug)]
pub struct SessionStep {
    pub lines: Vec<String>,
    pub next: SessionRequest,
}

#[derive(Clone, Copy, Debug, PartialEq, Eq, Structural)]
pub enum SessionStage {
    Policy,
    Safety,
    Executing,
    Done,
}

/// The characters of `s` before its first `-` (all of them when there is none).
pub open spec fn before_dash(s: Seq<char>) -> Seq<char>
    decreases s.len(),
{
    if s.len() == 0 {
        s
    } else if s[0] == '-' {
        Seq::empty()
    } else {
        seq![s[0]] + before_dash(s.skip(1))
    }
}

/// The label under which a proposal's action is reported: its id up to the first `-`.
pub open spec fn action_label(p: Proposal) -> Seq<char> {
    before_dash(p.id@)
}

/// The line reporting the policy's answer about `p`.
pub open spec fn policy_line(p: Proposal, verdict: Seq<char>) -> Seq<char> {
    "  Action "@ + action_label(p) + ": Policy "@ + verdict
}

/// The line showing the kind of `p`'s action.
pub open spec fn kind_line(p: Proposal) -> Seq<char> {
    "           Kind: "@ + kind_text(p.requested_action.kind)
}

/// The lines of a policy answer about `p`: an allowance shows the kind; a denial shows its
/// explanation and the kind and skips the executor; an error skips the executor. A
/// blank line closes a proposal that goes no further.
pub open spec fn policy_lines(p: Proposal, check: PolicyCheck) -> Seq<Seq<char>> {
    match check {
        PolicyCheck::Allow => seq![policy_line(p, "ALLOW"@), kind_line(p)],
        PolicyCheck::Deny(reason) => seq![
            policy_line(p, "DENY \u{2014} "@ + reason@),
            kind_line(p),
            "           Executor SKIPPED"@,
            Seq::empty(),
        ],
        PolicyCheck::Error(e) => seq![
            policy_line(p, "ERROR \u{2014} "@ + app_error_text(e)),
            "           Executor SKIPPED"@,
            Seq::empty(),
        ],
    }
}

/// The lines of a safety answer: an allowance, or a veto with its reason that skips the
/// executor and closes the proposal.
pub open spec fn safety_lines(r: Result<(), String>) -> Seq<Seq<char>> {
    match r {
        Ok(()) => seq!["           Safety ALLOW"@],
        Err(reason) => seq!["           Safety VETO \u{2014} "@ + reason@, "           Executor SKIPPED"@, Seq::empty()],
    }
}

/// The lines of an execution's outcome, closing the proposal: the result's message,
/// status and duration, and its undo token if it has one; or the error.
pub open spec fn execution_lines(r: Result<ActionResult, AppError>) -> Seq<Seq<char>> {
    match r {
        Ok(res) => {
            let called = "           Executor CALLED \u{2014} "@ + res.message@ + " ("@ + status_text(res.status) + ", "@
                + decimal(res.duration_ms as nat) + "ms)"@;
            match res.rollback {
                Some(t) => seq![called, "             rollback token: "@ + t.token@, Seq::empty()],
                None => seq![called, Seq::empty()],
            }
        },
        Err(e) => seq!["           Executor CALLED \u{2014} FAILED: "@ + app_error_text(e), Seq::empty()],
    }
}

/// The decision that the session records when the policy allows `p`: approved by
/// `action-proposal-policy` with decision id number `seq`.
pub open spec fn is_allowance(d: Decision, p: Proposal, seq: u64) -> bool {
    &&& d.id@ == "DecisionId-"@ + decimal(seq as nat)
    &&& d.proposal_id == p.id
    &&& crate::clock::is_timestamp(d.decided_at@)
    &&& d.decided_by@ == "action-proposal-policy"@
    &&& d.outcome == DecisionOutcome::Approved
    &&& d.explanation@ == "allowed by action proposal policy"@
}

/// The request after the proposal at `i` is done, of `n`: the next proposal's policy
/// check, or the end.
pub open spec fn after_proposal(next: SessionRequest, i: int, n: int) -> bool {
    if i + 1 < n {
        next == SessionRequest::CheckPolicy((i + 1) as usize)
    } else {
        next is Finish
    }
}

/// The summary: the number of actions, of policy allowances and of executor calls, and a
/// note when governance blocked every action.
pub open spec fn summary_lines(total: nat, allowed: nat, calls: nat) -> Seq<Seq<char>> {
    seq![
        "--- Summary ---"@,
        "  Total actions: "@ + decimal(total),
        "  Policy ALLOW:  "@ + decimal(allowed),
        "  Executor calls: "@ + decimal(calls),
    ] + (if calls == 0 && total > 0 {
        seq!["  Guard: Actions blocked by governance \u{2014} executor never called."@]
    } else {
        Seq::empty()
    }) + seq![Seq::empty(), "Pipeline complete."@]
}

/// The lines that introduce the session: the plan, its action graph, the proposals
/// created from it (each with its kind and safety level), and the governance heading.
pub open spec fn header_lines(plan: TaskPlan, nodes: nat, edges: nat, ps: Seq<Proposal>) -> Seq<Seq<char>> {
    seq![
        "Plan: "@ + plan.id@ + " ("@ + decimal(plan.steps@.len()) + " steps)"@,
        "Status: "@ + plan.status@,
        Seq::empty(),
        "Action Graph: "@ + decimal(nodes) + " nodes, "@ + decimal(edges) + " edges"@,
        Seq::empty(),
        "Proposals created: "@ + decimal(ps.len()),
    ] + Seq::new(ps.len(), |i: int| "  Proposal "@ + ps[i].id@ + ": "@ + kind_text(ps[i].requested_action.kind)
        + " (safety="@ + safety_text(ps[i].requested_action.safety_level) + ")"@)
        + seq![Seq::empty(), "--- Governance Results ---"@, Seq::empty()]
}

/// The state of a plan's execution through governance.
#[derive(Debug)]
pub struct ExecuteSession {
    proposals: Vec<Proposal>,
    next: usize,
    stage: SessionStage,
    approved: Vec<Decision>,
    executor_calls: u64,
    results: Vec<(String, bool)>,
}

impl ExecuteSession {
    pub closed spec fn proposals(&self) -> Seq<Proposal> {
        self.proposals@
    }

    /// The position of the proposal in hand.
    pub closed spec fn cursor(&self) -> int {
        self.next as int
    }

    pub closed spec fn stage(&self) -> SessionStage {
        self.stage
    }

    /// The decisions recorded for the proposals that the policy allowed, in order.
    pub closed spec fn allowances(&self) -> Seq<Decision> {
        self.approved@
    }

    pub closed spec fn calls(&self) -> u64 {
        self.executor_calls
    }

    /// For each proposal done, its id and whether the executor was called for it.
    pub closed spec fn outcomes(&self) -> Seq<(Seq<char>, bool)> {
        self.results@.map_values(|r: (String, bool)| (r.0@, r.1))
    }

    /// The cursor is at a proposal in hand until all are done; one outcome per proposal
    /// done; the executor was called at most once per proposal done and per policy
    /// allowance; while the safety check or the execution of a proposal is pending, its
    /// allowance is the latest and not yet executed.
    pub closed spec fn wf(&self) -> bool {
        &&& self.next <= self.proposals@.len()
        &&& (self.stage == SessionStage::Done) == (self.next == self.proposals@.len())
        &&& self.results@.len() == self.next
        &&& self.executor_calls <= self.next
        &&& self.executor_calls <= self.approved@.len()
        &&& (self.stage == SessionStage::Safety || self.stage == SessionStage::Executing) ==> {
            &&& self.approved@.len() > 0
            &&& self.approved@.last().proposal_id == self.proposals@[self.next as int].id
            &&& self.executor_calls < self.approved@.len()
        }
    }

    /// A session over `proposals`, checking the first against the policy (or done when
    /// there are none).
    pub fn start(proposals: Vec<Proposal>) -> (r: (Self, SessionRequest))
        ensures
            r.0.wf(),
            r.0.proposals() == proposals@,
            r.0.cursor() == 0,
            r.0.allowances().len() == 0,
            r.0.calls() == 0,
            r.0.outcomes().len() == 0,
            proposals@.len() > 0 ==> r.0.stage() == SessionStage::Policy && r.1 == SessionRequest::CheckPolicy(0),
            proposals@.len() == 0 ==> r.0.stage() == SessionStage::Done && r.1 is Finish,
    {
        let n = proposals.len();
        let s = ExecuteSession {
            proposals,
            next: 0,
            stage: if n > 0 { SessionStage::Policy } else { SessionStage::Done },
            approved: Vec::new(),
            executor_calls: 0,
            results: Vec::new(),
        };
        proof {
            assert(s.results@.map_values(|r: (String, bool)| (r.0@, r.1)) =~= Seq::empty());
        }
        (s, if n > 0 { SessionRequest::CheckPolicy(0) } else { SessionRequest::Finish })
    }

    /// Closes the proposal in hand, recording whether the executor was called for it.
    fn close(&mut self, called: bool) -> (next: SessionRequest)
        requires
            old(self).next < old(self).proposals@.len(),
            old(self).results@.len() == old(self).next,
            old(self).executor_calls <= old(self).next,
            old(self).executor_calls <= old(self).approved@.len(),
        ensures
            final(self).wf(),
            final(self).proposals == old(self).proposals,
            final(self).approved == old(self).approved,
            final(self).executor_calls == old(self).executor_calls,
            final(self).next == old(self).next + 1,
            final(self).outcomes() == old(self).outcomes().push((old(self).proposals@[old(self).next as int].id@, called)),
            final(self).stage == (if old(self).next + 1 < old(self).proposals@.len() { SessionStage::Policy } else { SessionStage::Done }),
            after_proposal(next, old(self).next as int, old(self).proposals@.len() as int),
    {
        let ghost before = self.results@;
        let n = self.proposals.len();
        let id = self.proposals[self.next].id.as_str().to_owned();
        self.results.push((id, called));
        proof {
            assert(self.results@.map_values(|r: (String, bool)| (r.0@, r.1))
                =~= before.map_values(|r: (String, bool)| (r.0@, r.1)).push((self.proposals@[self.next as int].id@, called)));
        }
        self.next = self.next + 1;
        if self.next < n {
            self.stage = SessionStage::Policy;
            SessionRequest::CheckPolicy(self.next)
        } else {
            self.stage = SessionStage::Done;
            SessionRequest::Finish
        }
    }

    /// Hands over the policy's answer about the proposal in hand (see `policy_lines`). An
    /// allowance records an approved decision (see `is_allowance`) and asks for the safety
    /// check; a denial or an error closes the proposal without calling the executor.
    pub fn policy_checked(&mut self, check: PolicyCheck, ids: &mut IdSource) -> (step: SessionStep)
        requires
            old(self).wf(),
            old(self).stage() == SessionStage::Policy,
        ensures
            final(self).wf(),
            final(self).proposals() == old(self).proposals(),
            final(self).calls() == old(self).calls(),
            texts(step.lines@) == policy_lines(old(self).proposals()[old(self).cursor()], check),
            match check {
                PolicyCheck::Allow => {
                    &&& final(self).cursor() == old(self).cursor()
                    &&& final(self).stage() == SessionStage::Safety
                    &&& final(self).allowances().len() == old(self).allowances().len() + 1
                    &&& final(self).allowances().drop_last() == old(self).allowances()
                    &&& is_allowance(final(self).allowances().last(), old(self).proposals()[old(self).cursor()], old(ids).decision)
                    &&& *final(ids) == (IdSource { decision: next_sequence(old(ids).decision), ..*old(ids) })
                    &&& final(self).outcomes() == old(self).outcomes()
                    &&& step.next == SessionRequest::ValidateSafety(old(self).cursor() as usize)
                },
                _ => {
                    &&& final(self).cursor() == old(self).cursor() + 1
                    &&& final(self).allowances() == old(self).allowances()
                    &&& *final(ids) == *old(ids)
                    &&& final(self).outcomes() == old(self).outcomes().push((old(self).proposals()[old(self).cursor()].id@, false))
                    &&& after_proposal(step.next, old(self).cursor(), old(self).proposals().len() as int)
                },
            },
    {
        let i = self.next;
        let mut head = String::new();
        head.append("  Action ");
        head.append(label(self.proposals[i].id.as_str()).as_str());
        head.append(": Policy ");
        let kind = concat_kind(&self.proposals[i]);
        let mut lines: Vec<String> = Vec::new();
        let ghost p = self.proposals@[i as int];
        match check {
            PolicyCheck::Allow => {
                head.append("ALLOW");
                lines.push(head);
                lines.push(kind);
                let decision = Decision {
                    id: ids.next_decision_id(),
                    proposal_id: self.proposals[i].id.clone(),
                    decided_at: now_utc(),
                    decided_by: AgentId::from_string("action-proposal-policy"),
                    outcome: DecisionOutcome::Approved,
                    explanation: "allowed by action proposal policy".to_owned(),
                };
                let ghost before = self.approved@;
                self.approved.push(decision);
                proof {
                    assert(self.approved@.drop_last() =~= before);
                }
                self.stage = SessionStage::Safety;
                proof {
                    assert(texts(lines@) =~= policy_lines(p, PolicyCheck::Allow));
                }
                SessionStep { lines, next: SessionRequest::ValidateSafety(i) }
            },
            PolicyCheck::Deny(reason) => {
                head.append("DENY \u{2014} ");
                head.append(reason.as_str());
                assert(head@ =~= policy_line(p, "DENY \u{2014} "@ + reason@));
                lines.push(head);
                lines.push(kind);
                lines.push("           Executor SKIPPED".to_owned());
                lines.push(String::new());
                proof {
                    assert(texts(lines@) =~= policy_lines(p, PolicyCheck::Deny(reason)));
                }
                let next = self.close(false);
                SessionStep { lines, next }
            },
            PolicyCheck::Error(e) => {
                head.append("ERROR \u{2014} ");
                head.append(e.to_message().as_str());
                assert(head@ =~= policy_line(p, "ERROR \u{2014} "@ + app_error_text(e)));
                lines.push(head);
                lines.push("           Executor SKIPPED".to_owned());
                lines.push(String::new());
                proof {
                    assert(texts(lines@) =~= policy_lines(p, PolicyCheck::Error(e)));
                }
                let next = self.close(false);
                SessionStep { lines, next }
            },
        }
    }

    /// Hands over the safety validation of the proposal in hand (see `safety_lines`). A
    /// pass asks to execute the proposal's action under its allowance; a veto closes the
    /// proposal without calling the executor.
    pub fn safety_checked(&mut self, result: Result<(), String>) -> (step: SessionStep)
        requires
            old(self).wf(),
            old(self).stage() == SessionStage::Safety,
        ensures
            final(self).wf(),
            final(self).proposals() == old(self).proposals(),
            final(self).allowances() == old(self).allowances(),
            final(self).calls() == old(self).calls(),
            texts(step.lines@) == safety_lines(result),
            match result {
                Ok(()) => {
                    &&& final(self).cursor() == old(self).cursor()
                    &&& final(self).stage() == SessionStage::Executing
                    &&& final(self).outcomes() == old(self).outcomes()
                    &&& step.next == SessionRequest::Execute(ApprovedAction {
                        request: old(self).proposals()[old(self).cursor()].requested_action,
                        decision_id: old(self).allowances().last().id,
                    })
                },
                Err(_) => {
                    &&& final(self).cursor() == old(self).cursor() + 1
                    &&& final(self).outcomes() == old(self).outcomes().push((old(self).proposals()[old(self).cursor()].id@, false))
                    &&& after_proposal(step.next, old(self).cursor(), old(self).proposals().len() as int)
                },
            },
    {
        let mut lines: Vec<String> = Vec::new();
        match result {
            Ok(()) => {
                lines.push("           Safety ALLOW".to_owned());
                proof {
                    assert(texts(lines@) =~= safety_lines(Ok(())));
                }
                self.stage = SessionStage::Executing;
                let i = self.next;
                let last = self.approved.len() - 1;
                let action = ApprovedAction {
                    request: self.proposals[i].requested_action.clone(),
                    decision_id: self.approved[last].id.clone(),
                };
                SessionStep { lines, next: SessionRequest::Execute(action) }
            },
            Err(reason) => {
                let mut veto = "           Safety VETO \u{2014} ".to_owned();
                veto.append(reason.as_str());
                lines.push(veto);
                lines.push("           Executor SKIPPED".to_owned());
                lines.push(String::new());
                proof {
                    assert(texts(lines@) =~= safety_lines(Err(reason)));
                }
                let next = self.close(false);
                SessionStep { lines, next }
            },
        }
    }

    /// Hands over the outcome of executing the proposal in hand (see `execution_lines`):
    /// either way the executor was called, and the proposal is closed.
    pub fn executed(&mut self, result: &Result<ActionResult, AppError>) -> (step: SessionStep)
        requires
            old(self).wf(),
            old(self).stage() == SessionStage::Executing,
        ensures
            final(self).wf(),
            final(self).proposals() == old(self).proposals(),
            final(self).allowances() == old(self).allowances(),
            final(self).calls() == old(self).calls() + 1,
            final(self).cursor() == old(self).cursor() + 1,
            final(self).outcomes() == old(self).outcomes().push((old(self).proposals()[old(self).cursor()].id@, true)),
            texts(step.lines@) == execution_lines(*result),
            after_proposal(step.next, old(self).cursor(), old(self).proposals().len() as int),
    {
        let mut lines: Vec<String> = Vec::new();
        match result {
            Ok(res) => {
                let mut called = "           Executor CALLED \u{2014} ".to_owned();
                called.append(res.message.as_str());
                called.append(" (");
                called.append(status_debug(&res.status));
                called.append(", ");
                push_decimal(&mut called, res.duration_ms);
                called.append("ms)");
                lines.push(called);
                match &res.rollback {
                    Some(t) => {
                        let mut token = "             rollback token: ".to_owned();
                        token.append(t.token.as_str());
                        lines.push(token);
                    },
                    None => {},
                }
                lines.push(String::new());
            },
            Err(e) => {
                let mut failed = "           Executor CALLED \u{2014} FAILED: ".to_owned();
                failed.append(e.to_message().as_str());
                lines.push(failed);
                lines.push(String::new());
            },
        }
        proof {
            reveal_strlit("");
            assert(texts(lines@) =~= execution_lines(*result));
        }
        let next = self.close(true);
        proof {
            assert(self.executor_calls < self.next);
            assert(self.executor_calls < self.approved@.len());
        }
        self.executor_calls = self.executor_calls + 1;
        SessionStep { lines, next }
    }

    /// Where the session stands.
    pub fn current_stage(&self) -> (s: SessionStage)
        ensures
            s == self.stage(),
    {
        self.stage
    }

    /// The summary of a finished session (see `summary_lines`).
    pub fn summary(&self) -> (lines: Vec<String>)
        requires
            self.wf(),
            self.stage() == SessionStage::Done,
        ensures
            texts(lines@) == summary_lines(self.proposals().len(), self.allowances().len(), self.calls() as nat),
            self.calls() <= self.allowances().len(),
    {
        let total = self.proposals.len() as u64;
        let allowed = self.approved.len() as u64;
        let mut lines: Vec<String> = Vec::new();
        lines.push("--- Summary ---".to_owned());
        lines.push(with_decimal("  Total actions: ", total));
        lines.push(with_decimal("  Policy ALLOW:  ", allowed));
        lines.push(with_decimal("  Executor calls: ", self.executor_calls));
        if self.executor_calls == 0 && total > 0 {
            lines.push("  Guard: Actions blocked by governance \u{2014} executor never called.".to_owned());
        }
        lines.push(String::new());
        lines.push("Pipeline complete.".to_owned());
        proof {
            reveal_strlit("");
            assert(texts(lines@) =~= summary_lines(self.proposals().len(), self.allowances().len(), self.calls() as nat));
        }
        lines
    }
}

/// The label of a proposal id (see `before_dash`).
fn label(id: &str) -> (l: String)
    ensures
        l@ == before_dash(id@),
{
    let cs = crate::text::chars_of(id);
    let mut k: usize = 0;
    while k < cs.len() && cs[k] != '-'
        invariant
            cs@ == id@,
            k <= cs@.len(),
            forall|j: int| 0 <= j < k ==> id@[j] != '-',
        decreases cs.len() - k,
    {
        k = k + 1;
    }
    proof {
        lemma_before_dash(id@, k as int);
    }
    id.substring_char(0, k).to_owned()
}

proof fn lemma_before_dash(s: Seq<char>, k: int)
    requires
        0 <= k <= s.len(),
        forall|j: int| 0 <= j < k ==> s[j] != '-',
        k == s.len() || s[k] == '-',
    ensures
        before_dash(s) == s.subrange(0, k),
    decreases s.len(),
{
    if s.len() > 0 && k > 0 {
        lemma_before_dash(s.skip(1), k - 1);
        assert(s.subrange(0, k) =~= seq![s[0]] + s.skip(1).subrange(0, k - 1));
    } else if s.len() > 0 {
        assert(s.subrange(0, k) =~= Seq::<char>::empty());
    }
}

/// The kind line of `p` (see `kind_line`).
fn concat_kind(p: &Proposal) -> (l: String)
    ensures
        l@ == kind_line(*p),
{
    let mut l = "           Kind: ".to_owned();
    l.append(kind_debug(&p.requested_action.kind).as_str());
    l
}

/// The lines that introduce a session over `proposals` for `plan` and its action graph
/// (see `header_lines`).
pub fn session_header(plan: &TaskPlan, graph: &ActionGraph, proposals: &[Proposal]) -> (lines: Vec<String>)
    ensures
        texts(lines@) == header_lines(*plan, graph.nodes@.len(), graph.edges@.len(), proposals@),
{
    let mut lines: Vec<String> = Vec::new();
    let mut l = "Plan: ".to_owned();
    l.append(plan.id.as_str());
    l.append(" (");
    push_decimal(&mut l, plan.steps.len() as u64);
    l.append(" steps)");
    lines.push(l);
    let mut l = "Status: ".to_owned();
    l.append(plan.status.as_str());
    lines.push(l);
    lines.push(String::new());
    let mut l = with_decimal("Action Graph: ", graph.node_count() as u64);
    l.append(" nodes, ");
    push_decimal(&mut l, graph.edge_count() as u64);
    l.append(" edges");
    lines.push(l);
    lines.push(String::new());
    lines.push(with_decimal("Proposals created: ", proposals.len() as u64));
    let ghost head = texts(lines@);
    proof {
        reveal_strlit("");
        assert(head =~= seq![
            "Plan: "@ + plan.id@ + " ("@ + decimal(plan.steps@.len()) + " steps)"@,
            "Status: "@ + plan.status@,
            Seq::empty(),
            "Action Graph: "@ + decimal(graph.nodes@.len()) + " nodes, "@ + decimal(graph.edges@.len()) + " edges"@,
            Seq::empty(),
            "Proposals created: "@ + decimal(proposals@.len()),
        ]);
    }
    let mut k: usize = 0;
    while k < proposals.len()
        invariant
            k <= proposals@.len(),
            texts(lines@) == head + Seq::new(k as nat, |i: int| "  Proposal "@ + proposals@[i].id@ + ": "@
                + kind_text(proposals@[i].requested_action.kind) + " (safety="@
                + safety_text(proposals@[i].requested_action.safety_level) + ")"@),
        decreases proposals.len() - k,
    {
        let mut l = "  Proposal ".to_owned();
        l.append(proposals[k].id.as_str());
        l.append(": ");
        l.append(kind_debug(&proposals[k].requested_action.kind).as_str());
        l.append(" (safety=");
        l.append(safety_debug(&proposals[k].requested_action.safety_level));
        l.append(")");
        let ghost before = lines@;
        let ghost line = l@;
        lines.push(l);
        proof {
            assert(texts(lines@) =~= texts(before).push(line));
            assert(Seq::new((k + 1) as nat, |i: int| "  Proposal "@ + proposals@[i].id@ + ": "@
                + kind_text(proposals@[i].requested_action.kind) + " (safety="@
                + safety_text(proposals@[i].requested_action.safety_level) + ")"@)
                =~= Seq::new(k as nat, |i: int| "  Proposal "@ + proposals@[i].id@ + ": "@
                + kind_text(proposals@[i].requested_action.kind) + " (safety="@
                + safety_text(proposals@[i].requested_action.safety_level) + ")"@).push(line));
        }
        k = k + 1;
    }
    let ghost mid = texts(lines@);
    lines.push(String::new());
    lines.push("--- Governance Results ---".to_owned());
    lines.push(String::new());
    proof {
        assert(texts(lines@) =~= mid + seq![Seq::empty(), "--- Governance Results ---"@, Seq::empty()]);
    }
    lines
}

/// The payload stored for an execution that failed with `e`: `{"error":"<e>"}`.
pub fn error_payload(e: &AppError) -> (s: String)
    ensures
        s@ == "{\"error\":\""@ + app_error_text(*e) + "\"}"@,
{
    let mut s = "{\"error\":\"".to_owned();
    s.append(e.to_message().as_str());
    s.append("\"}");
    s
}

} // verus!
