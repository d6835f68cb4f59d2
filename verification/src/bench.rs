//! Benchmark vocabulary: workload kinds, pipeline modes and per-tick results.
use vstd::prelude::*;
use crate::domain::action::ActionKind;
use crate::text::{decimal, push_decimal, push_zero_padded, with_decimal, zero_padded};
use crate::domain::number::Real64;
use crate::domain::observation::{Observation, ObservationPayload, ObservationSource, ProcessObservation};
use crate::ids::IdSource;

verus! {

/// The synthetic workloads.
#[derive(Clone, Copy, Debug, PartialEq, Eq, Structural)]
pub enum WorkloadKind {
    CpuContention,
    MemoryPressure,
    Mixed,
    ProcessExplosion,
    IncidentStorm,
}

pub open spec fn workload_name(k: WorkloadKind) -> Seq<char> {
    match k {
        WorkloadKind::CpuContention => "cpu-contention"@,
        WorkloadKind::MemoryPressure => "memory-pressure"@,
        WorkloadKind::Mixed => "mixed"@,
        WorkloadKind::ProcessExplosion => "process-explosion"@,
        WorkloadKind::IncidentStorm => "incident-storm"@,
    }
}

impl WorkloadKind {
    pub fn name(&self) -> (s: &'static str)
        ensures
            s@ == workload_name(*self),
    {
        match self {
            WorkloadKind::CpuContention => "cpu-contention",
            WorkloadKind::MemoryPressure => "memory-pressure",
            WorkloadKind::Mixed => "mixed",
            WorkloadKind::ProcessExplosion => "process-explosion",
            WorkloadKind::IncidentStorm => "incident-storm",
        }
    }
}

/// Which parts of the pipeline a comparative run exercises.
#[derive(Clone, Copy, Debug, PartialEq, Eq, Structural)]
pub enum PipelineMode {
    /// The policy kernel alone (no agents, no safety governor).
    PolicyOnly,
    /// Agents and the policy kernel (no safety governor).
    AgentsAndPolicy,
    /// Agents, the policy kernel and the safety governor.
    Full,
}

pub open spec fn mode_label(m: PipelineMode) -> Seq<char> {
    match m {
        PipelineMode::PolicyOnly => "policy-only"@,
        PipelineMode::AgentsAndPolicy => "agents+policy"@,
        PipelineMode::Full => "full"@,
    }
}

impl PipelineMode {
    pub fn label(&self) -> (s: &'static str)
        ensures
            s@ == mode_label(*self),
    {
        match self {
            PipelineMode::PolicyOnly => "policy-only",
            PipelineMode::AgentsAndPolicy => "agents+policy",
            PipelineMode::Full => "full",
        }
    }

    /// Whether a pass in this mode consults the agents (all modes but policy-only).
    pub fn uses_agents(&self) -> (b: bool)
        ensures
            b == !(*self is PolicyOnly),
    {
        !matches!(self, PipelineMode::PolicyOnly)
    }

    /// Whether a pass in this mode consults the safety governor and executes (the full
    /// pipeline only).
    pub fn uses_safety(&self) -> (b: bool)
        ensures
            b == (*self is Full),
    {
        matches!(self, PipelineMode::Full)
    }
}

/// Per-tick counts of a comparative run.
#[derive(Clone, Debug, PartialEq, Eq)]
pub struct ComparativeTickResult {
    pub mode: String,
    pub tick: u64,
    pub proposal_count: u64,
    pub incident_count: u64,
    pub veto_count: u64,
    pub decision_count: u64,
    pub approved_count: u64,
    pub denied_count: u64,
    pub executor_count: u64,
}

/// A tick at which a replay diverged from the baseline run.
#[derive(Clone, Debug, PartialEq, Eq)]
pub struct ReplayMismatch {
    pub iteration: usize,
    pub tick: u64,
    pub detail: String,
}

impl ReplayMismatch {
    /// The mismatch with its detail taken as a character sequence.
    pub open spec fn view_mismatch(self) -> (int, u64, Seq<char>) {
        (self.iteration as int, self.tick, self.detail@)
    }
}

/// The counts of one benchmark tick (its timings aside).
#[derive(Clone, Copy, Debug, PartialEq, Eq, Structural)]
pub struct TickCounts {
    pub tick: u64,
    pub obs_count: u64,
    pub proposal_count: u64,
    pub incident_count: u64,
    pub approved_count: u64,
    pub denied_count: u64,
    pub veto_count: u64,
    pub executor_count: u64,
}

/// The totals of a benchmark run's counts.
#[derive(Clone, Copy, Debug, PartialEq, Eq, Structural)]
pub struct CountTotals {
    pub ticks: u64,
    pub total_proposals: u64,
    pub total_incidents: u64,
    pub total_vetoes: u64,
    pub total_approved: u64,
    pub total_denied: u64,
    pub total_executions: u64,
}

/// The sum of `f` over the ticks `s`.
pub open spec fn total_of(s: Seq<TickCounts>, f: spec_fn(TickCounts) -> u64) -> int
    decreases s.len(),
{
    if s.len() == 0 { 0 } else { total_of(s.drop_last(), f) + f(s.last()) }
}

/// The proposals of a tick.
pub open spec fn proposals_of(c: TickCounts) -> u64 {
    c.proposal_count
}

/// The incidents of a tick.
pub open spec fn incidents_of(c: TickCounts) -> u64 {
    c.incident_count
}

/// The vetoes of a tick.
pub open spec fn vetoes_of(c: TickCounts) -> u64 {
    c.veto_count
}

/// The approvals of a tick.
pub open spec fn approved_of(c: TickCounts) -> u64 {
    c.approved_count
}

/// The denials of a tick.
pub open spec fn denied_of(c: TickCounts) -> u64 {
    c.denied_count
}

/// The executed actions of a tick.
pub open spec fn executions_of(c: TickCounts) -> u64 {
    c.executor_count
}
/// Every total of `s` fits in 64 bits.
pub open spec fn totals_fit(s: Seq<TickCounts>) -> bool {
    &&& total_of(s, |c: TickCounts| proposals_of(c)) <= u64::MAX
    &&& total_of(s, |c: TickCounts| incidents_of(c)) <= u64::MAX
    &&& total_of(s, |c: TickCounts| vetoes_of(c)) <= u64::MAX
    &&& total_of(s, |c: TickCounts| approved_of(c)) <= u64::MAX
    &&& total_of(s, |c: TickCounts| denied_of(c)) <= u64::MAX
    &&& total_of(s, |c: TickCounts| executions_of(c)) <= u64::MAX
}

/// The outcome of a deterministic replay of a workload: the run's parameters, whether
/// every replay matched the baseline, how many did, every mismatch found, and the
/// baseline run's totals.
#[derive(Clone, Debug, PartialEq, Eq)]
pub struct ReplayOutcome {
    pub workload: String,
    pub seed: u64,
    pub ticks: u64,
    pub iterations: usize,
    pub passed: bool,
    pub passes: usize,
    pub mismatches: Vec<ReplayMismatch>,
    pub total_approved: u64,
    pub total_denied: u64,
    pub total_vetoes: u64,
    pub total_incidents: u64,
}

/// The number of replays after the baseline run in `iterations` runs of a workload.
pub open spec fn replay_count(iterations: usize) -> nat {
    if iterations == 0 { 0 } else { (iterations - 1) as nat }
}

/// How many of `runs` replay `base` exactly.
pub open spec fn exact_runs(runs: Seq<Seq<TickCounts>>, base: Seq<TickCounts>) -> nat
    decreases runs.len(),
{
    if runs.len() == 0 {
        0
    } else {
        exact_runs(runs.drop_last(), base) + if replays_exactly(runs.last(), base) { 1nat } else { 0nat }
    }
}

/// The detail of a mismatch of `field`: `"<field> mismatch: got <got> expected <expected>"`.
pub open spec fn mismatch_text(field: Seq<char>, got: u64, expected: u64) -> Seq<char> {
    field + " mismatch: got "@ + decimal(got as nat) + " expected "@ + decimal(expected as nat)
}

/// `acc` followed by the mismatch of `field` at `tick` of replay `iteration`, when `got`
/// differs from `expected`.
pub open spec fn note_mismatch(
    acc: Seq<(int, u64, Seq<char>)>,
    iteration: int,
    tick: u64,
    field: Seq<char>,
    got: u64,
    expected: u64,
) -> Seq<(int, u64, Seq<char>)> {
    if got != expected { acc.push((iteration, tick, mismatch_text(field, got, expected))) } else { acc }
}

/// The mismatches of one replayed tick `s` against the baseline tick `b`, for replay
/// number `iteration`, at `s`'s tick: one per count that differs, in this order:
/// observations, proposals, incidents, approvals, denials, vetoes.
pub open spec fn tick_mismatches(iteration: int, s: TickCounts, b: TickCounts) -> Seq<(int, u64, Seq<char>)> {
    let t = s.tick;
    let m1 = note_mismatch(Seq::empty(), iteration, t, "obs_count"@, s.obs_count, b.obs_count);
    let m2 = note_mismatch(m1, iteration, t, "proposal_count"@, s.proposal_count, b.proposal_count);
    let m3 = note_mismatch(m2, iteration, t, "incident_count"@, s.incident_count, b.incident_count);
    let m4 = note_mismatch(m3, iteration, t, "approved_count"@, s.approved_count, b.approved_count);
    let m5 = note_mismatch(m4, iteration, t, "denied_count"@, s.denied_count, b.denied_count);
    note_mismatch(m5, iteration, t, "veto_count"@, s.veto_count, b.veto_count)
}

/// The mismatches, as tuples.
pub open spec fn mismatch_views(ms: Seq<ReplayMismatch>) -> Seq<(int, u64, Seq<char>)> {
    ms.map_values(|m: ReplayMismatch| m.view_mismatch())
}

/// The ticks of each run.
pub open spec fn run_views(runs: Seq<Vec<TickCounts>>) -> Seq<Seq<TickCounts>> {
    runs.map_values(|r: Vec<TickCounts>| r@)
}

/// The mismatches of replay number `iteration`, whose ticks are `run`, against the
/// baseline ticks `base`: a single mismatch at tick 0 when the numbers of ticks differ;
/// else the mismatches of each tick, in tick order.
pub open spec fn run_mismatches(iteration: int, run: Seq<TickCounts>, base: Seq<TickCounts>) -> Seq<(int, u64, Seq<char>)> {
    if run.len() != base.len() {
        seq![(iteration, 0u64, mismatch_text("sample count"@, run.len() as u64, base.len() as u64))]
    } else {
        ticks_mismatches(iteration, run, base)
    }
}

/// The mismatches of the ticks of `run` against those of `base`, which has at least as
/// many, in tick order.
pub open spec fn ticks_mismatches(iteration: int, run: Seq<TickCounts>, base: Seq<TickCounts>) -> Seq<(int, u64, Seq<char>)>
    decreases run.len(),
{
    if run.len() == 0 {
        Seq::empty()
    } else {
        ticks_mismatches(iteration, run.drop_last(), base)
            + tick_mismatches(iteration, run.last(), base[run.len() - 1])
    }
}

/// The mismatches of all replays `runs` against `base`, replay `k` being iteration
/// number `k + 1` (the baseline run is iteration 0).
pub open spec fn replay_mismatches(runs: Seq<Seq<TickCounts>>, base: Seq<TickCounts>) -> Seq<(int, u64, Seq<char>)>
    decreases runs.len(),
{
    if runs.len() == 0 {
        Seq::empty()
    } else {
        replay_mismatches(runs.drop_last(), base) + run_mismatches(runs.len() as int, runs.last(), base)
    }
}

/// `s` and `b` agree on every compared count.
pub open spec fn same_counts(s: TickCounts, b: TickCounts) -> bool {
    &&& s.obs_count == b.obs_count
    &&& s.proposal_count == b.proposal_count
    &&& s.incident_count == b.incident_count
    &&& s.approved_count == b.approved_count
    &&& s.denied_count == b.denied_count
    &&& s.veto_count == b.veto_count
}

/// `run` replays `base` exactly: as many ticks, each agreeing on every compared count.
pub open spec fn replays_exactly(run: Seq<TickCounts>, base: Seq<TickCounts>) -> bool {
    run.len() == base.len() && forall|i: int| 0 <= i < run.len() ==> same_counts(#[trigger] run[i], base[i])
}

/// The variant name of an action kind.
pub open spec fn kind_name(kind: ActionKind) -> Seq<char> {
    match kind {
        ActionKind::CgroupCreate { .. } => "CgroupCreate"@,
        ActionKind::CgroupSetCpuWeight { .. } => "CgroupSetCpuWeight"@,
        ActionKind::CgroupSetCpuMax { .. } => "CgroupSetCpuMax"@,
        ActionKind::CgroupSetMemoryMax { .. } => "CgroupSetMemoryMax"@,
        ActionKind::CgroupMovePid { .. } => "CgroupMovePid"@,
        ActionKind::ProcessFreezeGroup { .. } => "ProcessFreezeGroup"@,
        ActionKind::ProcessThawGroup { .. } => "ProcessThawGroup"@,
        ActionKind::ProcessTerminateGroup { .. } => "ProcessTerminateGroup"@,
        ActionKind::WorkloadClassifyRecommend { .. } => "WorkloadClassifyRecommend"@,
        ActionKind::ObserveOnly => "ObserveOnly"@,
        ActionKind::LaunchApplication { .. } => "LaunchApplication"@,
        ActionKind::OpenUrl { .. } => "OpenUrl"@,
        ActionKind::RunCommand { .. } => "RunCommand"@,
        ActionKind::CreateDirectory { .. } => "CreateDirectory"@,
        ActionKind::OpenFile { .. } => "OpenFile"@,
        ActionKind::CloneRepository { .. } => "CloneRepository"@,
        ActionKind::CreateProjectWorkspace { .. } => "CreateProjectWorkspace"@,
    }
}

/// The variant name of an action kind, used to break counts down by kind.
pub fn action_kind_name(kind: &ActionKind) -> (s: &'static str)
    ensures
        s@ == kind_name(*kind),
{
    match kind {
        ActionKind::CgroupCreate { .. } => "CgroupCreate",
        ActionKind::CgroupSetCpuWeight { .. } => "CgroupSetCpuWeight",
        ActionKind::CgroupSetCpuMax { .. } => "CgroupSetCpuMax",
        ActionKind::CgroupSetMemoryMax { .. } => "CgroupSetMemoryMax",
        ActionKind::CgroupMovePid { .. } => "CgroupMovePid",
        ActionKind::ProcessFreezeGroup { .. } => "ProcessFreezeGroup",
        ActionKind::ProcessThawGroup { .. } => "ProcessThawGroup",
        ActionKind::ProcessTerminateGroup { .. } => "ProcessTerminateGroup",
        ActionKind::WorkloadClassifyRecommend { .. } => "WorkloadClassifyRecommend",
        ActionKind::ObserveOnly => "ObserveOnly",
        ActionKind::LaunchApplication { .. } => "LaunchApplication",
        ActionKind::OpenUrl { .. } => "OpenUrl",
        ActionKind::RunCommand { .. } => "RunCommand",
        ActionKind::CreateDirectory { .. } => "CreateDirectory",
        ActionKind::OpenFile { .. } => "OpenFile",
        ActionKind::CloneRepository { .. } => "CloneRepository",
        ActionKind::CreateProjectWorkspace { .. } => "CreateProjectWorkspace",
    }
}

/// The cgroup file that an action of this kind writes (`"none"` for kinds that write none).
pub open spec fn kind_file(kind: ActionKind) -> Seq<char> {
    match kind {
        ActionKind::CgroupCreate { .. } => "cgroup.subtree_control"@,
        ActionKind::CgroupSetCpuWeight { .. } => "cpu.weight"@,
        ActionKind::CgroupSetCpuMax { .. } => "cpu.max"@,
        ActionKind::CgroupSetMemoryMax { .. } => "memory.max"@,
        ActionKind::CgroupMovePid { .. } => "cgroup.procs"@,
        ActionKind::ProcessFreezeGroup { .. } => "cgroup.freeze"@,
        ActionKind::ProcessThawGroup { .. } => "cgroup.freeze"@,
        ActionKind::ProcessTerminateGroup { .. } => "cgroup.procs"@,
        _ => "none"@,
    }
}

/// The cgroup file that an action of this kind writes (see `kind_file`).
pub fn action_kind_file(kind: &ActionKind) -> (s: &'static str)
    ensures
        s@ == kind_file(*kind),
{
    match kind {
        ActionKind::CgroupCreate { .. } => "cgroup.subtree_control",
        ActionKind::CgroupSetCpuWeight { .. } => "cpu.weight",
        ActionKind::CgroupSetCpuMax { .. } => "cpu.max",
        ActionKind::CgroupSetMemoryMax { .. } => "memory.max",
        ActionKind::CgroupMovePid { .. } => "cgroup.procs",
        ActionKind::ProcessFreezeGroup { .. } => "cgroup.freeze",
        ActionKind::ProcessThawGroup { .. } => "cgroup.freeze",
        ActionKind::ProcessTerminateGroup { .. } => "cgroup.procs",
        _ => "none",
    }
}


/// Appends the mismatch of `field` when `got` differs from `expected`.
fn push_mismatch(out: &mut Vec<ReplayMismatch>, iteration: usize, tick: u64, field: &str, got: u64, expected: u64)
    ensures
        mismatch_views(final(out)@) == note_mismatch(
            mismatch_views(old(out)@),
            iteration as int,
            tick,
            field@,
            got,
            expected,
        ),
{
    if got != expected {
        let mut detail = String::new();
        detail.append(field);
        detail.append(" mismatch: got ");
        push_decimal(&mut detail, got);
        detail.append(" expected ");
        push_decimal(&mut detail, expected);
        let ghost before = out@;
        out.push(ReplayMismatch { iteration, tick, detail });
        proof {
            assert(mismatch_views(out@) =~= mismatch_views(before).push(out@[out@.len() - 1].view_mismatch()));
        }
    }
}

/// Appends the mismatches of replayed tick `s` against baseline tick `b`.
fn compare_tick(out: &mut Vec<ReplayMismatch>, iteration: usize, s: &TickCounts, b: &TickCounts)
    ensures
        mismatch_views(final(out)@) == mismatch_views(old(out)@) + tick_mismatches(iteration as int, *s, *b),
{
    let ghost start = mismatch_views(out@);
    push_mismatch(out, iteration, s.tick, "obs_count", s.obs_count, b.obs_count);
    push_mismatch(out, iteration, s.tick, "proposal_count", s.proposal_count, b.proposal_count);
    push_mismatch(out, iteration, s.tick, "incident_count", s.incident_count, b.incident_count);
    push_mismatch(out, iteration, s.tick, "approved_count", s.approved_count, b.approved_count);
    push_mismatch(out, iteration, s.tick, "denied_count", s.denied_count, b.denied_count);
    push_mismatch(out, iteration, s.tick, "veto_count", s.veto_count, b.veto_count);
    proof {
        lemma_note_appends(start, iteration as int, *s, *b);
    }
}

/// Noting mismatches after `acc` is `acc` followed by the tick's mismatches.
proof fn lemma_note_appends(acc: Seq<(int, u64, Seq<char>)>, iteration: int, s: TickCounts, b: TickCounts)
    ensures
        ({
            let t = s.tick;
            let m1 = note_mismatch(acc, iteration, t, "obs_count"@, s.obs_count, b.obs_count);
            let m2 = note_mismatch(m1, iteration, t, "proposal_count"@, s.proposal_count, b.proposal_count);
            let m3 = note_mismatch(m2, iteration, t, "incident_count"@, s.incident_count, b.incident_count);
            let m4 = note_mismatch(m3, iteration, t, "approved_count"@, s.approved_count, b.approved_count);
            let m5 = note_mismatch(m4, iteration, t, "denied_count"@, s.denied_count, b.denied_count);
            note_mismatch(m5, iteration, t, "veto_count"@, s.veto_count, b.veto_count)
        }) == acc + tick_mismatches(iteration, s, b),
{
    let t = s.tick;
    let e = Seq::<(int, u64, Seq<char>)>::empty();
    let m1 = note_mismatch(e, iteration, t, "obs_count"@, s.obs_count, b.obs_count);
    let m2 = note_mismatch(m1, iteration, t, "proposal_count"@, s.proposal_count, b.proposal_count);
    let m3 = note_mismatch(m2, iteration, t, "incident_count"@, s.incident_count, b.incident_count);
    let m4 = note_mismatch(m3, iteration, t, "approved_count"@, s.approved_count, b.approved_count);
    let m5 = note_mismatch(m4, iteration, t, "denied_count"@, s.denied_count, b.denied_count);
    let a1 = note_mismatch(acc, iteration, t, "obs_count"@, s.obs_count, b.obs_count);
    let a2 = note_mismatch(a1, iteration, t, "proposal_count"@, s.proposal_count, b.proposal_count);
    let a3 = note_mismatch(a2, iteration, t, "incident_count"@, s.incident_count, b.incident_count);
    let a4 = note_mismatch(a3, iteration, t, "approved_count"@, s.approved_count, b.approved_count);
    let a5 = note_mismatch(a4, iteration, t, "denied_count"@, s.denied_count, b.denied_count);
    assert(a1 =~= acc + m1);
    assert(a2 =~= acc + m2);
    assert(a3 =~= acc + m3);
    assert(a4 =~= acc + m4);
    assert(a5 =~= acc + m5);
    assert(note_mismatch(a5, iteration, t, "veto_count"@, s.veto_count, b.veto_count)
        =~= acc + note_mismatch(m5, iteration, t, "veto_count"@, s.veto_count, b.veto_count));
}

/// Appends the mismatches of replay number `iteration`, whose ticks are `run`, against the
/// baseline ticks `base`.
fn compare_run(out: &mut Vec<ReplayMismatch>, iteration: usize, run: &[TickCounts], base: &[TickCounts])
    ensures
        mismatch_views(final(out)@) == mismatch_views(old(out)@) + run_mismatches(iteration as int, run@, base@),
{
    if run.len() != base.len() {
        push_mismatch(out, iteration, 0, "sample count", run.len() as u64, base.len() as u64);
        proof {
            assert(run_mismatches(iteration as int, run@, base@)
                =~= note_mismatch(Seq::empty(), iteration as int, 0, "sample count"@, run.len() as u64, base.len() as u64));
            assert(mismatch_views(old(out)@) + seq![(iteration as int, 0u64, mismatch_text("sample count"@, run@.len() as u64, base@.len() as u64))]
                =~= mismatch_views(old(out)@).push((iteration as int, 0u64, mismatch_text("sample count"@, run@.len() as u64, base@.len() as u64))));
        }
        return;
    }
    let ghost start = mismatch_views(out@);
    let mut i: usize = 0;
    while i < run.len()
        invariant
            run@.len() == base@.len(),
            i <= run@.len(),
            mismatch_views(out@) == start + ticks_mismatches(iteration as int, run@.take(i as int), base@),
        decreases run.len() - i,
    {
        compare_tick(out, iteration, &run[i], &base[i]);
        proof {
            let next = run@.take(i + 1);
            assert(next.drop_last() =~= run@.take(i as int));
            assert(next.last() == run@[i as int]);
            assert(ticks_mismatches(iteration as int, next, base@)
                == ticks_mismatches(iteration as int, run@.take(i as int), base@)
                    + tick_mismatches(iteration as int, run@[i as int], base@[i as int]));
            assert(mismatch_views(out@) =~= start + ticks_mismatches(iteration as int, next, base@));
        }
        i = i + 1;
    }
    proof {
        assert(run@.take(run@.len() as int) =~= run@);
    }
}

/// Checks that replays of a workload reproduce its baseline run. The workload `kind` was
/// run `iterations` times with `seed`, `ticks` ticks each: `base` holds the counts of the
/// first (baseline) run and `runs` those of the others, replay `k` being iteration
/// `k + 1`. Each replay is compared with the baseline tick by tick on the counts of
/// `TickCounts`; the replay passes when no mismatch is found. The totals are the
/// baseline run's.
pub fn verify_deterministic_replay(
    kind: WorkloadKind,
    seed: u64,
    ticks: u64,
    iterations: usize,
    base: &[TickCounts],
    runs: &[Vec<TickCounts>],
) -> (r: ReplayOutcome)
    requires
        runs@.len() == replay_count(iterations),
        base@.len() <= u64::MAX,
        totals_fit(base@),
    ensures
        r.workload@ == workload_name(kind),
        r.seed == seed,
        r.ticks == ticks,
        r.iterations == iterations,
        mismatch_views(r.mismatches@) == replay_mismatches(run_views(runs@), base@),
        r.passed == (r.mismatches@.len() == 0),
        r.passes == exact_runs(run_views(runs@), base@),
        r.total_approved == total_of(base@, |c: TickCounts| approved_of(c)),
        r.total_denied == total_of(base@, |c: TickCounts| denied_of(c)),
        r.total_vetoes == total_of(base@, |c: TickCounts| vetoes_of(c)),
        r.total_incidents == total_of(base@, |c: TickCounts| incidents_of(c)),
{
    let mut out: Vec<ReplayMismatch> = Vec::new();
    let mut passes: usize = 0;
    let mut k: usize = 0;
    proof {
        assert(mismatch_views(out@) =~= Seq::empty());
        assert(run_views(runs@.take(0)) =~= Seq::empty());
    }
    while k < runs.len()
        invariant
            k <= runs@.len(),
            passes <= k,
            mismatch_views(out@) == replay_mismatches(run_views(runs@.take(k as int)), base@),
            passes == exact_runs(run_views(runs@.take(k as int)), base@),
        decreases runs.len() - k,
    {
        let before = out.len();
        let ghost old_views = mismatch_views(out@);
        compare_run(&mut out, k + 1, runs[k].as_slice(), base);
        proof {
            let next = runs@.take(k + 1);
            assert(run_views(next).drop_last() =~= run_views(runs@.take(k as int)));
            assert(run_views(next).last() == runs@[k as int]@);
            lemma_run_mismatches_empty((k + 1) as int, runs@[k as int]@, base@);
            assert(old_views.len() == before);
            assert(mismatch_views(out@).len() == out@.len());
            assert(out@.len() == before + run_mismatches((k + 1) as int, runs@[k as int]@, base@).len());
            assert(exact_runs(run_views(next), base@) == exact_runs(run_views(runs@.take(k as int)), base@)
                + if replays_exactly(runs@[k as int]@, base@) { 1nat } else { 0nat });
        }
        if out.len() == before {
            passes = passes + 1;
        }
        k = k + 1;
    }
    proof {
        assert(runs@.take(runs@.len() as int) =~= runs@);
    }
    let passed = out.len() == 0;
    let totals = aggregate_counts(base);
    ReplayOutcome {
        workload: kind.name().to_owned(),
        seed,
        ticks,
        iterations,
        passed,
        passes,
        mismatches: out,
        total_approved: totals.total_approved,
        total_denied: totals.total_denied,
        total_vetoes: totals.total_vetoes,
        total_incidents: totals.total_incidents,
    }
}

/// A replay has no mismatch exactly when it replays the baseline exactly.
proof fn lemma_run_mismatches_empty(iteration: int, run: Seq<TickCounts>, base: Seq<TickCounts>)
    ensures
        run_mismatches(iteration, run, base).len() == 0 <==> replays_exactly(run, base),
{
    if run.len() == base.len() {
        lemma_ticks_mismatches_empty(iteration, run, base);
    }
}

/// A tick's mismatches are none exactly when it agrees on every compared count.
proof fn lemma_tick_mismatches_empty(iteration: int, s: TickCounts, b: TickCounts)
    ensures
        tick_mismatches(iteration, s, b).len() == 0 <==> same_counts(s, b),
{
}

proof fn lemma_ticks_mismatches_empty(iteration: int, run: Seq<TickCounts>, base: Seq<TickCounts>)
    requires
        run.len() <= base.len(),
    ensures
        ticks_mismatches(iteration, run, base).len() == 0
            <==> forall|i: int| 0 <= i < run.len() ==> same_counts(#[trigger] run[i], base[i]),
    decreases run.len(),
{
    if run.len() > 0 {
        let rest = run.drop_last();
        lemma_ticks_mismatches_empty(iteration, rest, base);
        lemma_tick_mismatches_empty(iteration, run.last(), base[run.len() - 1]);
        if forall|i: int| 0 <= i < run.len() ==> same_counts(#[trigger] run[i], base[i]) {
            assert forall|i: int| 0 <= i < rest.len() implies same_counts(#[trigger] rest[i], base[i]) by {
                assert(rest[i] == run[i]);
            }
            assert(same_counts(run[run.len() - 1], base[run.len() - 1]));
        }
        if ticks_mismatches(iteration, run, base).len() == 0 {
            assert forall|i: int| 0 <= i < run.len() implies same_counts(#[trigger] run[i], base[i]) by {
                if i < run.len() - 1 {
                    assert(rest[i] == run[i]);
                }
            }
        }
    }
}

/// A replay passes exactly when every replayed run reproduces the baseline: as many ticks,
/// each with the same counts of observations, proposals, incidents, approvals, denials
/// and vetoes.
pub proof fn lemma_replay_passes_iff_exact(runs: Seq<Seq<TickCounts>>, base: Seq<TickCounts>)
    ensures
        replay_mismatches(runs, base).len() == 0
            <==> forall|k: int| 0 <= k < runs.len() ==> replays_exactly(#[trigger] runs[k], base),
    decreases runs.len(),
{
    if runs.len() > 0 {
        let rest = runs.drop_last();
        let last = runs.last();
        lemma_replay_passes_iff_exact(rest, base);
        if last.len() == base.len() {
            lemma_ticks_mismatches_empty(runs.len() as int, last, base);
        }
        if forall|k: int| 0 <= k < runs.len() ==> replays_exactly(#[trigger] runs[k], base) {
            assert forall|k: int| 0 <= k < rest.len() implies replays_exactly(#[trigger] rest[k], base) by {
                assert(rest[k] == runs[k]);
            }
            assert(replays_exactly(runs[runs.len() - 1], base));
        }
        if replay_mismatches(runs, base).len() == 0 {
            assert forall|k: int| 0 <= k < runs.len() implies replays_exactly(#[trigger] runs[k], base) by {
                if k < runs.len() - 1 {
                    assert(rest[k] == runs[k]);
                }
            }
        }
    }
}


/// Appends the results of running every tick of `ticks` in `mode`, tick `t` (from 0)
/// being tick number `t + 1`.
fn run_mode<F: Fn(PipelineMode, &Vec<Observation>, u64) -> ComparativeTickResult>(
    mode: PipelineMode,
    ticks: &[Vec<Observation>],
    run_tick: &F,
    out: &mut Vec<ComparativeTickResult>,
)
    requires
        forall|m: PipelineMode, o: &Vec<Observation>, t: u64| call_requires(*run_tick, (m, o, t)),
    ensures
        final(out)@.len() == old(out)@.len() + ticks@.len(),
        final(out)@.subrange(0, old(out)@.len() as int) == old(out)@,
        forall|t: int| 0 <= t < ticks@.len() ==> call_ensures(
            *run_tick,
            (mode, &ticks@[t], (t + 1) as u64),
            #[trigger] final(out)@[old(out)@.len() + t],
        ),
{
    let ghost start = out@;
    let mut t: usize = 0;
    while t < ticks.len()
        invariant
            t <= ticks@.len(),
            out@.len() == start.len() + t,
            out@.subrange(0, start.len() as int) == start,
            forall|m: PipelineMode, o: &Vec<Observation>, k: u64| call_requires(*run_tick, (m, o, k)),
            forall|j: int| 0 <= j < t ==> call_ensures(
                *run_tick,
                (mode, &ticks@[j], (j + 1) as u64),
                #[trigger] out@[start.len() + j],
            ),
        decreases ticks.len() - t,
    {
        let r = run_tick(mode, &ticks[t], (t + 1) as u64);
        let ghost before = out@;
        out.push(r);
        proof {
            assert(out@.subrange(0, start.len() as int) =~= before.subrange(0, start.len() as int));
            assert forall|j: int| 0 <= j < t + 1 implies call_ensures(
                *run_tick,
                (mode, &ticks@[j], (j + 1) as u64),
                #[trigger] out@[start.len() + j],
            ) by {
                if j < t {
                    assert(out@[start.len() + j] == before[start.len() + j]);
                }
            }
        }
        t = t + 1;
    }
}

/// Runs the same ticks through every pipeline mode: first every tick policy-only, then
/// every tick with agents and policy, then every tick through the full pipeline. Tick `t`
/// (from 0) of `ticks` runs as tick number `t + 1`; `run_tick` runs one tick in one mode.
pub fn run_comparative<F: Fn(PipelineMode, &Vec<Observation>, u64) -> ComparativeTickResult>(
    ticks: &[Vec<Observation>],
    run_tick: F,
) -> (r: Vec<ComparativeTickResult>)
    requires
        forall|m: PipelineMode, o: &Vec<Observation>, t: u64| call_requires(run_tick, (m, o, t)),
    ensures
        r@.len() == 3 * ticks@.len(),
        forall|t: int| 0 <= t < ticks@.len() ==> {
            &&& call_ensures(run_tick, (PipelineMode::PolicyOnly, &ticks@[t], (t + 1) as u64), #[trigger] r@[t])
            &&& call_ensures(run_tick, (PipelineMode::AgentsAndPolicy, &ticks@[t], (t + 1) as u64), r@[ticks@.len() + t])
            &&& call_ensures(run_tick, (PipelineMode::Full, &ticks@[t], (t + 1) as u64), r@[2 * ticks@.len() + t])
        },
{
    let mut r: Vec<ComparativeTickResult> = Vec::new();
    run_mode(PipelineMode::PolicyOnly, ticks, &run_tick, &mut r);
    let ghost r1 = r@;
    run_mode(PipelineMode::AgentsAndPolicy, ticks, &run_tick, &mut r);
    let ghost r2 = r@;
    run_mode(PipelineMode::Full, ticks, &run_tick, &mut r);
    proof {
        let n = ticks@.len() as int;
        assert forall|t: int| 0 <= t < n implies {
            &&& call_ensures(run_tick, (PipelineMode::PolicyOnly, &ticks@[t], (t + 1) as u64), #[trigger] r@[t])
            &&& call_ensures(run_tick, (PipelineMode::AgentsAndPolicy, &ticks@[t], (t + 1) as u64), r@[n + t])
            &&& call_ensures(run_tick, (PipelineMode::Full, &ticks@[t], (t + 1) as u64), r@[2 * n + t])
        } by {
            assert(r1[0 + t] == r@[t]) by {
                assert(r2.subrange(0, n) == r1);
                assert(r@.subrange(0, 2 * n) == r2);
                assert(r2[t] == r1[t]);
                assert(r@[t] == r2[t]);
            }
            assert(r2[n + t] == r@[n + t]) by {
                assert(r@.subrange(0, 2 * n) == r2);
            }
        }
    }
    r
}


proof fn lemma_total_prefix(s: Seq<TickCounts>, f: spec_fn(TickCounts) -> u64, i: int)
    requires
        0 <= i <= s.len(),
    ensures
        0 <= total_of(s.take(i), f) <= total_of(s, f),
    decreases s.len(),
{
    if s.len() > 0 {
        if i == s.len() {
            assert(s.take(i) =~= s);
            lemma_total_prefix(s.drop_last(), f, i - 1);
        } else {
            assert(s.take(i) =~= s.drop_last().take(i));
            lemma_total_prefix(s.drop_last(), f, i);
        }
    }
}

/// The totals of the counts of a run's ticks (the counted part of a run's aggregate; its
/// timing statistics are floating-point and computed elsewhere).
pub fn aggregate_counts(samples: &[TickCounts]) -> (t: CountTotals)
    requires
        samples@.len() <= u64::MAX,
        totals_fit(samples@),
    ensures
        t.ticks == samples@.len(),
        t.total_proposals == total_of(samples@, |c: TickCounts| proposals_of(c)),
        t.total_incidents == total_of(samples@, |c: TickCounts| incidents_of(c)),
        t.total_vetoes == total_of(samples@, |c: TickCounts| vetoes_of(c)),
        t.total_approved == total_of(samples@, |c: TickCounts| approved_of(c)),
        t.total_denied == total_of(samples@, |c: TickCounts| denied_of(c)),
        t.total_executions == total_of(samples@, |c: TickCounts| executions_of(c)),
{
    let ghost s = samples@;
    let ghost fp = |c: TickCounts| proposals_of(c);
    let ghost fi = |c: TickCounts| incidents_of(c);
    let ghost fv = |c: TickCounts| vetoes_of(c);
    let ghost fa = |c: TickCounts| approved_of(c);
    let ghost fd = |c: TickCounts| denied_of(c);
    let ghost fe = |c: TickCounts| executions_of(c);
    let mut t = CountTotals {
        ticks: 0,
        total_proposals: 0,
        total_incidents: 0,
        total_vetoes: 0,
        total_approved: 0,
        total_denied: 0,
        total_executions: 0,
    };
    let mut i: usize = 0;
    while i < samples.len()
        invariant
            s == samples@,
            s.len() <= u64::MAX,
            totals_fit(s),
            fp == (|c: TickCounts| proposals_of(c)),
            fi == (|c: TickCounts| incidents_of(c)),
            fv == (|c: TickCounts| vetoes_of(c)),
            fa == (|c: TickCounts| approved_of(c)),
            fd == (|c: TickCounts| denied_of(c)),
            fe == (|c: TickCounts| executions_of(c)),
            i <= s.len(),
            t.ticks == i,
            t.total_proposals == total_of(s.take(i as int), fp),
            t.total_incidents == total_of(s.take(i as int), fi),
            t.total_vetoes == total_of(s.take(i as int), fv),
            t.total_approved == total_of(s.take(i as int), fa),
            t.total_denied == total_of(s.take(i as int), fd),
            t.total_executions == total_of(s.take(i as int), fe),
        decreases samples.len() - i,
    {
        let c = samples[i];
        proof {
            let next = s.take(i + 1);
            assert(next.drop_last() =~= s.take(i as int));
            assert(next.last() == c);
            lemma_total_prefix(s, fp, i + 1);
            lemma_total_prefix(s, fi, i + 1);
            lemma_total_prefix(s, fv, i + 1);
            lemma_total_prefix(s, fa, i + 1);
            lemma_total_prefix(s, fd, i + 1);
            lemma_total_prefix(s, fe, i + 1);
        }
        t.ticks = t.ticks + 1;
        t.total_proposals = t.total_proposals + c.proposal_count;
        t.total_incidents = t.total_incidents + c.incident_count;
        t.total_vetoes = t.total_vetoes + c.veto_count;
        t.total_approved = t.total_approved + c.approved_count;
        t.total_denied = t.total_denied + c.denied_count;
        t.total_executions = t.total_executions + c.executor_count;
        i = i + 1;
    }
    proof {
        assert(s.take(s.len() as int) =~= s);
    }
    t
}

/// The observation time of synthetic tick `tick`: `"1728000000.<tick:09>Z"`.
pub open spec fn tick_time(tick: u64) -> Seq<char> {
    "1728000000."@ + zero_padded(tick as nat, 9) + "Z"@
}

/// The observation time of synthetic tick `tick` (see `tick_time`).
pub fn tick_timestamp(tick: u64) -> (s: String)
    ensures
        s@ == tick_time(tick),
{
    let mut s = "1728000000.".to_owned();
    push_zero_padded(&mut s, tick, 9);
    s.append("Z");
    s
}

/// `o` is process `i` of a process-explosion tick `tick` of `count` processes, with
/// observation id number `seq`.
pub open spec fn is_explosion_process(o: Observation, tick: u64, count: nat, i: nat, seq: u64) -> bool {
    &&& o.id@ == "ObservationId-"@ + decimal(seq as nat)
    &&& o.source == ObservationSource::Process
    &&& o.observed_at@ == tick_time(tick)
    &&& o.collection_duration_ms == 5
    &&& o.payload matches ObservationPayload::Process(p) && {
        &&& p.pid == (tick * 1_000_000 + i) as u32
        &&& p.parent_pid == (if i < count / 3 { 100u32 } else { 200u32 })
        &&& p.command@ == "fork-child-"@ + decimal(i)
        &&& p.cpu_percent == Real64(0)
        &&& p.memory_bytes == 1_000_000
        &&& p.state@ == "R"@
    }
}

/// The observations of a process-explosion tick: `count` processes under two parents,
/// enough under one of them to look like a fork storm (the first third of them are
/// children of PID 100, the rest of PID 200), drawing observation ids in sequence.
pub fn process_explosion(tick: u64, count: usize, ids: &mut IdSource) -> (obs: Vec<Observation>)
    requires
        tick * 1_000_000 + count <= u64::MAX,
    ensures
        obs@.len() == count,
        forall|i: int| 0 <= i < count ==> is_explosion_process(
            #[trigger] obs@[i],
            tick,
            count as nat,
            i as nat,
            crate::ids::sequence_after(old(ids).observation, i as nat),
        ),
        *final(ids) == (IdSource {
            observation: crate::ids::sequence_after(old(ids).observation, count as nat),
            ..*old(ids)
        }),
{
    let ghost start = ids.observation;
    let mut obs: Vec<Observation> = Vec::new();
    let mut i: usize = 0;
    proof {
        reveal_strlit("R");
    }
    while i < count
        invariant
            i <= count,
            tick * 1_000_000 + count <= u64::MAX,
            obs@.len() == i,
            forall|k: int| 0 <= k < i ==> is_explosion_process(
                #[trigger] obs@[k],
                tick,
                count as nat,
                k as nat,
                crate::ids::sequence_after(start, k as nat),
            ),
            *ids == (IdSource {
                observation: crate::ids::sequence_after(start, i as nat),
                ..*old(ids)
            }),
        decreases count - i,
    {
        let parent_pid: u32 = if i < count / 3 { 100 } else { 200 };
        let pid = (tick * 1_000_000 + i as u64) as u32;
        let id = ids.next_observation_id();
        let o = Observation {
            id,
            source: ObservationSource::Process,
            observed_at: tick_timestamp(tick),
            collection_duration_ms: 5,
            payload: ObservationPayload::Process(ProcessObservation {
                pid,
                parent_pid,
                command: with_decimal("fork-child-", i as u64),
                cpu_percent: Real64(0),
                memory_bytes: 1_000_000,
                state: "R".to_owned(),
            }),
        };
        obs.push(o);
        i = i + 1;
    }
    obs
}

} // verus!
