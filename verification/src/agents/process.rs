//! The process agent: proposes CPU adjustments for busy or throttled cgroups and flags
//! system-wide CPU pressure.
use vstd::prelude::*;
use crate::clock::now_utc;
use crate::domain::action::{ActionKind, ActionRequest, ActionSafetyLevel};
use crate::domain::number::{exceeds, Real64};
use crate::domain::observation::{CgroupObservation, Observation, ObservationPayload};
use crate::domain::proposal::{Confidence, Proposal};
use crate::ids::{next_sequence, sequence_after, AgentId, IdSource};
use crate::text::{decimal, push_decimal, starts_with_seq, str_starts_with};

verus! {

/// Bit pattern of the binary64 value `0.5`, the CPU pressure above which the system is
/// flagged.
pub const HALF_BITS: u64 = 0x3FE0_0000_0000_0000;

/// Bit pattern of the binary32 value `0.85`, the confidence of a `cpu.max` cap.
pub const CPU_MAX_CONFIDENCE_BITS: u32 = 0x3F59_999A;

/// Bit pattern of the binary32 value `0.8`, the confidence of a `cpu.weight` boost.
pub const CPU_WEIGHT_CONFIDENCE_BITS: u32 = 0x3F4C_CCCD;

/// Bit pattern of the binary32 value `0.75`, the confidence of a pressure flag.
pub const PRESSURE_CONFIDENCE_BITS: u32 = 0x3F40_0000;

/// The mount point of the cgroup hierarchy, as it prefixes observed cgroup paths.
pub open spec fn cgroup_mount() -> Seq<char> {
    "/sys/fs/cgroup/"@
}

/// `path` with every leading copy of the cgroup mount point removed (what
/// `str::trim_start_matches` does with that prefix).
pub open spec fn group_of(path: Seq<char>) -> Seq<char>
    decreases path.len(),
{
    if cgroup_mount().len() > 0 && starts_with_seq(path, cgroup_mount()) {
        group_of(path.skip(cgroup_mount().len() as int))
    } else {
        path
    }
}

/// The `cpu.weight` for a cgroup throttled `throttled` times: ten per throttling event,
/// at most 100.
pub open spec fn boosted_weight(throttled: u64) -> u64 {
    if throttled * 10 >= 100 { 100 } else { (throttled * 10) as u64 }
}

/// The rule that a finding applies.
pub enum ProcessRule {
    /// A cgroup used more CPU than the limit: cap it.
    CpuMax,
    /// A cgroup was throttled more often than the threshold: boost its weight.
    CpuWeight,
    /// The system's CPU pressure is above one half: flag it.
    Pressure,
}

/// The findings of the cgroup rules over `obs`: for each cgroup observation in order, a
/// `cpu.max` finding when its usage exceeds `usage_limit`, then a `cpu.weight` finding
/// when it was throttled more than `throttle_limit` times. Each finding is the index of
/// its observation and its rule.
pub open spec fn cgroup_findings(obs: Seq<Observation>, usage_limit: u64, throttle_limit: u64) -> Seq<(int, ProcessRule)>
    decreases obs.len(),
{
    if obs.len() == 0 {
        Seq::empty()
    } else {
        let rest = cgroup_findings(obs.drop_last(), usage_limit, throttle_limit);
        let i = obs.len() - 1;
        match obs.last().payload {
            ObservationPayload::Cgroup(cg) => {
                let r1 = if cg.cpu_usage_usec > usage_limit { rest.push((i, ProcessRule::CpuMax)) } else { rest };
                if cg.cpu_nr_throttled > throttle_limit { r1.push((i, ProcessRule::CpuWeight)) } else { r1 }
            },
            _ => rest,
        }
    }
}

/// The findings of the pressure rule over `obs`: each CPU observation, in order, whose
/// `pressure_some_avg10` is above one half.
pub open spec fn pressure_findings(obs: Seq<Observation>) -> Seq<(int, ProcessRule)>
    decreases obs.len(),
{
    if obs.len() == 0 {
        Seq::empty()
    } else {
        let rest = pressure_findings(obs.drop_last());
        match obs.last().payload {
            ObservationPayload::Cpu(c) => match c.pressure_some_avg10 {
                Some(r) => if exceeds(r.0, HALF_BITS) { rest.push((obs.len() - 1, ProcessRule::Pressure)) } else { rest },
                None => rest,
            },
            _ => rest,
        }
    }
}

/// The CPU-pressure reading of observation `o` (its `pressure_some_avg10`; `+0.0` for
/// anything else).
pub open spec fn reading_of(o: Observation) -> u64 {
    match o.payload {
        ObservationPayload::Cpu(c) => match c.pressure_some_avg10 {
            Some(r) => r.0,
            None => 0,
        },
        _ => 0,
    }
}

/// The cgroup statistics of observation `o`.
pub open spec fn cgroup_of(o: Observation) -> CgroupObservation
    recommends
        o.payload is Cgroup,
{
    o.payload->Cgroup_0
}

/// The fields that every proposal of the process agent shares: proposal id number
/// `pseq`, action id number `aseq`, agent `agent`, creation time `now`, no supporting
/// observations.
pub open spec fn is_agent_proposal(p: Proposal, agent: AgentId, now: Seq<char>, pseq: u64, aseq: u64) -> bool {
    &&& p.id@ == "ProposalId-"@ + decimal(pseq as nat)
    &&& p.requested_action.id@ == "ActionId-"@ + decimal(aseq as nat)
    &&& p.agent_id == agent
    &&& p.created_at@ == now
    &&& p.based_on@.len() == 0
}

/// `p` is the proposal for finding `f` over `obs`, as described at `ProcessAgent`, with the
/// identifiers and time of `is_agent_proposal`; `value_text` and `percent_text` render a
/// reading with one decimal, as a fraction and in percent.
pub open spec fn is_finding_proposal<F: Fn(Real64) -> String, G: Fn(Real64) -> String>(
    p: Proposal,
    f: (int, ProcessRule),
    obs: Seq<Observation>,
    quota_usec: u64,
    agent: AgentId,
    now: Seq<char>,
    pseq: u64,
    aseq: u64,
    value_text: F,
    percent_text: G,
) -> bool {
    let o = obs[f.0];
    &&& is_agent_proposal(p, agent, now, pseq, aseq)
    &&& match f.1 {
        ProcessRule::CpuMax => {
            let cg = cgroup_of(o);
            let group = group_of(cg.cgroup_path@);
            let quota = decimal(quota_usec as nat) + " 100000"@;
            &&& p.requested_action.kind matches ActionKind::CgroupSetCpuMax { group: g, quota: q }
                && g@ == group && q@ == quota
            &&& p.requested_action.safety_level == ActionSafetyLevel::MediumRisk
            &&& p.rationale@ == "high CPU usage in '"@ + group + "': "@ + decimal(cg.cpu_usage_usec as nat)
                + " usec, capping at "@ + quota
            &&& p.confidence == Confidence(CPU_MAX_CONFIDENCE_BITS)
        },
        ProcessRule::CpuWeight => {
            let cg = cgroup_of(o);
            let group = group_of(cg.cgroup_path@);
            let weight = boosted_weight(cg.cpu_nr_throttled);
            &&& p.requested_action.kind matches ActionKind::CgroupSetCpuWeight { group: g, weight: w }
                && g@ == group && w == weight
            &&& p.requested_action.safety_level == ActionSafetyLevel::MediumRisk
            &&& p.rationale@ == "throttling in '"@ + group + "': "@ + decimal(cg.cpu_nr_throttled as nat)
                + " events ("@ + decimal(cg.cpu_throttled_usec as nat) + " usec), boosting cpu.weight to "@
                + decimal(weight as nat)
            &&& p.confidence == Confidence(CPU_WEIGHT_CONFIDENCE_BITS)
        },
        ProcessRule::Pressure => {
            let r = Real64(reading_of(o));
            &&& p.requested_action.kind matches ActionKind::WorkloadClassifyRecommend { group: g, classification: c }
                && g@ == "system"@ && exists|v: String| #[trigger] call_ensures(value_text, (r,), v)
                && c@ == "cpu_pressure_some="@ + v@ + " — consider isolating workload"@
            &&& p.requested_action.safety_level == ActionSafetyLevel::LowRisk
            &&& exists|t: String| #[trigger] call_ensures(percent_text, (r,), t)
                && p.rationale@ == "system-wide CPU pressure some avg10 = "@ + t@ + "%, above 50% threshold"@
            &&& p.confidence == Confidence(PRESSURE_CONFIDENCE_BITS)
        },
    }
}

/// The cgroup name of an observed cgroup path: the path with every leading copy of the
/// cgroup mount point removed.
pub fn cgroup_group(path: &str) -> (g: String)
    ensures
        g@ == group_of(path@),
{
    let mount = "/sys/fs/cgroup/";
    proof {
        reveal_strlit("/sys/fs/cgroup/");
    }
    let mut rest: &str = path;
    while str_starts_with(rest, mount)
        invariant
            mount@ == cgroup_mount(),
            mount@.len() == 15,
            group_of(rest@) == group_of(path@),
        decreases rest@.len(),
    {
        let n = rest.unicode_len();
        rest = rest.substring_char(15, n);
    }
    rest.to_owned()
}

/// Watches cgroup CPU statistics and system CPU pressure and proposes adjustments.
///
/// For each cgroup observation, in order: when its CPU usage exceeds the usage limit, a
/// medium-risk `cpu.max` cap of `"<quota> 100000"` with confidence 0.85; then, when it was
/// throttled more often than the throttling threshold, a medium-risk `cpu.weight` of ten
/// per throttling event (at most 100) with confidence 0.8. Then, for each CPU observation
/// whose pressure is above one half, a low-risk classification of the system with
/// confidence 0.75.
#[derive(Debug)]
pub struct ProcessAgent {
    id: AgentId,
    /// CPU usage, in microseconds per one-second sample, above which a cgroup is capped:
    /// the CPU-fraction threshold times 1 000 000.
    cpu_usage_limit_usec: u64,
    /// The cap's quota, in microseconds per 100 000-microsecond period: the CPU-fraction
    /// threshold times 100 000.
    cpu_quota_usec: u64,
    /// Throttling events above which a cgroup's weight is boosted.
    throttling_threshold: u64,
}

impl ProcessAgent {
    /// An agent with a CPU-fraction threshold of 0.8 (a usage limit of 800 000 µs and a
    /// quota of 80 000 µs) and a throttling threshold of 5.
    pub fn new(id: AgentId) -> (a: Self)
        ensures
            a.agent() == id,
            a.usage_limit() == 800_000,
            a.quota() == 80_000,
            a.throttle_limit() == 5,
    {
        ProcessAgent { id, cpu_usage_limit_usec: 800_000, cpu_quota_usec: 80_000, throttling_threshold: 5 }
    }

    /// An agent with the given limits: the usage limit and quota that a CPU-fraction
    /// threshold gives (times 1 000 000 and times 100 000), and the throttling threshold.
    pub fn with_thresholds(
        id: AgentId,
        cpu_usage_limit_usec: u64,
        cpu_quota_usec: u64,
        throttling_threshold: u64,
    ) -> (a: Self)
        ensures
            a.agent() == id,
            a.usage_limit() == cpu_usage_limit_usec,
            a.quota() == cpu_quota_usec,
            a.throttle_limit() == throttling_threshold,
    {
        ProcessAgent { id, cpu_usage_limit_usec, cpu_quota_usec, throttling_threshold }
    }

    pub closed spec fn agent(&self) -> AgentId {
        self.id
    }

    pub closed spec fn usage_limit(&self) -> u64 {
        self.cpu_usage_limit_usec
    }

    pub closed spec fn quota(&self) -> u64 {
        self.cpu_quota_usec
    }

    pub closed spec fn throttle_limit(&self) -> u64 {
        self.throttling_threshold
    }

    /// The findings of this agent over `obs`: the cgroup findings, then the pressure
    /// findings.
    pub open spec fn findings(&self, obs: Seq<Observation>) -> Seq<(int, ProcessRule)> {
        cgroup_findings(obs, self.usage_limit(), self.throttle_limit()) + pressure_findings(obs)
    }

    pub fn id(&self) -> (r: AgentId)
        ensures
            r == self.agent(),
    {
        self.id.clone()
    }

    pub fn kind(&self) -> (k: crate::domain::agent::AgentKind)
        ensures
            k == crate::domain::agent::AgentKind::Process,
    {
        crate::domain::agent::AgentKind::Process
    }

    pub fn capabilities(&self) -> (c: crate::domain::agent::CapabilitySet)
        ensures
            c.capabilities@.len() == 0,
    {
        crate::domain::agent::CapabilitySet::default()
    }

    fn draw_ids(&self, ids: &mut IdSource) -> (r: (crate::ids::ProposalId, crate::ids::ActionId))
        ensures
            r.0@ == "ProposalId-"@ + decimal(old(ids).proposal as nat),
            r.1@ == "ActionId-"@ + decimal(old(ids).action as nat),
            *final(ids) == (IdSource {
                proposal: next_sequence(old(ids).proposal),
                action: next_sequence(old(ids).action),
                ..*old(ids)
            }),
    {
        let pid = ids.next_proposal_id();
        let aid = ids.next_action_id();
        (pid, aid)
    }

    /// The proposal of the `cpu.max` rule for cgroup statistics `cg` named `group`.
    fn cpu_max_proposal(&self, cg: &CgroupObservation, group: &String, now: &String, ids: &mut IdSource) -> (p: Proposal)
        requires
            group@ == group_of(cg.cgroup_path@),
        ensures
            is_agent_proposal(p, self.agent(), now@, old(ids).proposal, old(ids).action),
            p.requested_action.kind matches ActionKind::CgroupSetCpuMax { group: g, quota: q }
                && g@ == group@ && q@ == decimal(self.quota() as nat) + " 100000"@,
            p.requested_action.safety_level == ActionSafetyLevel::MediumRisk,
            p.rationale@ == "high CPU usage in '"@ + group@ + "': "@ + decimal(cg.cpu_usage_usec as nat)
                + " usec, capping at "@ + (decimal(self.quota() as nat) + " 100000"@),
            p.confidence == Confidence(CPU_MAX_CONFIDENCE_BITS),
            *final(ids) == (IdSource {
                proposal: next_sequence(old(ids).proposal),
                action: next_sequence(old(ids).action),
                ..*old(ids)
            }),
    {
        let (pid, aid) = self.draw_ids(ids);
        let mut quota = String::new();
        push_decimal(&mut quota, self.cpu_quota_usec);
        quota.append(" 100000");
        let mut rationale = String::new();
        rationale.append("high CPU usage in '");
        rationale.append(group.as_str());
        rationale.append("': ");
        push_decimal(&mut rationale, cg.cpu_usage_usec);
        rationale.append(" usec, capping at ");
        rationale.append(quota.as_str());
        proof {
            assert(rationale@ =~= "high CPU usage in '"@ + group@ + "': "@ + decimal(cg.cpu_usage_usec as nat)
                + " usec, capping at "@ + (decimal(self.quota() as nat) + " 100000"@));
        }
        Proposal {
            id: pid,
            agent_id: self.id.clone(),
            created_at: now.clone(),
            based_on: Vec::new(),
            requested_action: ActionRequest {
                id: aid,
                kind: ActionKind::CgroupSetCpuMax { group: group.clone(), quota },
                safety_level: ActionSafetyLevel::MediumRisk,
            },
            rationale,
            confidence: Confidence(CPU_MAX_CONFIDENCE_BITS),
        }
    }

    /// The proposal of the `cpu.weight` rule for cgroup statistics `cg` named `group`.
    fn cpu_weight_proposal(&self, cg: &CgroupObservation, group: &String, now: &String, ids: &mut IdSource) -> (p: Proposal)
        requires
            group@ == group_of(cg.cgroup_path@),
        ensures
            is_agent_proposal(p, self.agent(), now@, old(ids).proposal, old(ids).action),
            p.requested_action.kind matches ActionKind::CgroupSetCpuWeight { group: g, weight: w }
                && g@ == group@ && w == boosted_weight(cg.cpu_nr_throttled),
            p.requested_action.safety_level == ActionSafetyLevel::MediumRisk,
            p.rationale@ == "throttling in '"@ + group@ + "': "@ + decimal(cg.cpu_nr_throttled as nat)
                + " events ("@ + decimal(cg.cpu_throttled_usec as nat) + " usec), boosting cpu.weight to "@
                + decimal(boosted_weight(cg.cpu_nr_throttled) as nat),
            p.confidence == Confidence(CPU_WEIGHT_CONFIDENCE_BITS),
            *final(ids) == (IdSource {
                proposal: next_sequence(old(ids).proposal),
                action: next_sequence(old(ids).action),
                ..*old(ids)
            }),
    {
        let (pid, aid) = self.draw_ids(ids);
        let weight: u64 = if cg.cpu_nr_throttled >= 10 { 100 } else { cg.cpu_nr_throttled * 10 };
        let mut rationale = String::new();
        rationale.append("throttling in '");
        rationale.append(group.as_str());
        rationale.append("': ");
        push_decimal(&mut rationale, cg.cpu_nr_throttled);
        rationale.append(" events (");
        push_decimal(&mut rationale, cg.cpu_throttled_usec);
        rationale.append(" usec), boosting cpu.weight to ");
        push_decimal(&mut rationale, weight);
        Proposal {
            id: pid,
            agent_id: self.id.clone(),
            created_at: now.clone(),
            based_on: Vec::new(),
            requested_action: ActionRequest {
                id: aid,
                kind: ActionKind::CgroupSetCpuWeight { group: group.clone(), weight },
                safety_level: ActionSafetyLevel::MediumRisk,
            },
            rationale,
            confidence: Confidence(CPU_WEIGHT_CONFIDENCE_BITS),
        }
    }

    /// The proposal of the pressure rule for reading `r`.
    fn pressure_proposal<F: Fn(Real64) -> String, G: Fn(Real64) -> String>(
        &self,
        r: Real64,
        now: &String,
        value_text: &F,
        percent_text: &G,
        ids: &mut IdSource,
    ) -> (p: Proposal)
        requires
            call_requires(*value_text, (r,)),
            call_requires(*percent_text, (r,)),
        ensures
            is_agent_proposal(p, self.agent(), now@, old(ids).proposal, old(ids).action),
            p.requested_action.kind matches ActionKind::WorkloadClassifyRecommend { group: g, classification: c }
                && g@ == "system"@ && exists|v: String| #[trigger] call_ensures(*value_text, (r,), v)
                && c@ == "cpu_pressure_some="@ + v@ + " — consider isolating workload"@,
            p.requested_action.safety_level == ActionSafetyLevel::LowRisk,
            exists|t: String| #[trigger] call_ensures(*percent_text, (r,), t)
                && p.rationale@ == "system-wide CPU pressure some avg10 = "@ + t@ + "%, above 50% threshold"@,
            p.confidence == Confidence(PRESSURE_CONFIDENCE_BITS),
            *final(ids) == (IdSource {
                proposal: next_sequence(old(ids).proposal),
                action: next_sequence(old(ids).action),
                ..*old(ids)
            }),
    {
        let (pid, aid) = self.draw_ids(ids);
        let v = value_text(r);
        let t = percent_text(r);
        let mut classification = String::new();
        classification.append("cpu_pressure_some=");
        classification.append(v.as_str());
        classification.append(" — consider isolating workload");
        let mut rationale = String::new();
        rationale.append("system-wide CPU pressure some avg10 = ");
        rationale.append(t.as_str());
        rationale.append("%, above 50% threshold");
        let mut group = String::new();
        group.append("system");
        Proposal {
            id: pid,
            agent_id: self.id.clone(),
            created_at: now.clone(),
            based_on: Vec::new(),
            requested_action: ActionRequest {
                id: aid,
                kind: ActionKind::WorkloadClassifyRecommend { group, classification },
                safety_level: ActionSafetyLevel::LowRisk,
            },
            rationale,
            confidence: Confidence(PRESSURE_CONFIDENCE_BITS),
        }
    }

    /// The proposals for `observations` (see `ProcessAgent`), one per finding and in the
    /// order of `findings`, all created at `now` and drawing a proposal id and an action id
    /// each, in sequence; `value_text` and `percent_text` render a pressure reading with one
    /// decimal, as a fraction and in percent.
    pub fn propose_at<F: Fn(Real64) -> String, G: Fn(Real64) -> String>(
        &self,
        observations: &[Observation],
        now: &String,
        value_text: F,
        percent_text: G,
        ids: &mut IdSource,
    ) -> (ps: Vec<Proposal>)
        requires
            forall|x: Real64| call_requires(value_text, (x,)),
            forall|x: Real64| call_requires(percent_text, (x,)),
        ensures
            ps@.len() == self.findings(observations@).len(),
            forall|k: int| 0 <= k < ps@.len() ==> is_finding_proposal(
                #[trigger] ps@[k],
                self.findings(observations@)[k],
                observations@,
                self.quota(),
                self.agent(),
                now@,
                sequence_after(old(ids).proposal, k as nat),
                sequence_after(old(ids).action, k as nat),
                value_text,
                percent_text,
            ),
            *final(ids) == (IdSource {
                proposal: sequence_after(old(ids).proposal, ps@.len()),
                action: sequence_after(old(ids).action, ps@.len()),
                ..*old(ids)
            }),
    {
        let ghost obs = observations@;
        let ghost p0 = ids.proposal;
        let ghost a0 = ids.action;
        let ghost ul = self.usage_limit();
        let ghost tl = self.throttle_limit();
        let mut ps: Vec<Proposal> = Vec::new();
        let mut i: usize = 0;
        while i < observations.len()
            invariant
                obs == observations@,
                ul == self.usage_limit(),
                tl == self.throttle_limit(),
                i <= obs.len(),
                ps@.len() == cgroup_findings(obs.take(i as int), ul, tl).len(),
                forall|k: int| 0 <= k < ps@.len() ==> {
                    &&& 0 <= (#[trigger] cgroup_findings(obs.take(i as int), ul, tl)[k]).0 < i
                    &&& is_finding_proposal(
                        ps@[k],
                        cgroup_findings(obs.take(i as int), ul, tl)[k],
                        obs,
                        self.quota(),
                        self.agent(),
                        now@,
                        sequence_after(p0, k as nat),
                        sequence_after(a0, k as nat),
                        value_text,
                        percent_text,
                    )
                },
                *ids == (IdSource {
                    proposal: sequence_after(p0, ps@.len()),
                    action: sequence_after(a0, ps@.len()),
                    ..*old(ids)
                }),
            decreases observations.len() - i,
        {
            let ghost prev = cgroup_findings(obs.take(i as int), ul, tl);
            proof {
                assert(obs.take(i + 1).drop_last() =~= obs.take(i as int));
                assert(obs.take(i + 1).last() == obs[i as int]);
            }
            match &observations[i].payload {
                ObservationPayload::Cgroup(cg) => {
                    let group = cgroup_group(cg.cgroup_path.as_str());
                    let ghost mid = if cg.cpu_usage_usec > ul { prev.push((i as int, ProcessRule::CpuMax)) } else { prev };
                    if cg.cpu_usage_usec > self.cpu_usage_limit_usec {
                        let ghost before = ps@;
                        let p = self.cpu_max_proposal(cg, &group, now, ids);
                        ps.push(p);
                        proof {
                            assert(sequence_after(p0, ps@.len()) == next_sequence(sequence_after(p0, before.len())));
                            assert(sequence_after(a0, ps@.len()) == next_sequence(sequence_after(a0, before.len())));
                            assert forall|k: int| 0 <= k < ps@.len() implies {
                                &&& 0 <= (#[trigger] mid[k]).0 < i + 1
                                &&& is_finding_proposal(ps@[k], mid[k], obs, self.quota(), self.agent(), now@,
                                    sequence_after(p0, k as nat), sequence_after(a0, k as nat), value_text, percent_text)
                            } by {
                                if k < before.len() {
                                    assert(ps@[k] == before[k]);
                                    assert(mid[k] == prev[k]);
                                }
                            }
                        }
                    }
                    if cg.cpu_nr_throttled > self.throttling_threshold {
                        let ghost before = ps@;
                        let p = self.cpu_weight_proposal(cg, &group, now, ids);
                        ps.push(p);
                        proof {
                            assert(sequence_after(p0, ps@.len()) == next_sequence(sequence_after(p0, before.len())));
                            assert(sequence_after(a0, ps@.len()) == next_sequence(sequence_after(a0, before.len())));
                            let next = mid.push((i as int, ProcessRule::CpuWeight));
                            assert forall|k: int| 0 <= k < ps@.len() implies {
                                &&& 0 <= (#[trigger] next[k]).0 < i + 1
                                &&& is_finding_proposal(ps@[k], next[k], obs, self.quota(), self.agent(), now@,
                                    sequence_after(p0, k as nat), sequence_after(a0, k as nat), value_text, percent_text)
                            } by {
                                if k < before.len() {
                                    assert(ps@[k] == before[k]);
                                    assert(next[k] == mid[k]);
                                }
                            }
                        }
                    }
                },
                _ => {},
            }
            i = i + 1;
        }
        proof {
            assert(obs.take(obs.len() as int) =~= obs);
        }
        let ghost cf = cgroup_findings(obs, ul, tl);
        let ghost n1 = ps@.len();
        let mut j: usize = 0;
        while j < observations.len()
            invariant
                obs == observations@,
                cf == cgroup_findings(obs, ul, tl),
                n1 == cf.len(),
                j <= obs.len(),
                ps@.len() == n1 + pressure_findings(obs.take(j as int)).len(),
                forall|k: int| 0 <= k < n1 ==> is_finding_proposal(
                    #[trigger] ps@[k], cf[k], obs, self.quota(), self.agent(), now@,
                    sequence_after(p0, k as nat), sequence_after(a0, k as nat), value_text, percent_text),
                forall|k: int| n1 <= k < ps@.len() ==> {
                    &&& 0 <= (#[trigger] pressure_findings(obs.take(j as int))[k - n1]).0 < j
                    &&& is_finding_proposal(
                        ps@[k],
                        pressure_findings(obs.take(j as int))[k - n1],
                        obs,
                        self.quota(),
                        self.agent(),
                        now@,
                        sequence_after(p0, k as nat),
                        sequence_after(a0, k as nat),
                        value_text,
                        percent_text,
                    )
                },
                forall|x: Real64| call_requires(value_text, (x,)),
                forall|x: Real64| call_requires(percent_text, (x,)),
                *ids == (IdSource {
                    proposal: sequence_after(p0, ps@.len()),
                    action: sequence_after(a0, ps@.len()),
                    ..*old(ids)
                }),
            decreases observations.len() - j,
        {
            let ghost prev = pressure_findings(obs.take(j as int));
            proof {
                assert(obs.take(j + 1).drop_last() =~= obs.take(j as int));
                assert(obs.take(j + 1).last() == obs[j as int]);
            }
            match &observations[j].payload {
                ObservationPayload::Cpu(c) => match c.pressure_some_avg10 {
                    Some(r) => {
                        if r.exceeds(HALF_BITS) {
                            let ghost before = ps@;
                            let p = self.pressure_proposal(r, now, &value_text, &percent_text, ids);
                            ps.push(p);
                            proof {
                                assert(sequence_after(p0, ps@.len()) == next_sequence(sequence_after(p0, before.len())));
                                assert(sequence_after(a0, ps@.len()) == next_sequence(sequence_after(a0, before.len())));
                                let next = prev.push((j as int, ProcessRule::Pressure));
                                assert(reading_of(obs[j as int]) == r.0);
                                assert forall|k: int| n1 <= k < ps@.len() implies {
                                    &&& 0 <= (#[trigger] next[k - n1]).0 < j + 1
                                    &&& is_finding_proposal(ps@[k], next[k - n1], obs, self.quota(), self.agent(), now@,
                                        sequence_after(p0, k as nat), sequence_after(a0, k as nat), value_text, percent_text)
                                } by {
                                    if k < before.len() {
                                        assert(ps@[k] == before[k]);
                                        assert(next[k - n1] == prev[k - n1]);
                                    }
                                }
                                assert forall|k: int| 0 <= k < n1 implies is_finding_proposal(
                                    #[trigger] ps@[k], cf[k], obs, self.quota(), self.agent(), now@,
                                    sequence_after(p0, k as nat), sequence_after(a0, k as nat), value_text, percent_text) by {
                                    assert(ps@[k] == before[k]);
                                }
                            }
                        }
                    },
                    None => {},
                },
                _ => {},
            }
            j = j + 1;
        }
        proof {
            assert(obs.take(obs.len() as int) =~= obs);
            let all = self.findings(obs);
            assert forall|k: int| 0 <= k < ps@.len() implies is_finding_proposal(
                #[trigger] ps@[k], all[k], obs, self.quota(), self.agent(), now@,
                sequence_after(p0, k as nat), sequence_after(a0, k as nat), value_text, percent_text) by {
                if k < n1 {
                    assert(all[k] == cf[k]);
                } else {
                    assert(all[k] == pressure_findings(obs)[k - n1]);
                }
            }
        }
        ps
    }

    /// The proposals for `observations` (see `propose_at`), created now.
    pub fn propose<F: Fn(Real64) -> String, G: Fn(Real64) -> String>(
        &self,
        observations: &[Observation],
        value_text: F,
        percent_text: G,
        ids: &mut IdSource,
    ) -> (ps: Vec<Proposal>)
        requires
            forall|x: Real64| call_requires(value_text, (x,)),
            forall|x: Real64| call_requires(percent_text, (x,)),
        ensures
            ps@.len() == self.findings(observations@).len(),
            exists|now: Seq<char>| #![trigger crate::clock::is_timestamp(now)]
                crate::clock::is_timestamp(now) && forall|k: int| 0 <= k < ps@.len() ==> is_finding_proposal(
                #[trigger] ps@[k],
                self.findings(observations@)[k],
                observations@,
                self.quota(),
                self.agent(),
                now,
                sequence_after(old(ids).proposal, k as nat),
                sequence_after(old(ids).action, k as nat),
                value_text,
                percent_text,
            ),
            *final(ids) == (IdSource {
                proposal: sequence_after(old(ids).proposal, ps@.len()),
                action: sequence_after(old(ids).action, ps@.len()),
                ..*old(ids)
            }),
    {
        let now = now_utc();
        let ps = self.propose_at(observations, &now, value_text, percent_text, ids);
        proof {
            assert(crate::clock::is_timestamp(now@));
        }
        ps
    }
}


/// Throttling law: the boosted `cpu.weight` is ten per throttling event, capped at 100
/// (the smaller of 100 and ten times the count); more throttling never lowers it.
pub proof fn lemma_boost_is_ten_per_event_capped(throttled: u64, more: u64)
    ensures
        throttled < 10 ==> boosted_weight(throttled) == 10 * throttled,
        throttled >= 10 ==> boosted_weight(throttled) == 100,
        boosted_weight(throttled) <= 100,
        boosted_weight(throttled) <= 10 * throttled,
        throttled <= more ==> boosted_weight(throttled) <= boosted_weight(more),
{
}

} // verus!
