//! The security agent: raises incidents about process behaviour, never proposals.
use vstd::prelude::*;
use crate::domain::agent::{AgentKind, CapabilitySet};
use crate::domain::event::{Incident, IncidentCategory, IncidentSeverity};
use crate::domain::number::{exceeds, Real64, POSITIVE_INFINITY_BITS};
use crate::domain::observation::{Observation, ObservationPayload};
use crate::ids::{next_sequence, sequence_after, AgentId, IdSource, ObservationId};
use crate::text::{decimal, push_decimal};

verus! {

/// The parent PIDs of the process observations in `obs`, in order.
pub open spec fn parent_pids(obs: Seq<Observation>) -> Seq<u32>
    decreases obs.len(),
{
    if obs.len() == 0 {
        Seq::empty()
    } else {
        let rest = parent_pids(obs.drop_last());
        match obs.last().payload {
            ObservationPayload::Process(p) => rest.push(p.parent_pid),
            _ => rest,
        }
    }
}

/// How many times `x` occurs in `s`.
pub open spec fn count_in(s: Seq<u32>, x: u32) -> nat
    decreases s.len(),
{
    if s.len() == 0 {
        0
    } else {
        count_in(s.drop_last(), x) + if s.last() == x { 1nat } else { 0nat }
    }
}

/// The distinct values of `s`, in order of first occurrence.
pub open spec fn first_seen(s: Seq<u32>) -> Seq<u32>
    decreases s.len(),
{
    if s.len() == 0 {
        Seq::empty()
    } else {
        let d = first_seen(s.drop_last());
        if d.contains(s.last()) { d } else { d.push(s.last()) }
    }
}

/// The id of the first process observation in `obs` whose parent is `parent`.
pub open spec fn first_child_observation(obs: Seq<Observation>, parent: u32) -> Option<ObservationId>
    decreases obs.len(),
{
    if obs.len() == 0 {
        None
    } else {
        let r = first_child_observation(obs.drop_last(), parent);
        if r.is_some() {
            r
        } else {
            match obs.last().payload {
                ObservationPayload::Process(p) => if p.parent_pid == parent { Some(obs.last().id) } else { None },
                _ => None,
            }
        }
    }
}

/// The number of process observations in `obs`.
pub open spec fn process_count(obs: Seq<Observation>) -> nat {
    parent_pids(obs).len()
}

/// The parents that spawned more than five of the observed processes, in order of
/// first appearance.
pub open spec fn storm_parents(obs: Seq<Observation>) -> Seq<u32> {
    first_seen(parent_pids(obs)).filter(|p: u32| count_in(parent_pids(obs), p) > 5)
}

/// `i` is a warning-level security incident from `"security-agent"` with description
/// `description` about observation `source`.
pub open spec fn is_security_warning(i: Incident, source: Option<ObservationId>, description: Seq<char>) -> bool {
    &&& i.category == IncidentCategory::Security
    &&& i.severity == IncidentSeverity::Warning
    &&& i.source_agent@ == "security-agent"@
    &&& i.source_observation == source
    &&& i.correlation_id.is_none()
    &&& crate::clock::is_timestamp(i.timestamp@)
    &&& i.description@ == description
}

/// The description of a fork storm under `parent` with `count` children.
pub open spec fn fork_storm_text(parent: u32, count: nat) -> Seq<char> {
    "ForkStormDetected: parent PID "@ + decimal(parent as nat) + " spawned "@ + decimal(count)
        + " processes (threshold: 5)"@
}

/// The description of excessive process creation with `count` processes.
pub open spec fn excessive_text(count: nat) -> Seq<char> {
    "ExcessiveProcessCreation: "@ + decimal(count) + " active processes (threshold: 50)"@
}

/// `incs` are the fork-storm incidents for `obs`: one warning per storm parent, in order
/// of first appearance, pointing at that parent's first child observation; then, when
/// more than fifty processes were observed, one warning about excessive process creation.
pub open spec fn fork_storm_incidents(obs: Seq<Observation>, incs: Seq<Incident>) -> bool {
    let storms = storm_parents(obs);
    let total = process_count(obs);
    &&& incs.len() == storms.len() + if total > 50 { 1int } else { 0int }
    &&& forall|k: int| 0 <= k < storms.len() ==> is_security_warning(
        #[trigger] incs[k],
        first_child_observation(obs, storms[k]),
        fork_storm_text(storms[k], count_in(parent_pids(obs), storms[k])),
    )
    &&& total > 50 ==> is_security_warning(incs[storms.len() as int], None, excessive_text(total))
}

proof fn lemma_first_seen_contains(s: Seq<u32>, x: u32)
    ensures
        first_seen(s).contains(x) <==> s.contains(x),
    decreases s.len(),
{
    if s.len() > 0 {
        lemma_first_seen_contains(s.drop_last(), x);
        assert(s =~= s.drop_last().push(s.last()));
        if s.drop_last().contains(x) {
            let j = choose|j: int| 0 <= j < s.drop_last().len() && s.drop_last()[j] == x;
            assert(s[j] == x);
        }
        if s.contains(x) && !s.drop_last().contains(x) {
            let j = choose|j: int| 0 <= j < s.len() && s[j] == x;
            if j < s.len() - 1 {
                assert(s.drop_last()[j] == x);
            }
            assert(s.last() == x);
        }
        let d = first_seen(s.drop_last());
        if !d.contains(s.last()) {
            assert(d.push(s.last())[d.len() as int] == s.last());
            if d.contains(x) {
                let j = choose|j: int| 0 <= j < d.len() && d[j] == x;
                assert(d.push(s.last())[j] == x);
            }
            if d.push(s.last()).contains(x) && x != s.last() {
                let j = choose|j: int| 0 <= j < d.len() + 1 && d.push(s.last())[j] == x;
                assert(d[j] == x);
            }
        }
    }
}

proof fn lemma_first_seen_distinct(s: Seq<u32>)
    ensures
        forall|a: int, b: int|
            0 <= a < b < first_seen(s).len() ==> first_seen(s)[a] != first_seen(s)[b],
    decreases s.len(),
{
    if s.len() > 0 {
        lemma_first_seen_distinct(s.drop_last());
        let d = first_seen(s.drop_last());
        if !d.contains(s.last()) {
            assert forall|a: int, b: int|
                0 <= a < b < d.push(s.last()).len() implies d.push(s.last())[a] != d.push(s.last())[b] by {
                if b == d.len() {
                    assert(d[a] != s.last()) by {
                        if d[a] == s.last() {
                            assert(d.contains(s.last()));
                        }
                    }
                }
            }
        }
    }
}

proof fn lemma_count_zero(s: Seq<u32>, x: u32)
    requires
        !s.contains(x),
    ensures
        count_in(s, x) == 0,
    decreases s.len(),
{
    if s.len() > 0 {
        assert(!s.drop_last().contains(x)) by {
            if s.drop_last().contains(x) {
                let j = choose|j: int| 0 <= j < s.drop_last().len() && s.drop_last()[j] == x;
                assert(s[j] == x);
            }
        }
        lemma_count_zero(s.drop_last(), x);
        assert(s[s.len() - 1] != x);
    }
}

proof fn lemma_first_child_none(obs: Seq<Observation>, x: u32)
    requires
        !parent_pids(obs).contains(x),
    ensures
        first_child_observation(obs, x).is_none(),
    decreases obs.len(),
{
    if obs.len() > 0 {
        let rest = parent_pids(obs.drop_last());
        assert(!rest.contains(x)) by {
            if rest.contains(x) {
                let j = choose|j: int| 0 <= j < rest.len() && rest[j] == x;
                match obs.last().payload {
                    ObservationPayload::Process(p) => assert(rest.push(p.parent_pid)[j] == x),
                    _ => {},
                }
            }
        }
        lemma_first_child_none(obs.drop_last(), x);
        match obs.last().payload {
            ObservationPayload::Process(p) => {
                assert(rest.push(p.parent_pid)[rest.len() as int] == p.parent_pid);
            },
            _ => {},
        }
    }
}

/// Per-parent tally: parent PID, number of children seen, first child's observation id.
struct ParentTally {
    parent: u32,
    count: u64,
    first: ObservationId,
}

fn find_parent(tallies: &Vec<ParentTally>, parent: u32) -> (r: Option<usize>)
    ensures
        match r {
            Some(j) => j < tallies@.len() && tallies@[j as int].parent == parent,
            None => forall|k: int| 0 <= k < tallies@.len() ==> tallies@[k].parent != parent,
        },
{
    let mut j: usize = 0;
    while j < tallies.len()
        invariant
            j <= tallies@.len(),
            forall|k: int| 0 <= k < j ==> tallies@[k].parent != parent,
        decreases tallies.len() - j,
    {
        if tallies[j].parent == parent {
            return Some(j);
        }
        j = j + 1;
    }
    None
}

/// The tallies of the process observations in `obs`, in order of first appearance.
fn tally_parents(obs: &[Observation]) -> (t: Vec<ParentTally>)
    ensures
        t@.len() == first_seen(parent_pids(obs@)).len(),
        forall|k: int| 0 <= k < t@.len() ==> {
            &&& (#[trigger] t@[k]).parent == first_seen(parent_pids(obs@))[k]
            &&& t@[k].count == count_in(parent_pids(obs@), t@[k].parent)
            &&& first_child_observation(obs@, t@[k].parent) == Some(t@[k].first)
        },
{
    let mut t: Vec<ParentTally> = Vec::new();
    let mut i: usize = 0;
    while i < obs.len()
        invariant
            i <= obs@.len(),
            t@.len() == first_seen(parent_pids(obs@.take(i as int))).len(),
            forall|k: int| 0 <= k < t@.len() ==> {
                &&& (#[trigger] t@[k]).parent == first_seen(parent_pids(obs@.take(i as int)))[k]
                &&& t@[k].count == count_in(parent_pids(obs@.take(i as int)), t@[k].parent)
                &&& t@[k].count <= i
                &&& first_child_observation(obs@.take(i as int), t@[k].parent) == Some(t@[k].first)
            },
        decreases obs.len() - i,
    {
        let ghost prev = obs@.take(i as int);
        let ghost next = obs@.take(i + 1);
        proof {
            assert(next.drop_last() =~= prev);
            assert(next.last() == obs@[i as int]);
        }
        let ghost pp = parent_pids(prev);
        match &obs[i].payload {
            ObservationPayload::Process(p) => {
                let parent = p.parent_pid;
                proof {
                    assert(parent_pids(next) == pp.push(parent));
                    assert(pp.push(parent).drop_last() =~= pp);
                    assert forall|x: u32| #[trigger] count_in(pp.push(parent), x) == count_in(pp, x)
                        + if x == parent { 1nat } else { 0nat } by {}
                    lemma_first_seen_contains(pp, parent);
                }
                match find_parent(&t, parent) {
                    Some(j) => {
                        proof {
                            assert(first_seen(pp)[j as int] == parent);
                            assert(first_seen(pp).contains(parent));
                            assert(first_seen(pp.push(parent)) == first_seen(pp));
                        }
                        let old_count = t[j].count;
                        let first = t[j].first.clone();
                        let ghost old_t = t@;
                        proof {
                            lemma_first_seen_distinct(pp);
                        }
                        t.set(j, ParentTally { parent, count: old_count + 1, first });
                        proof {
                            assert forall|k: int| 0 <= k < t@.len() implies {
                                &&& (#[trigger] t@[k]).parent == first_seen(parent_pids(next))[k]
                                &&& t@[k].count == count_in(parent_pids(next), t@[k].parent)
                                &&& t@[k].count <= i + 1
                                &&& first_child_observation(next, t@[k].parent) == Some(t@[k].first)
                            } by {
                                assert(first_child_observation(prev, old_t[k].parent).is_some());
                                if k != j {
                                    assert(old_t[k].parent != parent);
                                    assert(t@[k] == old_t[k]);
                                }
                            }
                        }
                    },
                    None => {
                        proof {
                            assert(!first_seen(pp).contains(parent)) by {
                                if first_seen(pp).contains(parent) {
                                    let k = choose|k: int| 0 <= k < first_seen(pp).len() && first_seen(pp)[k] == parent;
                                    assert(t@[k].parent == parent);
                                }
                            }
                            assert(!pp.contains(parent));
                            lemma_count_zero(pp, parent);
                            lemma_first_child_none(prev, parent);
                            assert(first_seen(pp.push(parent)) == first_seen(pp).push(parent));
                        }
                        let ghost old_t = t@;
                        t.push(ParentTally { parent, count: 1, first: obs[i].id.clone() });
                        proof {
                            assert forall|k: int| 0 <= k < t@.len() implies {
                                &&& (#[trigger] t@[k]).parent == first_seen(parent_pids(next))[k]
                                &&& t@[k].count == count_in(parent_pids(next), t@[k].parent)
                                &&& t@[k].count <= i + 1
                                &&& first_child_observation(next, t@[k].parent) == Some(t@[k].first)
                            } by {
                                if k < t@.len() - 1 {
                                    assert(t@[k] == old_t[k]);
                                    assert(first_child_observation(prev, t@[k].parent).is_some());
                                    assert(old_t[k].parent != parent);
                                }
                            }
                        }
                    },
                }
            },
            _ => {
                proof {
                    assert(parent_pids(next) == pp);
                    assert forall|k: int| 0 <= k < t@.len() implies {
                        &&& (#[trigger] t@[k]).parent == first_seen(parent_pids(next))[k]
                        &&& t@[k].count == count_in(parent_pids(next), t@[k].parent)
                        &&& t@[k].count <= i + 1
                        &&& first_child_observation(next, t@[k].parent) == Some(t@[k].first)
                    } by {
                        assert(first_child_observation(prev, t@[k].parent).is_some());
                    }
                }
            },
        }
        i = i + 1;
    }
    proof {
        assert(obs@.take(obs@.len() as int) =~= obs@);
    }
    t
}

/// Counts the process observations in `obs`.
pub fn count_processes(obs: &[Observation]) -> (n: usize)
    ensures
        n == process_count(obs@),
{
    let mut n: usize = 0;
    let mut i: usize = 0;
    while i < obs.len()
        invariant
            i <= obs@.len(),
            n == parent_pids(obs@.take(i as int)).len(),
            n <= i,
        decreases obs.len() - i,
    {
        proof {
            assert(obs@.take(i + 1).drop_last() =~= obs@.take(i as int));
        }
        match &obs[i].payload {
            ObservationPayload::Process(_) => {
                n = n + 1;
            },
            _ => {},
        }
        i = i + 1;
    }
    proof {
        assert(obs@.take(obs@.len() as int) =~= obs@);
    }
    n
}

/// The incidents `incs` carry the incident ids drawn in order from the sequence starting
/// at `start`.
pub open spec fn drawn_incident_ids(incs: Seq<Incident>, start: u64) -> bool {
    forall|k: int| 0 <= k < incs.len() ==> (#[trigger] incs[k]).incident_id@
        == "IncidentId-"@ + decimal(sequence_after(start, k as nat) as nat)
}

/// The source after the incident ids of `incs` were drawn from `old`.
pub open spec fn after_incidents(old: IdSource, incs: Seq<Incident>) -> IdSource {
    IdSource { incident: sequence_after(old.incident, incs.len()), ..old }
}

pub(crate) proof fn lemma_draw_push(incs: Seq<Incident>, start: u64, inc: Incident)
    requires
        drawn_incident_ids(incs, start),
        inc.incident_id@ == "IncidentId-"@ + decimal(sequence_after(start, incs.len()) as nat),
    ensures
        drawn_incident_ids(incs.push(inc), start),
        sequence_after(start, incs.push(inc).len()) == next_sequence(sequence_after(start, incs.len())),
{
    assert forall|k: int| 0 <= k < incs.push(inc).len() implies (#[trigger] incs.push(inc)[k]).incident_id@
        == "IncidentId-"@ + decimal(sequence_after(start, k as nat) as nat) by {
        if k < incs.len() {
            assert(incs.push(inc)[k] == incs[k]);
        }
    }
}

fn security_warning(
    description: String,
    source: Option<ObservationId>,
    ids: &mut IdSource,
) -> (i: Incident)
    ensures
        is_security_warning(i, source, description@),
        i.incident_id@ == "IncidentId-"@ + decimal(old(ids).incident as nat),
        *final(ids) == (IdSource { incident: crate::ids::next_sequence(old(ids).incident), ..*old(ids) }),
{
    Incident::new(
        IncidentCategory::Security,
        IncidentSeverity::Warning,
        AgentId::from_string("security-agent"),
        source,
        description,
        ids,
    )
}

/// Detects fork storms (a parent with more than five observed children) and excessive
/// process creation (more than fifty observed processes).
pub fn detect_fork_storm(obs: &[Observation], ids: &mut IdSource) -> (incs: Vec<Incident>)
    ensures
        fork_storm_incidents(obs@, incs@),
        drawn_incident_ids(incs@, old(ids).incident),
        *final(ids) == after_incidents(*old(ids), incs@),
{
    let tallies = tally_parents(obs);
    let ghost pp = parent_pids(obs@);
    let ghost fs = first_seen(pp);
    let ghost pred = |p: u32| count_in(pp, p) > 5;
    let mut incs: Vec<Incident> = Vec::new();
    let mut k: usize = 0;
    while k < tallies.len()
        invariant
            k <= tallies@.len(),
            tallies@.len() == fs.len(),
            pp == parent_pids(obs@),
            fs == first_seen(pp),
            pred == (|p: u32| count_in(pp, p) > 5),
            forall|m: int| 0 <= m < tallies@.len() ==> {
                &&& (#[trigger] tallies@[m]).parent == fs[m]
                &&& tallies@[m].count == count_in(pp, tallies@[m].parent)
                &&& first_child_observation(obs@, tallies@[m].parent) == Some(tallies@[m].first)
            },
            incs@.len() == fs.take(k as int).filter(pred).len(),
            forall|m: int| 0 <= m < incs@.len() ==> is_security_warning(
                #[trigger] incs@[m],
                first_child_observation(obs@, fs.take(k as int).filter(pred)[m]),
                fork_storm_text(fs.take(k as int).filter(pred)[m], count_in(pp, fs.take(k as int).filter(pred)[m])),
            ),
            drawn_incident_ids(incs@, old(ids).incident),
            *ids == after_incidents(*old(ids), incs@),
        decreases tallies.len() - k,
    {
        proof {
            reveal_with_fuel(Seq::<_>::filter, 1);
            assert(fs.take(k + 1).drop_last() =~= fs.take(k as int));
            assert(fs.take(k + 1).last() == fs[k as int]);
        }
        let tally = &tallies[k];
        if tally.count > 5 {
            let mut d = String::new();
            d.append("ForkStormDetected: parent PID ");
            push_decimal(&mut d, tally.parent as u64);
            d.append(" spawned ");
            push_decimal(&mut d, tally.count);
            d.append(" processes (threshold: 5)");
            proof {
                reveal_strlit("ForkStormDetected: parent PID ");
                reveal_strlit(" spawned ");
                reveal_strlit(" processes (threshold: 5)");
            }
            let inc = security_warning(d, Some(tally.first.clone()), ids);
            proof {
                lemma_draw_push(incs@, old(ids).incident, inc);
            }
            incs.push(inc);
        }
        k = k + 1;
    }
    proof {
        assert(fs.take(fs.len() as int) =~= fs);
    }
    let total = count_processes(obs);
    if total > 50 {
        let mut d = String::new();
        d.append("ExcessiveProcessCreation: ");
        push_decimal(&mut d, total as u64);
        d.append(" active processes (threshold: 50)");
        let inc = security_warning(d, None, ids);
        proof {
            lemma_draw_push(incs@, old(ids).incident, inc);
        }
        incs.push(inc);
    }
    incs
}

} // verus!

verus! {

/// Bit pattern of the binary64 value `0.6`.
pub const SIX_TENTHS_BITS: u64 = 0x3FE3_3333_3333_3333;

/// Bit pattern of the binary64 value `0.8`.
pub const EIGHT_TENTHS_BITS: u64 = 0x3FE9_9999_9999_999A;

/// How high a CPU pressure is: above 0.8 (`High`), above 0.6 but not above 0.8
/// (`Elevated`), or not above 0.6 (`Calm`).
#[derive(Clone, Copy, Debug, PartialEq, Eq, Structural)]
pub enum PressureBand {
    Calm,
    Elevated,
    High,
}

/// The band of the binary64 value with bit pattern `bits`.
pub open spec fn band_of(bits: u64) -> PressureBand {
    if exceeds(bits, EIGHT_TENTHS_BITS) {
        PressureBand::High
    } else if exceeds(bits, SIX_TENTHS_BITS) {
        PressureBand::Elevated
    } else {
        PressureBand::Calm
    }
}

/// The `pressure_some_avg10` readings of the CPU observations in `obs`, in order, as
/// bit patterns.
pub open spec fn pressure_readings(obs: Seq<Observation>) -> Seq<u64>
    decreases obs.len(),
{
    if obs.len() == 0 {
        Seq::empty()
    } else {
        let rest = pressure_readings(obs.drop_last());
        match obs.last().payload {
            ObservationPayload::Cpu(c) => match c.pressure_some_avg10 {
                Some(r) => rest.push(r.0),
                None => rest,
            },
            _ => rest,
        }
    }
}

/// The largest reading that is a non-negative number, or `+0.0` when there is none:
/// what folding `f64::max` over the readings from `0.0` gives, since a NaN never wins
/// `max` and a negative value never beats `0.0`.
pub open spec fn peak_reading(readings: Seq<u64>) -> u64
    decreases readings.len(),
{
    if readings.len() == 0 {
        0
    } else {
        let m = peak_reading(readings.drop_last());
        let x = readings.last();
        if x <= POSITIVE_INFINITY_BITS && x > m { x } else { m }
    }
}

/// The peak CPU pressure of `obs` (see `peak_reading`).
pub open spec fn peak_pressure(obs: Seq<Observation>) -> u64 {
    peak_reading(pressure_readings(obs))
}

/// The peak is `+0.0` or one of the non-negative readings, and no non-negative reading
/// is above it.
pub proof fn lemma_peak_reading(readings: Seq<u64>)
    ensures
        peak_reading(readings) <= POSITIVE_INFINITY_BITS,
        peak_reading(readings) == 0 || readings.contains(peak_reading(readings)),
        forall|k: int| 0 <= k < readings.len() && readings[k] <= POSITIVE_INFINITY_BITS
            ==> readings[k] <= peak_reading(readings),
    decreases readings.len(),
{
    if readings.len() > 0 {
        let rest = readings.drop_last();
        lemma_peak_reading(rest);
        let m = peak_reading(rest);
        if m != 0 && peak_reading(readings) == m {
            let j = choose|j: int| 0 <= j < rest.len() && rest[j] == m;
            assert(readings[j] == m);
        }
        assert(readings[readings.len() - 1] == readings.last());
        assert forall|k: int| 0 <= k < readings.len() && readings[k] <= POSITIVE_INFINITY_BITS
            implies readings[k] <= peak_reading(readings) by {
            if k < readings.len() - 1 {
                assert(rest[k] == readings[k]);
            }
        }
    }
}

/// The peak exceeds a non-negative threshold exactly when one of the readings does.
pub proof fn lemma_peak_exceeds(readings: Seq<u64>, threshold: u64)
    ensures
        exceeds(peak_reading(readings), threshold)
            <==> exists|k: int| 0 <= k < readings.len() && #[trigger] exceeds(readings[k], threshold),
{
    lemma_peak_reading(readings);
    let p = peak_reading(readings);
    if exceeds(p, threshold) {
        let j = choose|j: int| 0 <= j < readings.len() && readings[j] == p;
        assert(exceeds(readings[j], threshold));
    }
    if exists|k: int| 0 <= k < readings.len() && #[trigger] exceeds(readings[k], threshold) {
        let k = choose|k: int| 0 <= k < readings.len() && #[trigger] exceeds(readings[k], threshold);
        assert(readings[k] <= p);
    }
}

/// The peak CPU pressure of the observations, as `f64::max` folded from `0.0` finds it.
pub fn max_cpu_pressure(obs: &[Observation]) -> (r: Real64)
    ensures
        r.0 == peak_pressure(obs@),
{
    let mut peak: u64 = 0;
    let mut i: usize = 0;
    while i < obs.len()
        invariant
            i <= obs@.len(),
            peak == peak_reading(pressure_readings(obs@.take(i as int))),
        decreases obs.len() - i,
    {
        proof {
            assert(obs@.take(i + 1).drop_last() =~= obs@.take(i as int));
        }
        match &obs[i].payload {
            ObservationPayload::Cpu(c) => match c.pressure_some_avg10 {
                Some(r) => {
                    proof {
                        let rs = pressure_readings(obs@.take(i as int));
                        assert(rs.push(r.0).drop_last() =~= rs);
                    }
                    if r.0 <= POSITIVE_INFINITY_BITS && r.0 > peak {
                        peak = r.0;
                    }
                },
                None => {},
            },
            _ => {},
        }
        i = i + 1;
    }
    proof {
        assert(obs@.take(obs@.len() as int) =~= obs@);
    }
    Real64(peak)
}

/// The band of a CPU pressure.
pub fn pressure_band(pressure: Real64) -> (b: PressureBand)
    ensures
        b == band_of(pressure.0),
{
    if pressure.exceeds(EIGHT_TENTHS_BITS) {
        PressureBand::High
    } else if pressure.exceeds(SIX_TENTHS_BITS) {
        PressureBand::Elevated
    } else {
        PressureBand::Calm
    }
}

/// Watches process behaviour and raises incidents. It never proposes actions.
#[derive(Debug)]
pub struct SecurityAgent {
    id: AgentId,
    /// Ticks observed so far.
    tick_count: u64,
    /// Process count of the previous tick.
    prev_process_count: usize,
    /// Consecutive ticks with many processes under elevated CPU pressure.
    high_process_ticks: u64,
    /// When set, more processes than this raise a critical incident.
    high_process_critical_threshold: Option<usize>,
}

/// The description of a high process count.
pub open spec fn high_count_text(n: nat) -> Seq<char> {
    "HighProcessCount: "@ + decimal(n)
        + " active processes (threshold: 20) — selective veto of resource-modifying actions active"@
}

/// The description of a critical process count.
pub open spec fn critical_count_text(n: nat, threshold: nat) -> Seq<char> {
    "CriticalProcessCount: "@ + decimal(n) + " active processes (threshold: "@ + decimal(threshold)
        + ") — global freeze active, all actions vetoed"@
}

/// The description of repeated policy denial.
pub open spec fn denial_text(n: nat, percent: Seq<char>, tick: nat) -> Seq<char> {
    "RepeatedPolicyDenial: high process count ("@ + decimal(n) + ") with elevated CPU pressure ("@
        + percent + "%) persisted for "@ + decimal(tick)
        + " ticks — resource policy may need adjustment"@
}

/// The description of anomalous agent behaviour.
pub open spec fn anomaly_text(n: nat, percent: Seq<char>, tick: nat) -> Seq<char> {
    "AgentBehaviorAnomaly: CPU pressure "@ + percent + "% with "@ + decimal(n)
        + " processes at tick "@ + decimal(tick)
        + " — workload behaviour deviating from baseline"@
}

/// `i` is an incident of `category` and `severity` from `source` about no particular
/// observation, with description `description`.
pub open spec fn is_incident(
    i: Incident,
    category: IncidentCategory,
    severity: IncidentSeverity,
    source: Seq<char>,
    description: Seq<char>,
) -> bool {
    &&& i.category == category
    &&& i.severity == severity
    &&& i.source_agent@ == source
    &&& i.source_observation.is_none()
    &&& i.correlation_id.is_none()
    &&& crate::clock::is_timestamp(i.timestamp@)
    &&& i.description@ == description
}

/// The count of consecutive ticks with more than 40 processes under elevated CPU
/// pressure, after one more tick.
pub open spec fn denial_streak(streak: u64, processes: nat, band: PressureBand) -> u64 {
    if processes > 40 && band != PressureBand::Calm { (streak + 1) as u64 } else { 0 }
}

/// The streak after a tick whose denial streak is `denial_streak(..)`: a streak that
/// reaches three raises an incident and starts over.
pub open spec fn next_streak(streak: u64, processes: nat, band: PressureBand) -> u64 {
    if denial_streak(streak, processes, band) >= 3 { 0 } else { denial_streak(streak, processes, band) }
}

/// `incs` are the incidents of tick number `tick` over `obs`, for an agent `agent` with
/// denial streak `streak` before the tick and critical threshold `threshold`, where
/// `percent` is the peak CPU pressure in percent as text. In this order: fork storms and
/// excessive process creation (see `fork_storm_incidents`); repeated policy denial, when
/// more than 40 processes met elevated CPU pressure for the third tick running; a high
/// process count (more than 20 processes) and, when configured, a critical one;
/// anomalous behaviour, when CPU pressure is high and more than 30 processes run.
pub open spec fn tick_incidents(
    obs: Seq<Observation>,
    streak: u64,
    threshold: Option<usize>,
    agent: AgentId,
    tick: nat,
    percent: Seq<char>,
    incs: Seq<Incident>,
) -> bool {
    let n = process_count(obs);
    let band = band_of(peak_pressure(obs));
    let storms = storm_parents(obs).len() + if n > 50 { 1int } else { 0int };
    let denial = denial_streak(streak, n, band) >= 3;
    let d = if denial { 1int } else { 0int };
    let high = n > 20;
    let h = if high { 1int } else { 0int };
    let critical = threshold matches Some(t) && n > t;
    let c = if critical { 1int } else { 0int };
    let anomaly = band == PressureBand::High && n > 30;
    let a = if anomaly { 1int } else { 0int };
    &&& incs.len() == storms + d + h + c + a
    &&& fork_storm_incidents(obs, incs.subrange(0, storms))
    &&& denial ==> is_incident(
        incs[storms],
        IncidentCategory::GovernanceViolation,
        IncidentSeverity::Warning,
        "security-agent"@,
        denial_text(n, percent, tick),
    )
    &&& high ==> is_incident(
        incs[storms + d],
        IncidentCategory::Security,
        IncidentSeverity::Error,
        agent@,
        high_count_text(n),
    )
    &&& critical ==> is_incident(
        incs[storms + d + h],
        IncidentCategory::Security,
        IncidentSeverity::Critical,
        agent@,
        critical_count_text(n, threshold->0 as nat),
    )
    &&& anomaly ==> is_incident(
        incs[storms + d + h + c],
        IncidentCategory::GovernanceViolation,
        IncidentSeverity::Info,
        "security-agent"@,
        anomaly_text(n, percent, tick),
    )
}

impl SecurityAgent {
    pub fn new(id: AgentId) -> (a: Self)
        ensures
            a.agent() == id,
            a.ticks() == 0,
            a.streak() == 0,
            a.critical_threshold().is_none(),
            a.wf(),
    {
        SecurityAgent {
            id,
            tick_count: 0,
            prev_process_count: 0,
            high_process_ticks: 0,
            high_process_critical_threshold: None,
        }
    }

    /// An agent that also raises a critical incident when more than `threshold`
    /// processes are observed (for testing and experiments).
    pub fn with_critical_threshold(id: AgentId, threshold: usize) -> (a: Self)
        ensures
            a.agent() == id,
            a.ticks() == 0,
            a.streak() == 0,
            a.critical_threshold() == Some(threshold),
            a.wf(),
    {
        SecurityAgent {
            id,
            tick_count: 0,
            prev_process_count: 0,
            high_process_ticks: 0,
            high_process_critical_threshold: Some(threshold),
        }
    }

    pub closed spec fn agent(&self) -> AgentId {
        self.id
    }

    pub closed spec fn ticks(&self) -> u64 {
        self.tick_count
    }

    pub closed spec fn streak(&self) -> u64 {
        self.high_process_ticks
    }

    pub closed spec fn critical_threshold(&self) -> Option<usize> {
        self.high_process_critical_threshold
    }

    /// The streak of high-pressure ticks is always below three: reaching three raises an
    /// incident and starts it over.
    pub closed spec fn wf(&self) -> bool {
        self.high_process_ticks < 3
    }

    pub fn id(&self) -> (r: AgentId)
        ensures
            r == self.agent(),
    {
        self.id.clone()
    }

    pub fn kind(&self) -> (k: AgentKind)
        ensures
            k == AgentKind::Security,
    {
        AgentKind::Security
    }

    pub fn capabilities(&self) -> (c: CapabilitySet)
        ensures
            c.capabilities@.len() == 0,
    {
        CapabilitySet::default()
    }

    /// The security agent is advisory only: it never proposes.
    pub fn propose(&self, observations: &[Observation]) -> (ps: Vec<crate::domain::proposal::Proposal>)
        ensures
            ps@.len() == 0,
    {
        Vec::new()
    }

    fn incident(
        category: IncidentCategory,
        severity: IncidentSeverity,
        source: AgentId,
        description: String,
        ids: &mut IdSource,
    ) -> (i: Incident)
        ensures
            is_incident(i, category, severity, source@, description@),
            i.incident_id@ == "IncidentId-"@ + decimal(old(ids).incident as nat),
            *final(ids) == (IdSource { incident: next_sequence(old(ids).incident), ..*old(ids) }),
    {
        Incident::new(category, severity, source, None, description, ids)
    }

    /// The incidents of one tick (see `tick_incidents`); `percent_text` renders the peak
    /// CPU pressure in percent with one decimal, as the descriptions show it.
    pub fn collect_incidents<F: Fn(Real64) -> String>(
        &mut self,
        observations: &[Observation],
        percent_text: F,
        ids: &mut IdSource,
    ) -> (incs: Vec<Incident>)
        requires
            old(self).wf(),
            old(self).ticks() < u64::MAX,
            call_requires(percent_text, (Real64(peak_pressure(observations@)),)),
        ensures
            final(self).wf(),
            final(self).agent() == old(self).agent(),
            final(self).critical_threshold() == old(self).critical_threshold(),
            final(self).ticks() == old(self).ticks() + 1,
            final(self).streak() == next_streak(
                old(self).streak(),
                process_count(observations@),
                band_of(peak_pressure(observations@)),
            ),
            exists|text: String|
                #[trigger] call_ensures(percent_text, (Real64(peak_pressure(observations@)),), text)
                && tick_incidents(
                    observations@,
                    old(self).streak(),
                    old(self).critical_threshold(),
                    old(self).agent(),
                    final(self).ticks() as nat,
                    text@,
                    incs@,
                ),
            drawn_incident_ids(incs@, old(ids).incident),
            *final(ids) == after_incidents(*old(ids), incs@),
            collects(*old(self), observations@, *final(self), incs@),
    {
        let peak = max_cpu_pressure(observations);
        let band = pressure_band(peak);
        let percent = percent_text(peak);
        self.tick_count = self.tick_count + 1;
        let tick = self.tick_count;
        let mut incs = detect_fork_storm(observations, ids);
        let ghost storms = incs@;
        let total = count_processes(observations);

        // Repeated policy denial.
        if total > 40 && band != PressureBand::Calm {
            self.high_process_ticks = self.high_process_ticks + 1;
        } else {
            self.high_process_ticks = 0;
        }
        self.prev_process_count = total;
        if self.high_process_ticks >= 3 {
            self.high_process_ticks = 0;
            let mut d = String::new();
            d.append("RepeatedPolicyDenial: high process count (");
            push_decimal(&mut d, total as u64);
            d.append(") with elevated CPU pressure (");
            d.append(percent.as_str());
            d.append("%) persisted for ");
            push_decimal(&mut d, tick);
            d.append(" ticks — resource policy may need adjustment");
            let inc = Self::incident(
                IncidentCategory::GovernanceViolation,
                IncidentSeverity::Warning,
                AgentId::from_string("security-agent"),
                d,
                ids,
            );
            proof {
                lemma_draw_push(incs@, old(ids).incident, inc);
            }
            incs.push(inc);
        }
        let ghost after_denial = incs@;

        // Process-count thresholds.
        if total > 20 {
            let mut d = String::new();
            d.append("HighProcessCount: ");
            push_decimal(&mut d, total as u64);
            d.append(" active processes (threshold: 20) — selective veto of resource-modifying actions active");
            let inc = Self::incident(
                IncidentCategory::Security,
                IncidentSeverity::Error,
                self.id.clone(),
                d,
                ids,
            );
            proof {
                lemma_draw_push(incs@, old(ids).incident, inc);
            }
            incs.push(inc);
        }
        let ghost after_high = incs@;
        match self.high_process_critical_threshold {
            Some(threshold) => {
                if total > threshold {
                    let mut d = String::new();
                    d.append("CriticalProcessCount: ");
                    push_decimal(&mut d, total as u64);
                    d.append(" active processes (threshold: ");
                    push_decimal(&mut d, threshold as u64);
                    d.append(") — global freeze active, all actions vetoed");
                    let inc = Self::incident(
                        IncidentCategory::Security,
                        IncidentSeverity::Critical,
                        self.id.clone(),
                        d,
                        ids,
                    );
                    proof {
                        lemma_draw_push(incs@, old(ids).incident, inc);
                    }
                    incs.push(inc);
                }
            },
            None => {},
        }
        let ghost after_critical = incs@;

        // Anomalous agent behaviour.
        if band == PressureBand::High && total > 30 {
            let mut d = String::new();
            d.append("AgentBehaviorAnomaly: CPU pressure ");
            d.append(percent.as_str());
            d.append("% with ");
            push_decimal(&mut d, total as u64);
            d.append(" processes at tick ");
            push_decimal(&mut d, tick);
            d.append(" — workload behaviour deviating from baseline");
            let inc = Self::incident(
                IncidentCategory::GovernanceViolation,
                IncidentSeverity::Info,
                AgentId::from_string("security-agent"),
                d,
                ids,
            );
            proof {
                lemma_draw_push(incs@, old(ids).incident, inc);
            }
            incs.push(inc);
        }
        proof {
            assert(incs@.subrange(0, storms.len() as int) =~= storms);
            assert(tick_incidents(
                observations@,
                old(self).streak(),
                old(self).critical_threshold(),
                old(self).agent(),
                self.ticks() as nat,
                percent@,
                incs@,
            ));
        }
        incs
    }
}


/// A security agent without a critical threshold (as `SecurityAgent::new` makes it, and
/// as `collect_incidents` keeps it) never raises a Critical incident: every tick's
/// incidents are warnings, errors or informational.
pub proof fn lemma_no_critical_without_threshold(
    obs: Seq<Observation>,
    streak: u64,
    agent: AgentId,
    tick: nat,
    percent: Seq<char>,
    incs: Seq<Incident>,
)
    requires
        tick_incidents(obs, streak, None, agent, tick, percent, incs),
    ensures
        forall|k: int| 0 <= k < incs.len() ==> (#[trigger] incs[k]).severity != IncidentSeverity::Critical,
{
    let n = process_count(obs);
    let band = band_of(peak_pressure(obs));
    let storms = storm_parents(obs).len() + if n > 50 { 1int } else { 0int };
    let storm_incs = incs.subrange(0, storms);
    assert forall|k: int| 0 <= k < incs.len() implies (#[trigger] incs[k]).severity != IncidentSeverity::Critical by {
        if k < storms {
            assert(incs[k] == storm_incs[k]);
            if k < storm_parents(obs).len() {
                assert(is_security_warning(
                    storm_incs[k],
                    first_child_observation(obs, storm_parents(obs)[k]),
                    fork_storm_text(storm_parents(obs)[k], count_in(parent_pids(obs), storm_parents(obs)[k])),
                ));
            }
        }
    }
}


/// One call of `collect_incidents`: from the agent `before`, over `obs`, the agent became
/// `after` and raised `incs` (the peak pressure rendered as some text).
pub open spec fn collects(before: SecurityAgent, obs: Seq<Observation>, after: SecurityAgent, incs: Seq<Incident>) -> bool {
    &&& after.wf()
    &&& after.agent() == before.agent()
    &&& after.critical_threshold() == before.critical_threshold()
    &&& after.ticks() == before.ticks() + 1
    &&& after.streak() == next_streak(before.streak(), process_count(obs), band_of(peak_pressure(obs)))
    &&& exists|text: Seq<char>| #[trigger] tick_incidents(
        obs,
        before.streak(),
        before.critical_threshold(),
        before.agent(),
        after.ticks() as nat,
        text,
        incs,
    )
}

/// More than 40 processes met elevated (or high) CPU pressure in `obs`.
pub open spec fn denial_pressure(obs: Seq<Observation>) -> bool {
    process_count(obs) > 40 && band_of(peak_pressure(obs)) != PressureBand::Calm
}

/// `incs` hold a repeated-policy-denial incident (the only governance violation raised
/// as a warning).
pub open spec fn raises_denial(incs: Seq<Incident>) -> bool {
    exists|k: int| 0 <= k < incs.len() && (#[trigger] incs[k]).category == IncidentCategory::GovernanceViolation
        && incs[k].severity == IncidentSeverity::Warning
}

/// A tick raises the repeated-policy-denial incident exactly when its denial streak
/// reaches three.
proof fn lemma_denial_raised_iff(
    obs: Seq<Observation>,
    streak: u64,
    threshold: Option<usize>,
    agent: AgentId,
    tick: nat,
    percent: Seq<char>,
    incs: Seq<Incident>,
)
    requires
        tick_incidents(obs, streak, threshold, agent, tick, percent, incs),
    ensures
        raises_denial(incs) <==> denial_streak(streak, process_count(obs), band_of(peak_pressure(obs))) >= 3,
{
    let n = process_count(obs);
    let band = band_of(peak_pressure(obs));
    let storms = storm_parents(obs).len() + if n > 50 { 1int } else { 0int };
    let storm_incs = incs.subrange(0, storms);
    let denial = denial_streak(streak, n, band) >= 3;
    if denial {
        assert(incs[storms].category == IncidentCategory::GovernanceViolation);
    }
    if raises_denial(incs) {
        let k = choose|k: int| 0 <= k < incs.len() && (#[trigger] incs[k]).category == IncidentCategory::GovernanceViolation
            && incs[k].severity == IncidentSeverity::Warning;
        if k < storms {
            assert(incs[k] == storm_incs[k]);
            if k < storm_parents(obs).len() {
                assert(is_security_warning(
                    storm_incs[k],
                    first_child_observation(obs, storm_parents(obs)[k]),
                    fork_storm_text(storm_parents(obs)[k], count_in(parent_pids(obs), storm_parents(obs)[k])),
                ));
            }
        }
    }
}

/// Repeated policy denial over a sequence of calls: starting from a streak of zero (as a
/// new agent has), while every tick has more than 40 processes under elevated CPU pressure,
/// calls 3, 6, 9, ... raise the repeated-policy-denial incident and no other call does;
/// `agents[i]` is the agent before call `i`, which saw `obs[i]` and raised `incs[i]`.
pub proof fn lemma_denial_every_third_pressured_call(
    agents: Seq<SecurityAgent>,
    obs: Seq<Seq<Observation>>,
    incs: Seq<Seq<Incident>>,
)
    requires
        agents.len() == obs.len() + 1,
        incs.len() == obs.len(),
        agents[0].streak() == 0,
        forall|i: int| 0 <= i < obs.len() ==> collects(agents[i], #[trigger] obs[i], agents[i + 1], incs[i]),
        forall|i: int| 0 <= i < obs.len() ==> denial_pressure(#[trigger] obs[i]),
    ensures
        forall|i: int| 0 <= i < obs.len() ==> (raises_denial(#[trigger] incs[i]) <==> i % 3 == 2),
    decreases obs.len(),
{
    if obs.len() > 0 {
        let m = obs.len() - 1;
        lemma_denial_every_third_pressured_call(agents.drop_last(), obs.drop_last(), incs.drop_last());
        lemma_streak_counts_pressured_calls(agents, obs, incs, m);
        assert(collects(agents[m], obs[m], agents[m + 1], incs[m]));
        let text = choose|text: Seq<char>| #[trigger] tick_incidents(
            obs[m],
            agents[m].streak(),
            agents[m].critical_threshold(),
            agents[m].agent(),
            agents[m + 1].ticks() as nat,
            text,
            incs[m],
        );
        lemma_denial_raised_iff(obs[m], agents[m].streak(), agents[m].critical_threshold(), agents[m].agent(),
            agents[m + 1].ticks() as nat, text, incs[m]);
        assert forall|i: int| 0 <= i < obs.len() implies (raises_denial(#[trigger] incs[i]) <==> i % 3 == 2) by {
            if i < m {
                assert(incs.drop_last()[i] == incs[i]);
                assert(obs.drop_last()[i] == obs[i]);
            }
        }
    }
}

/// Under the conditions of `lemma_denial_every_third_pressured_call`, the agent before
/// call `i` has streak `i % 3`.
proof fn lemma_streak_counts_pressured_calls(
    agents: Seq<SecurityAgent>,
    obs: Seq<Seq<Observation>>,
    incs: Seq<Seq<Incident>>,
    i: int,
)
    requires
        agents.len() == obs.len() + 1,
        incs.len() == obs.len(),
        agents[0].streak() == 0,
        forall|j: int| 0 <= j < obs.len() ==> collects(agents[j], #[trigger] obs[j], agents[j + 1], incs[j]),
        forall|j: int| 0 <= j < obs.len() ==> denial_pressure(#[trigger] obs[j]),
        0 <= i <= obs.len(),
    ensures
        agents[i].streak() == i % 3,
    decreases i,
{
    if i > 0 {
        lemma_streak_counts_pressured_calls(agents, obs, incs, i - 1);
        assert(collects(agents[i - 1], obs[i - 1], agents[i], incs[i - 1]));
        assert(denial_pressure(obs[i - 1]));
    }
}

/// A call without more than 40 processes under elevated CPU pressure starts the streak
/// over and raises no repeated-policy-denial incident.
pub proof fn lemma_unpressured_call_resets(
    before: SecurityAgent,
    obs: Seq<Observation>,
    after: SecurityAgent,
    incs: Seq<Incident>,
)
    requires
        collects(before, obs, after, incs),
        !denial_pressure(obs),
    ensures
        after.streak() == 0,
        !raises_denial(incs),
{
    let text = choose|text: Seq<char>| #[trigger] tick_incidents(
        obs,
        before.streak(),
        before.critical_threshold(),
        before.agent(),
        after.ticks() as nat,
        text,
        incs,
    );
    lemma_denial_raised_iff(obs, before.streak(), before.critical_threshold(), before.agent(), after.ticks() as nat, text, incs);
}

/// An agent built without a critical threshold (as `SecurityAgent::new` builds it) raises
/// no Critical incident on any later call: `agents[i]` is the agent before call `i`, which
/// saw `obs[i]` and raised `incs[i]`.
pub proof fn lemma_never_critical_without_threshold(
    agents: Seq<SecurityAgent>,
    obs: Seq<Seq<Observation>>,
    incs: Seq<Seq<Incident>>,
)
    requires
        agents.len() == obs.len() + 1,
        incs.len() == obs.len(),
        agents[0].critical_threshold().is_none(),
        forall|i: int| 0 <= i < obs.len() ==> collects(agents[i], #[trigger] obs[i], agents[i + 1], incs[i]),
    ensures
        forall|i: int, k: int| 0 <= i < incs.len() && 0 <= k < incs[i].len()
            ==> (#[trigger] incs[i][k]).severity != IncidentSeverity::Critical,
{
    assert forall|i: int| 0 <= i <= obs.len() implies (#[trigger] agents[i]).critical_threshold().is_none() by {
        lemma_threshold_kept(agents, obs, incs, i);
    }
    assert forall|i: int, k: int| 0 <= i < incs.len() && 0 <= k < incs[i].len()
        implies (#[trigger] incs[i][k]).severity != IncidentSeverity::Critical by {
        assert(collects(agents[i], obs[i], agents[i + 1], incs[i]));
        assert(agents[i].critical_threshold().is_none());
        let text = choose|text: Seq<char>| #[trigger] tick_incidents(
            obs[i],
            agents[i].streak(),
            agents[i].critical_threshold(),
            agents[i].agent(),
            agents[i + 1].ticks() as nat,
            text,
            incs[i],
        );
        lemma_no_critical_without_threshold(obs[i], agents[i].streak(), agents[i].agent(),
            agents[i + 1].ticks() as nat, text, incs[i]);
    }
}

proof fn lemma_threshold_kept(
    agents: Seq<SecurityAgent>,
    obs: Seq<Seq<Observation>>,
    incs: Seq<Seq<Incident>>,
    i: int,
)
    requires
        agents.len() == obs.len() + 1,
        incs.len() == obs.len(),
        forall|j: int| 0 <= j < obs.len() ==> collects(agents[j], #[trigger] obs[j], agents[j + 1], incs[j]),
        0 <= i <= obs.len(),
    ensures
        agents[i].critical_threshold() == agents[0].critical_threshold(),
    decreases i,
{
    if i > 0 {
        lemma_threshold_kept(agents, obs, incs, i - 1);
        assert(collects(agents[i - 1], obs[i - 1], agents[i], incs[i - 1]));
    }
}

} // verus!
