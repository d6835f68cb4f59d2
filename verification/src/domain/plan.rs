//! Task plans derived from intents.
use std::collections::HashMap;
use vstd::prelude::*;
use crate::clock::now_utc;
use crate::ids::{IdSource, IntentId, PlanId};
use crate::text::decimal;

verus! {

/// A single step within a `TaskPlan`.
#[derive(Debug, PartialEq)]
pub struct PlanStep {
    pub order: u32,
    pub action: String,
    pub parameters: HashMap<String, String>,
}

impl PlanStep {
    pub fn new(order: u32, action: String, parameters: HashMap<String, String>) -> (s: Self)
        ensures
            s.order == order,
            s.action == action,
            s.parameters == parameters,
    {
        PlanStep { order, action, parameters }
    }
}

/// A deterministic, persistent, replayable plan derived from an intent.
/// A plan always has at least one step.
#[derive(Debug, PartialEq)]
pub struct TaskPlan {
    pub id: PlanId,
    pub source_intent_id: IntentId,
    pub steps: Vec<PlanStep>,
    pub status: String,
    pub timestamp: String,
}

impl TaskPlan {
    /// A new plan with a fresh id, stamped with the current time.
    pub fn new(
        source_intent_id: IntentId,
        steps: Vec<PlanStep>,
        status: String,
        ids: &mut IdSource,
    ) -> (p: Self)
        requires
            steps@.len() > 0,
        ensures
            p.id@ == "PlanId-"@ + decimal(old(ids).plan as nat),
            *final(ids) == (IdSource { plan: crate::ids::next_sequence(old(ids).plan), ..*old(ids) }),
            p.source_intent_id == source_intent_id,
            p.steps == steps,
            p.status == status,
            crate::clock::is_timestamp(p.timestamp@),
    {
        let id = ids.next_plan_id();
        let timestamp = now_utc();
        TaskPlan { id, source_intent_id, steps, status, timestamp }
    }
}


/// `r` is a copy of `s`: the same fields, its parameters compared as a map.
pub open spec fn step_copy(r: PlanStep, s: PlanStep) -> bool {
    &&& r.order == s.order
    &&& r.action == s.action
    &&& r.parameters@ == s.parameters@
}

impl Clone for PlanStep {
    fn clone(&self) -> (r: Self)
        ensures
            step_copy(r, *self),
    {
        PlanStep { order: self.order, action: self.action.clone(), parameters: self.parameters.clone() }
    }
}

impl Clone for TaskPlan {
    fn clone(&self) -> (r: Self)
        ensures
            r.id == self.id,
            r.source_intent_id == self.source_intent_id,
            r.steps@.len() == self.steps@.len(),
            forall|i: int| 0 <= i < r.steps@.len() ==> step_copy(#[trigger] r.steps@[i], self.steps@[i]),
            r.status == self.status,
            r.timestamp == self.timestamp,
    {
        TaskPlan {
            id: self.id.clone(),
            source_intent_id: self.source_intent_id.clone(),
            steps: self.steps.clone(),
            status: self.status.clone(),
            timestamp: self.timestamp.clone(),
        }
    }
}

} // verus!
