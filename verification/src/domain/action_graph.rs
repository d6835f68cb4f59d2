//! Directed graphs of actions derived from a task plan.
use std::collections::HashMap;
use vstd::prelude::*;
use crate::domain::action::{ActionKind, ActionStatus};
use crate::ids::{ActionId, IntentId, PlanId};

verus! {

/// Phase of an action within the execution pipeline.
#[derive(Clone, Copy, Debug, PartialEq, Eq, Structural)]
pub enum ActionPhase {
    Pending,
    Proposed,
    Approved,
    Denied,
    Executing,
    Succeeded,
    Failed,
    RolledBack,
}

/// A single actionable node within an `ActionGraph`.
#[derive(Debug)]
pub struct ActionNode {
    pub id: ActionId,
    pub kind: ActionKind,
    pub params: HashMap<String, String>,
    pub status: ActionStatus,
    pub metadata: ActionMetadata,
}

impl ActionNode {
    /// A node that has not started yet: its status is `Pending`.
    pub fn new(
        id: ActionId,
        kind: ActionKind,
        params: HashMap<String, String>,
        metadata: ActionMetadata,
    ) -> (node: Self)
        ensures
            node.id == id,
            node.kind == kind,
            node.params == params,
            node.status == ActionStatus::Pending,
            node.metadata == metadata,
    {
        ActionNode { id, kind, params, status: ActionStatus::Pending, metadata }
    }
}

/// A directed dependency edge: `dependent_id` may only run after `prerequisite_id`.
#[derive(Debug, PartialEq, Eq)]
pub struct ActionEdge {
    pub prerequisite_id: ActionId,
    pub dependent_id: ActionId,
    pub reason: String,
}

/// Traceability metadata attached to an action node.
#[derive(Debug, PartialEq, Eq)]
pub struct ActionMetadata {
    pub source_step: u32,
    pub source_plan_id: PlanId,
    pub source_intent_id: IntentId,
    pub tool: Option<String>,
    pub capability: Option<String>,
}

impl Clone for ActionMetadata {
    fn clone(&self) -> (r: Self)
        ensures
            r == *self,
    {
        ActionMetadata {
            source_step: self.source_step,
            source_plan_id: self.source_plan_id.clone(),
            source_intent_id: self.source_intent_id.clone(),
            tool: match &self.tool {
                Some(t) => Some(t.clone()),
                None => None,
            },
            capability: match &self.capability {
                Some(c) => Some(c.clone()),
                None => None,
            },
        }
    }
}

/// Describes what capability a registered tool provides.
#[derive(Debug, PartialEq, Eq)]
pub struct CapabilityDescriptor {
    pub tool: String,
    pub action_kind: ActionKind,
    pub description: String,
}

/// Metadata about a registered tool.
#[derive(Debug, PartialEq, Eq)]
pub struct ToolMetadata {
    pub name: String,
    pub version: Option<String>,
    pub description: String,
    pub capabilities: Vec<CapabilityDescriptor>,
}

/// A directed acyclic graph of actions derived from a task plan.
#[derive(Debug)]
pub struct ActionGraph {
    pub nodes: Vec<ActionNode>,
    pub edges: Vec<ActionEdge>,
    pub source_plan_id: PlanId,
    pub source_intent_id: IntentId,
}

/// Some edge of `edges` says that the node named `from` must run before the node named `to`.
pub open spec fn has_edge(edges: Seq<ActionEdge>, from: Seq<char>, to: Seq<char>) -> bool {
    exists|i: int|
        0 <= i < edges.len() && (#[trigger] edges[i]).prerequisite_id@ == from
            && edges[i].dependent_id@ == to
}

/// The nodes of `nodes` that some edge makes a prerequisite of the node named `target`,
/// in node order.
pub open spec fn prerequisites_in(
    nodes: Seq<ActionNode>,
    edges: Seq<ActionEdge>,
    target: Seq<char>,
) -> Seq<ActionNode> {
    nodes.filter(|n: ActionNode| has_edge(edges, n.id@, target))
}

/// The nodes of `nodes` that some edge makes dependent on the node named `source`,
/// in node order.
pub open spec fn dependents_in(
    nodes: Seq<ActionNode>,
    edges: Seq<ActionEdge>,
    source: Seq<char>,
) -> Seq<ActionNode> {
    nodes.filter(|n: ActionNode| has_edge(edges, source, n.id@))
}

/// A node is among the prerequisites of another exactly when the other is among its
/// dependents.
pub proof fn lemma_prerequisite_iff_dependent(
    nodes: Seq<ActionNode>,
    edges: Seq<ActionEdge>,
    i: int,
    j: int,
)
    requires
        0 <= i < nodes.len(),
        0 <= j < nodes.len(),
    ensures
        prerequisites_in(nodes, edges, nodes[j].id@).contains(nodes[i])
            <==> dependents_in(nodes, edges, nodes[i].id@).contains(nodes[j]),
{
    let a = nodes[i];
    let b = nodes[j];
    let pre = |n: ActionNode| has_edge(edges, n.id@, b.id@);
    let dep = |n: ActionNode| has_edge(edges, a.id@, n.id@);
    nodes.filter_lemma(pre);
    nodes.filter_lemma(dep);
    if has_edge(edges, a.id@, b.id@) {
        nodes.lemma_filter_contains(pre, i);
        nodes.lemma_filter_contains(dep, j);
    } else {
        if nodes.filter(pre).contains(a) {
            let k = choose|k: int| 0 <= k < nodes.filter(pre).len() && nodes.filter(pre)[k] == a;
            assert(pre(nodes.filter(pre)[k]));
        }
        if nodes.filter(dep).contains(b) {
            let k = choose|k: int| 0 <= k < nodes.filter(dep).len() && nodes.filter(dep)[k] == b;
            assert(dep(nodes.filter(dep)[k]));
        }
    }
}

/// Whether some edge of `edges` runs from the node named `from` to the node named `to`.
fn edge_exists(edges: &Vec<ActionEdge>, from: &ActionId, to: &ActionId) -> (b: bool)
    ensures
        b == has_edge(edges@, from@, to@),
{
    let mut i: usize = 0;
    while i < edges.len()
        invariant
            i <= edges@.len(),
            forall|k: int|
                0 <= k < i ==> !((#[trigger] edges@[k]).prerequisite_id@ == from@
                    && edges@[k].dependent_id@ == to@),
        decreases edges.len() - i,
    {
        if edges[i].prerequisite_id.same_as(from) && edges[i].dependent_id.same_as(to) {
            return true;
        }
        i = i + 1;
    }
    false
}

/// The nodes `n` of `nodes`, in order, for which `edge_exists` holds with `n` as
/// prerequisite of `node_id` (when `as_prerequisite`) or as dependent of it.
fn select_linked<'a>(
    nodes: &'a Vec<ActionNode>,
    edges: &Vec<ActionEdge>,
    node_id: &ActionId,
    as_prerequisite: bool,
) -> (res: Vec<&'a ActionNode>)
    ensures
        as_prerequisite ==> res@.len() == prerequisites_in(nodes@, edges@, node_id@).len(),
        as_prerequisite ==> forall|k: int|
            0 <= k < res@.len() ==> *res@[k] == prerequisites_in(nodes@, edges@, node_id@)[k],
        !as_prerequisite ==> res@.len() == dependents_in(nodes@, edges@, node_id@).len(),
        !as_prerequisite ==> forall|k: int|
            0 <= k < res@.len() ==> *res@[k] == dependents_in(nodes@, edges@, node_id@)[k],
{
    let ghost pred = if as_prerequisite {
        |n: ActionNode| has_edge(edges@, n.id@, node_id@)
    } else {
        |n: ActionNode| has_edge(edges@, node_id@, n.id@)
    };
    let mut res: Vec<&'a ActionNode> = Vec::new();
    let mut i: usize = 0;
    while i < nodes.len()
        invariant
            i <= nodes@.len(),
            pred == (if as_prerequisite {
                |n: ActionNode| has_edge(edges@, n.id@, node_id@)
            } else {
                |n: ActionNode| has_edge(edges@, node_id@, n.id@)
            }),
            res@.len() == nodes@.take(i as int).filter(pred).len(),
            forall|k: int|
                0 <= k < res@.len() ==> *res@[k] == nodes@.take(i as int).filter(pred)[k],
        decreases nodes.len() - i,
    {
        let node = &nodes[i];
        let linked = if as_prerequisite {
            edge_exists(edges, &node.id, node_id)
        } else {
            edge_exists(edges, node_id, &node.id)
        };
        proof {
            reveal_with_fuel(Seq::<_>::filter, 1);
            assert(nodes@.take(i + 1).drop_last() =~= nodes@.take(i as int));
            assert(linked == pred(nodes@[i as int]));
        }
        if linked {
            res.push(node);
        }
        i = i + 1;
    }
    assert(nodes@.take(nodes@.len() as int) =~= nodes@);
    res
}

impl ActionGraph {
    pub fn new(
        nodes: Vec<ActionNode>,
        edges: Vec<ActionEdge>,
        source_plan_id: PlanId,
        source_intent_id: IntentId,
    ) -> (g: Self)
        ensures
            g.nodes == nodes,
            g.edges == edges,
            g.source_plan_id == source_plan_id,
            g.source_intent_id == source_intent_id,
    {
        ActionGraph { nodes, edges, source_plan_id, source_intent_id }
    }

    /// Whether the graph has no nodes.
    pub fn is_empty(&self) -> (b: bool)
        ensures
            b == (self.nodes@.len() == 0),
    {
        self.nodes.len() == 0
    }

    pub fn node_count(&self) -> (n: usize)
        ensures
            n == self.nodes@.len(),
    {
        self.nodes.len()
    }

    pub fn edge_count(&self) -> (n: usize)
        ensures
            n == self.edges@.len(),
    {
        self.edges.len()
    }

    /// All nodes that some edge makes a prerequisite of `node_id`, in node order.
    pub fn prerequisites_of(&self, node_id: &ActionId) -> (res: Vec<&ActionNode>)
        ensures
            res@.len() == prerequisites_in(self.nodes@, self.edges@, node_id@).len(),
            forall|k: int|
                0 <= k < res@.len() ==> *res@[k] == prerequisites_in(
                    self.nodes@,
                    self.edges@,
                    node_id@,
                )[k],
    {
        select_linked(&self.nodes, &self.edges, node_id, true)
    }

    /// All nodes that some edge makes dependent on `node_id`, in node order.
    pub fn dependents_of(&self, node_id: &ActionId) -> (res: Vec<&ActionNode>)
        ensures
            res@.len() == dependents_in(self.nodes@, self.edges@, node_id@).len(),
            forall|k: int|
                0 <= k < res@.len() ==> *res@[k] == dependents_in(
                    self.nodes@,
                    self.edges@,
                    node_id@,
                )[k],
    {
        select_linked(&self.nodes, &self.edges, node_id, false)
    }
}


impl Clone for ActionEdge {
    fn clone(&self) -> (r: Self)
        ensures
            r == *self,
    {
        ActionEdge {
            prerequisite_id: self.prerequisite_id.clone(),
            dependent_id: self.dependent_id.clone(),
            reason: self.reason.clone(),
        }
    }
}

impl Clone for CapabilityDescriptor {
    fn clone(&self) -> (r: Self)
        ensures
            r == *self,
    {
        CapabilityDescriptor {
            tool: self.tool.clone(),
            action_kind: self.action_kind.clone(),
            description: self.description.clone(),
        }
    }
}

impl Clone for ToolMetadata {
    fn clone(&self) -> (r: Self)
        ensures
            r.name == self.name,
            r.version == self.version,
            r.description == self.description,
            r.capabilities@ == self.capabilities@,
    {
        let capabilities = self.capabilities.clone();
        proof {
            assert(capabilities@ =~= self.capabilities@);
        }
        ToolMetadata {
            name: self.name.clone(),
            version: match &self.version {
                Some(v) => Some(v.clone()),
                None => None,
            },
            description: self.description.clone(),
            capabilities,
        }
    }
}

/// `r` is a copy of `n`: the same fields, its parameters compared as a map.
pub open spec fn node_copy(r: ActionNode, n: ActionNode) -> bool {
    &&& r.id == n.id
    &&& r.kind == n.kind
    &&& r.params@ == n.params@
    &&& r.status == n.status
    &&& r.metadata == n.metadata
}

impl Clone for ActionNode {
    fn clone(&self) -> (r: Self)
        ensures
            node_copy(r, *self),
    {
        ActionNode {
            id: self.id.clone(),
            kind: self.kind.clone(),
            params: self.params.clone(),
            status: self.status,
            metadata: self.metadata.clone(),
        }
    }
}

impl Clone for ActionGraph {
    fn clone(&self) -> (r: Self)
        ensures
            r.nodes@.len() == self.nodes@.len(),
            forall|i: int| 0 <= i < r.nodes@.len() ==> node_copy(#[trigger] r.nodes@[i], self.nodes@[i]),
            r.edges@ == self.edges@,
            r.source_plan_id == self.source_plan_id,
            r.source_intent_id == self.source_intent_id,
    {
        let nodes = self.nodes.clone();
        let edges = self.edges.clone();
        proof {
            assert(edges@ =~= self.edges@);
        }
        ActionGraph {
            nodes,
            edges,
            source_plan_id: self.source_plan_id.clone(),
            source_intent_id: self.source_intent_id.clone(),
        }
    }
}

} // verus!
