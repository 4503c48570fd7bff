//! The GI graph: its nodes, its input, and how the input feeds the nodes.

use vstd::prelude::*;
use crate::phase::SlotInfo;
use crate::phase::SlotType;

pub mod input;
pub mod node;

verus! {

/// Name of the GI graph among the render graph's sub-graphs.
pub const NAME: &'static str = "hikari";

/// Name of the view slot of the nodes that the graph's input feeds.
pub const NODE_IN_VIEW: &'static str = "view";

/// Where a slot edge starts.
#[derive(Clone, Copy, Debug)]
pub enum Endpoint {
    /// At the graph's input node.
    Input,
    /// At the node of this name.
    Node(&'static str),
}

/// An edge that carries the value of one node's output slot into another
/// node's input slot.
#[derive(Clone, Copy, Debug)]
pub struct SlotEdge {
    pub output_node: Endpoint,
    pub output_slot: &'static str,
    pub input_node: &'static str,
    pub input_slot: &'static str,
}

/// A sub-graph to register with the render graph.
#[derive(Debug)]
pub struct GraphPlan {
    pub name: &'static str,
    /// The nodes, in the order in which they are added.
    pub nodes: Vec<&'static str>,
    /// The slots of the graph's input node.
    pub inputs: Vec<SlotInfo>,
    /// The slot edges, in the order in which they are added.
    pub slot_edges: Vec<SlotEdge>,
}

/// Whether `name` is a node of the plan.
pub open spec fn has_node(plan: GraphPlan, name: Seq<char>) -> bool {
    exists|n: int| 0 <= n < plan.nodes@.len() && (#[trigger] plan.nodes@[n])@ == name
}

/// Whether `name` is a slot of the plan's input node.
pub open spec fn has_input(plan: GraphPlan, name: Seq<char>) -> bool {
    exists|s: int| 0 <= s < plan.inputs@.len() && (#[trigger] plan.inputs@[s]).name@ == name
}

/// Whether the edge starts at the graph's input, at the slot `slot`, and
/// ends at the view slot of the node `node`.
pub open spec fn feeds_view(edge: SlotEdge, slot: Seq<char>, node: Seq<char>) -> bool {
    &&& edge.output_node is Input
    &&& edge.output_slot@ == slot
    &&& edge.input_node@ == node
    &&& edge.input_slot@ == "view"@
}

impl GraphPlan {
    /// Whether the wiring can be registered: no two nodes share a name,
    /// every edge ends at a node of the plan, every edge that starts at the
    /// input starts at one of its slots and every other edge at a node of
    /// the plan, and no input slot of a node is fed twice.
    pub open spec fn wf(self) -> bool {
        &&& forall|m: int, n: int|
            0 <= m < n < self.nodes@.len() ==> (#[trigger] self.nodes@[m])@ != (
            #[trigger] self.nodes@[n])@
        &&& forall|e: int|
            0 <= e < self.slot_edges@.len() ==> has_node(
                self,
                (#[trigger] self.slot_edges@[e]).input_node@,
            )
        &&& forall|e: int|
            0 <= e < self.slot_edges@.len() ==> match (#[trigger] self.slot_edges@[e]).output_node {
                Endpoint::Input => has_input(self, self.slot_edges@[e].output_slot@),
                Endpoint::Node(name) => has_node(self, name@),
            }
        &&& forall|d: int, e: int|
            0 <= d < e < self.slot_edges@.len() ==> !((#[trigger] self.slot_edges@[d]).input_node@
                == (#[trigger] self.slot_edges@[e]).input_node@ && self.slot_edges@[d].input_slot@
                == self.slot_edges@[e].input_slot@)
    }

    /// Whether this is the GI graph: the prepass and the main pass as
    /// siblings, each fed the view entity from the graph's input.
    pub open spec fn is_hikari(self) -> bool {
        &&& self.name@ == "hikari"@
        &&& self.nodes@.len() == 2
        &&& self.nodes@[0]@ == "prepass"@
        &&& self.nodes@[1]@ == "main_pass"@
        &&& self.inputs@.len() == 1
        &&& self.inputs@[0].name@ == "view_entity"@
        &&& self.inputs@[0].slot_type == SlotType::Entity
        &&& self.slot_edges@.len() == 2
        &&& feeds_view(self.slot_edges@[0], "view_entity"@, "prepass"@)
        &&& feeds_view(self.slot_edges@[1], "view_entity"@, "main_pass"@)
    }
}

/// The GI graph can be registered.
pub proof fn lemma_hikari_graph_wf(plan: GraphPlan)
    requires
        plan.is_hikari(),
    ensures
        plan.wf(),
{
    reveal_strlit("prepass");
    reveal_strlit("main_pass");
    assert("prepass"@.len() != "main_pass"@.len());
    assert forall|e: int| 0 <= e < plan.slot_edges@.len() implies match (
    #[trigger] plan.slot_edges@[e]).output_node {
        Endpoint::Input => has_input(plan, plan.slot_edges@[e].output_slot@),
        Endpoint::Node(name) => has_node(plan, name@),
    } by {}
}

/// Builds the GI graph's wiring.
pub fn hikari_graph() -> (plan: GraphPlan)
    ensures
        plan.is_hikari(),
        plan.wf(),
{
    let mut nodes: Vec<&'static str> = Vec::new();
    nodes.push(node::PREPASS);
    nodes.push(node::MAIN_PASS);
    let mut inputs: Vec<SlotInfo> = Vec::new();
    inputs.push(SlotInfo { name: input::VIEW_ENTITY, slot_type: SlotType::Entity });
    let mut slot_edges: Vec<SlotEdge> = Vec::new();
    slot_edges.push(
        SlotEdge {
            output_node: Endpoint::Input,
            output_slot: input::VIEW_ENTITY,
            input_node: node::PREPASS,
            input_slot: NODE_IN_VIEW,
        },
    );
    slot_edges.push(
        SlotEdge {
            output_node: Endpoint::Input,
            output_slot: input::VIEW_ENTITY,
            input_node: node::MAIN_PASS,
            input_slot: NODE_IN_VIEW,
        },
    );
    let plan = GraphPlan { name: NAME, nodes, inputs, slot_edges };
    proof {
        lemma_hikari_graph_wf(plan);
    }
    plan
}

} // verus!
