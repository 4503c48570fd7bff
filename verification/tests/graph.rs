use bevy::ecs::world::World;
use bevy::render::render_graph::{
    Node, NodeRunError, RenderGraph, RenderGraphContext, SlotInfo, SlotType,
};
use bevy::render::renderer::RenderContext;
use hikari::graph::input::VIEW_ENTITY;
use hikari::graph::node::{MAIN_PASS, PREPASS};
use hikari::graph::{hikari_graph, Endpoint, GraphPlan, NAME, NODE_IN_VIEW};
use hikari::phase::{draw_voxel_mesh, SlotType as PlanSlotType, VoxelPassNode};
use hikari::plugin::{AppKind, StageLabel, System, SystemPlan};
use hikari::voxel::{VoxelMaterialPlugin, VoxelPlugin};
use hikari::HikariPlugin;

struct ViewNode;

impl Node for ViewNode {
    fn input(&self) -> Vec<SlotInfo> {
        VoxelPassNode::new()
            .input()
            .iter()
            .map(|slot| SlotInfo::new(slot.name, SlotType::Entity))
            .collect()
    }

    fn run(
        &self,
        _graph: &mut RenderGraphContext,
        _render_context: &mut RenderContext,
        _world: &World,
    ) -> Result<(), NodeRunError> {
        Ok(())
    }
}

fn register(plan: &GraphPlan) -> RenderGraph {
    let mut graph = RenderGraph::default();
    for name in plan.nodes.iter() {
        graph.add_node(*name, ViewNode);
    }
    let inputs = plan
        .inputs
        .iter()
        .map(|slot| match slot.slot_type {
            PlanSlotType::Entity => SlotInfo::new(slot.name, SlotType::Entity),
        })
        .collect();
    let input = graph.set_input(inputs);
    for edge in plan.slot_edges.iter() {
        let done = match edge.output_node {
            Endpoint::Input => {
                graph.add_slot_edge(input, edge.output_slot, edge.input_node, edge.input_slot)
            }
            Endpoint::Node(name) => {
                graph.add_slot_edge(name, edge.output_slot, edge.input_node, edge.input_slot)
            }
        };
        assert_eq!(done, Ok(()));
    }
    graph
}

fn system(app: AppKind, stage: StageLabel, system: System, exclusive: bool) -> SystemPlan {
    SystemPlan { app, stage, system, exclusive }
}

#[test]
fn graph_names() {
    assert_eq!(NAME, "hikari");
    assert_eq!(VIEW_ENTITY, "view_entity");
    assert_eq!(PREPASS, "prepass");
    assert_eq!(MAIN_PASS, "main_pass");
    assert_eq!(NODE_IN_VIEW, "view");
    assert_eq!(MAIN_PASS, bevy::core_pipeline::draw_3d_graph::node::MAIN_PASS);
    assert_eq!(NODE_IN_VIEW, bevy::core_pipeline::MainPass3dNode::IN_VIEW);
}

#[test]
fn hikari_graph_feeds_the_view_entity_to_both_passes() {
    let plan = hikari_graph();
    assert_eq!(plan.name, "hikari");
    assert_eq!(plan.nodes, vec!["prepass", "main_pass"]);
    assert_eq!(plan.inputs.len(), 1);
    assert_eq!(plan.inputs[0].name, "view_entity");
    assert_eq!(plan.inputs[0].slot_type, PlanSlotType::Entity);
    assert_eq!(plan.slot_edges.len(), 2);
    let targets = ["prepass", "main_pass"];
    for (edge, target) in plan.slot_edges.iter().zip(targets.iter()) {
        assert!(matches!(edge.output_node, Endpoint::Input));
        assert_eq!(edge.output_slot, "view_entity");
        assert_eq!(edge.input_node, *target);
        assert_eq!(edge.input_slot, "view");
    }
}

#[test]
fn the_render_graph_accepts_the_wiring() {
    let plan = hikari_graph();
    let graph = register(&plan);
    for name in plan.nodes.iter() {
        let inputs: Vec<_> = graph.iter_node_inputs(*name).unwrap().collect();
        assert_eq!(inputs.len(), 1);
        assert_eq!(inputs[0].1.id, graph.input_node().unwrap().id);
    }
    assert_eq!(graph.input_node().unwrap().input_slots.len(), 1);
}

#[test]
fn the_render_graph_refuses_a_second_edge_into_a_fed_slot() {
    let plan = hikari_graph();
    let mut graph = register(&plan);
    let input = graph.input_node().unwrap().id;
    assert!(graph.add_slot_edge(input, VIEW_ENTITY, PREPASS, NODE_IN_VIEW).is_err());
    assert!(graph.add_slot_edge(input, VIEW_ENTITY, "nowhere", NODE_IN_VIEW).is_err());
}

#[test]
fn hikari_plugin_registers_the_graph_with_a_render_app_only() {
    assert!(HikariPlugin.build(false).is_none());
    let plan = HikariPlugin.build(true).unwrap();
    assert_eq!(plan.name, "hikari");
    assert_eq!(plan.nodes, hikari_graph().nodes);
    assert_eq!(plan.slot_edges.len(), 2);
    let mut render_graph = RenderGraph::default();
    render_graph.add_sub_graph(plan.name, register(&plan));
    assert!(render_graph.get_sub_graph(NAME).is_some());
}

#[test]
fn voxel_plugin_registers_its_systems() {
    let main = vec![
        system(AppKind::Main, StageLabel::PostUpdate, System::AddVolumeViews, true),
        system(AppKind::Main, StageLabel::PostUpdate, System::CheckVisibility, false),
    ];
    assert_eq!(VoxelPlugin.build(false), main);
    let mut all = main.clone();
    all.extend(vec![
        system(AppKind::Render, StageLabel::Extract, System::ExtractViews, false),
        system(AppKind::Render, StageLabel::Queue, System::QueueVolumeViewBindGroups, false),
        system(AppKind::Render, StageLabel::Queue, System::QueueVoxelBindGroups, false),
        system(AppKind::Render, StageLabel::Queue, System::QueueMipmapBindGroups, false),
    ]);
    assert_eq!(VoxelPlugin.build(true), all);
}

#[test]
fn material_plugin_registers_the_draw_function_and_the_queue_system() {
    assert!(VoxelMaterialPlugin.build(false).is_none());
    let plan = VoxelMaterialPlugin.build(true).unwrap();
    assert_eq!(plan.draw, draw_voxel_mesh());
    assert_eq!(
        plan.systems,
        vec![system(AppKind::Render, StageLabel::Queue, System::QueueVoxelMeshes, false)]
    );
}
