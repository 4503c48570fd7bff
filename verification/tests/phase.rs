use bevy::ecs::entity::Entity;
use bevy::math::Vec3;
use hikari::config::GiConfig;
use hikari::phase::{
    draw_voxel_mesh, queue_view_meshes, queue_voxel_meshes, view_draws, ClearColor, DrawStep,
    GraphInput, MeshCandidate, NodeRunError, RenderCommandResult, SetVoxelBindGroup, SlotType,
    Voxel, VoxelPassNode, VOXEL_GROUP_SLOT,
};
use hikari::volume::Volume;

fn candidate(id: u32, has_handles: bool, material_ready: bool, pipeline: Option<usize>) -> MeshCandidate {
    MeshCandidate { entity: Entity::from_raw(id), has_handles, material_ready, pipeline }
}

fn item(id: u32, pipeline: usize, draw_function: usize) -> Voxel {
    Voxel { distance_bits: 0, entity: Entity::from_raw(id), pipeline, draw_function }
}

fn key(v: &Voxel) -> (u32, u32, usize, usize) {
    (v.distance_bits, v.entity.id(), v.pipeline, v.draw_function)
}

fn keys(items: &[Voxel]) -> Vec<(u32, u32, usize, usize)> {
    items.iter().map(key).collect()
}

fn volume_with_views(first: u32) -> Volume {
    let mut volume = Volume::new(Vec3::splat(-1.0), Vec3::splat(1.0));
    volume.views = vec![
        Entity::from_raw(first),
        Entity::from_raw(first + 1),
        Entity::from_raw(first + 2),
    ];
    volume
}

#[test]
fn item_getters_read_the_fields() {
    let v = Voxel { distance_bits: 0x3f80_0000, entity: Entity::from_raw(3), pipeline: 8, draw_function: 2 };
    assert_eq!(v.sort_key(), 0x3f80_0000);
    assert_eq!(v.draw_function(), 2);
    assert_eq!(v.entity(), Entity::from_raw(3));
    assert_eq!(v.cached_pipeline(), 8);
}

#[test]
fn only_candidates_with_loaded_assets_are_queued() {
    let candidates = vec![
        candidate(1, true, true, Some(10)),
        candidate(2, false, true, Some(11)),
        candidate(3, true, false, Some(12)),
        candidate(4, true, true, None),
        candidate(5, true, true, Some(13)),
        candidate(6, false, false, None),
    ];
    let items = queue_view_meshes(4, &candidates);
    assert_eq!(keys(&items), vec![(0, 1, 10, 4), (0, 5, 13, 4)]);
    assert!(queue_view_meshes(4, &Vec::new()).is_empty());
}

#[test]
fn queued_items_have_distance_zero() {
    let items = queue_view_meshes(0, &vec![candidate(1, true, true, Some(0))]);
    assert_eq!(items.len(), 1);
    assert_eq!(items[0].sort_key(), 0);
    assert_eq!(f32::from_bits(items[0].distance_bits), 0.0);
}

#[test]
fn nothing_is_queued_while_switched_off() {
    let candidates = vec![vec![candidate(1, true, true, Some(10))], vec![]];
    let mut phases = vec![vec![item(50, 1, 1)], vec![]];
    queue_voxel_meshes(GiConfig { enabled: false }, 4, &candidates, &mut phases);
    assert_eq!(keys(&phases[0]), vec![(0, 50, 1, 1)]);
    assert!(phases[1].is_empty());
}

#[test]
fn each_phase_is_extended_by_its_own_candidates() {
    let candidates = vec![
        vec![candidate(1, true, true, Some(10)), candidate(2, true, false, Some(11))],
        vec![],
        vec![candidate(3, true, true, Some(12)), candidate(1, true, true, Some(10))],
    ];
    let mut phases = vec![vec![item(50, 1, 1)], vec![item(51, 2, 2)], vec![]];
    queue_voxel_meshes(GiConfig { enabled: true }, 4, &candidates, &mut phases);
    assert_eq!(keys(&phases[0]), vec![(0, 50, 1, 1), (0, 1, 10, 4)]);
    assert_eq!(keys(&phases[1]), vec![(0, 51, 2, 2)]);
    assert_eq!(keys(&phases[2]), vec![(0, 3, 12, 4), (0, 1, 10, 4)]);
}

#[test]
fn queueing_for_no_views() {
    let mut phases: Vec<Vec<Voxel>> = Vec::new();
    queue_voxel_meshes(GiConfig { enabled: true }, 0, &Vec::new(), &mut phases);
    assert!(phases.is_empty());
}

#[test]
fn voxel_pass_has_one_entity_input() {
    let slots = VoxelPassNode::new().input();
    assert_eq!(slots.len(), 1);
    assert_eq!(slots[0].name, "view");
    assert_eq!(slots[0].name, VoxelPassNode::IN_VIEW);
    assert_eq!(slots[0].slot_type, SlotType::Entity);
}

#[test]
fn voxel_pass_does_nothing_while_switched_off() {
    let node = VoxelPassNode::new();
    let volume = volume_with_views(1);
    let phases = vec![vec![item(9, 0, 0)], vec![], vec![]];
    let off = Some(GiConfig { enabled: false });
    assert_eq!(node.run(off, GraphInput::Volume(&volume), &phases).unwrap().len(), 0);
    assert_eq!(node.run(off, GraphInput::Other, &phases).unwrap().len(), 0);
    assert_eq!(node.run(off, GraphInput::Missing, &phases).unwrap().len(), 0);
}

#[test]
fn voxel_pass_wants_its_input() {
    let node = VoxelPassNode::new();
    let done = node.run(Some(GiConfig { enabled: true }), GraphInput::Missing, &Vec::new());
    assert_eq!(done.err(), Some(NodeRunError::InputSlotError));
    let done = node.run(None, GraphInput::Missing, &Vec::new());
    assert_eq!(done.err(), Some(NodeRunError::InputSlotError));
}

#[test]
fn voxel_pass_skips_an_entity_that_is_no_volume() {
    let node = VoxelPassNode::new();
    let done = node.run(None, GraphInput::Other, &Vec::new());
    assert_eq!(done.unwrap().len(), 0);
}

#[test]
fn voxel_pass_draws_each_view_of_the_volume() {
    let node = VoxelPassNode::new();
    let volume = volume_with_views(1);
    let phases = vec![
        vec![item(10, 5, 2), item(11, 6, 3)],
        vec![],
        vec![item(10, 5, 2)],
    ];
    for config in [None, Some(GiConfig { enabled: true })] {
        let passes = node.run(config, GraphInput::Volume(&volume), &phases).unwrap();
        assert_eq!(passes.len(), 3);
        for (k, pass) in passes.iter().enumerate() {
            assert_eq!(pass.view, volume.views[k]);
            assert_eq!(pass.clear, ClearColor::Black);
            assert!(pass.store);
            assert!(!pass.depth_stencil);
            assert_eq!(pass.draws.len(), phases[k].len());
            for (i, draw) in pass.draws.iter().enumerate() {
                assert_eq!(draw.view, volume.views[k]);
                assert_eq!(draw.draw_function, phases[k][i].draw_function);
                assert_eq!(key(&draw.item), key(&phases[k][i]));
            }
        }
        assert_eq!(passes[0].draws[1].draw_function, 3);
    }
}

#[test]
fn voxel_pass_over_a_volume_without_views() {
    let node = VoxelPassNode::new();
    let volume = Volume::new(Vec3::ZERO, Vec3::ONE);
    let passes = node.run(None, GraphInput::Volume(&volume), &Vec::new()).unwrap();
    assert!(passes.is_empty());
}

#[test]
fn view_draws_keep_the_order_of_the_items() {
    let draws = view_draws(Entity::from_raw(1), &vec![item(3, 1, 7), item(2, 1, 8)]);
    let got: Vec<(usize, u32, u32)> =
        draws.iter().map(|d| (d.draw_function, d.view.id(), d.item.entity.id())).collect();
    assert_eq!(got, vec![(7, 1, 3), (8, 1, 2)]);
}

#[test]
fn voxel_group_is_bound_at_its_slot_with_the_volume_offset() {
    let (result, call) = SetVoxelBindGroup::<3>::render(Entity::from_raw(1), 768);
    assert_eq!(result, RenderCommandResult::Success);
    assert_eq!(call.index, 3);
    assert_eq!(call.view, Entity::from_raw(1));
    assert_eq!(call.dynamic_offsets, vec![768]);
    let (_, other) = SetVoxelBindGroup::<0>::render(Entity::from_raw(2), 0);
    assert_eq!(other.index, 0);
    assert_eq!(other.dynamic_offsets, vec![0]);
}

#[test]
fn drawing_a_voxel_mesh_binds_four_groups_in_order() {
    assert_eq!(VOXEL_GROUP_SLOT, 3);
    assert_eq!(
        draw_voxel_mesh(),
        vec![
            DrawStep::SetItemPipeline,
            DrawStep::SetMeshViewBindGroup(0),
            DrawStep::SetMaterialBindGroup(1),
            DrawStep::SetMeshBindGroup(2),
            DrawStep::SetVoxelBindGroup(3),
            DrawStep::DrawMesh,
        ]
    );
}

#[test]
fn switched_off_queueing_touches_nothing_whatever_the_lists() {
    let candidates = vec![vec![candidate(1, true, true, Some(10))]];
    let mut phases = vec![vec![item(50, 1, 1)], vec![item(51, 2, 2)], vec![]];
    queue_voxel_meshes(GiConfig { enabled: false }, 4, &candidates, &mut phases);
    assert_eq!(phases.len(), 3);
    assert_eq!(keys(&phases[0]), vec![(0, 50, 1, 1)]);
    assert_eq!(keys(&phases[1]), vec![(0, 51, 2, 2)]);
    assert!(phases[2].is_empty());
}
