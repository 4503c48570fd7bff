use bevy::ecs::entity::Entity;
use bevy::ecs::world::World;
use bevy::math::{Quat, Vec3};
use bevy::render::camera::{CameraProjection, OrthographicProjection};
use bevy::render::primitives::{Aabb, Frustum};
use bevy::transform::components::GlobalTransform;
use hikari::bindings::{queue_mipmap_bind_groups, queue_voxel_bind_groups, MipmapBindGroup};
use hikari::config::GiConfig;
use hikari::frame::plan_frame;
use hikari::passes::{ComputeCommand, ComputeGroup};
use hikari::phase::{queue_voxel_meshes, GraphInput, MeshCandidate, Voxel};
use hikari::visibility::{check_visibility, extract_views, SceneEntity, VolumeView};
use hikari::volume::{add_volume_views, Axis, Bound, ViewRotation, Volume, VolumeViewSetup};

fn extent_along(extent: Vec3, bound: Bound) -> f32 {
    let value = match bound.axis {
        Axis::X => extent.x,
        Axis::Y => extent.y,
        Axis::Z => extent.z,
    };
    if bound.positive {
        value
    } else {
        -value
    }
}

fn view_state(volume: &Volume, setup: &VolumeViewSetup) -> (VolumeView, OrthographicProjection) {
    let center = (volume.max + volume.min) / 2.0;
    let extent = (volume.max - volume.min) / 2.0;
    let rotation = match setup.rotation {
        ViewRotation::Identity => Quat::IDENTITY,
        ViewRotation::QuarterTurnY => Quat::from_rotation_y(std::f32::consts::FRAC_PI_2),
        ViewRotation::QuarterTurnX => Quat::from_rotation_x(std::f32::consts::FRAC_PI_2),
    };
    let transform =
        GlobalTransform::from_translation(center) * GlobalTransform::from_rotation(rotation);
    let projection = OrthographicProjection {
        left: extent_along(extent, setup.projection.left),
        right: extent_along(extent, setup.projection.right),
        bottom: extent_along(extent, setup.projection.bottom),
        top: extent_along(extent, setup.projection.top),
        near: extent_along(extent, setup.projection.near),
        far: extent_along(extent, setup.projection.far),
        ..Default::default()
    };
    let view_projection = projection.get_projection_matrix() * transform.compute_matrix().inverse();
    let frustum = Frustum::from_view_projection(
        &view_projection,
        &transform.translation,
        &transform.back(),
        projection.far(),
    );
    let state = VolumeView {
        entity: setup.entity,
        frustum,
        layers: None,
        visible_entities: Vec::new(),
    };
    (state, projection)
}

fn unit_cube(world: &mut World, at: Vec3) -> SceneEntity {
    SceneEntity {
        entity: world.spawn().id(),
        is_visible: true,
        computed_visible: false,
        layers: None,
        aabb: Some(Aabb::from_min_max(Vec3::splat(-0.5), Vec3::splat(0.5))),
        transform: Some(GlobalTransform::from_translation(at)),
        excluded: false,
    }
}

#[test]
fn views_project_within_the_half_extent_of_their_volume() {
    let mut world = World::new();
    let mut volumes = vec![Volume::new(Vec3::new(-2.0, 0.0, 10.0), Vec3::new(4.0, 1.0, 30.0))];
    let setups = add_volume_views(&mut world, &mut volumes);
    assert_eq!(setups.len(), 3);
    for setup in setups.iter() {
        let (_, projection) = view_state(&volumes[setup.volume], setup);
        assert_eq!(projection.left, -3.0);
        assert_eq!(projection.right, 3.0);
        assert_eq!(projection.bottom, -0.5);
        assert_eq!(projection.top, 0.5);
        assert_eq!(projection.near, -10.0);
        assert_eq!(projection.far, 10.0);
    }
}

#[test]
fn unit_cube_at_the_origin_goes_through_a_full_frame() {
    let mut world = World::new();
    let volume_entity = world.spawn().id();
    let mut volumes = vec![Volume::new(Vec3::splat(-10.0), Vec3::splat(10.0))];
    let setups = add_volume_views(&mut world, &mut volumes);
    let mut views: Vec<VolumeView> =
        setups.iter().map(|s| view_state(&volumes[s.volume], s).0).collect();

    let cube = unit_cube(&mut world, Vec3::ZERO);
    let cube_entity = cube.entity;
    let outside = unit_cube(&mut world, Vec3::new(40.0, 0.0, 0.0));
    let mut entities = vec![cube, outside];
    check_visibility(&mut views, &mut entities);
    for view in views.iter() {
        assert_eq!(view.visible_entities, vec![cube_entity]);
    }
    assert!(entities[0].computed_visible);
    assert!(!entities[1].computed_visible);

    let extracted = extract_views(&views);
    assert_eq!(extracted.len(), 3);
    let candidates: Vec<Vec<MeshCandidate>> = extracted
        .iter()
        .map(|view| {
            view.visible_entities
                .iter()
                .map(|e| MeshCandidate {
                    entity: *e,
                    has_handles: true,
                    material_ready: true,
                    pipeline: Some(0),
                })
                .collect()
        })
        .collect();
    let mut phases: Vec<Vec<Voxel>> = vec![Vec::new(); 3];
    queue_voxel_meshes(GiConfig { enabled: true }, 0, &candidates, &mut phases);
    assert!(phases.iter().all(|p| p.len() == 1 && p[0].entity == cube_entity));

    let voxel_groups = queue_voxel_bind_groups(&volumes);
    assert_eq!(voxel_groups.len(), 3);
    let queued = queue_mipmap_bind_groups(&vec![volume_entity]);
    let groups: Vec<MipmapBindGroup> = queued.into_iter().map(|q| q.groups).collect();

    let plan = plan_frame(
        Some(GiConfig { enabled: true }),
        &groups,
        GraphInput::Volume(&volumes[0]),
        &phases,
    )
    .unwrap();
    assert_eq!(plan.clear.len(), 3);
    assert_eq!(plan.voxelize.len(), 3);
    for (k, pass) in plan.voxelize.iter().enumerate() {
        assert_eq!(pass.view, volumes[0].views[k]);
        assert_eq!(pass.draws.len(), 1);
        assert_eq!(pass.draws[0].item.entity, cube_entity);
    }
    for level in 1..8usize {
        for direction in 0..6usize {
            let bind = ComputeCommand::SetBindGroup {
                volume: 0,
                group: ComputeGroup::Mipmap { step: level - 1, direction },
            };
            assert_eq!(plan.mipmap.iter().filter(|c| **c == bind).count(), 1);
        }
    }
    let base = ComputeCommand::SetBindGroup { volume: 0, group: ComputeGroup::MipmapBase };
    assert_eq!(plan.mipmap.iter().filter(|c| **c == base).count(), 1);
}

#[test]
fn switched_off_frame_of_the_same_scene_submits_nothing() {
    let mut world = World::new();
    let mut volumes = vec![Volume::new(Vec3::splat(-10.0), Vec3::splat(10.0))];
    add_volume_views(&mut world, &mut volumes);
    let item = Voxel { distance_bits: 0, entity: Entity::from_raw(77), pipeline: 0, draw_function: 0 };
    let mut phases = vec![vec![item], vec![item], vec![item]];
    let config = GiConfig { enabled: false };
    let candidates = vec![
        vec![MeshCandidate { entity: item.entity, has_handles: true, material_ready: true, pipeline: Some(0) }],
        Vec::new(),
        Vec::new(),
    ];
    queue_voxel_meshes(config, 0, &candidates, &mut phases);
    assert!(phases.iter().all(|p| p.len() == 1));
    let groups = vec![MipmapBindGroup::plan(8)];
    let plan = plan_frame(Some(config), &groups, GraphInput::Volume(&volumes[0]), &phases).unwrap();
    let draws: usize = plan.voxelize.iter().map(|p| p.draws.len()).sum();
    let dispatches = plan
        .clear
        .iter()
        .chain(plan.mipmap.iter())
        .filter(|c| matches!(c, ComputeCommand::Dispatch(_)))
        .count();
    assert_eq!(draws, 0);
    assert_eq!(dispatches, 0);
    assert!(plan.voxelize.is_empty());
}
