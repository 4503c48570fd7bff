use bevy::ecs::entity::Entity;
use bevy::math::{Quat, Vec3};
use bevy::render::camera::{CameraProjection, OrthographicProjection};
use bevy::render::primitives::{Aabb, Frustum};
use bevy::transform::components::GlobalTransform;
use hikari::config::VOXEL_SIZE;
use hikari::visibility::{
    check_visibility, cull_view, extract_views, frustum_verdicts, intersects, mask_of,
    SceneEntity, VolumeView, ALL_LAYERS,
};

fn frustum_at(center: Vec3, rotation: Quat, half: f32) -> Frustum {
    let transform =
        GlobalTransform::from_translation(center) * GlobalTransform::from_rotation(rotation);
    let projection = OrthographicProjection {
        left: -half,
        right: half,
        bottom: -half,
        top: half,
        near: -half,
        far: half,
        ..Default::default()
    };
    let view_projection = projection.get_projection_matrix() * transform.compute_matrix().inverse();
    Frustum::from_view_projection(
        &view_projection,
        &transform.translation,
        &transform.back(),
        projection.far(),
    )
}

fn view(id: u32, frustum: Frustum, layers: Option<u32>) -> VolumeView {
    VolumeView {
        entity: Entity::from_raw(id),
        frustum,
        layers,
        visible_entities: vec![Entity::from_raw(9999)],
    }
}

fn plain(id: u32) -> SceneEntity {
    SceneEntity {
        entity: Entity::from_raw(id),
        is_visible: true,
        computed_visible: false,
        layers: None,
        aabb: None,
        transform: None,
        excluded: false,
    }
}

fn boxed(id: u32, at: Vec3) -> SceneEntity {
    SceneEntity {
        aabb: Some(Aabb::from_min_max(Vec3::splat(-0.5), Vec3::splat(0.5))),
        transform: Some(GlobalTransform::from_translation(at)),
        ..plain(id)
    }
}

fn ids(entities: &[Entity]) -> Vec<u32> {
    entities.iter().map(|e| e.id()).collect()
}

#[test]
fn absent_layers_stand_for_all_layers() {
    assert_eq!(ALL_LAYERS, u32::MAX);
    assert_eq!(mask_of(None), u32::MAX);
    assert_eq!(mask_of(Some(0)), 0);
    assert_eq!(mask_of(Some(0b101)), 0b101);
}

#[test]
fn masks_intersect_when_they_share_a_bit() {
    assert!(intersects(0b01, 0b11));
    assert!(intersects(u32::MAX, 1 << 31));
    assert!(!intersects(0b01, 0b10));
    assert!(!intersects(0, u32::MAX));
    assert!(!intersects(0, 0));
}

#[test]
fn invisible_entity_is_never_seen_even_inside_the_frustum() {
    let mut views = vec![view(1, frustum_at(Vec3::ZERO, Quat::IDENTITY, 10.0), None)];
    let mut hidden = boxed(10, Vec3::ZERO);
    hidden.is_visible = false;
    hidden.computed_visible = true;
    let mut entities = vec![hidden, boxed(11, Vec3::ZERO)];
    check_visibility(&mut views, &mut entities);
    assert_eq!(ids(&views[0].visible_entities), vec![11]);
    assert!(!entities[0].computed_visible);
    assert!(entities[1].computed_visible);
}

#[test]
fn excluded_entity_is_never_seen() {
    let mut views = vec![
        view(1, frustum_at(Vec3::ZERO, Quat::IDENTITY, 10.0), None),
        view(2, frustum_at(Vec3::ZERO, Quat::IDENTITY, 10.0), Some(0b1)),
    ];
    let mut with_box = boxed(10, Vec3::ZERO);
    with_box.excluded = true;
    let mut without_box = plain(11);
    without_box.excluded = true;
    without_box.layers = Some(0b1);
    without_box.computed_visible = true;
    let mut entities = vec![with_box, without_box];
    check_visibility(&mut views, &mut entities);
    assert!(views[0].visible_entities.is_empty());
    assert!(views[1].visible_entities.is_empty());
    assert!(!entities[0].computed_visible);
    assert!(!entities[1].computed_visible);
}

#[test]
fn frustum_culls_boxes_outside_the_volume() {
    let mut views = vec![view(1, frustum_at(Vec3::ZERO, Quat::IDENTITY, 10.0), None)];
    let mut entities = vec![
        boxed(10, Vec3::ZERO),
        boxed(11, Vec3::new(100.0, 0.0, 0.0)),
        boxed(12, Vec3::new(9.0, -9.0, 9.0)),
        boxed(13, Vec3::new(0.0, 0.0, -50.0)),
        boxed(14, Vec3::new(0.0, 30.0, 0.0)),
    ];
    check_visibility(&mut views, &mut entities);
    assert_eq!(ids(&views[0].visible_entities), vec![10, 12]);
    let flags: Vec<bool> = entities.iter().map(|e| e.computed_visible).collect();
    assert_eq!(flags, vec![true, false, true, false, false]);
}

#[test]
fn entity_without_box_or_placement_skips_the_frustum_test() {
    let mut views = vec![view(1, frustum_at(Vec3::ZERO, Quat::IDENTITY, 1.0), None)];
    let mut only_box = plain(11);
    only_box.aabb = Some(Aabb::from_min_max(Vec3::splat(-0.5), Vec3::splat(0.5)));
    let mut only_placement = plain(12);
    only_placement.transform = Some(GlobalTransform::from_translation(Vec3::splat(500.0)));
    let mut entities = vec![plain(10), only_box, only_placement, boxed(13, Vec3::splat(500.0))];
    check_visibility(&mut views, &mut entities);
    assert_eq!(ids(&views[0].visible_entities), vec![10, 11, 12]);
}

#[test]
fn layers_must_intersect() {
    let frustum = frustum_at(Vec3::ZERO, Quat::IDENTITY, 10.0);
    let mut views = vec![view(1, frustum, Some(0b10)), view(2, frustum, None)];
    let mut on_one = plain(10);
    on_one.layers = Some(0b01);
    let mut on_two = plain(11);
    on_two.layers = Some(0b10);
    let mut on_none = plain(12);
    on_none.layers = Some(0);
    let unmasked = plain(13);
    let mut entities = vec![on_one, on_two, on_none, unmasked];
    check_visibility(&mut views, &mut entities);
    assert_eq!(ids(&views[0].visible_entities), vec![11, 13]);
    assert_eq!(ids(&views[1].visible_entities), vec![10, 11, 13]);
    let flags: Vec<bool> = entities.iter().map(|e| e.computed_visible).collect();
    assert_eq!(flags, vec![true, true, false, true]);
}

#[test]
fn seen_by_one_view_is_marked_visible() {
    let mut views = vec![
        view(1, frustum_at(Vec3::ZERO, Quat::IDENTITY, 1.0), None),
        view(2, frustum_at(Vec3::new(50.0, 0.0, 0.0), Quat::IDENTITY, 1.0), None),
        view(3, frustum_at(Vec3::ZERO, Quat::IDENTITY, 1.0), None),
    ];
    let mut entities = vec![boxed(10, Vec3::new(50.0, 0.0, 0.0)), boxed(11, Vec3::splat(500.0))];
    check_visibility(&mut views, &mut entities);
    assert!(views[0].visible_entities.is_empty());
    assert_eq!(ids(&views[1].visible_entities), vec![10]);
    assert!(views[2].visible_entities.is_empty());
    assert!(entities[0].computed_visible);
    assert!(!entities[1].computed_visible);
}

#[test]
fn pass_resets_what_the_pass_before_computed() {
    let mut views: Vec<VolumeView> = Vec::new();
    let mut stale = plain(10);
    stale.computed_visible = true;
    let mut entities = vec![stale];
    check_visibility(&mut views, &mut entities);
    assert!(!entities[0].computed_visible);
}

#[test]
fn pass_replaces_the_visible_lists_and_keeps_the_rest() {
    let frustum = frustum_at(Vec3::ZERO, Quat::IDENTITY, 10.0);
    let mut views = vec![view(7, frustum, Some(0b100))];
    let mut entities: Vec<SceneEntity> = Vec::new();
    check_visibility(&mut views, &mut entities);
    assert!(views[0].visible_entities.is_empty());
    assert_eq!(views[0].entity, Entity::from_raw(7));
    assert_eq!(views[0].layers, Some(0b100));
}

#[test]
fn pass_keeps_what_it_does_not_compute() {
    let mut views = vec![view(1, frustum_at(Vec3::ZERO, Quat::IDENTITY, 10.0), None)];
    let mut e = boxed(10, Vec3::ZERO);
    e.layers = Some(0b11);
    let mut entities = vec![e];
    check_visibility(&mut views, &mut entities);
    assert_eq!(entities[0].entity, Entity::from_raw(10));
    assert!(entities[0].is_visible);
    assert_eq!(entities[0].layers, Some(0b11));
    assert!(entities[0].aabb.is_some());
    assert!(entities[0].transform.is_some());
    assert!(!entities[0].excluded);
}

#[test]
fn rotated_views_see_the_centre_of_the_volume() {
    let quarter = std::f32::consts::FRAC_PI_2;
    let centre = Vec3::new(3.0, 4.0, 5.0);
    let mut views = vec![
        view(1, frustum_at(centre, Quat::IDENTITY, 2.0), None),
        view(2, frustum_at(centre, Quat::from_rotation_y(quarter), 2.0), None),
        view(3, frustum_at(centre, Quat::from_rotation_x(quarter), 2.0), None),
    ];
    let mut entities = vec![boxed(10, centre), boxed(11, Vec3::ZERO)];
    check_visibility(&mut views, &mut entities);
    for v in views.iter() {
        assert_eq!(ids(&v.visible_entities), vec![10]);
    }
}

#[test]
fn cull_view_follows_the_verdicts_it_is_given() {
    let mut entities = vec![
        boxed(10, Vec3::ZERO),
        boxed(11, Vec3::ZERO),
        plain(12),
        plain(13),
    ];
    entities[3].computed_visible = true;
    entities[3].is_visible = false;
    let verdicts = vec![false, true, false, true];
    let visible = cull_view(None, &mut entities, &verdicts);
    assert_eq!(ids(&visible), vec![11, 12]);
    let flags: Vec<bool> = entities.iter().map(|e| e.computed_visible).collect();
    assert_eq!(flags, vec![false, true, true, true]);
}

#[test]
fn cull_view_of_an_empty_scene() {
    let mut entities: Vec<SceneEntity> = Vec::new();
    let visible = cull_view(Some(1), &mut entities, &Vec::new());
    assert!(visible.is_empty());
}

#[test]
fn verdicts_are_true_where_no_test_is_made() {
    let frustum = frustum_at(Vec3::ZERO, Quat::IDENTITY, 1.0);
    let far = Vec3::splat(500.0);
    let mut hidden = boxed(10, far);
    hidden.is_visible = false;
    let mut excluded = boxed(11, far);
    excluded.excluded = true;
    let mut other_layer = boxed(12, far);
    other_layer.layers = Some(0b10);
    let entities = vec![hidden, excluded, other_layer, plain(13), boxed(14, far), boxed(15, Vec3::ZERO)];
    let verdicts = frustum_verdicts(&frustum, Some(0b01), &entities);
    assert_eq!(verdicts, vec![true, true, true, true, false, true]);
}

#[test]
fn extracted_views_have_a_square_target_of_the_grid_edge() {
    let frustum = frustum_at(Vec3::ZERO, Quat::IDENTITY, 10.0);
    let mut first = view(1, frustum, None);
    first.visible_entities = vec![Entity::from_raw(5), Entity::from_raw(6)];
    let mut second = view(2, frustum, Some(1));
    second.visible_entities = Vec::new();
    let extracted = extract_views(&vec![first, second]);
    assert_eq!(extracted.len(), 2);
    assert_eq!(extracted[0].entity, Entity::from_raw(1));
    assert_eq!(extracted[0].width, VOXEL_SIZE);
    assert_eq!(extracted[0].height, VOXEL_SIZE);
    assert_eq!(ids(&extracted[0].visible_entities), vec![5, 6]);
    assert_eq!(extracted[1].entity, Entity::from_raw(2));
    assert_eq!((extracted[1].width, extracted[1].height), (256, 256));
    assert!(extracted[1].visible_entities.is_empty());
    assert!(extract_views(&Vec::new()).is_empty());
}

#[test]
fn a_rerun_gives_the_same_lists_and_flags() {
    let mut views = vec![
        view(1, frustum_at(Vec3::ZERO, Quat::IDENTITY, 10.0), None),
        view(2, frustum_at(Vec3::new(50.0, 0.0, 0.0), Quat::IDENTITY, 1.0), Some(0b10)),
    ];
    let mut on_two = boxed(12, Vec3::new(50.0, 0.0, 0.0));
    on_two.layers = Some(0b10);
    let mut hidden = boxed(13, Vec3::ZERO);
    hidden.is_visible = false;
    let mut entities = vec![
        boxed(10, Vec3::ZERO),
        boxed(11, Vec3::splat(500.0)),
        on_two,
        hidden,
        plain(14),
    ];
    check_visibility(&mut views, &mut entities);
    let lists: Vec<Vec<u32>> = views.iter().map(|v| ids(&v.visible_entities)).collect();
    let flags: Vec<bool> = entities.iter().map(|e| e.computed_visible).collect();
    assert_eq!(lists, vec![vec![10, 14], vec![12, 14]]);
    assert_eq!(flags, vec![true, false, true, false, true]);
    check_visibility(&mut views, &mut entities);
    let lists_again: Vec<Vec<u32>> = views.iter().map(|v| ids(&v.visible_entities)).collect();
    let flags_again: Vec<bool> = entities.iter().map(|e| e.computed_visible).collect();
    assert_eq!(lists_again, lists);
    assert_eq!(flags_again, flags);
}

#[test]
fn verdicts_are_the_answers_of_the_frustum_test() {
    let frustum = frustum_at(Vec3::ZERO, Quat::IDENTITY, 10.0);
    let places = [
        Vec3::ZERO,
        Vec3::new(9.0, 9.0, 9.0),
        Vec3::new(10.4, 0.0, 0.0),
        Vec3::new(10.6, 0.0, 0.0),
        Vec3::new(0.0, -30.0, 0.0),
        Vec3::new(0.0, 0.0, 11.0),
    ];
    let entities: Vec<SceneEntity> =
        places.iter().enumerate().map(|(i, at)| boxed(i as u32, *at)).collect();
    let verdicts = frustum_verdicts(&frustum, None, &entities);
    let expected: Vec<bool> = entities
        .iter()
        .map(|e| {
            frustum.intersects_obb(
                e.aabb.as_ref().unwrap(),
                &e.transform.as_ref().unwrap().compute_matrix(),
                true,
            )
        })
        .collect();
    assert_eq!(verdicts, expected);
    assert_eq!(verdicts, vec![true, true, true, false, false, false]);
}

#[test]
fn a_lone_cube_at_the_centre_is_each_views_whole_list() {
    let quarter = std::f32::consts::FRAC_PI_2;
    let mut views = vec![
        view(1, frustum_at(Vec3::ZERO, Quat::IDENTITY, 10.0), None),
        view(2, frustum_at(Vec3::ZERO, Quat::from_rotation_y(quarter), 10.0), None),
        view(3, frustum_at(Vec3::ZERO, Quat::from_rotation_x(quarter), 10.0), None),
    ];
    let mut entities = vec![boxed(10, Vec3::ZERO)];
    check_visibility(&mut views, &mut entities);
    for v in views.iter() {
        assert_eq!(ids(&v.visible_entities), vec![10]);
    }
    assert!(entities[0].computed_visible);
}
