//! The host engine's types that the pipeline carries, the engine calls that
//! the pipeline's logic makes, and the names of what those calls answer.
//! Nothing in this file is proved: each contract here is taken from the
//! engine's source.

use vstd::prelude::*;

verus! {

/// `bevy::ecs::entity::Entity`: the engine's handle of one entity. Carried,
/// never inspected.
#[verifier::external_type_specification]
#[verifier::external_body]
pub struct ExEntity(bevy::ecs::entity::Entity);

/// `bevy::ecs::world::World`: the engine's entity store.
#[verifier::external_type_specification]
#[verifier::external_body]
pub struct ExWorld(bevy::ecs::world::World);

/// `bevy::math::Vec3`: a point or direction of world space.
#[verifier::external_type_specification]
#[verifier::external_body]
pub struct ExVec3(bevy::math::Vec3);

/// `bevy::render::primitives::Frustum`: the six planes that bound a view.
#[verifier::external_type_specification]
#[verifier::external_body]
pub struct ExFrustum(bevy::render::primitives::Frustum);

/// `bevy::render::primitives::Aabb`: an axis-aligned box in model space.
#[verifier::external_type_specification]
#[verifier::external_body]
pub struct ExAabb(bevy::render::primitives::Aabb);

/// `bevy::transform::components::GlobalTransform`: an entity's placement in
/// world space.
#[verifier::external_type_specification]
#[verifier::external_body]
pub struct ExGlobalTransform(bevy::transform::components::GlobalTransform);

/// The handles that have a place in the world's entity table: those for
/// which the table's `Entities::get` finds a location.
pub uninterp spec fn world_entities(world: bevy::ecs::world::World) -> Set<bevy::ecs::entity::Entity>;

/// What `Frustum::intersects_obb` answers for a box under the matrix that
/// `GlobalTransform::compute_matrix` gives for a placement: a computation
/// on the planes, the box and the placement, and on nothing else.
pub uninterp spec fn obb_verdict(
    frustum: bevy::render::primitives::Frustum,
    aabb: bevy::render::primitives::Aabb,
    transform: bevy::transform::components::GlobalTransform,
    intersect_far: bool,
) -> bool;

/// Calls `World::spawn` and takes the new entity's handle with
/// `EntityMut::id`. The world first gives a place to the handles that were
/// reserved before, then allocates a handle that has no place yet and gives
/// it one; no handle loses its place. So the new handle was not among the
/// world's entities and now is, and the entities that were, still are; by
/// how many the world has grown is not claimed. The world gives up only
/// where it has run out of entity ids, as a vector does where memory runs
/// out.
#[verifier::external_body]
pub(crate) fn spawn_entity(world: &mut bevy::ecs::world::World) -> (entity: bevy::ecs::entity::Entity)
    ensures
        !world_entities(*old(world)).contains(entity),
        world_entities(*final(world)).contains(entity),
        world_entities(*old(world)).subset_of(world_entities(*final(world))),
{
    world.spawn().id()
}

/// Calls `Frustum::intersects_obb` on the box under the matrix that
/// `GlobalTransform::compute_matrix` gives for the placement, far plane
/// included or not as `intersect_far` says. The answer is [`obb_verdict`]
/// of what was handed in; what that is for given planes and a given box is
/// not claimed.
#[verifier::external_body]
pub(crate) fn obb_in_frustum(
    frustum: &bevy::render::primitives::Frustum,
    aabb: &bevy::render::primitives::Aabb,
    transform: &bevy::transform::components::GlobalTransform,
    intersect_far: bool,
) -> (inside: bool)
    ensures
        inside == obb_verdict(*frustum, *aabb, *transform, intersect_far),
{
    frustum.intersects_obb(aabb, &transform.compute_matrix(), intersect_far)
}

} // verus!
