//! Visibility culling: which scene entities each capture camera sees.

use vstd::prelude::*;
use bevy::ecs::entity::Entity;
use bevy::render::primitives::Aabb;
use bevy::render::primitives::Frustum;
use bevy::transform::components::GlobalTransform;
use crate::config::VOXEL_SIZE;
use crate::engine::obb_in_frustum;
use crate::engine::obb_verdict;

verus! {

/// The layer mask of a view or an entity that carries none: every layer.
pub const ALL_LAYERS: u32 = 0xffff_ffff;

/// What culling reads and writes of one scene entity.
pub struct SceneEntity {
    pub entity: Entity,
    /// Whether the entity is marked visible on its own account.
    pub is_visible: bool,
    /// Whether the last culling pass found the entity in some view.
    pub computed_visible: bool,
    /// The render layers of the entity, one bit each, where it has any.
    pub layers: Option<u32>,
    /// The entity's bounding box, where it has one.
    pub aabb: Option<Aabb>,
    /// The entity's placement in the world, where it has one.
    pub transform: Option<GlobalTransform>,
    /// Whether the entity is kept out of GI capture.
    pub excluded: bool,
}

/// What culling reads and writes of one capture camera.
pub struct VolumeView {
    pub entity: Entity,
    pub frustum: Frustum,
    /// The render layers that the camera shows, where it names any.
    pub layers: Option<u32>,
    /// The entities that the last culling pass found in this view.
    pub visible_entities: Vec<Entity>,
}

/// A capture camera as the render world sees it.
#[derive(Debug)]
pub struct ExtractedVolumeView {
    pub entity: Entity,
    pub width: u32,
    pub height: u32,
    pub visible_entities: Vec<Entity>,
}

/// The mask that stands for `layers`.
pub open spec fn layer_mask(layers: Option<u32>) -> u32 {
    match layers {
        Some(mask) => mask,
        None => ALL_LAYERS,
    }
}

/// Whether two masks share a layer.
pub open spec fn layers_intersect(first: u32, second: u32) -> bool {
    first & second != 0
}

/// Whether the entity has what a frustum test needs: a box and a placement.
pub open spec fn bounded(e: SceneEntity) -> bool {
    e.aabb is Some && e.transform is Some
}

/// Whether culling puts the entity to the frustum test of a view with
/// layers `view_layers`: it has passed the tests before it and is bounded.
pub open spec fn frustum_tested(view_layers: Option<u32>, e: SceneEntity) -> bool {
    &&& !e.excluded
    &&& e.is_visible
    &&& layers_intersect(layer_mask(view_layers), layer_mask(e.layers))
    &&& bounded(e)
}

/// Whether a view with layers `view_layers` sees the entity, where
/// `in_frustum` is the verdict of the frustum test on its bounds.
pub open spec fn passes(view_layers: Option<u32>, e: SceneEntity, in_frustum: bool) -> bool {
    &&& !e.excluded
    &&& e.is_visible
    &&& layers_intersect(layer_mask(view_layers), layer_mask(e.layers))
    &&& (bounded(e) ==> in_frustum)
}

/// The frustum test's verdict on one entity for a view with the planes
/// `frustum` and the layers `view_layers`: what the engine's test answers
/// for the entity's box and placement, far plane included, where the entity
/// is put to the test, and `true` where it is not.
pub open spec fn entity_verdict(frustum: Frustum, view_layers: Option<u32>, e: SceneEntity) -> bool {
    if frustum_tested(view_layers, e) {
        obb_verdict(frustum, e.aabb->0, e.transform->0, true)
    } else {
        true
    }
}

/// The frustum test's verdicts on the entities of the scene for one view.
pub open spec fn view_verdicts(
    frustum: Frustum,
    view_layers: Option<u32>,
    entities: Seq<SceneEntity>,
) -> Seq<bool> {
    Seq::new(entities.len(), |i: int| entity_verdict(frustum, view_layers, entities[i]))
}

/// The frustum test's verdicts of a culling pass: for each view, in order,
/// its verdicts on the entities of the scene.
pub open spec fn pass_verdicts(views: Seq<VolumeView>, entities: Seq<SceneEntity>) -> Seq<
    Seq<bool>,
> {
    Seq::new(
        views.len(),
        |v: int| view_verdicts(views[v].frustum, views[v].layers, entities),
    )
}

/// The entities that a view with layers `view_layers` sees, in the order of
/// the scene, where `verdicts` holds the frustum test's verdict for each.
pub open spec fn visible_set(
    view_layers: Option<u32>,
    entities: Seq<SceneEntity>,
    verdicts: Seq<bool>,
) -> Seq<Entity>
    decreases entities.len(),
{
    if entities.len() == 0 {
        Seq::empty()
    } else {
        let rest = visible_set(view_layers, entities.drop_last(), verdicts.drop_last());
        if passes(view_layers, entities.last(), verdicts.last()) {
            rest.push(entities.last().entity)
        } else {
            rest
        }
    }
}

/// The entity with its computed visibility set to `flag`.
pub open spec fn with_computed(e: SceneEntity, flag: bool) -> SceneEntity {
    SceneEntity { computed_visible: flag, ..e }
}

/// Whether one of the first `n` views sees the scene's `i`-th entity `e`.
pub open spec fn seen_by_first(
    n: int,
    views: Seq<VolumeView>,
    e: SceneEntity,
    verdicts: Seq<Seq<bool>>,
    i: int,
) -> bool {
    exists|v: int| 0 <= v < n && #[trigger] passes(views[v].layers, e, verdicts[v][i])
}

/// What one culling pass does, where `verdicts[v][i]` is the frustum
/// test's verdict on the `i`-th entity in the `v`-th view: each view gets
/// its visible set and keeps the rest; each entity is marked visible
/// exactly if some view sees it, and keeps the rest.
pub open spec fn culled(
    views: Seq<VolumeView>,
    entities: Seq<SceneEntity>,
    views_after: Seq<VolumeView>,
    entities_after: Seq<SceneEntity>,
    verdicts: Seq<Seq<bool>>,
) -> bool {
    &&& views_after.len() == views.len()
    &&& entities_after.len() == entities.len()
    &&& verdicts.len() == views.len()
    &&& forall|v: int| 0 <= v < views.len() ==> (#[trigger] verdicts[v]).len() == entities.len()
    &&& forall|v: int|
        0 <= v < views.len() ==> {
            &&& (#[trigger] views_after[v]).entity == views[v].entity
            &&& views_after[v].frustum == views[v].frustum
            &&& views_after[v].layers == views[v].layers
            &&& views_after[v].visible_entities@ == visible_set(
                views[v].layers,
                entities,
                verdicts[v],
            )
        }
    &&& forall|i: int|
        0 <= i < entities.len() ==> #[trigger] entities_after[i] == with_computed(
            entities[i],
            seen_by_first(views.len() as int, views, entities[i], verdicts, i),
        )
}

/// Computes [`layer_mask`].
pub fn mask_of(layers: Option<u32>) -> (mask: u32)
    ensures
        mask == layer_mask(layers),
{
    match layers {
        Some(mask) => mask,
        None => ALL_LAYERS,
    }
}

/// Computes [`layers_intersect`].
pub fn intersects(first: u32, second: u32) -> (shared: bool)
    ensures
        shared == layers_intersect(first, second),
{
    (first & second) != 0
}

/// Whether some scene entity with the handle `x` is seen by a view with
/// layers `view_layers`.
pub open spec fn seen_source(
    view_layers: Option<u32>,
    entities: Seq<SceneEntity>,
    verdicts: Seq<bool>,
    x: Entity,
) -> bool {
    exists|i: int|
        0 <= i < entities.len() && (#[trigger] entities[i]).entity == x && passes(
            view_layers,
            entities[i],
            verdicts[i],
        )
}

/// The visible set holds exactly the handles of the scene entities that the
/// view sees.
pub proof fn lemma_visible_set_exact(
    view_layers: Option<u32>,
    entities: Seq<SceneEntity>,
    verdicts: Seq<bool>,
    x: Entity,
)
    requires
        verdicts.len() == entities.len(),
    ensures
        visible_set(view_layers, entities, verdicts).contains(x) <==> seen_source(
            view_layers,
            entities,
            verdicts,
            x,
        ),
    decreases entities.len(),
{
    let set = visible_set(view_layers, entities, verdicts);
    if entities.len() != 0 {
        let front = entities.drop_last();
        let front_verdicts = verdicts.drop_last();
        let rest = visible_set(view_layers, front, front_verdicts);
        let last = entities.len() - 1;
        lemma_visible_set_exact(view_layers, front, front_verdicts, x);
        if seen_source(view_layers, entities, verdicts, x) {
            let i = choose|i: int|
                0 <= i < entities.len() && (#[trigger] entities[i]).entity == x && passes(
                    view_layers,
                    entities[i],
                    verdicts[i],
                );
            if i < last {
                assert(front[i] == entities[i] && front_verdicts[i] == verdicts[i]);
                let k = choose|k: int| 0 <= k < rest.len() && rest[k] == x;
                assert(set[k] == x);
            } else {
                assert(set[rest.len() as int] == x);
            }
        }
    }
}

/// An entity that is not marked visible is in no view's visible set,
/// whatever the frustum test says of its bounds.
pub proof fn lemma_invisible_never_seen(
    view_layers: Option<u32>,
    entities: Seq<SceneEntity>,
    verdicts: Seq<bool>,
    x: Entity,
)
    requires
        verdicts.len() == entities.len(),
        forall|i: int|
            0 <= i < entities.len() && (#[trigger] entities[i]).entity == x
                ==> !entities[i].is_visible,
    ensures
        !visible_set(view_layers, entities, verdicts).contains(x),
{
    lemma_visible_set_exact(view_layers, entities, verdicts, x);
}

/// An entity that is excluded from GI capture is in no view's visible set,
/// whatever its layers and whatever the frustum test says of its bounds.
pub proof fn lemma_excluded_never_seen(
    view_layers: Option<u32>,
    entities: Seq<SceneEntity>,
    verdicts: Seq<bool>,
    x: Entity,
)
    requires
        verdicts.len() == entities.len(),
        forall|i: int|
            0 <= i < entities.len() && (#[trigger] entities[i]).entity == x
                ==> entities[i].excluded,
    ensures
        !visible_set(view_layers, entities, verdicts).contains(x),
{
    lemma_visible_set_exact(view_layers, entities, verdicts, x);
}

/// After a culling pass, an entity that is not marked visible is in no
/// view's visible set, whatever the frustum test has said.
pub proof fn lemma_pass_never_shows_invisible(
    views: Seq<VolumeView>,
    entities: Seq<SceneEntity>,
    views_after: Seq<VolumeView>,
    entities_after: Seq<SceneEntity>,
    verdicts: Seq<Seq<bool>>,
    v: int,
    x: Entity,
)
    requires
        culled(views, entities, views_after, entities_after, verdicts),
        0 <= v < views.len(),
        forall|i: int|
            0 <= i < entities.len() && (#[trigger] entities[i]).entity == x
                ==> !entities[i].is_visible,
    ensures
        !views_after[v].visible_entities@.contains(x),
{
    lemma_invisible_never_seen(views[v].layers, entities, verdicts[v], x);
}

/// After a culling pass, an entity that is excluded from GI capture is in
/// no view's visible set, whatever its layers and whatever the frustum
/// test has said.
pub proof fn lemma_pass_never_shows_excluded(
    views: Seq<VolumeView>,
    entities: Seq<SceneEntity>,
    views_after: Seq<VolumeView>,
    entities_after: Seq<SceneEntity>,
    verdicts: Seq<Seq<bool>>,
    v: int,
    x: Entity,
)
    requires
        culled(views, entities, views_after, entities_after, verdicts),
        0 <= v < views.len(),
        forall|i: int|
            0 <= i < entities.len() && (#[trigger] entities[i]).entity == x
                ==> entities[i].excluded,
    ensures
        !views_after[v].visible_entities@.contains(x),
{
    lemma_excluded_never_seen(views[v].layers, entities, verdicts[v], x);
}

/// After a culling pass, an entity is marked visible exactly if some view
/// sees it: one view is enough.
pub proof fn lemma_pass_marks_seen(
    views: Seq<VolumeView>,
    entities: Seq<SceneEntity>,
    views_after: Seq<VolumeView>,
    entities_after: Seq<SceneEntity>,
    verdicts: Seq<Seq<bool>>,
    v: int,
    i: int,
)
    requires
        culled(views, entities, views_after, entities_after, verdicts),
        0 <= v < views.len(),
        0 <= i < entities.len(),
        passes(views[v].layers, entities[i], verdicts[v][i]),
    ensures
        entities_after[i].computed_visible,
        views_after[v].visible_entities@.contains(entities[i].entity),
{
    lemma_visible_set_exact(views[v].layers, entities, verdicts[v], entities[i].entity);
}

/// A culling pass over what a culling pass has left, with no change in
/// between, gives the same lists and the same flags.
pub proof fn lemma_rerun_is_stable(
    views: Seq<VolumeView>,
    entities: Seq<SceneEntity>,
    views_once: Seq<VolumeView>,
    entities_once: Seq<SceneEntity>,
    views_twice: Seq<VolumeView>,
    entities_twice: Seq<SceneEntity>,
)
    requires
        culled(views, entities, views_once, entities_once, pass_verdicts(views, entities)),
        culled(
            views_once,
            entities_once,
            views_twice,
            entities_twice,
            pass_verdicts(views_once, entities_once),
        ),
    ensures
        entities_twice == entities_once,
        views_twice.len() == views_once.len(),
        forall|v: int|
            0 <= v < views_once.len() ==> {
                &&& (#[trigger] views_twice[v]).visible_entities@ == views_once[v].visible_entities@
                &&& views_twice[v].entity == views_once[v].entity
                &&& views_twice[v].frustum == views_once[v].frustum
                &&& views_twice[v].layers == views_once[v].layers
            },
{
    let first = pass_verdicts(views, entities);
    let second = pass_verdicts(views_once, entities_once);
    assert forall|v: int| 0 <= v < views.len() implies #[trigger] second[v] == first[v] by {
        lemma_verdicts_ignore_flags(views[v].frustum, views[v].layers, entities_once, entities);
    }
    assert forall|v: int| 0 <= v < views_once.len() implies (
    #[trigger] views_twice[v]).visible_entities@ == views_once[v].visible_entities@ by {
        lemma_visible_set_ignores_flags(views[v].layers, entities_once, entities, first[v]);
    }
    assert forall|i: int| 0 <= i < entities.len() implies #[trigger] entities_twice[i]
        == entities_once[i] by {
        let e = entities[i];
        let once = entities_once[i];
        let was = seen_by_first(views.len() as int, views, e, first, i);
        let now = seen_by_first(views_once.len() as int, views_once, once, second, i);
        assert(once == with_computed(e, was));
        if was {
            let v = choose|v: int|
                0 <= v < views.len() && #[trigger] passes(views[v].layers, e, first[v][i]);
            assert(passes(views_once[v].layers, once, second[v][i]));
        }
        if now {
            let v = choose|v: int|
                0 <= v < views_once.len() && #[trigger] passes(
                    views_once[v].layers,
                    once,
                    second[v][i],
                );
            assert(passes(views[v].layers, e, first[v][i]));
        }
    }
}

/// A lone entity that a view sees is the view's whole list.
pub proof fn lemma_lone_entity_is_the_list(view_layers: Option<u32>, e: SceneEntity, verdict: bool)
    requires
        passes(view_layers, e, verdict),
    ensures
        visible_set(view_layers, seq![e], seq![verdict]) == seq![e.entity],
{
    assert(visible_set(view_layers, seq![e].drop_last(), seq![verdict].drop_last()).len() == 0);
}

/// After a culling pass over a scene of one entity that every view sees,
/// the frustum test's verdict on its bounds included, every view lists
/// that entity and no other, and the entity is marked visible.
pub proof fn lemma_pass_lists_lone_entity(
    views: Seq<VolumeView>,
    e: SceneEntity,
    views_after: Seq<VolumeView>,
    entities_after: Seq<SceneEntity>,
)
    requires
        culled(views, seq![e], views_after, entities_after, pass_verdicts(views, seq![e])),
        views.len() > 0,
        forall|v: int|
            0 <= v < views.len() ==> passes(
                (#[trigger] views[v]).layers,
                e,
                entity_verdict(views[v].frustum, views[v].layers, e),
            ),
    ensures
        forall|v: int|
            0 <= v < views.len() ==> (#[trigger] views_after[v]).visible_entities@ == seq![
                e.entity,
            ],
        entities_after[0].computed_visible,
{
    let scene = seq![e];
    let verdicts = pass_verdicts(views, scene);
    assert forall|v: int| 0 <= v < views.len() implies (
    #[trigger] views_after[v]).visible_entities@ == seq![e.entity] by {
        let verdict = entity_verdict(views[v].frustum, views[v].layers, e);
        assert(passes(views[v].layers, e, verdict));
        assert(verdicts[v] =~= seq![verdict]);
        lemma_lone_entity_is_the_list(views[v].layers, e, verdict);
    }
    assert(passes(views[0].layers, scene[0], verdicts[0][0]));
}

/// The frustum test decides only for the entities that are put to it: two
/// lists of verdicts that agree on those give the same visible set.
pub proof fn lemma_only_tested_verdicts_matter(
    view_layers: Option<u32>,
    entities: Seq<SceneEntity>,
    first: Seq<bool>,
    second: Seq<bool>,
)
    requires
        first.len() == entities.len(),
        second.len() == entities.len(),
        forall|i: int|
            0 <= i < entities.len() && frustum_tested(view_layers, #[trigger] entities[i])
                ==> first[i] == second[i],
    ensures
        visible_set(view_layers, entities, first) == visible_set(view_layers, entities, second),
    decreases entities.len(),
{
    if entities.len() != 0 {
        lemma_only_tested_verdicts_matter(
            view_layers,
            entities.drop_last(),
            first.drop_last(),
            second.drop_last(),
        );
    }
}

/// Where every entity of the scene is invisible or excluded, every view's
/// visible set is empty.
pub proof fn lemma_nothing_visible(
    view_layers: Option<u32>,
    entities: Seq<SceneEntity>,
    verdicts: Seq<bool>,
)
    requires
        verdicts.len() == entities.len(),
        forall|i: int|
            0 <= i < entities.len() ==> !(#[trigger] entities[i]).is_visible || entities[i].excluded,
    ensures
        visible_set(view_layers, entities, verdicts).len() == 0,
    decreases entities.len(),
{
    if entities.len() != 0 {
        lemma_nothing_visible(view_layers, entities.drop_last(), verdicts.drop_last());
    }
}

/// Culls the scene for one view, given the frustum test's verdict for each
/// entity: returns the view's visible set, and marks the entities in it as
/// visible. An entity that was marked before stays marked.
pub fn cull_view(view_layers: Option<u32>, entities: &mut Vec<SceneEntity>, verdicts: &Vec<bool>) -> (visible:
    Vec<Entity>)
    requires
        verdicts@.len() == old(entities)@.len(),
    ensures
        visible@ == visible_set(view_layers, old(entities)@, verdicts@),
        final(entities)@.len() == old(entities)@.len(),
        forall|i: int|
            0 <= i < old(entities)@.len() ==> #[trigger] final(entities)@[i] == with_computed(
                old(entities)@[i],
                old(entities)@[i].computed_visible || passes(
                    view_layers,
                    old(entities)@[i],
                    verdicts@[i],
                ),
            ),
{
    let view_mask = mask_of(view_layers);
    let mut visible: Vec<Entity> = Vec::new();
    let count: usize = entities.len();
    let mut i: usize = 0;
    while i < count
        invariant
            i <= count,
            count == old(entities)@.len(),
            entities@.len() == count,
            verdicts@.len() == count,
            view_mask == layer_mask(view_layers),
            visible@ == visible_set(
                view_layers,
                old(entities)@.take(i as int),
                verdicts@.take(i as int),
            ),
            forall|j: int| i <= j < count ==> entities@[j] == old(entities)@[j],
            forall|j: int|
                0 <= j < i ==> #[trigger] entities@[j] == with_computed(
                    old(entities)@[j],
                    old(entities)@[j].computed_visible || passes(
                        view_layers,
                        old(entities)@[j],
                        verdicts@[j],
                    ),
                ),
        decreases count - i,
    {
        proof {
            let next = old(entities)@.take(i + 1);
            assert(next.drop_last() =~= old(entities)@.take(i as int));
            assert(verdicts@.take(i + 1).drop_last() =~= verdicts@.take(i as int));
        }
        let in_frustum = verdicts[i];
        let e = &mut entities[i];
        let seen = !e.excluded && e.is_visible && intersects(view_mask, mask_of(e.layers)) && (
            !(e.aabb.is_some() && e.transform.is_some()) || in_frustum);
        if seen {
            e.computed_visible = true;
            visible.push(e.entity);
        }
        i = i + 1;
    }
    proof {
        assert(old(entities)@.take(count as int) =~= old(entities)@);
        assert(verdicts@.take(count as int) =~= verdicts@);
    }
    visible
}

/// Puts to the frustum test of a view every entity that reaches it, and
/// collects the verdicts: one for each entity of the scene, the test's
/// answer for an entity that is tested, `true` for one that is not.
pub fn frustum_verdicts(frustum: &Frustum, view_layers: Option<u32>, entities: &Vec<SceneEntity>) -> (verdicts:
    Vec<bool>)
    ensures
        verdicts@ == view_verdicts(*frustum, view_layers, entities@),
        verdicts@.len() == entities@.len(),
        forall|i: int|
            0 <= i < entities@.len() && !frustum_tested(view_layers, #[trigger] entities@[i])
                ==> verdicts@[i],
        forall|i: int|
            0 <= i < entities@.len() && frustum_tested(view_layers, #[trigger] entities@[i])
                ==> verdicts@[i] == obb_verdict(
                *frustum,
                entities@[i].aabb->0,
                entities@[i].transform->0,
                true,
            ),
{
    let view_mask = mask_of(view_layers);
    let mut verdicts: Vec<bool> = Vec::new();
    let mut i: usize = 0;
    while i < entities.len()
        invariant
            i <= entities@.len(),
            view_mask == layer_mask(view_layers),
            verdicts@.len() == i,
            forall|j: int|
                0 <= j < i ==> verdicts@[j] == entity_verdict(
                    *frustum,
                    view_layers,
                    #[trigger] entities@[j],
                ),
        decreases entities@.len() - i,
    {
        let e = &entities[i];
        let mut verdict = true;
        if !e.excluded && e.is_visible && intersects(view_mask, mask_of(e.layers)) {
            match (&e.aabb, &e.transform) {
                (Some(aabb), Some(transform)) => {
                    verdict = obb_in_frustum(frustum, aabb, transform, true);
                },
                _ => {},
            }
        }
        verdicts.push(verdict);
        i = i + 1;
    }
    verdicts
}

/// One culling pass. The computed visibility of every entity is reset;
/// then each view gets the entities that it sees, in the order of the
/// scene, and each of those is marked visible. The outcome is the one that
/// [`culled`] describes for the verdicts of the engine's frustum test on
/// the scene as it was handed in.
pub fn check_visibility(views: &mut Vec<VolumeView>, entities: &mut Vec<SceneEntity>)
    ensures
        culled(
            old(views)@,
            old(entities)@,
            final(views)@,
            final(entities)@,
            pass_verdicts(old(views)@, old(entities)@),
        ),
{
    let entity_count: usize = entities.len();
    let mut i: usize = 0;
    while i < entity_count
        invariant
            i <= entity_count,
            entities@.len() == entity_count,
            entity_count == old(entities)@.len(),
            forall|j: int| i <= j < entity_count ==> entities@[j] == old(entities)@[j],
            forall|j: int|
                0 <= j < i ==> #[trigger] entities@[j] == with_computed(old(entities)@[j], false),
        decreases entity_count - i,
    {
        let e = &mut entities[i];
        e.computed_visible = false;
        i = i + 1;
    }
    let ghost mut all: Seq<Seq<bool>> = Seq::empty();
    let view_count: usize = views.len();
    let mut v: usize = 0;
    while v < view_count
        invariant
            v <= view_count,
            view_count == old(views)@.len(),
            views@.len() == view_count,
            entities@.len() == entity_count,
            entity_count == old(entities)@.len(),
            all.len() == v,
            forall|w: int| 0 <= w < v ==> (#[trigger] all[w]).len() == entity_count,
            forall|w: int|
                0 <= w < v ==> #[trigger] all[w] == view_verdicts(
                    old(views)@[w].frustum,
                    old(views)@[w].layers,
                    old(entities)@,
                ),
            forall|w: int| v <= w < view_count ==> views@[w] == old(views)@[w],
            forall|w: int|
                0 <= w < v ==> {
                    &&& (#[trigger] views@[w]).entity == old(views)@[w].entity
                    &&& views@[w].frustum == old(views)@[w].frustum
                    &&& views@[w].layers == old(views)@[w].layers
                    &&& views@[w].visible_entities@ == visible_set(
                        old(views)@[w].layers,
                        old(entities)@,
                        all[w],
                    )
                },
            forall|j: int|
                0 <= j < entity_count ==> #[trigger] entities@[j] == with_computed(
                    old(entities)@[j],
                    seen_by_first(v as int, old(views)@, old(entities)@[j], all, j),
                ),
        decreases view_count - v,
    {
        let ghost before = entities@;
        let ghost seen_before = all;
        let layers = views[v].layers;
        let verdicts = frustum_verdicts(&views[v].frustum, layers, entities);
        let visible = cull_view(layers, entities, &verdicts);
        proof {
            lemma_verdicts_ignore_flags(views@[v as int].frustum, layers, before, old(entities)@);
            all = all.push(verdicts@);
            lemma_visible_set_ignores_flags(layers, before, old(entities)@, verdicts@);
            assert forall|j: int| 0 <= j < entity_count implies #[trigger] entities@[j]
                == with_computed(
                old(entities)@[j],
                seen_by_first(v + 1, old(views)@, old(entities)@[j], all, j),
            ) by {
                let e = old(entities)@[j];
                let was = seen_by_first(v as int, old(views)@, e, seen_before, j);
                let now = seen_by_first(v + 1, old(views)@, e, all, j);
                assert(before[j] == with_computed(e, was));
                assert(passes(layers, before[j], verdicts@[j]) == passes(layers, e, verdicts@[j]));
                if was {
                    let w = choose|w: int|
                        0 <= w < v && #[trigger] passes(old(views)@[w].layers, e, seen_before[w][j]);
                    assert(all[w] == seen_before[w]);
                    assert(passes(old(views)@[w].layers, e, all[w][j]));
                }
                if passes(layers, e, verdicts@[j]) {
                    assert(all[v as int] == verdicts@);
                    assert(passes(old(views)@[v as int].layers, e, all[v as int][j]));
                }
                if now {
                    let w = choose|w: int|
                        0 <= w < v + 1 && #[trigger] passes(old(views)@[w].layers, e, all[w][j]);
                    if w < v {
                        assert(all[w] == seen_before[w]);
                        assert(passes(old(views)@[w].layers, e, seen_before[w][j]));
                    }
                }
                assert(now == (was || passes(layers, e, verdicts@[j])));
            }
        }
        let view = &mut views[v];
        view.visible_entities = visible;
        v = v + 1;
    }
    proof {
        assert(all =~= pass_verdicts(old(views)@, old(entities)@));
    }
}

/// The frustum test's verdicts do not depend on what a pass before has
/// computed.
pub proof fn lemma_verdicts_ignore_flags(
    frustum: Frustum,
    view_layers: Option<u32>,
    first: Seq<SceneEntity>,
    second: Seq<SceneEntity>,
)
    requires
        first.len() == second.len(),
        forall|i: int|
            0 <= i < first.len() ==> #[trigger] first[i] == with_computed(
                second[i],
                first[i].computed_visible,
            ),
    ensures
        view_verdicts(frustum, view_layers, first) == view_verdicts(frustum, view_layers, second),
{
}

/// The visible set does not depend on what a pass before has computed.
pub proof fn lemma_visible_set_ignores_flags(
    view_layers: Option<u32>,
    first: Seq<SceneEntity>,
    second: Seq<SceneEntity>,
    verdicts: Seq<bool>,
)
    requires
        first.len() == second.len(),
        forall|i: int|
            0 <= i < first.len() ==> #[trigger] first[i] == with_computed(
                second[i],
                first[i].computed_visible,
            ),
    ensures
        visible_set(view_layers, first, verdicts) == visible_set(view_layers, second, verdicts),
    decreases first.len(),
{
    if first.len() != 0 {
        lemma_visible_set_ignores_flags(
            view_layers,
            first.drop_last(),
            second.drop_last(),
            verdicts.drop_last(),
        );
    }
}

/// Hands the capture cameras to the render world: each with a square
/// target of the voxel grid's edge, and with the entities that it sees.
pub fn extract_views(views: &Vec<VolumeView>) -> (extracted: Vec<ExtractedVolumeView>)
    ensures
        extracted@.len() == views@.len(),
        forall|v: int|
            0 <= v < views@.len() ==> {
                &&& (#[trigger] extracted@[v]).entity == views@[v].entity
                &&& extracted@[v].width == VOXEL_SIZE
                &&& extracted@[v].height == VOXEL_SIZE
                &&& extracted@[v].visible_entities@ == views@[v].visible_entities@
            },
{
    let mut extracted: Vec<ExtractedVolumeView> = Vec::new();
    let mut v: usize = 0;
    while v < views.len()
        invariant
            v <= views@.len(),
            extracted@.len() == v,
            forall|w: int|
                0 <= w < v ==> {
                    &&& (#[trigger] extracted@[w]).entity == views@[w].entity
                    &&& extracted@[w].width == VOXEL_SIZE
                    &&& extracted@[w].height == VOXEL_SIZE
                    &&& extracted@[w].visible_entities@ == views@[w].visible_entities@
                },
        decreases views@.len() - v,
    {
        let view = &views[v];
        let mut visible_entities: Vec<Entity> = Vec::new();
        let mut k: usize = 0;
        while k < view.visible_entities.len()
            invariant
                k <= view.visible_entities@.len(),
                visible_entities@ == view.visible_entities@.take(k as int),
            decreases view.visible_entities@.len() - k,
        {
            visible_entities.push(view.visible_entities[k]);
            k = k + 1;
        }
        extracted.push(
            ExtractedVolumeView {
                entity: view.entity,
                width: VOXEL_SIZE,
                height: VOXEL_SIZE,
                visible_entities,
            },
        );
        v = v + 1;
    }
    extracted
}

} // verus!
