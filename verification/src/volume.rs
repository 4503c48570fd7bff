//! Volumes and the three capture cameras that each volume owns.

use vstd::prelude::*;
use bevy::ecs::entity::Entity;
use bevy::ecs::world::World;
use bevy::math::Vec3;
use crate::config::VIEW_COUNT;
use crate::engine::spawn_entity;
use crate::engine::world_entities;

verus! {

/// A static axis-aligned region of world space that is voxelized.
pub struct Volume {
    /// The corner with the smallest coordinates.
    pub min: Vec3,
    /// The corner with the largest coordinates.
    pub max: Vec3,
    /// The capture cameras: none before the first initialization pass,
    /// three ever after.
    pub views: Vec<Entity>,
}

/// How a capture camera is turned against the volume's axes.
#[derive(Clone, Copy, Debug, PartialEq, Eq, Structural)]
pub enum ViewRotation {
    /// Not turned: the camera looks along the volume's Z axis.
    Identity,
    /// A quarter turn about Y: the camera looks along the volume's X axis.
    QuarterTurnY,
    /// A quarter turn about X: the camera looks along the volume's Y axis.
    QuarterTurnX,
}

/// An axis of a camera's own frame.
#[derive(Clone, Copy, Debug, PartialEq, Eq, Structural)]
pub enum Axis {
    X,
    Y,
    Z,
}

/// A plane of an orthographic projection: it lies at the volume's
/// half-extent along `axis`, half of what the volume's corners differ by in
/// that coordinate, to the positive side of the camera or to the negative.
#[derive(Clone, Copy, Debug, PartialEq, Eq, Structural)]
pub struct Bound {
    pub axis: Axis,
    pub positive: bool,
}

/// The six planes of an orthographic projection.
#[derive(Clone, Copy, Debug, PartialEq, Eq, Structural)]
pub struct OrthographicBounds {
    pub left: Bound,
    pub right: Bound,
    pub bottom: Bound,
    pub top: Bound,
    pub near: Bound,
    pub far: Bound,
}

/// A capture camera that an initialization pass has made. It stands at the
/// centre of volume `volume`, turned by `rotation`, and projects within
/// `projection`.
#[derive(Clone, Copy, Debug)]
pub struct VolumeViewSetup {
    pub entity: Entity,
    /// Position of the owning volume in the list that was initialized.
    pub volume: usize,
    pub rotation: ViewRotation,
    pub projection: OrthographicBounds,
}

/// The projection of every capture camera: the volume's half-extent to
/// either side, along each of the camera's axes.
pub open spec fn half_extent_bounds() -> OrthographicBounds {
    OrthographicBounds {
        left: Bound { axis: Axis::X, positive: false },
        right: Bound { axis: Axis::X, positive: true },
        bottom: Bound { axis: Axis::Y, positive: false },
        top: Bound { axis: Axis::Y, positive: true },
        near: Bound { axis: Axis::Z, positive: false },
        far: Bound { axis: Axis::Z, positive: true },
    }
}

/// The rotation of a volume's `k`-th camera.
pub open spec fn view_rotation(k: int) -> ViewRotation {
    if k == 0 {
        ViewRotation::Identity
    } else if k == 1 {
        ViewRotation::QuarterTurnY
    } else {
        ViewRotation::QuarterTurnX
    }
}

/// The cameras that initializing volume `volume` made, given its views
/// before and after: none where it had views already, else its three views
/// in order.
pub open spec fn volume_setups(volume: int, before: Seq<Entity>, after: Seq<Entity>) -> Seq<
    VolumeViewSetup,
> {
    if before.len() != 0 {
        Seq::empty()
    } else {
        Seq::new(
            after.len(),
            |k: int|
                VolumeViewSetup {
                    entity: after[k],
                    volume: volume as usize,
                    rotation: view_rotation(k),
                    projection: half_extent_bounds(),
                },
        )
    }
}

/// The cameras that one pass over `before` made, in the order of the
/// volumes, where `after` is the list that the pass left.
pub open spec fn pass_setups(before: Seq<Volume>, after: Seq<Volume>) -> Seq<VolumeViewSetup>
    decreases before.len(),
{
    if before.len() == 0 || after.len() != before.len() {
        Seq::empty()
    } else {
        pass_setups(before.drop_last(), after.drop_last()) + volume_setups(
            before.len() - 1,
            before.last().views@,
            after.last().views@,
        )
    }
}

/// What one initialization pass does to a list of volumes: a volume that
/// has views is left as it is; a volume without views gets three, and keeps
/// its corners.
pub open spec fn views_initialized(before: Seq<Volume>, after: Seq<Volume>) -> bool {
    &&& after.len() == before.len()
    &&& forall|i: int|
        0 <= i < before.len() && before[i].views@.len() != 0 ==> #[trigger] after[i]
            == before[i]
    &&& forall|i: int|
        0 <= i < before.len() && before[i].views@.len() == 0 ==> {
            &&& (#[trigger] after[i]).views@.len() == 3
            &&& after[i].min == before[i].min
            &&& after[i].max == before[i].max
        }
}

/// Whether no entity occurs twice in the list.
pub open spec fn distinct(views: Seq<Entity>) -> bool {
    forall|j: int, k: int| 0 <= j < k < views.len() ==> views[j] != views[k]
}

/// Whether every entity of the list is new to a world: it was not among
/// the world's entities `before`, and is among them `after`.
pub open spec fn newly_spawned(views: Seq<Entity>, before: Set<Entity>, after: Set<Entity>) -> bool {
    forall|k: int|
        0 <= k < views.len() ==> !before.contains(#[trigger] views[k]) && after.contains(views[k])
}

/// Whether every view of every volume is among the entities `live`.
pub open spec fn views_live(volumes: Seq<Volume>, live: Set<Entity>) -> bool {
    forall|i: int, k: int|
        0 <= i < volumes.len() && 0 <= k < volumes[i].views@.len() ==> live.contains(
            #[trigger] volumes[i].views@[k],
        )
}

/// Whether no two volumes share a view.
pub open spec fn views_disjoint(volumes: Seq<Volume>) -> bool {
    forall|i: int, j: int, k: int, m: int|
        0 <= i < j < volumes.len() && 0 <= k < volumes[i].views@.len() && 0 <= m
            < volumes[j].views@.len() ==> #[trigger] volumes[i].views@[k]
            != #[trigger] volumes[j].views@[m]
}

impl Volume {
    /// A volume between two corners, without cameras yet.
    pub fn new(min: Vec3, max: Vec3) -> (volume: Self)
        ensures
            volume.min == min,
            volume.max == max,
            volume.views@.len() == 0,
    {
        Volume { min, max, views: Vec::new() }
    }

    /// The invariant of a volume's cameras: none or three.
    pub open spec fn wf(self) -> bool {
        self.views@.len() == 0 || self.views@.len() == 3
    }
}

/// Computes [`view_rotation`].
pub fn rotation_of(k: usize) -> (rotation: ViewRotation)
    ensures
        rotation == view_rotation(k as int),
{
    if k == 0 {
        ViewRotation::Identity
    } else if k == 1 {
        ViewRotation::QuarterTurnY
    } else {
        ViewRotation::QuarterTurnX
    }
}

/// Builds [`half_extent_bounds`].
pub fn view_projection() -> (bounds: OrthographicBounds)
    ensures
        bounds == half_extent_bounds(),
{
    OrthographicBounds {
        left: Bound { axis: Axis::X, positive: false },
        right: Bound { axis: Axis::X, positive: true },
        bottom: Bound { axis: Axis::Y, positive: false },
        top: Bound { axis: Axis::Y, positive: true },
        near: Bound { axis: Axis::Z, positive: false },
        far: Bound { axis: Axis::Z, positive: true },
    }
}

/// Gives a volume without cameras its three, each an entity that `world`
/// spawns for it, and reports them: three different entities, none of which
/// the world had before. A volume with cameras is not touched, and nothing
/// is spawned for it. The world loses no entity.
pub fn init_volume_views(world: &mut World, volume: &mut Volume, index: usize) -> (setups: Vec<
    VolumeViewSetup,
>)
    ensures
        old(volume).views@.len() != 0 ==> *final(volume) == *old(volume) && *final(world) == *old(
            world,
        ),
        old(volume).views@.len() == 0 ==> {
            &&& final(volume).views@.len() == 3
            &&& distinct(final(volume).views@)
            &&& newly_spawned(
                final(volume).views@,
                world_entities(*old(world)),
                world_entities(*final(world)),
            )
        },
        world_entities(*old(world)).subset_of(world_entities(*final(world))),
        final(volume).min == old(volume).min,
        final(volume).max == old(volume).max,
        setups@ == volume_setups(index as int, old(volume).views@, final(volume).views@),
{
    let mut setups: Vec<VolumeViewSetup> = Vec::new();
    if volume.views.len() != 0 {
        return setups;
    }
    let mut k: usize = 0;
    while k < VIEW_COUNT
        invariant
            k <= VIEW_COUNT,
            volume.views@.len() == k,
            volume.min == old(volume).min,
            volume.max == old(volume).max,
            world_entities(*old(world)).subset_of(world_entities(*world)),
            distinct(volume.views@),
            newly_spawned(volume.views@, world_entities(*old(world)), world_entities(*world)),
            setups@.len() == k,
            forall|j: int|
                0 <= j < k ==> (#[trigger] setups@[j]).entity == volume.views@[j] && setups@[j].volume
                    == index && setups@[j].rotation == view_rotation(j) && setups@[j].projection
                    == half_extent_bounds(),
        decreases VIEW_COUNT - k,
    {
        let entity = spawn_entity(world);
        volume.views.push(entity);
        setups.push(
            VolumeViewSetup {
                entity,
                volume: index,
                rotation: rotation_of(k),
                projection: view_projection(),
            },
        );
        k = k + 1;
    }
    setups
}

/// One initialization pass: every volume of the list that has no cameras
/// yet gets its three, newly spawned and different from each other.
/// Returns the cameras made, in the order of the volumes. The world loses
/// no entity; where the views that the volumes had were entities of the
/// world, so are all views after the pass, and where no two volumes shared
/// a view, none do after it.
pub fn add_volume_views(world: &mut World, volumes: &mut Vec<Volume>) -> (setups: Vec<
    VolumeViewSetup,
>)
    ensures
        views_initialized(old(volumes)@, final(volumes)@),
        setups@ == pass_setups(old(volumes)@, final(volumes)@),
        (forall|i: int| 0 <= i < old(volumes)@.len() ==> old(volumes)@[i].views@.len() != 0)
            ==> *final(world) == *old(world),
        world_entities(*old(world)).subset_of(world_entities(*final(world))),
        forall|i: int|
            0 <= i < old(volumes)@.len() && old(volumes)@[i].views@.len() == 0 ==> distinct(
                (#[trigger] final(volumes)@[i]).views@,
            ) && newly_spawned(
                final(volumes)@[i].views@,
                world_entities(*old(world)),
                world_entities(*final(world)),
            ),
        views_live(old(volumes)@, world_entities(*old(world))) ==> views_live(
            final(volumes)@,
            world_entities(*final(world)),
        ),
        views_live(old(volumes)@, world_entities(*old(world))) && views_disjoint(old(volumes)@)
            ==> views_disjoint(final(volumes)@),
{
    let mut setups: Vec<VolumeViewSetup> = Vec::new();
    let count: usize = volumes.len();
    let mut i: usize = 0;
    while i < count
        invariant
            i <= count,
            count == old(volumes)@.len(),
            volumes@.len() == count,
            forall|j: int| i <= j < count ==> volumes@[j] == old(volumes)@[j],
            views_initialized(old(volumes)@.take(i as int), volumes@.take(i as int)),
            setups@ == pass_setups(old(volumes)@.take(i as int), volumes@.take(i as int)),
            (forall|j: int| 0 <= j < i ==> old(volumes)@[j].views@.len() != 0) ==> *world == *old(
                world,
            ),
            world_entities(*old(world)).subset_of(world_entities(*world)),
            forall|j: int|
                0 <= j < i && old(volumes)@[j].views@.len() == 0 ==> distinct(
                    (#[trigger] volumes@[j]).views@,
                ) && newly_spawned(
                    volumes@[j].views@,
                    world_entities(*old(world)),
                    world_entities(*world),
                ),
            views_live(old(volumes)@, world_entities(*old(world))) ==> views_live(
                volumes@,
                world_entities(*world),
            ),
            views_live(old(volumes)@, world_entities(*old(world))) && views_disjoint(
                old(volumes)@,
            ) ==> views_disjoint(volumes@),
        decreases count - i,
    {
        let ghost before = volumes@;
        let mut added = init_volume_views(world, &mut volumes[i], i);
        proof {
            let after = volumes@;
            let pre_old = old(volumes)@.take(i as int);
            let pre_new = after.take(i as int);
            let cur_old = old(volumes)@.take(i + 1);
            let cur_new = after.take(i + 1);
            assert(pre_new =~= before.take(i as int));
            assert(cur_old.drop_last() =~= pre_old);
            assert(cur_new.drop_last() =~= pre_new);
        }
        setups.append(&mut added);
        i = i + 1;
    }
    proof {
        assert(old(volumes)@.take(count as int) =~= old(volumes)@);
        assert(volumes@.take(count as int) =~= volumes@);
    }
    setups
}

/// A second pass over what a pass has left changes nothing and makes no
/// camera: initialization is idempotent.
pub proof fn lemma_second_pass_is_noop(before: Seq<Volume>, once: Seq<Volume>, twice: Seq<Volume>)
    requires
        views_initialized(before, once),
        views_initialized(once, twice),
    ensures
        twice == once,
        pass_setups(once, twice).len() == 0,
        forall|i: int| 0 <= i < once.len() ==> (#[trigger] once[i]).views@.len() != 0,
{
    lemma_no_setups_where_views(once, twice);
}

/// A pass over volumes that each have no camera or three leaves volumes
/// that each have three.
pub proof fn lemma_pass_leaves_three_views(before: Seq<Volume>, after: Seq<Volume>, i: int)
    requires
        views_initialized(before, after),
        0 <= i < before.len(),
        before[i].wf(),
    ensures
        after[i].views@.len() == 3,
        after[i].wf(),
{
}

/// A pass over volumes that all have cameras makes none.
pub proof fn lemma_no_setups_where_views(before: Seq<Volume>, after: Seq<Volume>)
    requires
        forall|i: int| 0 <= i < before.len() ==> (#[trigger] before[i]).views@.len() != 0,
    ensures
        pass_setups(before, after).len() == 0,
    decreases before.len(),
{
    if before.len() != 0 && after.len() == before.len() {
        lemma_no_setups_where_views(before.drop_last(), after.drop_last());
    }
}

/// A pass makes three cameras for each volume that had none, and no other.
pub proof fn lemma_setups_count(before: Seq<Volume>, after: Seq<Volume>)
    requires
        views_initialized(before, after),
    ensures
        pass_setups(before, after).len() == 3 * volumes_without_views(before),
    decreases before.len(),
{
    if before.len() != 0 {
        let b = before.drop_last();
        let a = after.drop_last();
        lemma_setups_count(b, a);
    }
}

/// Number of volumes of the list that have no cameras.
pub open spec fn volumes_without_views(volumes: Seq<Volume>) -> nat
    decreases volumes.len(),
{
    if volumes.len() == 0 {
        0
    } else {
        volumes_without_views(volumes.drop_last()) + if volumes.last().views@.len() == 0 {
            1nat
        } else {
            0nat
        }
    }
}

/// A capture camera together with the position of the volume that owns it.
#[derive(Clone, Copy, Debug)]
pub struct ViewSlot {
    pub volume: usize,
    pub view: Entity,
}

/// The cameras of volume `volume`, in order.
pub open spec fn volume_view_slots(volume: int, views: Seq<Entity>) -> Seq<ViewSlot> {
    Seq::new(views.len(), |k: int| ViewSlot { volume: volume as usize, view: views[k] })
}

/// The cameras of all volumes of the list: volume after volume, and within
/// a volume in the order of its views.
pub open spec fn view_slots(volumes: Seq<Volume>) -> Seq<ViewSlot>
    decreases volumes.len(),
{
    if volumes.len() == 0 {
        Seq::empty()
    } else {
        view_slots(volumes.drop_last()) + volume_view_slots(
            volumes.len() - 1,
            volumes.last().views@,
        )
    }
}

/// Computes [`view_slots`].
pub fn collect_view_slots(volumes: &Vec<Volume>) -> (slots: Vec<ViewSlot>)
    ensures
        slots@ == view_slots(volumes@),
{
    let mut slots: Vec<ViewSlot> = Vec::new();
    let mut i: usize = 0;
    while i < volumes.len()
        invariant
            i <= volumes@.len(),
            slots@ == view_slots(volumes@.take(i as int)),
        decreases volumes@.len() - i,
    {
        let ghost done = slots@;
        let volume = &volumes[i];
        let mut k: usize = 0;
        while k < volume.views.len()
            invariant
                k <= volume.views@.len(),
                slots@ == done + volume_view_slots(i as int, volume.views@.take(k as int)),
            decreases volume.views@.len() - k,
        {
            slots.push(ViewSlot { volume: i, view: volume.views[k] });
            k = k + 1;
        }
        proof {
            let next = volumes@.take(i + 1);
            assert(next.drop_last() =~= volumes@.take(i as int));
        }
        i = i + 1;
    }
    proof {
        assert(volumes@.take(i as int) =~= volumes@);
    }
    slots
}

/// Every slot names a volume of the list and one of that volume's cameras.
pub proof fn lemma_view_slots_sound(volumes: Seq<Volume>, j: int)
    requires
        volumes.len() <= usize::MAX,
        0 <= j < view_slots(volumes).len(),
    ensures
        view_slots(volumes)[j].volume < volumes.len(),
        volumes[view_slots(volumes)[j].volume as int].views@.contains(view_slots(volumes)[j].view),
    decreases volumes.len(),
{
    if volumes.len() != 0 {
        if j < view_slots(volumes.drop_last()).len() {
            lemma_view_slots_sound(volumes.drop_last(), j);
        }
    }
}

} // verus!
