//! The bind groups of a frame, as descriptions that the renderer turns into
//! GPU objects. They are derived anew every frame.

use vstd::prelude::*;
use bevy::ecs::entity::Entity;
use crate::config::DIRECTION_COUNT;
use crate::config::VOXEL_ANISOTROPIC_MIPMAP_LEVEL_COUNT;
use crate::pairing::adjacent_pairs;
use crate::pipeline::mipmap_base_layout_entries;
use crate::pipeline::mipmap_layout_entries;
use crate::pipeline::voxel_layout_entries;
use crate::pipeline::BindingKind;
use crate::pipeline::BlockKind;
use crate::pipeline::LayoutEntry;
use crate::pairing::zip_equal;
use crate::volume::Volume;
use crate::volume::view_slots;
use crate::volume::collect_view_slots;

verus! {

/// A GPU resource, by its role for the volume or view that a bind group is
/// made for.
#[derive(Clone, Copy, Debug, PartialEq, Eq, Structural)]
pub enum Resource {
    /// One level of the chain of one direction, and no other level.
    MipLevel { direction: usize, level: u32 },
    /// The chain of one direction, all levels.
    MipChain { direction: usize },
    /// The voxel texture.
    VoxelTexture,
    /// The atomic accumulation buffer, whole.
    VoxelBuffer,
    /// The uniform buffer of the volumes' metadata.
    VolumeUniform,
    /// The uniform buffer of the views.
    ViewUniform,
    /// The uniform buffer of a view's lights.
    Lights,
    /// The depth texture of the point lights' shadows.
    PointShadowTexture,
    /// The sampler of the point lights' shadows.
    PointShadowSampler,
    /// The depth texture of the directional lights' shadows.
    DirectionalShadowTexture,
    /// The sampler of the directional lights' shadows.
    DirectionalShadowSampler,
    /// The buffer of the point lights.
    PointLights,
    /// The clusters' lists of light indices.
    ClusterLightIndexLists,
    /// The clusters' offsets and counts.
    ClusterOffsetsAndCounts,
}

/// One slot of a bind group.
#[derive(Clone, Copy, Debug, PartialEq, Eq, Structural)]
pub struct BindGroupEntry {
    pub binding: u32,
    pub resource: Resource,
}

/// The layout that a bind group is made against.
#[derive(Clone, Copy, Debug, PartialEq, Eq, Structural)]
pub enum BindLayout {
    MeshView,
    Voxel,
    MipmapBase,
    Mipmap,
}

/// A bind group to create.
#[derive(Clone, Debug)]
pub struct BindGroupPlan {
    pub label: Option<&'static str>,
    pub layout: BindLayout,
    pub entries: Vec<BindGroupEntry>,
}

/// The bind groups of the compute passes of one volume.
#[derive(Clone, Debug)]
pub struct MipmapBindGroup {
    /// The group of the base pass.
    pub mipmap_base: BindGroupPlan,
    /// The groups of the downsampling passes: one list per written level
    /// after level 0, one group per direction in each list.
    pub mipmaps: Vec<Vec<BindGroupPlan>>,
    /// The group of the clear and fill passes.
    pub clear: BindGroupPlan,
}

/// The compute bind groups made for one volume.
#[derive(Debug)]
pub struct VolumeMipmaps {
    pub volume: Entity,
    pub groups: MipmapBindGroup,
}

/// Level `level` of each of the six chains, in the order of the directions.
pub open spec fn level_resources(level: u32) -> Seq<Resource> {
    Seq::new(6, |d: int| Resource::MipLevel { direction: d as usize, level })
}

/// Slots of the base pass's group: level 0 of each chain at the
/// direction's number, then the voxel texture.
pub open spec fn base_group_entries() -> Seq<BindGroupEntry> {
    Seq::new(
        7,
        |i: int|
            if i < 6 {
                BindGroupEntry {
                    binding: i as u32,
                    resource: Resource::MipLevel { direction: i as usize, level: 0 },
                }
            } else {
                BindGroupEntry { binding: 6, resource: Resource::VoxelTexture }
            },
    )
}

/// Slots of the group that downsamples the chain of `direction` from level
/// `level` into the next: the level read, the level written, the
/// accumulation buffer.
pub open spec fn downsample_entries(direction: int, level: int) -> Seq<BindGroupEntry> {
    seq![
        BindGroupEntry {
            binding: 0,
            resource: Resource::MipLevel { direction: direction as usize, level: level as u32 },
        },
        BindGroupEntry {
            binding: 1,
            resource: Resource::MipLevel {
                direction: direction as usize,
                level: (level + 1) as u32,
            },
        },
        BindGroupEntry { binding: 2, resource: Resource::VoxelBuffer },
    ]
}

/// Slots of the group of the clear and fill passes: the first chain, the
/// voxel texture, the accumulation buffer.
pub open spec fn clear_group_entries() -> Seq<BindGroupEntry> {
    seq![
        BindGroupEntry { binding: 0, resource: Resource::MipChain { direction: 0 } },
        BindGroupEntry { binding: 1, resource: Resource::VoxelTexture },
        BindGroupEntry { binding: 2, resource: Resource::VoxelBuffer },
    ]
}

/// Whether `plan` is the group that downsamples the chain of `direction`
/// from level `level`.
pub open spec fn is_downsample_group(plan: BindGroupPlan, direction: int, level: int) -> bool {
    &&& plan.label is None
    &&& plan.layout == BindLayout::Mipmap
    &&& plan.entries@ == downsample_entries(direction, level)
}

/// Number of downsampling steps of a chain of `level_count` levels.
pub open spec fn step_count(level_count: nat) -> nat {
    if level_count == 0 {
        0
    } else {
        (level_count - 1) as nat
    }
}

impl MipmapBindGroup {
    /// Whether each list of downsampling groups has one group per
    /// direction.
    pub open spec fn complete(self) -> bool {
        forall|k: int| 0 <= k < self.mipmaps@.len() ==> (#[trigger] self.mipmaps@[k])@.len() == 6
    }

    /// Whether these are the compute bind groups of a pyramid of
    /// `level_count` levels.
    pub open spec fn wf(self, level_count: nat) -> bool {
        &&& self.mipmap_base.label is None
        &&& self.mipmap_base.layout == BindLayout::MipmapBase
        &&& self.mipmap_base.entries@ == base_group_entries()
        &&& self.mipmaps@.len() == step_count(level_count)
        &&& self.complete()
        &&& forall|k: int, d: int|
            0 <= k < self.mipmaps@.len() && 0 <= d < 6 ==> is_downsample_group(
                #[trigger] self.mipmaps@[k]@[d],
                d,
                k,
            )
        &&& self.clear.label is None
        &&& self.clear.layout == BindLayout::Mipmap
        &&& self.clear.entries@ == clear_group_entries()
    }

    /// Describes the compute bind groups of a pyramid of `level_count`
    /// levels.
    pub fn plan(level_count: u32) -> (groups: Self)
        ensures
            groups.wf(level_count as nat),
    {
        let mipmap_base = BindGroupPlan {
            label: None,
            layout: BindLayout::MipmapBase,
            entries: base_group(),
        };
        let mut levels: Vec<u32> = Vec::new();
        let mut level: u32 = 0;
        while level < level_count
            invariant
                level <= level_count,
                levels@.len() == level,
                forall|i: int| 0 <= i < level ==> levels@[i] == i,
            decreases level_count - level,
        {
            levels.push(level);
            level = level + 1;
        }
        let windows = adjacent_pairs(levels);
        let mut mipmaps: Vec<Vec<BindGroupPlan>> = Vec::new();
        let mut k: usize = 0;
        while k < windows.len()
            invariant
                k <= windows@.len(),
                windows@.len() == step_count(level_count as nat),
                forall|i: int|
                    0 <= i < windows@.len() ==> #[trigger] windows@[i] == (i as u32, (i + 1) as u32),
                mipmaps@.len() == k,
                forall|i: int| 0 <= i < k ==> (#[trigger] mipmaps@[i])@.len() == 6,
                forall|i: int, d: int|
                    0 <= i < k && 0 <= d < 6 ==> is_downsample_group(
                        #[trigger] mipmaps@[i]@[d],
                        d,
                        i,
                    ),
            decreases windows@.len() - k,
        {
            let (level_in, level_out) = windows[k];
            let groups = downsample_groups(level_in, level_out);
            mipmaps.push(groups);
            k = k + 1;
        }
        let mut clear_entries: Vec<BindGroupEntry> = Vec::new();
        clear_entries.push(
            BindGroupEntry { binding: 0, resource: Resource::MipChain { direction: 0 } },
        );
        clear_entries.push(BindGroupEntry { binding: 1, resource: Resource::VoxelTexture });
        clear_entries.push(BindGroupEntry { binding: 2, resource: Resource::VoxelBuffer });
        assert(clear_entries@ =~= clear_group_entries());
        let clear = BindGroupPlan { label: None, layout: BindLayout::Mipmap, entries: clear_entries };
        MipmapBindGroup { mipmap_base, mipmaps, clear }
    }
}

/// Builds [`level_resources`].
pub fn level_textures(level: u32) -> (textures: Vec<Resource>)
    ensures
        textures@ == level_resources(level),
{
    let mut textures: Vec<Resource> = Vec::new();
    let mut direction: usize = 0;
    while direction < DIRECTION_COUNT
        invariant
            direction <= DIRECTION_COUNT,
            textures@.len() == direction,
            forall|d: int|
                0 <= d < direction ==> textures@[d] == (Resource::MipLevel {
                    direction: d as usize,
                    level,
                }),
        decreases DIRECTION_COUNT - direction,
    {
        textures.push(Resource::MipLevel { direction, level });
        direction = direction + 1;
    }
    textures
}

/// Builds [`base_group_entries`].
pub fn base_group() -> (entries: Vec<BindGroupEntry>)
    ensures
        entries@ == base_group_entries(),
{
    let textures = level_textures(0);
    let mut entries: Vec<BindGroupEntry> = Vec::new();
    let mut direction: usize = 0;
    while direction < DIRECTION_COUNT
        invariant
            direction <= DIRECTION_COUNT,
            textures@ == level_resources(0),
            entries@.len() == direction,
            forall|i: int| 0 <= i < direction ==> entries@[i] == base_group_entries()[i],
        decreases DIRECTION_COUNT - direction,
    {
        entries.push(BindGroupEntry { binding: direction as u32, resource: textures[direction] });
        direction = direction + 1;
    }
    entries.push(BindGroupEntry { binding: 6, resource: Resource::VoxelTexture });
    entries
}

/// The groups that downsample each of the six chains from `level_in` into
/// `level_out`, in the order of the directions.
pub fn downsample_groups(level_in: u32, level_out: u32) -> (groups: Vec<BindGroupPlan>)
    requires
        level_out == level_in + 1,
    ensures
        groups@.len() == 6,
        forall|d: int|
            0 <= d < 6 ==> is_downsample_group(#[trigger] groups@[d], d, level_in as int),
{
    let pairs = zip_equal(level_textures(level_in), level_textures(level_out));
    let mut groups: Vec<BindGroupPlan> = Vec::new();
    let mut direction: usize = 0;
    while direction < pairs.len()
        invariant
            direction <= pairs@.len(),
            pairs@.len() == 6,
            level_out == level_in + 1,
            forall|d: int|
                0 <= d < 6 ==> #[trigger] pairs@[d] == (
                    level_resources(level_in)[d],
                    level_resources(level_out)[d],
                ),
            groups@.len() == direction,
            forall|d: int|
                0 <= d < direction ==> is_downsample_group(#[trigger] groups@[d], d, level_in as int),
        decreases pairs@.len() - direction,
    {
        let (texture_in, texture_out) = pairs[direction];
        let mut entries: Vec<BindGroupEntry> = Vec::new();
        entries.push(BindGroupEntry { binding: 0, resource: texture_in });
        entries.push(BindGroupEntry { binding: 1, resource: texture_out });
        entries.push(BindGroupEntry { binding: 2, resource: Resource::VoxelBuffer });
        assert(entries@ =~= downsample_entries(direction as int, level_in as int));
        groups.push(BindGroupPlan { label: None, layout: BindLayout::Mipmap, entries });
        direction = direction + 1;
    }
    groups
}

/// Describes, for each volume, the bind groups of its compute passes.
pub fn queue_mipmap_bind_groups(volumes: &Vec<Entity>) -> (queued: Vec<VolumeMipmaps>)
    ensures
        queued@.len() == volumes@.len(),
        forall|i: int|
            0 <= i < queued@.len() ==> (#[trigger] queued@[i]).volume == volumes@[i]
                && queued@[i].groups.wf(VOXEL_ANISOTROPIC_MIPMAP_LEVEL_COUNT as nat),
{
    let mut queued: Vec<VolumeMipmaps> = Vec::new();
    let mut i: usize = 0;
    while i < volumes.len()
        invariant
            i <= volumes@.len(),
            queued@.len() == i,
            forall|j: int|
                0 <= j < i ==> (#[trigger] queued@[j]).volume == volumes@[j] && queued@[j].groups.wf(
                    VOXEL_ANISOTROPIC_MIPMAP_LEVEL_COUNT as nat,
                ),
        decreases volumes@.len() - i,
    {
        let groups = MipmapBindGroup::plan(VOXEL_ANISOTROPIC_MIPMAP_LEVEL_COUNT);
        queued.push(VolumeMipmaps { volume: volumes[i], groups });
        i = i + 1;
    }
    queued
}

/// Which of the frame's shared buffers have been written and can be bound.
#[derive(Clone, Copy, Debug, PartialEq, Eq, Structural)]
pub struct FrameBindings {
    pub view_uniforms: bool,
    pub view_lights: bool,
    pub point_lights: bool,
}

/// What a capture camera gets from its volume for the mesh shaders: the
/// offset of the volume's lights, and the volume's view bind group.
#[derive(Clone, Copy, Debug)]
pub struct ViewLightsBinding {
    pub view: Entity,
    /// Position of the owning volume, and of its group among the groups.
    pub volume: usize,
    pub lights_offset: u32,
}

/// The view bind groups of a frame: one group per volume, shared by the
/// volume's cameras.
#[derive(Debug)]
pub struct ViewBindGroups {
    pub groups: Vec<BindGroupPlan>,
    pub bindings: Vec<ViewLightsBinding>,
}

/// The bind group that a capture camera voxelizes through.
#[derive(Clone, Debug)]
pub struct VoxelBindGroup {
    pub value: BindGroupPlan,
}

/// The voxel bind group made for one capture camera.
#[derive(Debug)]
pub struct ViewVoxelBinding {
    pub view: Entity,
    /// Position of the owning volume, whose texture and buffer are bound.
    pub volume: usize,
    pub group: VoxelBindGroup,
}

/// A resource of the view bind group, by its slot.
pub open spec fn view_group_resource(binding: int) -> Resource {
    if binding == 0 {
        Resource::ViewUniform
    } else if binding == 1 {
        Resource::Lights
    } else if binding == 2 {
        Resource::PointShadowTexture
    } else if binding == 3 {
        Resource::PointShadowSampler
    } else if binding == 4 {
        Resource::DirectionalShadowTexture
    } else if binding == 5 {
        Resource::DirectionalShadowSampler
    } else if binding == 6 {
        Resource::PointLights
    } else if binding == 7 {
        Resource::ClusterLightIndexLists
    } else {
        Resource::ClusterOffsetsAndCounts
    }
}

/// Slots of the view bind group.
pub open spec fn view_group_entries() -> Seq<BindGroupEntry> {
    Seq::new(
        9,
        |i: int| BindGroupEntry { binding: i as u32, resource: view_group_resource(i) },
    )
}

/// Slots of the voxel bind group: the volume uniform, the voxel texture,
/// the accumulation buffer.
pub open spec fn voxel_group_entries() -> Seq<BindGroupEntry> {
    seq![
        BindGroupEntry { binding: 0, resource: Resource::VolumeUniform },
        BindGroupEntry { binding: 1, resource: Resource::VoxelTexture },
        BindGroupEntry { binding: 2, resource: Resource::VoxelBuffer },
    ]
}

/// Whether `plan` is a view bind group.
pub open spec fn is_view_group(plan: BindGroupPlan) -> bool {
    &&& plan.label is Some
    &&& plan.label->0@ == "mesh_view_bind_group"@
    &&& plan.layout == BindLayout::MeshView
    &&& plan.entries@ == view_group_entries()
}

/// Whether `plan` is a voxel bind group.
pub open spec fn is_voxel_group(plan: BindGroupPlan) -> bool {
    &&& plan.label is Some
    &&& plan.label->0@ == "voxel_bind_group"@
    &&& plan.layout == BindLayout::Voxel
    &&& plan.entries@ == voxel_group_entries()
}

impl FrameBindings {
    /// Whether all three buffers can be bound.
    pub open spec fn ready(self) -> bool {
        self.view_uniforms && self.view_lights && self.point_lights
    }
}

/// Computes [`view_group_resource`].
pub fn view_resource(binding: u32) -> (resource: Resource)
    ensures
        resource == view_group_resource(binding as int),
{
    if binding == 0 {
        Resource::ViewUniform
    } else if binding == 1 {
        Resource::Lights
    } else if binding == 2 {
        Resource::PointShadowTexture
    } else if binding == 3 {
        Resource::PointShadowSampler
    } else if binding == 4 {
        Resource::DirectionalShadowTexture
    } else if binding == 5 {
        Resource::DirectionalShadowSampler
    } else if binding == 6 {
        Resource::PointLights
    } else if binding == 7 {
        Resource::ClusterLightIndexLists
    } else {
        Resource::ClusterOffsetsAndCounts
    }
}

/// Describes a view bind group.
pub fn view_group() -> (plan: BindGroupPlan)
    ensures
        is_view_group(plan),
{
    let mut entries: Vec<BindGroupEntry> = Vec::new();
    let mut binding: u32 = 0;
    while binding < 9
        invariant
            binding <= 9,
            entries@.len() == binding,
            forall|i: int| 0 <= i < binding ==> entries@[i] == view_group_entries()[i],
        decreases 9 - binding,
    {
        entries.push(BindGroupEntry { binding, resource: view_resource(binding) });
        binding = binding + 1;
    }
    assert(entries@ =~= view_group_entries());
    BindGroupPlan { label: Some("mesh_view_bind_group"), layout: BindLayout::MeshView, entries }
}

/// Describes a voxel bind group.
pub fn voxel_group() -> (plan: BindGroupPlan)
    ensures
        is_voxel_group(plan),
{
    let mut entries: Vec<BindGroupEntry> = Vec::new();
    entries.push(BindGroupEntry { binding: 0, resource: Resource::VolumeUniform });
    entries.push(BindGroupEntry { binding: 1, resource: Resource::VoxelTexture });
    entries.push(BindGroupEntry { binding: 2, resource: Resource::VoxelBuffer });
    assert(entries@ =~= voxel_group_entries());
    BindGroupPlan { label: Some("voxel_bind_group"), layout: BindLayout::Voxel, entries }
}

/// Describes the view bind groups of a frame. While one of the shared
/// buffers cannot be bound yet, nothing is made. Else each volume gets one
/// group, and each of its cameras a binding to it with the offset of the
/// volume's lights, `lights_offsets` holding that offset for each volume.
pub fn queue_volume_view_bind_groups(
    frame: FrameBindings,
    volumes: &Vec<Volume>,
    lights_offsets: &Vec<u32>,
) -> (queued: ViewBindGroups)
    requires
        frame.ready() ==> lights_offsets@.len() == volumes@.len(),
    ensures
        !frame.ready() ==> queued.groups@.len() == 0 && queued.bindings@.len() == 0,
        frame.ready() ==> {
            &&& queued.groups@.len() == volumes@.len()
            &&& forall|i: int|
                0 <= i < volumes@.len() ==> is_view_group(#[trigger] queued.groups@[i])
            &&& queued.bindings@.len() == view_slots(volumes@).len()
            &&& forall|j: int|
                0 <= j < queued.bindings@.len() ==> {
                    let slot = view_slots(volumes@)[j];
                    &&& (#[trigger] queued.bindings@[j]).view == slot.view
                    &&& queued.bindings@[j].volume == slot.volume
                    &&& slot.volume < volumes@.len()
                    &&& queued.bindings@[j].lights_offset == lights_offsets@[slot.volume as int]
                }
        },
{
    let mut groups: Vec<BindGroupPlan> = Vec::new();
    let mut bindings: Vec<ViewLightsBinding> = Vec::new();
    if !(frame.view_uniforms && frame.view_lights && frame.point_lights) {
        return ViewBindGroups { groups, bindings };
    }
    let mut i: usize = 0;
    while i < volumes.len()
        invariant
            i <= volumes@.len(),
            groups@.len() == i,
            forall|k: int| 0 <= k < i ==> is_view_group(#[trigger] groups@[k]),
        decreases volumes@.len() - i,
    {
        groups.push(view_group());
        i = i + 1;
    }
    let slots = collect_view_slots(volumes);
    let mut j: usize = 0;
    while j < slots.len()
        invariant
            j <= slots@.len(),
            slots@ == view_slots(volumes@),
            lights_offsets@.len() == volumes@.len(),
            volumes@.len() <= usize::MAX,
            bindings@.len() == j,
            forall|k: int|
                0 <= k < j ==> {
                    let slot = slots@[k];
                    &&& (#[trigger] bindings@[k]).view == slot.view
                    &&& bindings@[k].volume == slot.volume
                    &&& slot.volume < volumes@.len()
                    &&& bindings@[k].lights_offset == lights_offsets@[slot.volume as int]
                },
        decreases slots@.len() - j,
    {
        let slot = slots[j];
        proof {
            crate::volume::lemma_view_slots_sound(volumes@, j as int);
        }
        bindings.push(
            ViewLightsBinding {
                view: slot.view,
                volume: slot.volume,
                lights_offset: lights_offsets[slot.volume],
            },
        );
        j = j + 1;
    }
    ViewBindGroups { groups, bindings }
}

/// Describes the voxel bind groups of a frame: one for each camera of each
/// volume, bound to the camera's volume.
pub fn queue_voxel_bind_groups(volumes: &Vec<Volume>) -> (queued: Vec<ViewVoxelBinding>)
    ensures
        queued@.len() == view_slots(volumes@).len(),
        forall|j: int|
            0 <= j < queued@.len() ==> {
                &&& (#[trigger] queued@[j]).view == view_slots(volumes@)[j].view
                &&& queued@[j].volume == view_slots(volumes@)[j].volume
                &&& is_voxel_group(queued@[j].group.value)
            },
{
    let slots = collect_view_slots(volumes);
    let mut queued: Vec<ViewVoxelBinding> = Vec::new();
    let mut j: usize = 0;
    while j < slots.len()
        invariant
            j <= slots@.len(),
            slots@ == view_slots(volumes@),
            queued@.len() == j,
            forall|k: int|
                0 <= k < j ==> {
                    &&& (#[trigger] queued@[k]).view == slots@[k].view
                    &&& queued@[k].volume == slots@[k].volume
                    &&& is_voxel_group(queued@[k].group.value)
                },
        decreases slots@.len() - j,
    {
        let slot = slots[j];
        queued.push(
            ViewVoxelBinding {
                view: slot.view,
                volume: slot.volume,
                group: VoxelBindGroup { value: voxel_group() },
            },
        );
        j = j + 1;
    }
    queued
}

/// Whether a resource can be bound at a slot of the given kind: a texture
/// at a texture slot, sampled or storage, and a buffer at the buffer slot
/// of its own block.
pub open spec fn resource_fits(resource: Resource, kind: BindingKind) -> bool {
    match resource {
        Resource::MipLevel { .. } | Resource::MipChain { .. } | Resource::VoxelTexture => kind
            == BindingKind::Texture3d || kind == BindingKind::StorageTexture3d,
        Resource::VoxelBuffer => kind == (BindingKind::StorageBuffer {
            read_only: false,
            block: BlockKind::VoxelBuffer,
        }),
        Resource::VolumeUniform => kind == (BindingKind::UniformBuffer {
            dynamic_offset: true,
            block: BlockKind::Volume,
        }),
        _ => false,
    }
}

/// Whether the slots of a bind group are those of a layout: as many, with
/// the same numbers in the same order, each holding a resource that fits.
pub open spec fn conforms(entries: Seq<BindGroupEntry>, layout: Seq<LayoutEntry>) -> bool {
    &&& entries.len() == layout.len()
    &&& forall|i: int|
        0 <= i < entries.len() ==> (#[trigger] entries[i]).binding == layout[i].binding
            && resource_fits(entries[i].resource, layout[i].ty)
}

/// Every bind group that the pipeline describes can be made against the
/// layout that it names: the voxel group against the voxel layout, the
/// base pass's group against the base layout, and the groups of the
/// downsampling, clear and fill passes against the mipmap layout.
pub proof fn lemma_groups_conform_to_layouts(direction: int, level: int)
    requires
        0 <= direction < 6,
        0 <= level < u32::MAX,
    ensures
        conforms(voxel_group_entries(), voxel_layout_entries()),
        conforms(base_group_entries(), mipmap_base_layout_entries()),
        conforms(downsample_entries(direction, level), mipmap_layout_entries()),
        conforms(clear_group_entries(), mipmap_layout_entries()),
{
}

} // verus!
