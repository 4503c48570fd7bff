//! The voxelization pass: the draw items queued for each capture camera,
//! and the render passes that draw them.

use vstd::prelude::*;
use bevy::ecs::entity::Entity;
use crate::config::gi_active;
use crate::config::is_active;
use crate::config::GiConfig;
use crate::pipeline::voxel_group_layouts;
use crate::pipeline::GroupLayout;
use crate::volume::Volume;

verus! {

/// Slot of the render pipeline at which the voxel bind group is bound.
pub const VOXEL_GROUP_SLOT: usize = 3;

/// One draw of the voxelization pass: a mesh entity seen by a capture
/// camera.
#[derive(Clone, Copy, Debug)]
pub struct Voxel {
    /// The bit pattern of the item's distance from the camera. Items are
    /// not depth-sorted, and every item is queued with distance zero.
    pub distance_bits: u32,
    pub entity: Entity,
    /// Position of the item's render pipeline in the frame's pipeline table.
    pub pipeline: usize,
    /// Position of the item's draw function in the table of draw functions.
    pub draw_function: usize,
}

/// What queueing reads of one entity that a capture camera sees.
#[derive(Clone, Copy, Debug)]
pub struct MeshCandidate {
    pub entity: Entity,
    /// Whether the entity has a material and a mesh at all.
    pub has_handles: bool,
    /// Whether the entity's material is GPU-resident.
    pub material_ready: bool,
    /// Position in the frame's pipeline table of the pipeline specialized
    /// for the entity's mesh, where the mesh is GPU-resident.
    pub pipeline: Option<usize>,
}

/// The colour that a render pass clears its target to.
#[derive(Clone, Copy, Debug, PartialEq, Eq, Structural)]
pub enum ClearColor {
    Black,
}

/// One draw call of a render pass.
#[derive(Clone, Copy, Debug)]
pub struct DrawCall {
    pub draw_function: usize,
    pub view: Entity,
    pub item: Voxel,
}

/// One render pass of the voxelization: the draws of one capture camera
/// into its colour target, which is cleared first and stored after. No
/// depth target is attached.
#[derive(Debug)]
pub struct RenderPassPlan {
    pub view: Entity,
    pub clear: ClearColor,
    pub store: bool,
    pub depth_stencil: bool,
    pub draws: Vec<DrawCall>,
}

/// The kind of value that a slot of the render graph carries.
#[derive(Clone, Copy, Debug, PartialEq, Eq, Structural)]
pub enum SlotType {
    Entity,
}

/// A slot of a node of the render graph.
#[derive(Clone, Copy, Debug)]
pub struct SlotInfo {
    pub name: &'static str,
    pub slot_type: SlotType,
}

/// What the render graph hands a node at its view slot.
pub enum GraphInput<'a> {
    /// The slot holds no entity.
    Missing,
    /// The slot holds an entity that is no volume.
    Other,
    /// The slot holds this volume.
    Volume(&'a Volume),
}

/// Why a node of the render graph could not run.
#[derive(Clone, Copy, Debug, PartialEq, Eq, Structural)]
pub enum NodeRunError {
    /// The node's input slot holds no value of the expected kind.
    InputSlotError,
}

/// How a render command ended.
#[derive(Clone, Copy, Debug, PartialEq, Eq, Structural)]
pub enum RenderCommandResult {
    Success,
    Failure,
}

/// A bind group set for the draws of one capture camera.
#[derive(Debug)]
pub struct BindCall {
    pub index: usize,
    pub view: Entity,
    pub dynamic_offsets: Vec<u32>,
}

/// One step of drawing a mesh into the voxel buffer.
#[derive(Clone, Copy, Debug, PartialEq, Eq, Structural)]
pub enum DrawStep {
    SetItemPipeline,
    SetMeshViewBindGroup(usize),
    SetMaterialBindGroup(usize),
    SetMeshBindGroup(usize),
    SetVoxelBindGroup(usize),
    DrawMesh,
}

/// The render command that binds a camera's voxel bind group at slot `I`.
pub struct SetVoxelBindGroup<const I: usize>;

/// The node of the render graph that voxelizes the scene.
pub struct VoxelPassNode;

/// Whether a candidate is drawn: it has a material and a mesh, and both
/// are GPU-resident. A candidate whose assets are not loaded yet is passed
/// over for this frame.
pub open spec fn drawable(candidate: MeshCandidate) -> bool {
    candidate.has_handles && candidate.material_ready && candidate.pipeline is Some
}

/// The item queued for a drawable candidate.
pub open spec fn item_of(candidate: MeshCandidate, draw_function: usize) -> Voxel {
    Voxel {
        distance_bits: 0,
        entity: candidate.entity,
        pipeline: candidate.pipeline->0,
        draw_function,
    }
}

/// The items queued for the candidates of one camera: one for each drawable
/// candidate, in the candidates' order.
pub open spec fn queued_items(candidates: Seq<MeshCandidate>, draw_function: usize) -> Seq<Voxel>
    decreases candidates.len(),
{
    if candidates.len() == 0 {
        Seq::empty()
    } else {
        let rest = queued_items(candidates.drop_last(), draw_function);
        if drawable(candidates.last()) {
            rest.push(item_of(candidates.last(), draw_function))
        } else {
            rest
        }
    }
}

/// The draw calls of one camera's render pass: one for each item of its
/// phase, in the items' order, each through the item's own draw function.
pub open spec fn draws_of(view: Entity, items: Seq<Voxel>) -> Seq<DrawCall> {
    Seq::new(
        items.len(),
        |i: int| DrawCall { draw_function: items[i].draw_function, view, item: items[i] },
    )
}

/// Whether `pass` is the render pass of camera `view` over `items`.
pub open spec fn is_view_pass(pass: RenderPassPlan, view: Entity, items: Seq<Voxel>) -> bool {
    &&& pass.view == view
    &&& pass.clear == ClearColor::Black
    &&& pass.store
    &&& !pass.depth_stencil
    &&& pass.draws@ == draws_of(view, items)
}

/// The steps of drawing a mesh into the voxel buffer, in order.
pub open spec fn draw_voxel_mesh_steps() -> Seq<DrawStep> {
    seq![
        DrawStep::SetItemPipeline,
        DrawStep::SetMeshViewBindGroup(0),
        DrawStep::SetMaterialBindGroup(1),
        DrawStep::SetMeshBindGroup(2),
        DrawStep::SetVoxelBindGroup(3),
        DrawStep::DrawMesh,
    ]
}

impl Voxel {
    /// The key that items are sorted by: the distance's bit pattern.
    pub fn sort_key(&self) -> (key: u32)
        ensures
            key == self.distance_bits,
    {
        self.distance_bits
    }

    /// The item's draw function.
    pub fn draw_function(&self) -> (id: usize)
        ensures
            id == self.draw_function,
    {
        self.draw_function
    }

    /// The entity that the item draws.
    pub fn entity(&self) -> (entity: Entity)
        ensures
            entity == self.entity,
    {
        self.entity
    }

    /// The item's render pipeline.
    pub fn cached_pipeline(&self) -> (id: usize)
        ensures
            id == self.pipeline,
    {
        self.pipeline
    }
}

impl<const I: usize> SetVoxelBindGroup<I> {
    /// Binds the voxel bind group of camera `view` at slot `I`, with the
    /// offset of the volume's uniform as the one dynamic offset.
    pub fn render(view: Entity, volume_uniform_offset: u32) -> (done: (
        RenderCommandResult,
        BindCall,
    ))
        ensures
            done.0 == RenderCommandResult::Success,
            done.1.index == I,
            done.1.view == view,
            done.1.dynamic_offsets@ == seq![volume_uniform_offset],
    {
        let mut dynamic_offsets: Vec<u32> = Vec::new();
        dynamic_offsets.push(volume_uniform_offset);
        (RenderCommandResult::Success, BindCall { index: I, view, dynamic_offsets })
    }
}

impl VoxelPassNode {
    /// Name of the node's input slot.
    pub const IN_VIEW: &'static str = "view";

    /// Makes the node.
    pub fn new() -> (node: Self) {
        VoxelPassNode
    }

    /// The node's input slots: the view entity.
    pub fn input(&self) -> (slots: Vec<SlotInfo>)
        ensures
            slots@.len() == 1,
            slots@[0].name@ == "view"@,
            slots@[0].slot_type == SlotType::Entity,
    {
        let mut slots: Vec<SlotInfo> = Vec::new();
        slots.push(SlotInfo { name: Self::IN_VIEW, slot_type: SlotType::Entity });
        slots
    }

    /// One frame of the voxelization pass. Switched off, the node does
    /// nothing. Else it wants an entity at its input; where that entity is
    /// a volume, each of the volume's cameras gets one render pass that
    /// draws the items of the camera's phase, `phases` holding the phase of
    /// each camera in the order of the volume's views.
    pub fn run(&self, config: Option<GiConfig>, input: GraphInput, phases: &Vec<Vec<Voxel>>) -> (done:
        Result<Vec<RenderPassPlan>, NodeRunError>)
        requires
            gi_active(config) ==> (input matches GraphInput::Volume(volume) ==> phases@.len()
                == volume.views@.len()),
        ensures
            !gi_active(config) ==> done is Ok && done->Ok_0@.len() == 0,
            gi_active(config) && input is Missing ==> done == Err::<Vec<RenderPassPlan>, _>(
                NodeRunError::InputSlotError,
            ),
            gi_active(config) && input is Other ==> done is Ok && done->Ok_0@.len() == 0,
            gi_active(config) ==> (input matches GraphInput::Volume(volume) ==> {
                &&& done is Ok
                &&& done->Ok_0@.len() == volume.views@.len()
                &&& forall|k: int|
                    0 <= k < volume.views@.len() ==> is_view_pass(
                        #[trigger] done->Ok_0@[k],
                        volume.views@[k],
                        phases@[k]@,
                    )
            }),
    {
        let mut passes: Vec<RenderPassPlan> = Vec::new();
        if !is_active(config) {
            return Ok(passes);
        }
        match input {
            GraphInput::Missing => Err(NodeRunError::InputSlotError),
            GraphInput::Other => Ok(passes),
            GraphInput::Volume(volume) => {
                let mut k: usize = 0;
                while k < volume.views.len()
                    invariant
                        k <= volume.views@.len(),
                        phases@.len() == volume.views@.len(),
                        passes@.len() == k,
                        forall|j: int|
                            0 <= j < k ==> is_view_pass(
                                #[trigger] passes@[j],
                                volume.views@[j],
                                phases@[j]@,
                            ),
                    decreases volume.views@.len() - k,
                {
                    let view = volume.views[k];
                    let draws = view_draws(view, &phases[k]);
                    passes.push(
                        RenderPassPlan {
                            view,
                            clear: ClearColor::Black,
                            store: true,
                            depth_stencil: false,
                            draws,
                        },
                    );
                    k = k + 1;
                }
                Ok(passes)
            },
        }
    }
}

/// Builds [`draws_of`].
pub fn view_draws(view: Entity, items: &Vec<Voxel>) -> (draws: Vec<DrawCall>)
    ensures
        draws@ == draws_of(view, items@),
{
    let mut draws: Vec<DrawCall> = Vec::new();
    let mut i: usize = 0;
    while i < items.len()
        invariant
            i <= items@.len(),
            draws@.len() == i,
            forall|j: int| 0 <= j < i ==> draws@[j] == draws_of(view, items@)[j],
        decreases items@.len() - i,
    {
        let item = items[i];
        draws.push(DrawCall { draw_function: item.draw_function, view, item });
        i = i + 1;
    }
    draws
}

/// Builds [`draw_voxel_mesh_steps`].
pub fn draw_voxel_mesh() -> (steps: Vec<DrawStep>)
    ensures
        steps@ == draw_voxel_mesh_steps(),
{
    let mut steps: Vec<DrawStep> = Vec::new();
    steps.push(DrawStep::SetItemPipeline);
    steps.push(DrawStep::SetMeshViewBindGroup(0));
    steps.push(DrawStep::SetMaterialBindGroup(1));
    steps.push(DrawStep::SetMeshBindGroup(2));
    steps.push(DrawStep::SetVoxelBindGroup(VOXEL_GROUP_SLOT));
    steps.push(DrawStep::DrawMesh);
    steps
}

/// Queues the items of one capture camera: computes [`queued_items`].
pub fn queue_view_meshes(draw_function: usize, candidates: &Vec<MeshCandidate>) -> (items: Vec<
    Voxel,
>)
    ensures
        items@ == queued_items(candidates@, draw_function),
{
    let mut items: Vec<Voxel> = Vec::new();
    let mut i: usize = 0;
    while i < candidates.len()
        invariant
            i <= candidates@.len(),
            items@ == queued_items(candidates@.take(i as int), draw_function),
        decreases candidates@.len() - i,
    {
        proof {
            let next = candidates@.take(i + 1);
            assert(next.drop_last() =~= candidates@.take(i as int));
        }
        let candidate = candidates[i];
        if candidate.has_handles && candidate.material_ready {
            match candidate.pipeline {
                Some(pipeline) => {
                    items.push(
                        Voxel {
                            distance_bits: 0,
                            entity: candidate.entity,
                            pipeline,
                            draw_function,
                        },
                    );
                },
                None => {},
            }
        }
        i = i + 1;
    }
    proof {
        assert(candidates@.take(i as int) =~= candidates@);
    }
    items
}

/// Queues the draw items of a frame. Switched off, nothing is queued. Else
/// the phase of each capture camera is extended by the items of its
/// drawable candidates, `candidates` and `phases` holding one list per
/// camera in the same order.
pub fn queue_voxel_meshes(
    config: GiConfig,
    draw_function: usize,
    candidates: &Vec<Vec<MeshCandidate>>,
    phases: &mut Vec<Vec<Voxel>>,
)
    requires
        config.enabled ==> old(phases)@.len() == candidates@.len(),
    ensures
        final(phases)@.len() == old(phases)@.len(),
        !config.enabled ==> *final(phases) == *old(phases),
        config.enabled ==> forall|v: int|
            0 <= v < candidates@.len() ==> (#[trigger] final(phases)@[v])@ == old(phases)@[v]@
                + queued_items(candidates@[v]@, draw_function),
{
    if !config.enabled {
        return ;
    }
    let count: usize = candidates.len();
    let mut v: usize = 0;
    while v < count
        invariant
            v <= count,
            count == candidates@.len(),
            phases@.len() == count,
            forall|w: int| v <= w < count ==> phases@[w] == old(phases)@[w],
            forall|w: int|
                0 <= w < v ==> (#[trigger] phases@[w])@ == old(phases)@[w]@ + queued_items(
                    candidates@[w]@,
                    draw_function,
                ),
        decreases count - v,
    {
        let mut items = queue_view_meshes(draw_function, &candidates[v]);
        let phase = &mut phases[v];
        phase.append(&mut items);
        v = v + 1;
    }
}

/// The slot and the kind of the bind group that a draw step binds, where
/// it binds one.
pub open spec fn step_binding(step: DrawStep) -> Option<(usize, GroupLayout)> {
    match step {
        DrawStep::SetMeshViewBindGroup(slot) => Some((slot, GroupLayout::View)),
        DrawStep::SetMaterialBindGroup(slot) => Some((slot, GroupLayout::Material)),
        DrawStep::SetMeshBindGroup(slot) => Some((slot, GroupLayout::Mesh)),
        DrawStep::SetVoxelBindGroup(slot) => Some((slot, GroupLayout::Voxel)),
        DrawStep::SetItemPipeline | DrawStep::DrawMesh => None,
    }
}

/// Drawing a mesh into the voxel buffer binds each group at the slot where
/// the voxelization pipeline declares that group's layout, binds every
/// declared slot, and draws last. The voxel group's slot is
/// [`VOXEL_GROUP_SLOT`].
pub proof fn lemma_draw_steps_match_layouts()
    ensures
        forall|i: int|
            0 <= i < draw_voxel_mesh_steps().len() ==> (step_binding(
                #[trigger] draw_voxel_mesh_steps()[i],
            ) matches Some((slot, layout)) ==> slot < voxel_group_layouts().len()
                && voxel_group_layouts()[slot as int] == layout),
        forall|slot: int|
            0 <= slot < voxel_group_layouts().len() ==> step_binding(
                draw_voxel_mesh_steps()[slot + 1],
            ) == Some((slot as usize, #[trigger] voxel_group_layouts()[slot])),
        draw_voxel_mesh_steps()[0] == DrawStep::SetItemPipeline,
        draw_voxel_mesh_steps().last() == DrawStep::DrawMesh,
        voxel_group_layouts()[VOXEL_GROUP_SLOT as int] == GroupLayout::Voxel,
{
}

} // verus!
