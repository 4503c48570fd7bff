//! The compute passes of a frame: clearing, filling and building the mip
//! pyramid, as the commands that the renderer records.

use vstd::prelude::*;
use crate::bindings::MipmapBindGroup;
use crate::config::gi_active;
use crate::config::is_active;
use crate::config::GiConfig;
use crate::config::DIRECTION_COUNT;
use crate::config::VOXEL_SIZE;
use crate::geometry::base_dispatch;
use crate::geometry::base_dispatch_of;
use crate::geometry::dispatch_of;
use crate::geometry::grid_dispatch;
use crate::geometry::grid_dispatch_of;
use crate::geometry::level_dispatch;
use crate::geometry::level_dispatch_of;
use crate::geometry::Dispatch;
use crate::phase::NodeRunError;

verus! {

/// A compute pipeline of the voxel pipeline.
#[derive(Clone, Copy, Debug, PartialEq, Eq, Structural)]
pub enum ComputePipeline {
    Clear,
    Fill,
    MipmapBase,
    /// The pipeline that downsamples the chain of one direction.
    Mipmap { direction: usize },
}

/// A bind group among a volume's compute bind groups.
#[derive(Clone, Copy, Debug, PartialEq, Eq, Structural)]
pub enum ComputeGroup {
    Clear,
    MipmapBase,
    /// The group of one direction in the list of one downsampling step.
    Mipmap { step: usize, direction: usize },
}

/// One command of a compute pass. A bind group is bound at slot 0, without
/// dynamic offsets.
#[derive(Clone, Copy, Debug, PartialEq, Eq, Structural)]
pub enum ComputeCommand {
    SetPipeline(ComputePipeline),
    /// Binds a group of the volume at position `volume`.
    SetBindGroup { volume: usize, group: ComputeGroup },
    Dispatch(Dispatch),
}

/// The node of the render graph that fills the voxel texture and builds
/// the mip pyramid.
pub struct MipmapPassNode;

/// The node of the render graph that clears the voxel data.
pub struct VoxelClearPassNode;

/// A pass over the whole grid of one volume, with the volume's clear group
/// bound.
pub open spec fn grid_pass(volume: int, pipeline: ComputePipeline, voxel_size: u32) -> Seq<
    ComputeCommand,
> {
    seq![
        ComputeCommand::SetPipeline(pipeline),
        ComputeCommand::SetBindGroup { volume: volume as usize, group: ComputeGroup::Clear },
        ComputeCommand::Dispatch(dispatch_of(grid_dispatch(voxel_size as nat))),
    ]
}

/// The pass that resolves level 0 of the six chains of one volume.
pub open spec fn base_pass(volume: int, voxel_size: u32) -> Seq<ComputeCommand> {
    seq![
        ComputeCommand::SetPipeline(ComputePipeline::MipmapBase),
        ComputeCommand::SetBindGroup { volume: volume as usize, group: ComputeGroup::MipmapBase },
        ComputeCommand::Dispatch(dispatch_of(base_dispatch(voxel_size as nat))),
    ]
}

/// The pass that writes level `step + 1` of the chain of `direction` from
/// level `step`.
pub open spec fn downsample_pass(volume: int, step: int, direction: int, voxel_size: u32) -> Seq<
    ComputeCommand,
> {
    seq![
        ComputeCommand::SetPipeline(ComputePipeline::Mipmap { direction: direction as usize }),
        ComputeCommand::SetBindGroup {
            volume: volume as usize,
            group: ComputeGroup::Mipmap { step: step as usize, direction: direction as usize },
        },
        ComputeCommand::Dispatch(dispatch_of(level_dispatch(voxel_size as nat, (step + 1) as nat))),
    ]
}

/// The passes of downsampling step `step` for the first `directions`
/// directions, in the directions' order.
pub open spec fn step_passes(volume: int, step: int, directions: nat, voxel_size: u32) -> Seq<
    ComputeCommand,
>
    decreases directions,
{
    if directions == 0 {
        Seq::empty()
    } else {
        step_passes(volume, step, (directions - 1) as nat, voxel_size) + downsample_pass(
            volume,
            step,
            directions - 1,
            voxel_size,
        )
    }
}

/// The passes of the first `steps` downsampling steps, each for all six
/// directions, from the finest level on.
pub open spec fn chain_passes(volume: int, steps: nat, voxel_size: u32) -> Seq<ComputeCommand>
    decreases steps,
{
    if steps == 0 {
        Seq::empty()
    } else {
        chain_passes(volume, (steps - 1) as nat, voxel_size) + step_passes(
            volume,
            steps - 1,
            6,
            voxel_size,
        )
    }
}

/// The commands that rebuild one volume's voxel texture and pyramid: fill,
/// then the base pass, then every downsampling step.
pub open spec fn volume_passes(volume: int, steps: nat, voxel_size: u32) -> Seq<ComputeCommand> {
    grid_pass(volume, ComputePipeline::Fill, voxel_size) + base_pass(volume, voxel_size)
        + chain_passes(volume, steps, voxel_size)
}

/// The commands of the mipmap node for a list of volumes, volume after
/// volume.
pub open spec fn mipmap_passes(groups: Seq<MipmapBindGroup>, voxel_size: u32) -> Seq<
    ComputeCommand,
>
    decreases groups.len(),
{
    if groups.len() == 0 {
        Seq::empty()
    } else {
        mipmap_passes(groups.drop_last(), voxel_size) + volume_passes(
            groups.len() - 1,
            groups.last().mipmaps@.len(),
            voxel_size,
        )
    }
}

/// The commands of the clear node for `volumes` volumes, volume after
/// volume.
pub open spec fn clear_passes(volumes: nat, voxel_size: u32) -> Seq<ComputeCommand>
    decreases volumes,
{
    if volumes == 0 {
        Seq::empty()
    } else {
        clear_passes((volumes - 1) as nat, voxel_size) + grid_pass(
            volumes - 1,
            ComputePipeline::Clear,
            voxel_size,
        )
    }
}

/// What the mipmap node records in a frame: nothing while switched off,
/// else the full rebuild of every volume.
pub open spec fn mipmap_node_commands(
    config: Option<GiConfig>,
    groups: Seq<MipmapBindGroup>,
    voxel_size: u32,
) -> Seq<ComputeCommand> {
    if gi_active(config) {
        mipmap_passes(groups, voxel_size)
    } else {
        Seq::empty()
    }
}

/// What the clear node records in a frame: nothing while switched off,
/// else the clearing of every volume.
pub open spec fn clear_node_commands(config: Option<GiConfig>, volumes: nat, voxel_size: u32) -> Seq<
    ComputeCommand,
> {
    if gi_active(config) {
        clear_passes(volumes, voxel_size)
    } else {
        Seq::empty()
    }
}

/// Whether every volume's groups are complete.
pub open spec fn all_complete(groups: Seq<MipmapBindGroup>) -> bool {
    forall|v: int| 0 <= v < groups.len() ==> (#[trigger] groups[v]).complete()
}

/// Appends [`grid_pass`].
pub fn push_grid_pass(commands: &mut Vec<ComputeCommand>, volume: usize, pipeline: ComputePipeline, voxel_size: u32)
    ensures
        final(commands)@ == old(commands)@ + grid_pass(volume as int, pipeline, voxel_size),
{
    commands.push(ComputeCommand::SetPipeline(pipeline));
    commands.push(ComputeCommand::SetBindGroup { volume, group: ComputeGroup::Clear });
    commands.push(ComputeCommand::Dispatch(grid_dispatch_of(voxel_size)));
}

/// Appends [`base_pass`].
pub fn push_base_pass(commands: &mut Vec<ComputeCommand>, volume: usize, voxel_size: u32)
    ensures
        final(commands)@ == old(commands)@ + base_pass(volume as int, voxel_size),
{
    commands.push(ComputeCommand::SetPipeline(ComputePipeline::MipmapBase));
    commands.push(ComputeCommand::SetBindGroup { volume, group: ComputeGroup::MipmapBase });
    commands.push(ComputeCommand::Dispatch(base_dispatch_of(voxel_size)));
}

/// Appends the passes of one downsampling step: [`step_passes`] for all
/// six directions.
pub fn push_step_passes(commands: &mut Vec<ComputeCommand>, volume: usize, step: usize, voxel_size: u32)
    requires
        step < usize::MAX,
    ensures
        final(commands)@ == old(commands)@ + step_passes(
            volume as int,
            step as int,
            6,
            voxel_size,
        ),
{
    let level: usize = step + 1;
    let mut direction: usize = 0;
    while direction < DIRECTION_COUNT
        invariant
            direction <= DIRECTION_COUNT,
            level == step + 1,
            commands@ == old(commands)@ + step_passes(
                volume as int,
                step as int,
                direction as nat,
                voxel_size,
            ),
        decreases DIRECTION_COUNT - direction,
    {
        let ghost before = commands@;
        commands.push(ComputeCommand::SetPipeline(ComputePipeline::Mipmap { direction }));
        commands.push(
            ComputeCommand::SetBindGroup { volume, group: ComputeGroup::Mipmap { step, direction } },
        );
        commands.push(ComputeCommand::Dispatch(level_dispatch_of(voxel_size, level)));
        direction = direction + 1;
    }
}

/// Appends [`volume_passes`].
pub fn push_volume_passes(commands: &mut Vec<ComputeCommand>, volume: usize, steps: usize, voxel_size: u32)
    ensures
        final(commands)@ == old(commands)@ + volume_passes(
            volume as int,
            steps as nat,
            voxel_size,
        ),
{
    push_grid_pass(commands, volume, ComputePipeline::Fill, voxel_size);
    push_base_pass(commands, volume, voxel_size);
    let ghost head = commands@;
    let mut step: usize = 0;
    while step < steps
        invariant
            step <= steps,
            commands@ == head + chain_passes(volume as int, step as nat, voxel_size),
        decreases steps - step,
    {
        push_step_passes(commands, volume, step, voxel_size);
        step = step + 1;
    }
}

impl MipmapPassNode {
    /// Makes the node.
    pub fn new() -> (node: Self) {
        MipmapPassNode
    }

    /// One frame of the mipmap node. Switched off, the node records
    /// nothing. Else it rebuilds every volume in full: the fill pass, the
    /// base pass, and each downsampling step for each direction.
    pub fn run(&self, config: Option<GiConfig>, groups: &Vec<MipmapBindGroup>) -> (done: Result<
        Vec<ComputeCommand>,
        NodeRunError,
    >)
        requires
            gi_active(config) ==> all_complete(groups@),
        ensures
            done is Ok,
            done->Ok_0@ == mipmap_node_commands(config, groups@, VOXEL_SIZE),
            !gi_active(config) ==> done->Ok_0@.len() == 0,
            gi_active(config) ==> done->Ok_0@ == mipmap_passes(groups@, VOXEL_SIZE),
    {
        let mut commands: Vec<ComputeCommand> = Vec::new();
        if !is_active(config) {
            return Ok(commands);
        }
        let mut v: usize = 0;
        while v < groups.len()
            invariant
                v <= groups@.len(),
                commands@ == mipmap_passes(groups@.take(v as int), VOXEL_SIZE),
            decreases groups@.len() - v,
        {
            proof {
                let next = groups@.take(v + 1);
                assert(next.drop_last() =~= groups@.take(v as int));
            }
            push_volume_passes(&mut commands, v, groups[v].mipmaps.len(), VOXEL_SIZE);
            v = v + 1;
        }
        proof {
            assert(groups@.take(v as int) =~= groups@);
        }
        Ok(commands)
    }
}

impl VoxelClearPassNode {
    /// Makes the node.
    pub fn new() -> (node: Self) {
        VoxelClearPassNode
    }

    /// One frame of the clear node. Switched off, the node records
    /// nothing. Else it clears every volume, over the whole grid.
    pub fn run(&self, config: Option<GiConfig>, groups: &Vec<MipmapBindGroup>) -> (done: Result<
        Vec<ComputeCommand>,
        NodeRunError,
    >)
        ensures
            done is Ok,
            done->Ok_0@ == clear_node_commands(config, groups@.len(), VOXEL_SIZE),
            !gi_active(config) ==> done->Ok_0@.len() == 0,
            gi_active(config) ==> done->Ok_0@ == clear_passes(groups@.len(), VOXEL_SIZE),
    {
        let mut commands: Vec<ComputeCommand> = Vec::new();
        if !is_active(config) {
            return Ok(commands);
        }
        let mut v: usize = 0;
        while v < groups.len()
            invariant
                v <= groups@.len(),
                commands@ == clear_passes(v as nat, VOXEL_SIZE),
            decreases groups@.len() - v,
        {
            push_grid_pass(&mut commands, v, ComputePipeline::Clear, VOXEL_SIZE);
            v = v + 1;
        }
        Ok(commands)
    }
}

/// Whether a command names only what exists for volume `volume` with
/// `steps` downsampling steps: a pipeline of one of the six directions,
/// and a group of the volume, of one of its steps and of one of the six
/// directions.
pub open spec fn command_within(command: ComputeCommand, volume: int, steps: nat) -> bool {
    match command {
        ComputeCommand::SetPipeline(ComputePipeline::Mipmap { direction }) => direction < 6,
        ComputeCommand::SetPipeline(_) => true,
        ComputeCommand::SetBindGroup { volume: v, group } => v == volume && match group {
            ComputeGroup::Mipmap { step, direction } => step < steps && direction < 6,
            _ => true,
        },
        ComputeCommand::Dispatch(_) => true,
    }
}

/// Whether a command names only pipelines and bind groups that exist, for
/// the bind groups `groups` of a frame.
pub open spec fn command_in_range(groups: Seq<MipmapBindGroup>, command: ComputeCommand) -> bool {
    match command {
        ComputeCommand::SetPipeline(ComputePipeline::Mipmap { direction }) => direction < 6,
        ComputeCommand::SetPipeline(_) => true,
        ComputeCommand::SetBindGroup { volume, group } => volume < groups.len() && match group {
            ComputeGroup::Mipmap { step, direction } => step < groups[volume as int].mipmaps@.len()
                && direction < groups[volume as int].mipmaps@[step as int]@.len(),
            _ => true,
        },
        ComputeCommand::Dispatch(_) => true,
    }
}

/// The passes of one downsampling step name only what exists for the step.
pub proof fn lemma_step_within(volume: int, step: int, directions: nat, voxel_size: u32, steps: nat, j: int)
    requires
        0 <= volume <= usize::MAX,
        0 <= step < steps <= usize::MAX,
        directions <= 6,
        0 <= j < step_passes(volume, step, directions, voxel_size).len(),
    ensures
        command_within(step_passes(volume, step, directions, voxel_size)[j], volume, steps),
    decreases directions,
{
    if directions != 0 {
        let front = step_passes(volume, step, (directions - 1) as nat, voxel_size);
        if j < front.len() {
            lemma_step_within(volume, step, (directions - 1) as nat, voxel_size, steps, j);
        }
    }
}

/// The passes of a chain of downsampling steps name only what exists for
/// the chain.
pub proof fn lemma_chain_within(volume: int, done: nat, voxel_size: u32, steps: nat, j: int)
    requires
        0 <= volume <= usize::MAX,
        done <= steps <= usize::MAX,
        0 <= j < chain_passes(volume, done, voxel_size).len(),
    ensures
        command_within(chain_passes(volume, done, voxel_size)[j], volume, steps),
    decreases done,
{
    if done != 0 {
        let front = chain_passes(volume, (done - 1) as nat, voxel_size);
        if j < front.len() {
            lemma_chain_within(volume, (done - 1) as nat, voxel_size, steps, j);
        } else {
            lemma_step_within(volume, done - 1, 6, voxel_size, steps, j - front.len());
        }
    }
}

/// Every command that the mipmap node records names a pipeline and a bind
/// group that exist, where every volume's groups are complete.
pub proof fn lemma_mipmap_commands_in_range(groups: Seq<MipmapBindGroup>, voxel_size: u32, j: int)
    requires
        groups.len() <= usize::MAX,
        all_complete(groups),
        0 <= j < mipmap_passes(groups, voxel_size).len(),
    ensures
        command_in_range(groups, mipmap_passes(groups, voxel_size)[j]),
    decreases groups.len(),
{
    if groups.len() != 0 {
        let front_groups = groups.drop_last();
        let front = mipmap_passes(front_groups, voxel_size);
        let volume = groups.len() - 1;
        let steps = groups.last().mipmaps@.len();
        if j < front.len() {
            lemma_mipmap_commands_in_range(front_groups, voxel_size, j);
        } else {
            assert(steps == groups.last().mipmaps.len());
            let k = j - front.len();
            let head = grid_pass(volume, ComputePipeline::Fill, voxel_size) + base_pass(
                volume,
                voxel_size,
            );
            if k >= head.len() {
                lemma_chain_within(volume, steps, voxel_size, steps, k - head.len());
            }
        }
    }
}

} // verus!
