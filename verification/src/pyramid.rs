//! Which levels of the mip pyramid a frame's compute commands write, and
//! what that means for the pyramid from frame to frame.

use vstd::prelude::*;
use crate::bindings::MipmapBindGroup;
use crate::config::gi_active;
use crate::config::GiConfig;
use crate::passes::base_pass;
use crate::passes::chain_passes;
use crate::passes::clear_node_commands;
use crate::passes::mipmap_node_commands;
use crate::passes::downsample_pass;
use crate::passes::grid_pass;
use crate::passes::mipmap_passes;
use crate::passes::step_passes;
use crate::passes::volume_passes;
use crate::passes::ComputeCommand;
use crate::passes::ComputeGroup;
use crate::passes::ComputePipeline;

verus! {

/// The pyramid of a list of volumes, as the frame in which each level was
/// last written. A level is addressed by the position of its volume, the
/// number of its direction, and its own number.
pub type Pyramid = Map<(int, int, int), nat>;

/// Whether a dispatch with `group` bound writes level `level` of the chain
/// of `direction`: the base pass writes level 0 of every chain, and the
/// group of a downsampling step writes the level after the step's own, in
/// its one direction.
pub open spec fn group_writes(group: ComputeGroup, direction: int, level: int) -> bool {
    match group {
        ComputeGroup::Clear => false,
        ComputeGroup::MipmapBase => level == 0 && 0 <= direction < 6,
        ComputeGroup::Mipmap { step, direction: d } => d == direction && level == step + 1,
    }
}

/// Whether the commands at `i` and after it bind a group of volume `volume`
/// that writes the level, and dispatch it.
pub open spec fn writes_at(
    commands: Seq<ComputeCommand>,
    i: int,
    volume: int,
    direction: int,
    level: int,
) -> bool {
    &&& 0 <= i
    &&& i + 1 < commands.len()
    &&& commands[i] matches ComputeCommand::SetBindGroup { volume: v, group }
    &&& v == volume
    &&& group_writes(group, direction, level)
    &&& commands[i + 1] is Dispatch
}

/// Whether the commands write the level.
pub open spec fn writes(commands: Seq<ComputeCommand>, volume: int, direction: int, level: int) -> bool {
    exists|i: int| writes_at(commands, i, volume, direction, level)
}

/// The pyramid after frame `frame` has run `commands`: what the commands
/// write is of this frame, and the rest is as it was.
pub open spec fn after_frame(pyramid: Pyramid, commands: Seq<ComputeCommand>, frame: nat) -> Pyramid {
    Map::new(
        |k: (int, int, int)| pyramid.dom().contains(k) || writes(commands, k.0, k.1, k.2),
        |k: (int, int, int)|
            if writes(commands, k.0, k.1, k.2) {
                frame
            } else {
                pyramid[k]
            },
    )
}

/// A frame that records no command leaves the pyramid as it was.
pub proof fn lemma_idle_frame_keeps_pyramid(pyramid: Pyramid, frame: nat)
    ensures
        after_frame(pyramid, Seq::empty(), frame) == pyramid,
{
}

/// While the pipeline is switched off, a frame submits no compute command,
/// and the pyramid that an earlier frame built stays as it is: stale, but
/// stable.
pub proof fn lemma_disabled_frame_keeps_pyramid(
    config: Option<GiConfig>,
    groups: Seq<MipmapBindGroup>,
    voxel_size: u32,
    pyramid: Pyramid,
    frame: nat,
)
    requires
        !gi_active(config),
    ensures
        clear_node_commands(config, groups.len(), voxel_size).len() == 0,
        mipmap_node_commands(config, groups, voxel_size).len() == 0,
        after_frame(
            pyramid,
            clear_node_commands(config, groups.len(), voxel_size) + mipmap_node_commands(
                config,
                groups,
                voxel_size,
            ),
            frame,
        ) == pyramid,
{
}

/// What a part of a command list writes, the whole list writes.
pub proof fn lemma_writes_in_concat(
    first: Seq<ComputeCommand>,
    second: Seq<ComputeCommand>,
    volume: int,
    direction: int,
    level: int,
)
    ensures
        writes(first, volume, direction, level) ==> writes(
            first + second,
            volume,
            direction,
            level,
        ),
        writes(second, volume, direction, level) ==> writes(
            first + second,
            volume,
            direction,
            level,
        ),
{
    let all = first + second;
    if writes(first, volume, direction, level) {
        let i = choose|i: int| writes_at(first, i, volume, direction, level);
        assert(writes_at(all, i, volume, direction, level));
    }
    if writes(second, volume, direction, level) {
        let i = choose|i: int| writes_at(second, i, volume, direction, level);
        let j = first.len() + i;
        assert(writes_at(all, j, volume, direction, level));
    }
}

/// The passes of a downsampling step write the level after the step's own,
/// in each direction.
pub proof fn lemma_step_writes(volume: int, step: int, directions: nat, voxel_size: u32, direction: int)
    requires
        0 <= volume <= usize::MAX,
        0 <= step < usize::MAX,
        0 <= direction < directions <= 6,
    ensures
        writes(
            step_passes(volume, step, directions, voxel_size),
            volume,
            direction,
            step + 1,
        ),
    decreases directions,
{
    let front = step_passes(volume, step, (directions - 1) as nat, voxel_size);
    let pass = downsample_pass(volume, step, directions - 1, voxel_size);
    if direction == directions - 1 {
        assert(writes_at(pass, 1, volume, direction, step + 1));
    } else {
        lemma_step_writes(volume, step, (directions - 1) as nat, voxel_size, direction);
    }
    lemma_writes_in_concat(front, pass, volume, direction, step + 1);
}

/// The passes of the first `steps` downsampling steps write every level
/// from 1 to `steps`, in each direction.
pub proof fn lemma_chain_writes(volume: int, steps: nat, voxel_size: u32, direction: int, level: int)
    requires
        0 <= volume <= usize::MAX,
        steps <= usize::MAX,
        0 <= direction < 6,
        1 <= level <= steps,
    ensures
        writes(chain_passes(volume, steps, voxel_size), volume, direction, level),
    decreases steps,
{
    let front = chain_passes(volume, (steps - 1) as nat, voxel_size);
    let step = step_passes(volume, steps - 1, 6, voxel_size);
    if level == steps {
        lemma_step_writes(volume, steps - 1, 6, voxel_size, direction);
    } else {
        lemma_chain_writes(volume, (steps - 1) as nat, voxel_size, direction, level);
    }
    lemma_writes_in_concat(front, step, volume, direction, level);
}

/// The commands that rebuild a volume write every level of every chain,
/// from level 0 to the last step's.
pub proof fn lemma_volume_writes(volume: int, steps: nat, voxel_size: u32, direction: int, level: int)
    requires
        0 <= volume <= usize::MAX,
        steps <= usize::MAX,
        0 <= direction < 6,
        0 <= level <= steps,
    ensures
        writes(volume_passes(volume, steps, voxel_size), volume, direction, level),
{
    let fill = grid_pass(volume, ComputePipeline::Fill, voxel_size);
    let base = base_pass(volume, voxel_size);
    let chain = chain_passes(volume, steps, voxel_size);
    if level == 0 {
        assert(writes_at(base, 1, volume, direction, 0));
        lemma_writes_in_concat(fill, base, volume, direction, level);
        lemma_writes_in_concat(fill + base, chain, volume, direction, level);
    } else {
        lemma_chain_writes(volume, steps, voxel_size, direction, level);
        lemma_writes_in_concat(fill + base, chain, volume, direction, level);
    }
}

/// An enabled frame rebuilds the pyramid in full: the commands of the
/// mipmap node write every level of every chain of every volume.
pub proof fn lemma_frame_writes_every_level(
    groups: Seq<MipmapBindGroup>,
    voxel_size: u32,
    volume: int,
    direction: int,
    level: int,
)
    requires
        groups.len() <= usize::MAX,
        0 <= volume < groups.len(),
        0 <= direction < 6,
        0 <= level <= groups[volume].mipmaps@.len(),
    ensures
        writes(mipmap_passes(groups, voxel_size), volume, direction, level),
    decreases groups.len(),
{
    let front = mipmap_passes(groups.drop_last(), voxel_size);
    let last = volume_passes(groups.len() - 1, groups.last().mipmaps@.len(), voxel_size);
    if volume == groups.len() - 1 {
        assert(groups.last().mipmaps@.len() == groups.last().mipmaps.len());
        lemma_volume_writes(volume, groups.last().mipmaps@.len(), voxel_size, direction, level);
    } else {
        lemma_frame_writes_every_level(groups.drop_last(), voxel_size, volume, direction, level);
    }
    lemma_writes_in_concat(front, last, volume, direction, level);
}

/// After an enabled frame over well-formed groups, every level of the
/// pyramid is of that frame: nothing of an earlier frame is left.
pub proof fn lemma_enabled_frame_rebuilds_pyramid(
    config: Option<GiConfig>,
    pyramid: Pyramid,
    groups: Seq<MipmapBindGroup>,
    level_count: nat,
    voxel_size: u32,
    frame: nat,
    volume: int,
    direction: int,
    level: int,
)
    requires
        gi_active(config),
        groups.len() <= usize::MAX,
        forall|v: int| 0 <= v < groups.len() ==> (#[trigger] groups[v]).wf(level_count),
        0 <= volume < groups.len(),
        0 <= direction < 6,
        0 <= level < level_count,
    ensures
        after_frame(
            pyramid,
            clear_node_commands(config, groups.len(), voxel_size) + mipmap_node_commands(
                config,
                groups,
                voxel_size,
            ),
            frame,
        ).dom().contains((volume, direction, level)),
        after_frame(
            pyramid,
            clear_node_commands(config, groups.len(), voxel_size) + mipmap_node_commands(
                config,
                groups,
                voxel_size,
            ),
            frame,
        )[(volume, direction, level)] == frame,
{
    lemma_frame_writes_every_level(groups, voxel_size, volume, direction, level);
    lemma_writes_in_concat(
        clear_node_commands(config, groups.len(), voxel_size),
        mipmap_node_commands(config, groups, voxel_size),
        volume,
        direction,
        level,
    );
}

} // verus!
