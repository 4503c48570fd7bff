//! One frame of the GI graph: clear, voxelize, build the pyramid, in that
//! order, and all or nothing.

use vstd::prelude::*;
use crate::bindings::MipmapBindGroup;
use crate::config::gi_active;
use crate::config::GiConfig;
use crate::config::VOXEL_SIZE;
use crate::passes::all_complete;
use crate::passes::clear_passes;
use crate::passes::mipmap_passes;
use crate::passes::ComputeCommand;
use crate::passes::MipmapPassNode;
use crate::passes::VoxelClearPassNode;
use crate::phase::is_view_pass;
use crate::phase::GraphInput;
use crate::phase::NodeRunError;
use crate::phase::RenderPassPlan;
use crate::phase::Voxel;
use crate::phase::VoxelPassNode;

verus! {

/// A stage of the GI graph.
#[derive(Clone, Copy, Debug, PartialEq, Eq, Structural)]
pub enum Stage {
    Clear,
    Voxelize,
    Mipmap,
}

/// The GPU work of one frame, stage by stage.
#[derive(Debug)]
pub struct FramePlan {
    pub clear: Vec<ComputeCommand>,
    pub voxelize: Vec<RenderPassPlan>,
    pub mipmap: Vec<ComputeCommand>,
}

/// The stages in the order in which a frame runs them.
pub open spec fn stage_order() -> Seq<Stage> {
    seq![Stage::Clear, Stage::Voxelize, Stage::Mipmap]
}

impl FramePlan {
    /// Number of draw calls that the frame submits.
    pub open spec fn draw_count(self) -> nat {
        draws_in(self.voxelize@)
    }

    /// Number of compute commands that the frame submits.
    pub open spec fn command_count(self) -> nat {
        self.clear@.len() + self.mipmap@.len()
    }
}

/// Number of draw calls in a list of render passes.
pub open spec fn draws_in(passes: Seq<RenderPassPlan>) -> nat
    decreases passes.len(),
{
    if passes.len() == 0 {
        0
    } else {
        draws_in(passes.drop_last()) + passes.last().draws@.len()
    }
}

/// Builds [`stage_order`].
pub fn gi_stages() -> (stages: Vec<Stage>)
    ensures
        stages@ == stage_order(),
{
    let mut stages: Vec<Stage> = Vec::new();
    stages.push(Stage::Clear);
    stages.push(Stage::Voxelize);
    stages.push(Stage::Mipmap);
    stages
}

/// Plans one frame: what the clear node, the voxelization node and the
/// mipmap node record, in that order. Switched off, the frame submits no
/// render pass, no draw and no compute command.
pub fn plan_frame(
    config: Option<GiConfig>,
    groups: &Vec<MipmapBindGroup>,
    input: GraphInput,
    phases: &Vec<Vec<Voxel>>,
) -> (done: Result<FramePlan, NodeRunError>)
    requires
        gi_active(config) ==> all_complete(groups@),
        gi_active(config) ==> (input matches GraphInput::Volume(volume) ==> phases@.len()
            == volume.views@.len()),
    ensures
        !gi_active(config) ==> {
            &&& done is Ok
            &&& done->Ok_0.clear@.len() == 0
            &&& done->Ok_0.voxelize@.len() == 0
            &&& done->Ok_0.mipmap@.len() == 0
            &&& done->Ok_0.draw_count() == 0
            &&& done->Ok_0.command_count() == 0
        },
        gi_active(config) && input is Missing ==> done is Err && done->Err_0
            == NodeRunError::InputSlotError,
        gi_active(config) && !(input is Missing) ==> {
            &&& done is Ok
            &&& done->Ok_0.clear@ == clear_passes(groups@.len(), VOXEL_SIZE)
            &&& done->Ok_0.mipmap@ == mipmap_passes(groups@, VOXEL_SIZE)
        },
        gi_active(config) && input is Other ==> done->Ok_0.voxelize@.len() == 0,
        gi_active(config) ==> (input matches GraphInput::Volume(volume) ==> {
            &&& done->Ok_0.voxelize@.len() == volume.views@.len()
            &&& forall|k: int|
                0 <= k < volume.views@.len() ==> is_view_pass(
                    #[trigger] done->Ok_0.voxelize@[k],
                    volume.views@[k],
                    phases@[k]@,
                )
        }),
{
    let clear = match VoxelClearPassNode::new().run(config, groups) {
        Ok(commands) => commands,
        Err(e) => {
            return Err(e);
        },
    };
    let voxelize = match VoxelPassNode::new().run(config, input, phases) {
        Ok(passes) => passes,
        Err(e) => {
            return Err(e);
        },
    };
    let mipmap = match MipmapPassNode::new().run(config, groups) {
        Ok(commands) => commands,
        Err(e) => {
            return Err(e);
        },
    };
    Ok(FramePlan { clear, voxelize, mipmap })
}

} // verus!
