//! The settings that are fixed at startup, and the switch that gates every
//! stage of a frame.

use vstd::prelude::*;

verus! {

/// Edge length, in voxels, of a volume's voxel grid.
pub const VOXEL_SIZE: u32 = 256;

/// Number of levels in each directional mip chain.
pub const VOXEL_ANISOTROPIC_MIPMAP_LEVEL_COUNT: u32 = 8;

/// Number of directional chains: one per signed axis.
pub const DIRECTION_COUNT: usize = 6;

/// Number of capture cameras that a volume owns.
pub const VIEW_COUNT: usize = 3;

/// Samples per pixel of the voxelization pass.
pub const VOXEL_SAMPLE_COUNT: u32 = 1;

/// The global switch of the pipeline.
#[derive(Clone, Copy, Debug, PartialEq, Eq, Structural)]
pub struct GiConfig {
    pub enabled: bool,
}

impl Default for GiConfig {
    fn default() -> (config: Self)
        ensures
            config.enabled,
    {
        GiConfig { enabled: true }
    }
}

/// Whether a pass node does its work under `config`: a node works unless a
/// configuration is present and switched off.
pub open spec fn gi_active(config: Option<GiConfig>) -> bool {
    match config {
        Some(c) => c.enabled,
        None => true,
    }
}

/// Computes [`gi_active`].
pub fn is_active(config: Option<GiConfig>) -> (active: bool)
    ensures
        active == gi_active(config),
{
    match config {
        Some(c) => c.enabled,
        None => true,
    }
}

} // verus!
