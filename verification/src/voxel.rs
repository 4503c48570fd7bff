//! The items of the voxel pipeline under one path.

pub use crate::bindings::queue_mipmap_bind_groups;
pub use crate::bindings::MipmapBindGroup;
pub use crate::bindings::VoxelBindGroup;
pub use crate::passes::MipmapPassNode;
pub use crate::passes::VoxelClearPassNode;
pub use crate::phase::queue_voxel_meshes;
pub use crate::phase::SetVoxelBindGroup;
pub use crate::phase::Voxel;
pub use crate::phase::VoxelPassNode;
pub use crate::pipeline::VoxelPipeline;
pub use crate::plugin::VoxelMaterialPlugin;
pub use crate::plugin::VoxelPlugin;
pub use crate::visibility::VolumeView;
