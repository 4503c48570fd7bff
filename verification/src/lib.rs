//! Voxel cone-traced global illumination: the planning core of the
//! voxelization and anisotropic mip-mapping pipeline.
//!
//! The library decides; the renderer around it does. Every frame the
//! renderer hands over what it has read of the scene, and gets back what to
//! record: which entities each capture camera sees, which meshes to draw
//! into the voxel buffer, which bind groups to make, and which compute
//! passes rebuild the mip pyramid.
//!
//! - [`config`]: the grid's size, the pyramid's depth, and the global switch.
//! - [`volume`]: volumes and the one-time making of their three cameras.
//! - [`visibility`]: culling of the scene for each camera.
//! - [`geometry`]: texture extents, mip edges and thread-group counts.
//! - [`pipeline`]: the layouts and pipelines asked of the GPU at startup.
//! - [`bindings`]: the bind groups derived anew every frame.
//! - [`phase`]: draw items, and the render passes of the voxelization.
//! - [`passes`]: the compute passes that clear, fill and downsample.
//! - [`pyramid`]: which levels a frame's passes write.
//! - [`frame`]: one frame, stage by stage.
//! - [`graph`] and [`plugin`]: what is registered with the engine.
//! - [`engine`] and [`pairing`]: the calls into the engine and into
//!   `itertools` that the logic makes.

pub mod bindings;
pub mod config;
pub mod engine;
pub mod frame;
pub mod geometry;
pub mod graph;
pub mod pairing;
pub mod passes;
pub mod phase;
pub mod pipeline;
pub mod plugin;
pub mod pyramid;
pub mod visibility;
pub mod volume;
pub mod voxel;

pub use crate::plugin::HikariPlugin;
