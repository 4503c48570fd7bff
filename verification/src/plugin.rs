//! What the pipeline registers with the host engine at startup.

use vstd::prelude::*;
use crate::graph::hikari_graph;
use crate::graph::GraphPlan;
use crate::phase::draw_voxel_mesh;
use crate::phase::draw_voxel_mesh_steps;
use crate::phase::DrawStep;

verus! {

/// The application that a system runs in.
#[derive(Clone, Copy, Debug, PartialEq, Eq, Structural)]
pub enum AppKind {
    Main,
    Render,
}

/// The stage of a schedule that a system runs in.
#[derive(Clone, Copy, Debug, PartialEq, Eq, Structural)]
pub enum StageLabel {
    PostUpdate,
    Extract,
    Queue,
}

/// A system of the pipeline.
#[derive(Clone, Copy, Debug, PartialEq, Eq, Structural)]
pub enum System {
    AddVolumeViews,
    CheckVisibility,
    ExtractViews,
    QueueVolumeViewBindGroups,
    QueueVoxelBindGroups,
    QueueMipmapBindGroups,
    QueueVoxelMeshes,
}

/// A system to add to a schedule.
#[derive(Clone, Copy, Debug, PartialEq, Eq, Structural)]
pub struct SystemPlan {
    pub app: AppKind,
    pub stage: StageLabel,
    pub system: System,
    /// Whether the system runs with the whole world to itself.
    pub exclusive: bool,
}

/// What a material registers for voxelization.
#[derive(Debug)]
pub struct MaterialPlan {
    /// The steps of the draw function to register for voxel items.
    pub draw: Vec<DrawStep>,
    pub systems: Vec<SystemPlan>,
}

/// The plugin that wires the GI graph into the render graph.
pub struct HikariPlugin;

/// The plugin that registers the systems of the voxel pipeline.
pub struct VoxelPlugin;

/// The plugin that registers voxelization for one kind of material.
pub struct VoxelMaterialPlugin;

/// The systems of the main application: cameras are made, then culled.
pub open spec fn main_systems() -> Seq<SystemPlan> {
    seq![
        SystemPlan {
            app: AppKind::Main,
            stage: StageLabel::PostUpdate,
            system: System::AddVolumeViews,
            exclusive: true,
        },
        SystemPlan {
            app: AppKind::Main,
            stage: StageLabel::PostUpdate,
            system: System::CheckVisibility,
            exclusive: false,
        },
    ]
}

/// The systems of the render application.
pub open spec fn render_systems() -> Seq<SystemPlan> {
    seq![
        SystemPlan {
            app: AppKind::Render,
            stage: StageLabel::Extract,
            system: System::ExtractViews,
            exclusive: false,
        },
        SystemPlan {
            app: AppKind::Render,
            stage: StageLabel::Queue,
            system: System::QueueVolumeViewBindGroups,
            exclusive: false,
        },
        SystemPlan {
            app: AppKind::Render,
            stage: StageLabel::Queue,
            system: System::QueueVoxelBindGroups,
            exclusive: false,
        },
        SystemPlan {
            app: AppKind::Render,
            stage: StageLabel::Queue,
            system: System::QueueMipmapBindGroups,
            exclusive: false,
        },
    ]
}

/// The system that a material registers.
pub open spec fn material_systems() -> Seq<SystemPlan> {
    seq![
        SystemPlan {
            app: AppKind::Render,
            stage: StageLabel::Queue,
            system: System::QueueVoxelMeshes,
            exclusive: false,
        },
    ]
}

impl HikariPlugin {
    /// The sub-graph to register: the GI graph where there is a render
    /// application, nothing where there is none.
    pub fn build(&self, render_app: bool) -> (plan: Option<GraphPlan>)
        ensures
            render_app ==> plan is Some && plan->0.is_hikari() && plan->0.wf(),
            !render_app ==> plan is None,
    {
        if render_app {
            Some(hikari_graph())
        } else {
            None
        }
    }
}

impl VoxelPlugin {
    /// The systems to register: those of the main application, and, where
    /// there is a render application, those of it after them.
    pub fn build(&self, render_app: bool) -> (systems: Vec<SystemPlan>)
        ensures
            render_app ==> systems@ == main_systems() + render_systems(),
            !render_app ==> systems@ == main_systems(),
    {
        let mut systems: Vec<SystemPlan> = Vec::new();
        systems.push(
            SystemPlan {
                app: AppKind::Main,
                stage: StageLabel::PostUpdate,
                system: System::AddVolumeViews,
                exclusive: true,
            },
        );
        systems.push(
            SystemPlan {
                app: AppKind::Main,
                stage: StageLabel::PostUpdate,
                system: System::CheckVisibility,
                exclusive: false,
            },
        );
        if render_app {
            systems.push(
                SystemPlan {
                    app: AppKind::Render,
                    stage: StageLabel::Extract,
                    system: System::ExtractViews,
                    exclusive: false,
                },
            );
            systems.push(
                SystemPlan {
                    app: AppKind::Render,
                    stage: StageLabel::Queue,
                    system: System::QueueVolumeViewBindGroups,
                    exclusive: false,
                },
            );
            systems.push(
                SystemPlan {
                    app: AppKind::Render,
                    stage: StageLabel::Queue,
                    system: System::QueueVoxelBindGroups,
                    exclusive: false,
                },
            );
            systems.push(
                SystemPlan {
                    app: AppKind::Render,
                    stage: StageLabel::Queue,
                    system: System::QueueMipmapBindGroups,
                    exclusive: false,
                },
            );
        }
        systems
    }
}

impl VoxelMaterialPlugin {
    /// What to register for the material: the draw function of voxel items
    /// and the system that queues them, where there is a render
    /// application; nothing where there is none.
    pub fn build(&self, render_app: bool) -> (plan: Option<MaterialPlan>)
        ensures
            !render_app ==> plan is None,
            render_app ==> plan is Some && plan->0.draw@ == draw_voxel_mesh_steps()
                && plan->0.systems@ == material_systems(),
    {
        if !render_app {
            return None;
        }
        let mut systems: Vec<SystemPlan> = Vec::new();
        systems.push(
            SystemPlan {
                app: AppKind::Render,
                stage: StageLabel::Queue,
                system: System::QueueVoxelMeshes,
                exclusive: false,
            },
        );
        Some(MaterialPlan { draw: draw_voxel_mesh(), systems })
    }
}

} // verus!
