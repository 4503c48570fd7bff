//! The resource layouts and pipelines of the voxel pipeline, as descriptions
//! that the renderer turns into GPU objects.

use vstd::prelude::*;
use crate::config::DIRECTION_COUNT;
use crate::config::VOXEL_SAMPLE_COUNT;

verus! {

/// The shader stage that sees a binding.
#[derive(Clone, Copy, Debug, PartialEq, Eq, Structural)]
pub enum ShaderStage {
    Fragment,
    Compute,
}

/// The GPU-side block whose size a buffer binding must at least hold.
#[derive(Clone, Copy, Debug, PartialEq, Eq, Structural)]
pub enum BlockKind {
    /// The per-volume metadata uniform.
    Volume,
    /// The atomic accumulation buffer of a volume.
    VoxelBuffer,
}

/// What a binding slot holds.
#[derive(Clone, Copy, Debug, PartialEq, Eq, Structural)]
pub enum BindingKind {
    /// A uniform buffer, addressed with a dynamic offset or not.
    UniformBuffer { dynamic_offset: bool, block: BlockKind },
    /// A storage buffer without dynamic offset.
    StorageBuffer { read_only: bool, block: BlockKind },
    /// A sampled, single-sampled 3D texture.
    Texture3d,
    /// A write-only 3D storage texture of four half-float channels.
    StorageTexture3d,
}

/// One slot of a bind group layout.
#[derive(Clone, Copy, Debug, PartialEq, Eq, Structural)]
pub struct LayoutEntry {
    pub binding: u32,
    pub visibility: ShaderStage,
    pub ty: BindingKind,
}

/// A bind group layout to create.
#[derive(Clone, Debug)]
pub struct BindGroupLayoutPlan {
    pub label: &'static str,
    pub entries: Vec<LayoutEntry>,
}

/// The shader module of a compute pipeline.
#[derive(Clone, Copy, Debug, PartialEq, Eq, Structural)]
pub enum ComputeShader {
    /// The module that resolves level 0 of the six chains.
    MipmapBase,
    /// The module that holds the per-direction downsampling entry points
    /// and the clear and fill entry points.
    Mipmap,
}

/// The pipeline layout of a compute pipeline, named by its one bind group
/// layout.
#[derive(Clone, Copy, Debug, PartialEq, Eq, Structural)]
pub enum ComputeLayout {
    MipmapBase,
    Mipmap,
}

/// A compute pipeline to create.
#[derive(Clone, Copy, Debug)]
pub struct ComputePipelinePlan {
    pub label: &'static str,
    pub layout: ComputeLayout,
    pub shader: ComputeShader,
    pub entry_point: &'static str,
}

/// Everything that the voxel pipeline asks of the GPU at startup.
#[derive(Clone, Debug)]
pub struct VoxelPipeline {
    pub voxel_layout: BindGroupLayoutPlan,
    pub mipmap_base_layout: BindGroupLayoutPlan,
    pub mipmap_base_pipeline: ComputePipelinePlan,
    pub mipmap_layout: BindGroupLayoutPlan,
    pub mipmap_pipelines: Vec<ComputePipelinePlan>,
    pub clear_pipeline: ComputePipelinePlan,
    pub fill_pipeline: ComputePipelinePlan,
}

/// A shader of the render pipeline's fragment stage.
#[derive(Clone, Copy, Debug, PartialEq, Eq, Structural)]
pub enum FragmentShader {
    /// The shader that the mesh pipeline brings.
    Mesh,
    /// The shader that writes radiance and opacity into the voxel buffer.
    Voxel,
}

/// A bind group layout of the render pipeline, by what it binds.
#[derive(Clone, Copy, Debug, PartialEq, Eq, Structural)]
pub enum GroupLayout {
    View,
    Material,
    Mesh,
    Voxel,
}

/// The side of a triangle that is culled.
#[derive(Clone, Copy, Debug, PartialEq, Eq, Structural)]
pub enum Face {
    Front,
    Back,
}

/// Multisampling of a render pipeline.
#[derive(Clone, Copy, Debug, PartialEq, Eq, Structural)]
pub struct Multisample {
    pub count: u32,
    pub mask: u64,
    pub alpha_to_coverage_enabled: bool,
}

/// The part of a render pipeline's description that voxelization decides.
#[derive(Clone, Debug)]
pub struct RenderPipelineSettings {
    /// The fragment stage's shader; `None` where there is no fragment stage.
    pub fragment_shader: Option<FragmentShader>,
    /// The bind group layouts in slot order; `None` where none is set.
    pub layout: Option<Vec<GroupLayout>>,
    pub cull_mode: Option<Face>,
    /// Whether a depth and stencil state is attached.
    pub depth_stencil: bool,
    pub multisample: Multisample,
}

/// The bind group layouts of the voxelization pipeline in slot order: the
/// voxel group comes last, at slot 3.
pub open spec fn voxel_group_layouts() -> Seq<GroupLayout> {
    seq![GroupLayout::View, GroupLayout::Material, GroupLayout::Mesh, GroupLayout::Voxel]
}

/// Multisampling of the voxelization pipeline: one sample, every sample
/// written.
pub open spec fn voxel_multisample() -> Multisample {
    Multisample { count: 1, mask: 0xffff_ffff_ffff_ffff, alpha_to_coverage_enabled: false }
}

/// Slots of the bind group that the voxelization shader reads and writes
/// through: the volume uniform, the voxel texture, the accumulation buffer.
pub open spec fn voxel_layout_entries() -> Seq<LayoutEntry> {
    seq![
        LayoutEntry {
            binding: 0,
            visibility: ShaderStage::Fragment,
            ty: BindingKind::UniformBuffer { dynamic_offset: true, block: BlockKind::Volume },
        },
        LayoutEntry { binding: 1, visibility: ShaderStage::Fragment, ty: BindingKind::Texture3d },
        LayoutEntry {
            binding: 2,
            visibility: ShaderStage::Fragment,
            ty: BindingKind::StorageBuffer { read_only: false, block: BlockKind::VoxelBuffer },
        },
    ]
}

/// Slots of the base pass: one write-only storage texture per direction, at
/// the direction's number, then the voxel texture.
pub open spec fn mipmap_base_layout_entries() -> Seq<LayoutEntry> {
    Seq::new(
        7,
        |i: int|
            if i < 6 {
                LayoutEntry {
                    binding: i as u32,
                    visibility: ShaderStage::Compute,
                    ty: BindingKind::StorageTexture3d,
                }
            } else {
                LayoutEntry {
                    binding: 6,
                    visibility: ShaderStage::Compute,
                    ty: BindingKind::Texture3d,
                }
            },
    )
}

/// Slots of the downsampling, clear and fill passes: the texture read, the
/// texture written, the accumulation buffer.
pub open spec fn mipmap_layout_entries() -> Seq<LayoutEntry> {
    seq![
        LayoutEntry { binding: 0, visibility: ShaderStage::Compute, ty: BindingKind::Texture3d },
        LayoutEntry {
            binding: 1,
            visibility: ShaderStage::Compute,
            ty: BindingKind::StorageTexture3d,
        },
        LayoutEntry {
            binding: 2,
            visibility: ShaderStage::Compute,
            ty: BindingKind::StorageBuffer { read_only: false, block: BlockKind::VoxelBuffer },
        },
    ]
}

/// The decimal digit of a direction's number.
pub open spec fn direction_digit(direction: int) -> char {
    if direction == 0 {
        '0'
    } else if direction == 1 {
        '1'
    } else if direction == 2 {
        '2'
    } else if direction == 3 {
        '3'
    } else if direction == 4 {
        '4'
    } else {
        '5'
    }
}

/// Entry point of the pass that downsamples the chain of `direction`.
pub open spec fn mipmap_entry_point(direction: int) -> Seq<char> {
    "mipmap_"@.push(direction_digit(direction))
}

/// Label of the pipeline that downsamples the chain of `direction`.
pub open spec fn mipmap_pipeline_label(direction: int) -> Seq<char> {
    "mipmap_pipeline_"@.push(direction_digit(direction))
}

/// Whether `plan` is the downsampling pipeline of `direction`.
pub open spec fn is_mipmap_pipeline(plan: ComputePipelinePlan, direction: int) -> bool {
    &&& plan.label@ == mipmap_pipeline_label(direction)
    &&& plan.layout == ComputeLayout::Mipmap
    &&& plan.shader == ComputeShader::Mipmap
    &&& plan.entry_point@ == mipmap_entry_point(direction)
}

impl VoxelPipeline {
    /// Whether the description is the voxel pipeline's: every layout slot,
    /// label, module and entry point as the shaders expect them.
    pub open spec fn wf(self) -> bool {
        &&& self.voxel_layout.label@ == "voxel_layout"@
        &&& self.voxel_layout.entries@ == voxel_layout_entries()
        &&& self.mipmap_base_layout.label@ == "mipmap_base_layout"@
        &&& self.mipmap_base_layout.entries@ == mipmap_base_layout_entries()
        &&& self.mipmap_base_pipeline.label@ == "mipmap_base_pipeline"@
        &&& self.mipmap_base_pipeline.layout == ComputeLayout::MipmapBase
        &&& self.mipmap_base_pipeline.shader == ComputeShader::MipmapBase
        &&& self.mipmap_base_pipeline.entry_point@ == "mipmap"@
        &&& self.mipmap_layout.label@ == "mipmap_layout"@
        &&& self.mipmap_layout.entries@ == mipmap_layout_entries()
        &&& self.mipmap_pipelines@.len() == 6
        &&& forall|d: int|
            0 <= d < 6 ==> is_mipmap_pipeline(#[trigger] self.mipmap_pipelines@[d], d)
        &&& self.clear_pipeline.label@ == "clear_pipeline"@
        &&& self.clear_pipeline.layout == ComputeLayout::Mipmap
        &&& self.clear_pipeline.shader == ComputeShader::Mipmap
        &&& self.clear_pipeline.entry_point@ == "clear"@
        &&& self.fill_pipeline.label@ == "fill_pipeline"@
        &&& self.fill_pipeline.layout == ComputeLayout::Mipmap
        &&& self.fill_pipeline.shader == ComputeShader::Mipmap
        &&& self.fill_pipeline.entry_point@ == "fill"@
    }

    /// Describes the layouts and pipelines of the voxel pipeline.
    pub fn new() -> (pipeline: Self)
        ensures
            pipeline.wf(),
    {
        let voxel_layout = BindGroupLayoutPlan {
            label: "voxel_layout",
            entries: voxel_layout(),
        };
        let mipmap_base_layout = BindGroupLayoutPlan {
            label: "mipmap_base_layout",
            entries: mipmap_base_layout(),
        };
        let mipmap_base_pipeline = ComputePipelinePlan {
            label: "mipmap_base_pipeline",
            layout: ComputeLayout::MipmapBase,
            shader: ComputeShader::MipmapBase,
            entry_point: "mipmap",
        };
        let mipmap_layout = BindGroupLayoutPlan {
            label: "mipmap_layout",
            entries: mipmap_layout(),
        };
        let mut mipmap_pipelines: Vec<ComputePipelinePlan> = Vec::new();
        let mut direction: usize = 0;
        while direction < DIRECTION_COUNT
            invariant
                direction <= DIRECTION_COUNT,
                mipmap_pipelines@.len() == direction,
                forall|d: int|
                    0 <= d < direction ==> is_mipmap_pipeline(#[trigger] mipmap_pipelines@[d], d),
            decreases DIRECTION_COUNT - direction,
        {
            let plan = mipmap_pipeline(direction);
            mipmap_pipelines.push(plan);
            direction = direction + 1;
        }
        let clear_pipeline = ComputePipelinePlan {
            label: "clear_pipeline",
            layout: ComputeLayout::Mipmap,
            shader: ComputeShader::Mipmap,
            entry_point: "clear",
        };
        let fill_pipeline = ComputePipelinePlan {
            label: "fill_pipeline",
            layout: ComputeLayout::Mipmap,
            shader: ComputeShader::Mipmap,
            entry_point: "fill",
        };
        VoxelPipeline {
            voxel_layout,
            mipmap_base_layout,
            mipmap_base_pipeline,
            mipmap_layout,
            mipmap_pipelines,
            clear_pipeline,
            fill_pipeline,
        }
    }

    /// Turns the mesh pipeline's description into that of the voxelization
    /// pass: the voxel shader in the fragment stage, the voxel bind group
    /// after the mesh pipeline's three, no culling, no depth test, one
    /// sample.
    pub fn specialize(&self, base: RenderPipelineSettings) -> (settings: RenderPipelineSettings)
        requires
            base.fragment_shader is Some,
        ensures
            settings.fragment_shader == Some(FragmentShader::Voxel),
            settings.layout is Some,
            settings.layout->0@ == voxel_group_layouts(),
            settings.cull_mode is None,
            !settings.depth_stencil,
            settings.multisample == voxel_multisample(),
    {
        let mut layout: Vec<GroupLayout> = Vec::new();
        layout.push(GroupLayout::View);
        layout.push(GroupLayout::Material);
        layout.push(GroupLayout::Mesh);
        layout.push(GroupLayout::Voxel);
        RenderPipelineSettings {
            fragment_shader: Some(FragmentShader::Voxel),
            layout: Some(layout),
            cull_mode: None,
            depth_stencil: false,
            multisample: Multisample {
                count: VOXEL_SAMPLE_COUNT,
                mask: 0xffff_ffff_ffff_ffff,
                alpha_to_coverage_enabled: false,
            },
        }
    }
}

/// Builds [`voxel_layout_entries`].
pub fn voxel_layout() -> (entries: Vec<LayoutEntry>)
    ensures
        entries@ == voxel_layout_entries(),
{
    let mut entries: Vec<LayoutEntry> = Vec::new();
    entries.push(
        LayoutEntry {
            binding: 0,
            visibility: ShaderStage::Fragment,
            ty: BindingKind::UniformBuffer { dynamic_offset: true, block: BlockKind::Volume },
        },
    );
    entries.push(
        LayoutEntry { binding: 1, visibility: ShaderStage::Fragment, ty: BindingKind::Texture3d },
    );
    entries.push(
        LayoutEntry {
            binding: 2,
            visibility: ShaderStage::Fragment,
            ty: BindingKind::StorageBuffer { read_only: false, block: BlockKind::VoxelBuffer },
        },
    );
    entries
}

/// Builds [`mipmap_base_layout_entries`].
pub fn mipmap_base_layout() -> (entries: Vec<LayoutEntry>)
    ensures
        entries@ == mipmap_base_layout_entries(),
{
    let mut entries: Vec<LayoutEntry> = Vec::new();
    let mut direction: u32 = 0;
    while direction < 6
        invariant
            direction <= 6,
            entries@.len() == direction,
            forall|i: int| 0 <= i < direction ==> entries@[i] == mipmap_base_layout_entries()[i],
        decreases 6 - direction,
    {
        entries.push(
            LayoutEntry {
                binding: direction,
                visibility: ShaderStage::Compute,
                ty: BindingKind::StorageTexture3d,
            },
        );
        direction = direction + 1;
    }
    entries.push(
        LayoutEntry { binding: 6, visibility: ShaderStage::Compute, ty: BindingKind::Texture3d },
    );
    entries
}

/// Builds [`mipmap_layout_entries`].
pub fn mipmap_layout() -> (entries: Vec<LayoutEntry>)
    ensures
        entries@ == mipmap_layout_entries(),
{
    let mut entries: Vec<LayoutEntry> = Vec::new();
    entries.push(
        LayoutEntry { binding: 0, visibility: ShaderStage::Compute, ty: BindingKind::Texture3d },
    );
    entries.push(
        LayoutEntry {
            binding: 1,
            visibility: ShaderStage::Compute,
            ty: BindingKind::StorageTexture3d,
        },
    );
    entries.push(
        LayoutEntry {
            binding: 2,
            visibility: ShaderStage::Compute,
            ty: BindingKind::StorageBuffer { read_only: false, block: BlockKind::VoxelBuffer },
        },
    );
    entries
}

/// Describes the pipeline that downsamples the chain of `direction`.
pub fn mipmap_pipeline(direction: usize) -> (plan: ComputePipelinePlan)
    requires
        direction < DIRECTION_COUNT,
    ensures
        is_mipmap_pipeline(plan, direction as int),
{
    proof {
        reveal_strlit("mipmap_");
        reveal_strlit("mipmap_pipeline_");
        reveal_strlit("mipmap_0");
        reveal_strlit("mipmap_1");
        reveal_strlit("mipmap_2");
        reveal_strlit("mipmap_3");
        reveal_strlit("mipmap_4");
        reveal_strlit("mipmap_5");
        reveal_strlit("mipmap_pipeline_0");
        reveal_strlit("mipmap_pipeline_1");
        reveal_strlit("mipmap_pipeline_2");
        reveal_strlit("mipmap_pipeline_3");
        reveal_strlit("mipmap_pipeline_4");
        reveal_strlit("mipmap_pipeline_5");
    }
    let (label, entry_point) = if direction == 0 {
        ("mipmap_pipeline_0", "mipmap_0")
    } else if direction == 1 {
        ("mipmap_pipeline_1", "mipmap_1")
    } else if direction == 2 {
        ("mipmap_pipeline_2", "mipmap_2")
    } else if direction == 3 {
        ("mipmap_pipeline_3", "mipmap_3")
    } else if direction == 4 {
        ("mipmap_pipeline_4", "mipmap_4")
    } else {
        ("mipmap_pipeline_5", "mipmap_5")
    };
    let plan = ComputePipelinePlan {
        label,
        layout: ComputeLayout::Mipmap,
        shader: ComputeShader::Mipmap,
        entry_point,
    };
    assert(plan.label@ =~= mipmap_pipeline_label(direction as int));
    assert(plan.entry_point@ =~= mipmap_entry_point(direction as int));
    plan
}

} // verus!
