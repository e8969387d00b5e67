//! The render pipeline of a surface and the one pass that is drawn with it.

use crate::surface::ColorFormat;
use vstd::prelude::*;

verus! {

/// How vertices are assembled into primitives.
#[derive(Clone, Copy, Debug, PartialEq, Eq, Structural)]
pub enum Topology {
    PointList,
    LineList,
    LineStrip,
    TriangleList,
    TriangleStrip,
}

/// The winding that marks the front of a triangle.
#[derive(Clone, Copy, Debug, PartialEq, Eq, Structural)]
pub enum FrontFace {
    CounterClockwise,
    Clockwise,
}

/// Which faces are discarded.
#[derive(Clone, Copy, Debug, PartialEq, Eq, Structural)]
pub enum CullMode {
    Disabled,
    Front,
    Back,
}

/// A stage of the shader program.
#[derive(Clone, Copy, Debug, PartialEq, Eq, Structural)]
pub enum ShaderStage {
    Vertex,
    Fragment,
}

impl ShaderStage {
    /// The name of the stage's entry point in the shader program.
    pub open spec fn entry_point_spec(self) -> Seq<char> {
        match self {
            ShaderStage::Vertex => "vs_main"@,
            ShaderStage::Fragment => "fs_main"@,
        }
    }

    pub fn entry_point(&self) -> (name: &'static str)
        ensures
            name@ == self.entry_point_spec(),
    {
        match self {
            ShaderStage::Vertex => "vs_main",
            ShaderStage::Fragment => "fs_main",
        }
    }
}

/// The fixed-function state of a render pipeline. Both shader stages come
/// from the one shader program of the application.
#[derive(Clone, Copy, Debug, PartialEq, Eq, Structural)]
pub struct PipelineDescriptor {
    /// The number of bind group layouts in the pipeline layout.
    pub bind_group_layouts: u32,
    /// The number of push constant ranges in the pipeline layout.
    pub push_constant_ranges: u32,
    /// The number of vertex buffers that the vertex stage reads.
    pub vertex_buffers: u32,
    pub topology: Topology,
    pub front_face: FrontFace,
    pub cull_mode: CullMode,
    /// Whether the pipeline has a depth and stencil attachment.
    pub depth_stencil: bool,
    /// Samples per pixel.
    pub sample_count: u32,
    /// The format of the single colour target.
    pub target: ColorFormat,
}

/// The pipeline that draws to a surface of the given format: no inputs from
/// outside the shader, a list of triangles with default winding and no
/// culling, no depth or stencil, one sample per pixel, one colour target.
pub open spec fn pipeline_for(format: ColorFormat) -> PipelineDescriptor {
    PipelineDescriptor {
        bind_group_layouts: 0,
        push_constant_ranges: 0,
        vertex_buffers: 0,
        topology: Topology::TriangleList,
        front_face: FrontFace::CounterClockwise,
        cull_mode: CullMode::Disabled,
        depth_stencil: false,
        sample_count: 1,
        target: format,
    }
}

/// The render pipeline built for one colour format. It cannot be changed:
/// another format takes another build.
#[derive(Clone, Copy, Debug, PartialEq, Eq)]
pub struct PipelineResources {
    descriptor: PipelineDescriptor,
}

impl View for PipelineResources {
    type V = PipelineDescriptor;

    closed spec fn view(&self) -> PipelineDescriptor {
        self.descriptor
    }
}

impl PipelineResources {
    #[verifier::type_invariant]
    spec fn well_formed(self) -> bool {
        self.descriptor == pipeline_for(self.descriptor.target)
    }

    /// Builds the pipeline for a surface of the given colour format.
    pub fn build(format: ColorFormat) -> (resources: PipelineResources)
        ensures
            resources@ == pipeline_for(format),
    {
        PipelineResources {
            descriptor: PipelineDescriptor {
                bind_group_layouts: 0,
                push_constant_ranges: 0,
                vertex_buffers: 0,
                topology: Topology::TriangleList,
                front_face: FrontFace::CounterClockwise,
                cull_mode: CullMode::Disabled,
                depth_stencil: false,
                sample_count: 1,
                target: format,
            },
        }
    }

    /// What the pipeline was built with.
    pub fn descriptor(&self) -> (descriptor: PipelineDescriptor)
        ensures
            descriptor == self@,
            descriptor == pipeline_for(descriptor.target),
    {
        proof {
            use_type_invariant(self);
        }
        self.descriptor
    }

    /// The colour format the pipeline draws to.
    pub fn format(&self) -> (format: ColorFormat)
        ensures
            format == self@.target,
            self@ == pipeline_for(format),
    {
        proof {
            use_type_invariant(self);
        }
        self.descriptor.target
    }

    /// Tells whether the pipeline can draw to a surface of the given format.
    /// Where it cannot, it has to be built again.
    pub fn fits(&self, format: ColorFormat) -> (yes: bool)
        ensures
            yes == (self@ == pipeline_for(format)),
    {
        proof {
            use_type_invariant(self);
        }
        self.descriptor.target.rank == format.rank
    }
}

/// A colour with eight bits for each channel.
#[derive(Clone, Copy, Debug, PartialEq, Eq, Structural)]
pub struct ClearColor {
    pub red: u8,
    pub green: u8,
    pub blue: u8,
    pub alpha: u8,
}

/// The one render pass of a frame: the target is cleared, then vertices are
/// drawn with the pipeline bound and no vertex buffer.
#[derive(Clone, Copy, Debug, PartialEq, Eq, Structural)]
pub struct RenderPass {
    pub clear: ClearColor,
    pub first_vertex: u32,
    pub vertex_count: u32,
    pub first_instance: u32,
    pub instance_count: u32,
}

/// The background that every frame is cleared to: opaque green.
pub open spec fn background() -> ClearColor {
    ClearColor { red: 0, green: 255, blue: 0, alpha: 255 }
}

/// The pass of every frame: clear to the background, then one triangle whose
/// three vertices the shader derives from the vertex index.
pub open spec fn triangle_pass() -> RenderPass {
    RenderPass {
        clear: background(),
        first_vertex: 0,
        vertex_count: 3,
        first_instance: 0,
        instance_count: 1,
    }
}

impl RenderPass {
    /// The pass that is recorded for every frame.
    pub fn triangle() -> (pass: RenderPass)
        ensures
            pass == triangle_pass(),
    {
        RenderPass {
            clear: ClearColor { red: 0, green: 255, blue: 0, alpha: 255 },
            first_vertex: 0,
            vertex_count: 3,
            first_instance: 0,
            instance_count: 1,
        }
    }
}

} // verus!
