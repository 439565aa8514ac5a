//! The frozen description of the render pipeline: which buffers feed which
//! attributes, where the viewport uniform is bound, and the fixed
//! rasterisation state. Every field is spelled out; nothing is left to a
//! default.
use vstd::prelude::*;
use crate::layout::{
    box_raw_formats, box_raw_layout, is_layout_of, vertex_formats, vertex_layout, BufferLayout,
    StepMode, FIRST_INSTANCE_LOCATION,
};

verus! {

/// Bytes of the viewport uniform: one 4x4 matrix of 32-bit floats.
pub const UNIFORM_SIZE: u64 = 64;

#[derive(Clone, Copy, Debug, PartialEq, Eq, Structural)]
pub enum ShaderStage {
    Vertex,
    Fragment,
}

#[derive(Clone, Copy, Debug, PartialEq, Eq, Structural)]
pub enum Topology {
    PointList,
    LineList,
    TriangleList,
}

#[derive(Clone, Copy, Debug, PartialEq, Eq, Structural)]
pub enum FrontFace {
    Ccw,
    Cw,
}

#[derive(Clone, Copy, Debug, PartialEq, Eq, Structural)]
pub enum CullMode {
    Off,
    Front,
    Back,
}

#[derive(Clone, Copy, Debug, PartialEq, Eq, Structural)]
pub enum PolygonMode {
    Fill,
    Line,
}

/// How a fragment's colour meets what the target already holds.
#[derive(Clone, Copy, Debug, PartialEq, Eq, Structural)]
pub enum Blend {
    Replace,
    AlphaBlending,
}

/// A uniform buffer binding: group, binding index, the stage that reads it,
/// and its size.
#[derive(Clone, Copy, Debug, PartialEq, Eq, Structural)]
pub struct UniformBinding {
    pub group: u32,
    pub binding: u32,
    pub visibility: ShaderStage,
    pub size: u64,
}

#[derive(Clone, Debug)]
pub struct PipelineConfig {
    /// Vertex buffer layouts, by slot.
    pub buffers: Vec<BufferLayout>,
    pub uniform: UniformBinding,
    pub topology: Topology,
    pub front_face: FrontFace,
    pub cull_mode: CullMode,
    pub polygon_mode: PolygonMode,
    pub blend: Blend,
    pub depth_test: bool,
    pub sample_count: u32,
}

/// The pipeline this renderer draws with: the quad's vertices in slot 0, the
/// packed boxes in slot 1, the viewport matrix at group 0, binding 0, read by
/// the vertex stage; triangle lists, counter-clockwise front faces with back
/// faces culled, filled, replacing the target's colour, with no depth test and
/// one sample per pixel.
pub fn pipeline_config() -> (r: PipelineConfig)
    ensures
        r.buffers@.len() == 2,
        is_layout_of(r.buffers@[0], vertex_formats(), 0, StepMode::Vertex),
        is_layout_of(
            r.buffers@[1],
            box_raw_formats(),
            FIRST_INSTANCE_LOCATION as int,
            StepMode::Instance,
        ),
        r.uniform == (UniformBinding {
            group: 0,
            binding: 0,
            visibility: ShaderStage::Vertex,
            size: UNIFORM_SIZE,
        }),
        r.topology == Topology::TriangleList,
        r.front_face == FrontFace::Ccw,
        r.cull_mode == CullMode::Back,
        r.polygon_mode == PolygonMode::Fill,
        r.blend == Blend::Replace,
        !r.depth_test,
        r.sample_count == 1,
{
    let buffers = vec![vertex_layout(), box_raw_layout()];
    PipelineConfig {
        buffers,
        uniform: UniformBinding {
            group: 0,
            binding: 0,
            visibility: ShaderStage::Vertex,
            size: UNIFORM_SIZE,
        },
        topology: Topology::TriangleList,
        front_face: FrontFace::Ccw,
        cull_mode: CullMode::Back,
        polygon_mode: PolygonMode::Fill,
        blend: Blend::Replace,
        depth_test: false,
        sample_count: 1,
    }
}

} // verus!
