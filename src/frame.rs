//! One frame, as an ordered list of commands, and what to do when the surface
//! cannot hand out an image.
use vstd::prelude::*;

verus! {

/// A vertex buffer the pass binds.
#[derive(Clone, Copy, Debug, PartialEq, Eq, Structural)]
pub enum VertexSource {
    /// The quad's corners.
    Geometry,
    /// The packed boxes.
    Instances,
}

/// One step of recording, submitting and presenting a frame.
#[derive(Clone, Copy, Debug, PartialEq, Eq, Structural)]
pub enum RenderCommand {
    /// Begin the pass: clear the acquired image, keep the result.
    BeginPass,
    SetPipeline,
    SetBindGroup { index: u32 },
    SetVertexBuffer { slot: u32, source: VertexSource },
    /// Bind the index buffer of 16-bit indices.
    SetIndexBuffer,
    DrawIndexed {
        index_start: u32,
        index_end: u32,
        base_vertex: i32,
        instance_start: u32,
        instance_end: u32,
    },
    EndPass,
    Submit,
    Present,
}

/// Why the surface gave no image for this frame.
#[derive(Clone, Copy, Debug, PartialEq, Eq, Structural)]
pub enum SurfaceFailure {
    Timeout,
    Outdated,
    Lost,
    OutOfMemory,
}

/// What the loop does this tick.
#[derive(Clone, Debug, PartialEq, Eq)]
pub enum FrameAction {
    /// Record, submit and present these commands, in order.
    Draw(Vec<RenderCommand>),
    /// Configure the surface again with the current configuration; skip the frame.
    Reconfigure,
    /// Skip the frame.
    Skip,
    /// Stop: the failure cannot be recovered from.
    Fatal,
}

/// The frame's commands: clear, bind pipeline, uniform group, both vertex
/// buffers and the index buffer, one indexed instanced draw over every index
/// and every instance, then end, submit and present.
pub open spec fn frame_commands(index_count: u32, instance_count: u32) -> Seq<RenderCommand> {
    seq![
        RenderCommand::BeginPass,
        RenderCommand::SetPipeline,
        RenderCommand::SetBindGroup { index: 0 },
        RenderCommand::SetVertexBuffer { slot: 0, source: VertexSource::Geometry },
        RenderCommand::SetVertexBuffer { slot: 1, source: VertexSource::Instances },
        RenderCommand::SetIndexBuffer,
        RenderCommand::DrawIndexed {
            index_start: 0,
            index_end: index_count,
            base_vertex: 0,
            instance_start: 0,
            instance_end: instance_count,
        },
        RenderCommand::EndPass,
        RenderCommand::Submit,
        RenderCommand::Present,
    ]
}

pub open spec fn is_draw(c: RenderCommand) -> bool {
    c is DrawIndexed
}

pub open spec fn is_binding(c: RenderCommand) -> bool {
    ||| c is SetPipeline
    ||| c is SetBindGroup
    ||| c is SetVertexBuffer
    ||| c is SetIndexBuffer
}

/// The recovery that each failure calls for.
pub open spec fn recovery_of(e: SurfaceFailure) -> FrameAction {
    match e {
        SurfaceFailure::Outdated | SurfaceFailure::Lost => FrameAction::Reconfigure,
        SurfaceFailure::Timeout => FrameAction::Skip,
        SurfaceFailure::OutOfMemory => FrameAction::Fatal,
    }
}

/// Builds the command list of one frame.
pub fn build_frame(index_count: u32, instance_count: u32) -> (r: Vec<RenderCommand>)
    ensures
        r@ == frame_commands(index_count, instance_count),
{
    let r = vec![
        RenderCommand::BeginPass,
        RenderCommand::SetPipeline,
        RenderCommand::SetBindGroup { index: 0 },
        RenderCommand::SetVertexBuffer { slot: 0, source: VertexSource::Geometry },
        RenderCommand::SetVertexBuffer { slot: 1, source: VertexSource::Instances },
        RenderCommand::SetIndexBuffer,
        RenderCommand::DrawIndexed {
            index_start: 0,
            index_end: index_count,
            base_vertex: 0,
            instance_start: 0,
            instance_end: instance_count,
        },
        RenderCommand::EndPass,
        RenderCommand::Submit,
        RenderCommand::Present,
    ];
    assert(r@ =~= frame_commands(index_count, instance_count));
    r
}

/// What to do when acquiring the frame's image failed with `e`.
pub fn recovery(e: SurfaceFailure) -> (r: FrameAction)
    ensures
        r == recovery_of(e),
{
    match e {
        SurfaceFailure::Outdated | SurfaceFailure::Lost => FrameAction::Reconfigure,
        SurfaceFailure::Timeout => FrameAction::Skip,
        SurfaceFailure::OutOfMemory => FrameAction::Fatal,
    }
}

/// Every frame issues exactly one draw, over the whole index range and every
/// instance; every binding comes after the pipeline is set and before the
/// draw; presenting comes last, right after submitting.
pub proof fn lemma_frame_order(index_count: u32, instance_count: u32)
    ensures
        ({
            let cmds = frame_commands(index_count, instance_count);
            &&& forall|i: int| 0 <= i < cmds.len() ==> (is_draw(#[trigger] cmds[i]) <==> i == 6)
            &&& cmds[6] == (RenderCommand::DrawIndexed {
                index_start: 0,
                index_end: index_count,
                base_vertex: 0,
                instance_start: 0,
                instance_end: instance_count,
            })
            &&& cmds[1] is SetPipeline
            &&& forall|i: int| 0 <= i < cmds.len() && is_binding(#[trigger] cmds[i]) ==> 1 <= i < 6
            &&& cmds[cmds.len() - 2] is Submit
            &&& cmds.last() is Present
        }),
{
    let cmds = frame_commands(index_count, instance_count);
    assert forall|i: int| 0 <= i < cmds.len() implies (is_draw(#[trigger] cmds[i]) <==> i == 6) by {
        if i == 0 || i == 1 || i == 2 || i == 3 || i == 4 || i == 5 || i == 7 || i == 8 || i == 9 {
        }
    }
    assert forall|i: int| 0 <= i < cmds.len() && is_binding(#[trigger] cmds[i]) implies 1 <= i < 6 by {
        if i == 0 || i == 6 || i == 7 || i == 8 || i == 9 {
        }
    }
}

} // verus!
