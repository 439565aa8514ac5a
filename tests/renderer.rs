use box_renderer::frame::{recovery, FrameAction, RenderCommand, SurfaceFailure, VertexSource};
use box_renderer::geometry::quad_indices;
use box_renderer::instances::{InstanceStore, InstanceUpload};
use box_renderer::layout::{box_raw_layout, vertex_layout, AttributeFormat, StepMode, BOX_RAW_SIZE};
use box_renderer::pipeline::{
    pipeline_config, Blend, CullMode, FrontFace, PolygonMode, ShaderStage, Topology,
};
use box_renderer::state::{Size, State};
use box_renderer::surface::{select_format_index, ConfigError, SurfaceConfig};
use wgpu::{CompositeAlphaMode, PresentMode, TextureFormat};

#[derive(Clone, Copy, Debug, PartialEq)]
struct TestBox {
    position: [f32; 3],
    corner_radius: f32,
}

fn one_box() -> Vec<TestBox> {
    vec![TestBox { position: [0.0, 0.0, 0.0], corner_radius: 0.4 }]
}

fn caps() -> (Vec<TextureFormat>, Vec<PresentMode>, Vec<CompositeAlphaMode>) {
    (
        vec![TextureFormat::Bgra8Unorm, TextureFormat::Bgra8UnormSrgb],
        vec![PresentMode::Fifo, PresentMode::Mailbox],
        vec![CompositeAlphaMode::Opaque, CompositeAlphaMode::PreMultiplied],
    )
}

fn new_state(width: u32, height: u32) -> State<TestBox> {
    let (f, p, a) = caps();
    State::new(&f, &p, &a, Size { width, height }, one_box()).unwrap()
}

#[test]
fn format_prefers_first_srgb() {
    let formats = vec![
        TextureFormat::Rgba8Unorm,
        TextureFormat::Bgra8UnormSrgb,
        TextureFormat::Rgba8UnormSrgb,
    ];
    assert_eq!(select_format_index(&formats), Some(1));
}

#[test]
fn format_falls_back_to_first() {
    let formats = vec![TextureFormat::Rgba8Unorm, TextureFormat::Bgra8Unorm];
    assert_eq!(select_format_index(&formats), Some(0));
}

#[test]
fn format_none_when_empty() {
    assert_eq!(select_format_index(&vec![]), None);
}

#[test]
fn config_from_capabilities() {
    let (f, p, a) = caps();
    let c = SurfaceConfig::from_capabilities(&f, &p, &a, 800, 600).unwrap();
    assert_eq!((c.width, c.height), (800, 600));
    assert_eq!(c.format, TextureFormat::Bgra8UnormSrgb);
    assert_eq!(c.present_mode, PresentMode::Fifo);
    assert_eq!(c.alpha_mode, CompositeAlphaMode::Opaque);
}

#[test]
fn config_errors() {
    let (f, p, a) = caps();
    assert_eq!(
        SurfaceConfig::from_capabilities(&vec![], &p, &a, 1, 1).unwrap_err(),
        ConfigError::NoFormat
    );
    assert_eq!(
        SurfaceConfig::from_capabilities(&f, &vec![], &a, 1, 1).unwrap_err(),
        ConfigError::NoPresentMode
    );
    assert_eq!(
        SurfaceConfig::from_capabilities(&f, &p, &vec![], 1, 1).unwrap_err(),
        ConfigError::NoAlphaMode
    );
    let r = State::new(&f, &vec![], &a, Size { width: 1, height: 1 }, one_box());
    assert!(matches!(r, Err(ConfigError::NoPresentMode)));
}

#[test]
fn resize_positive_updates_config_and_aspect() {
    let mut s = new_state(800, 600);
    assert!(!s.update());
    assert!(s.resize(Size { width: 1024, height: 768 }));
    assert_eq!(s.size, Size { width: 1024, height: 768 });
    assert_eq!((s.config.width, s.config.height), (1024, 768));
    assert_eq!(s.aspect, Size { width: 1024, height: 768 });
    assert_eq!(s.config.format, TextureFormat::Bgra8UnormSrgb);
    assert!(s.update());
    assert!(!s.update());
}

#[test]
fn resize_zero_is_noop() {
    let mut s = new_state(800, 600);
    assert!(!s.resize(Size { width: 0, height: 600 }));
    assert!(!s.resize(Size { width: 800, height: 0 }));
    assert!(!s.resize(Size { width: 0, height: 0 }));
    assert_eq!(s.size, Size { width: 800, height: 600 });
    assert_eq!((s.config.width, s.config.height), (800, 600));
    assert_eq!(s.aspect, Size { width: 800, height: 600 });
    assert!(!s.update());
}

#[test]
fn input_is_never_consumed() {
    let mut s = new_state(800, 600);
    assert!(!s.input(&"key"));
}

#[test]
fn instance_buffer_size_tracks_count() {
    let mut store = InstanceStore::new(vec![1u8, 2, 3]);
    assert_eq!(store.instance_count(), 3);
    assert_eq!(store.buffer_size(), 3 * BOX_RAW_SIZE);
    assert_eq!(store.buffer_size(), 204);
    assert_eq!(store.upload(vec![4u8, 5, 6]), InstanceUpload::Overwrite { size: 204 });
    assert_eq!(store.instance_count(), 3);
    assert_eq!(store.upload(vec![7u8, 8]), InstanceUpload::Rebuild { size: 136 });
    assert_eq!(store.instance_count(), 2);
    assert_eq!(store.boxes(), &vec![7u8, 8]);
    assert_eq!(store.upload(vec![]), InstanceUpload::Rebuild { size: 0 });
    assert_eq!(store.buffer_size(), 0);
}

#[test]
fn reupload_keeps_draw_instance_count() {
    let mut s = new_state(800, 600);
    assert_eq!(s.upload(one_box()), InstanceUpload::Overwrite { size: 68 });
    match s.render(Ok(())) {
        FrameAction::Draw(cmds) => {
            assert!(cmds.contains(&RenderCommand::DrawIndexed {
                index_start: 0,
                index_end: 6,
                base_vertex: 0,
                instance_start: 0,
                instance_end: 1,
            }));
        }
        other => panic!("expected a draw, got {:?}", other),
    }
}

#[test]
fn single_box_frame_draws_once() {
    let s = new_state(800, 600);
    assert_eq!(s.num_indices, 6);
    assert_eq!(s.instances.boxes()[0].corner_radius, 0.4);
    let cmds = match s.render(Ok(())) {
        FrameAction::Draw(cmds) => cmds,
        other => panic!("expected a draw, got {:?}", other),
    };
    let draws: Vec<&RenderCommand> =
        cmds.iter().filter(|c| matches!(c, RenderCommand::DrawIndexed { .. })).collect();
    assert_eq!(draws.len(), 1);
    assert_eq!(
        *draws[0],
        RenderCommand::DrawIndexed {
            index_start: 0,
            index_end: 6,
            base_vertex: 0,
            instance_start: 0,
            instance_end: 1,
        }
    );
    assert_eq!(
        cmds,
        vec![
            RenderCommand::BeginPass,
            RenderCommand::SetPipeline,
            RenderCommand::SetBindGroup { index: 0 },
            RenderCommand::SetVertexBuffer { slot: 0, source: VertexSource::Geometry },
            RenderCommand::SetVertexBuffer { slot: 1, source: VertexSource::Instances },
            RenderCommand::SetIndexBuffer,
            *draws[0],
            RenderCommand::EndPass,
            RenderCommand::Submit,
            RenderCommand::Present,
        ]
    );
}

#[test]
fn surface_failures_recover_by_kind() {
    let s = new_state(800, 600);
    assert_eq!(s.render(Err(SurfaceFailure::Lost)), FrameAction::Reconfigure);
    assert_eq!(s.render(Err(SurfaceFailure::Outdated)), FrameAction::Reconfigure);
    assert_eq!(s.render(Err(SurfaceFailure::Timeout)), FrameAction::Skip);
    assert_eq!(s.render(Err(SurfaceFailure::OutOfMemory)), FrameAction::Fatal);
    assert_eq!(recovery(SurfaceFailure::Timeout), FrameAction::Skip);
}

#[test]
fn quad_is_two_triangles() {
    assert_eq!(quad_indices(), vec![0, 1, 2, 2, 3, 0]);
}

#[test]
fn vertex_layout_is_packed() {
    let l = vertex_layout();
    assert_eq!(l.array_stride, 24);
    assert_eq!(l.step_mode, StepMode::Vertex);
    let got: Vec<(AttributeFormat, u64, u32)> =
        l.attributes.iter().map(|a| (a.format, a.offset, a.shader_location)).collect();
    assert_eq!(
        got,
        vec![(AttributeFormat::Float32x3, 0, 0), (AttributeFormat::Float32x3, 12, 1)]
    );
}

#[test]
fn box_raw_layout_is_packed() {
    let l = box_raw_layout();
    assert_eq!(l.array_stride, BOX_RAW_SIZE);
    assert_eq!(l.step_mode, StepMode::Instance);
    let got: Vec<(AttributeFormat, u64, u32)> =
        l.attributes.iter().map(|a| (a.format, a.offset, a.shader_location)).collect();
    assert_eq!(
        got,
        vec![
            (AttributeFormat::Float32x4, 0, 2),
            (AttributeFormat::Float32x4, 16, 3),
            (AttributeFormat::Float32x4, 32, 4),
            (AttributeFormat::Float32x4, 48, 5),
            (AttributeFormat::Float32, 64, 6),
        ]
    );
}

#[test]
fn pipeline_is_fixed() {
    let p = pipeline_config();
    assert_eq!(p.buffers.len(), 2);
    assert_eq!(p.buffers[0].array_stride, 24);
    assert_eq!(p.buffers[1].array_stride, 68);
    assert_eq!(p.buffers[1].step_mode, StepMode::Instance);
    assert_eq!(p.uniform.group, 0);
    assert_eq!(p.uniform.binding, 0);
    assert_eq!(p.uniform.visibility, ShaderStage::Vertex);
    assert_eq!(p.uniform.size, 64);
    assert_eq!(p.topology, Topology::TriangleList);
    assert_eq!(p.front_face, FrontFace::Ccw);
    assert_eq!(p.cull_mode, CullMode::Back);
    assert_eq!(p.polygon_mode, PolygonMode::Fill);
    assert_eq!(p.blend, Blend::Replace);
    assert!(!p.depth_test);
    assert_eq!(p.sample_count, 1);
}

#[test]
fn zero_sized_window_has_no_area_until_resized() {
    let mut s = new_state(0, 600);
    assert!(!s.has_area());
    assert!(s.resize(Size { width: 640, height: 480 }));
    assert!(s.has_area());
}
