use pong::error::RenderError;
use pong::pipeline::{
    fragment_entry_point, vertex_entry_point, BlendMode, ColorWrites, Face, FrontFace,
    PipelineSettings, PolygonMode, PrimitiveTopology, TextureFormat, VertexAttribute, VertexFormat,
    VertexLayout, VertexStepMode, INDEX_SIZE, VERTEX_SIZE, WORD_SIZE,
};
use pong::renderer::Renderer;
use pong::surface::{
    AdapterRequest, CompositeAlphaMode, DeviceRequest, LimitsProfile, PowerPreference, PresentMode,
    SurfaceConfig, TextureUsages,
};

#[test]
fn vertex_record_is_position_then_color() {
    assert_eq!(
        VertexLayout::new(),
        VertexLayout {
            array_stride: 24,
            step_mode: VertexStepMode::Vertex,
            position: VertexAttribute {
                format: VertexFormat::Float32x3,
                offset: 0,
                shader_location: 0,
            },
            color: VertexAttribute {
                format: VertexFormat::Float32x3,
                offset: 12,
                shader_location: 1,
            },
        }
    );
    assert_eq!(VERTEX_SIZE, 24);
    assert_eq!(INDEX_SIZE, 2);
    assert_eq!(WORD_SIZE, 4);
}

#[test]
fn formats_have_their_sizes() {
    assert_eq!(VertexFormat::Float32.byte_size(), 4);
    assert_eq!(VertexFormat::Float32x2.byte_size(), 8);
    assert_eq!(VertexFormat::Float32x3.byte_size(), 12);
    assert_eq!(VertexFormat::Float32x4.byte_size(), 16);
}

#[test]
fn pipeline_draws_filled_clockwise_triangles() {
    let settings: PipelineSettings = PipelineSettings::new(TextureFormat::Bgra8UnormSrgb);
    assert_eq!(settings.vertex_layout, VertexLayout::new());
    assert_eq!(settings.topology, PrimitiveTopology::TriangleList);
    assert_eq!(settings.strip_index_format, None);
    assert_eq!(settings.front_face, FrontFace::Cw);
    assert_eq!(settings.cull_mode, Some(Face::Back));
    assert!(!settings.unclipped_depth);
    assert_eq!(settings.polygon_mode, PolygonMode::Fill);
    assert!(!settings.conservative);
    assert!(!settings.depth_stencil);
    assert_eq!(settings.sample_count, 1);
    assert_eq!(settings.sample_mask, !0u64);
    assert!(!settings.alpha_to_coverage_enabled);
    assert_eq!(settings.target_format, TextureFormat::Bgra8UnormSrgb);
    assert_eq!(settings.blend, BlendMode::Replace);
    assert_eq!(
        settings.write_mask,
        ColorWrites { red: true, green: true, blue: true, alpha: true }
    );
    assert_eq!(settings.bind_group_layouts, 0);
    assert_eq!(settings.push_constant_ranges, 0);
}

#[test]
fn pipeline_targets_the_format_it_is_given() {
    let settings: PipelineSettings = PipelineSettings::new(TextureFormat::Rgba8Unorm);
    assert_eq!(settings.target_format, TextureFormat::Rgba8Unorm);
    assert_eq!(settings.front_face, FrontFace::Cw);
}

#[test]
fn renderer_pipeline_targets_the_surface() {
    let renderer: Renderer = Renderer::new();
    assert_eq!(renderer.pipeline(), PipelineSettings::new(renderer.config().format));
    assert_eq!(renderer.pipeline().target_format, TextureFormat::Bgra8UnormSrgb);
}

#[test]
fn shader_stages_are_named() {
    assert_eq!(vertex_entry_point(), "vertex");
    assert_eq!(fragment_entry_point(), "fragment");
}

#[test]
fn surface_is_an_opaque_vsynced_render_target() {
    assert_eq!(
        SurfaceConfig::new(0, 0),
        SurfaceConfig {
            usage: TextureUsages {
                copy_src: false,
                copy_dst: false,
                texture_binding: false,
                storage_binding: false,
                render_attachment: true,
            },
            format: TextureFormat::Bgra8UnormSrgb,
            width: 0,
            height: 0,
            present_mode: PresentMode::Fifo,
            desired_maximum_frame_latency: 1,
            alpha_mode: CompositeAlphaMode::Opaque,
        }
    );
    let sized: SurfaceConfig = SurfaceConfig::new(1920, 1080);
    assert_eq!(sized.width, 1920);
    assert_eq!(sized.height, 1080);
}

#[test]
fn any_adapter_for_the_surface_will_do() {
    assert_eq!(
        AdapterRequest::new(),
        AdapterRequest {
            power_preference: PowerPreference::NoPreference,
            force_fallback_adapter: false,
            compatible_with_surface: true,
        }
    );
}

#[test]
fn device_is_held_to_modest_limits() {
    assert_eq!(
        DeviceRequest::new(),
        DeviceRequest { limits: LimitsProfile::DownlevelWebgl2 }
    );
}

#[test]
fn missing_adapter_ends_the_start() {
    assert_eq!(AdapterRequest::outcome(false), Err(RenderError::NoAdapter));
    assert_eq!(AdapterRequest::outcome(true), Ok(DeviceRequest::new()));
}

#[test]
fn missing_device_ends_the_start() {
    assert_eq!(DeviceRequest::outcome(false), Err(RenderError::NoDevice));
    assert_eq!(DeviceRequest::outcome(true), Ok(()));
}
