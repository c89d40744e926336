//! The settings of the one draw pipeline: how a vertex record is read, and the
//! fixed-function state that every rectangle is drawn with.

use vstd::prelude::*;

verus! {

/// The size in bytes of one encoded number.
pub const WORD_SIZE: u64 = 4;

/// The size in bytes of one vertex record: three coordinates and three colour
/// channels.
pub const VERTEX_SIZE: u64 = 24;

/// The size in bytes of one index.
pub const INDEX_SIZE: u64 = 2;

/// The winding, as seen on screen, that marks the front of a triangle.
#[derive(Clone, Copy, Debug, PartialEq, Eq)]
pub enum FrontFace {
    Ccw,
    Cw,
}

/// A side of a triangle.
#[derive(Clone, Copy, Debug, PartialEq, Eq)]
pub enum Face {
    Front,
    Back,
}

/// How the vertex stream is cut into primitives.
#[derive(Clone, Copy, Debug, PartialEq, Eq)]
pub enum PrimitiveTopology {
    PointList,
    LineList,
    LineStrip,
    TriangleList,
    TriangleStrip,
}

/// How a triangle is rasterised.
#[derive(Clone, Copy, Debug, PartialEq, Eq)]
pub enum PolygonMode {
    Fill,
    Line,
    Point,
}

/// The width of an index.
#[derive(Clone, Copy, Debug, PartialEq, Eq)]
pub enum IndexFormat {
    Uint16,
    Uint32,
}

/// The shape of a vertex attribute: one to four single-precision numbers.
#[derive(Clone, Copy, Debug, PartialEq, Eq)]
pub enum VertexFormat {
    Float32,
    Float32x2,
    Float32x3,
    Float32x4,
}

/// Whether a vertex buffer advances per vertex or per instance.
#[derive(Clone, Copy, Debug, PartialEq, Eq)]
pub enum VertexStepMode {
    Vertex,
    Instance,
}

/// How a fragment's colour is combined with what the target holds.
#[derive(Clone, Copy, Debug, PartialEq, Eq)]
pub enum BlendMode {
    /// The fragment's colour takes the place of the target's.
    Replace,
    /// The fragment's colour is laid over the target's by its alpha.
    AlphaBlending,
}

/// The colour format of a render target.
#[derive(Clone, Copy, Debug, PartialEq, Eq)]
pub enum TextureFormat {
    Bgra8Unorm,
    Bgra8UnormSrgb,
    Rgba8Unorm,
    Rgba8UnormSrgb,
}

/// The colour channels that a draw may write.
#[derive(Clone, Copy, Debug, PartialEq, Eq)]
pub struct ColorWrites {
    pub red: bool,
    pub green: bool,
    pub blue: bool,
    pub alpha: bool,
}

/// One attribute of the vertex record.
#[derive(Clone, Copy, Debug, PartialEq, Eq)]
pub struct VertexAttribute {
    pub format: VertexFormat,
    /// Where the attribute starts in the record, in bytes.
    pub offset: u64,
    /// The shader input that the attribute feeds.
    pub shader_location: u32,
}

/// How the vertex buffer is read: one binding with two attributes.
#[derive(Clone, Copy, Debug, PartialEq, Eq)]
pub struct VertexLayout {
    /// The distance in bytes from one record to the next.
    pub array_stride: u64,
    pub step_mode: VertexStepMode,
    pub position: VertexAttribute,
    pub color: VertexAttribute,
}

/// Everything the draw pipeline is created with.
#[derive(Clone, Copy, Debug, PartialEq, Eq)]
pub struct PipelineSettings {
    pub vertex_layout: VertexLayout,
    pub topology: PrimitiveTopology,
    pub strip_index_format: Option<IndexFormat>,
    pub front_face: FrontFace,
    pub cull_mode: Option<Face>,
    pub unclipped_depth: bool,
    pub polygon_mode: PolygonMode,
    pub conservative: bool,
    /// Whether fragments are tested against a depth and stencil attachment.
    pub depth_stencil: bool,
    pub sample_count: u32,
    pub sample_mask: u64,
    pub alpha_to_coverage_enabled: bool,
    pub target_format: TextureFormat,
    pub blend: BlendMode,
    pub write_mask: ColorWrites,
    /// The number of bind group layouts of the pipeline layout.
    pub bind_group_layouts: u32,
    /// The number of push constant ranges of the pipeline layout.
    pub push_constant_ranges: u32,
}

impl VertexFormat {
    /// The size in bytes of an attribute of this format.
    pub open spec fn size(self) -> u64 {
        match self {
            VertexFormat::Float32 => 4,
            VertexFormat::Float32x2 => 8,
            VertexFormat::Float32x3 => 12,
            VertexFormat::Float32x4 => 16,
        }
    }

    /// The size in bytes of an attribute of this format.
    pub fn byte_size(&self) -> (r: u64)
        ensures
            r == self.size(),
    {
        match self {
            VertexFormat::Float32 => 4,
            VertexFormat::Float32x2 => 8,
            VertexFormat::Float32x3 => 12,
            VertexFormat::Float32x4 => 16,
        }
    }
}

impl ColorWrites {
    /// Every channel may be written.
    pub open spec fn all() -> ColorWrites {
        ColorWrites { red: true, green: true, blue: true, alpha: true }
    }
}

impl VertexLayout {
    /// The layout of the vertex record: the position at shader location 0
    /// and the colour at location 1, three numbers each, one after the other.
    pub open spec fn standard() -> VertexLayout {
        VertexLayout {
            array_stride: VERTEX_SIZE,
            step_mode: VertexStepMode::Vertex,
            position: VertexAttribute {
                format: VertexFormat::Float32x3,
                offset: 0,
                shader_location: 0,
            },
            color: VertexAttribute {
                format: VertexFormat::Float32x3,
                offset: 12,
                shader_location: 1,
            },
        }
    }

    /// Whether the two attributes tile the record: the position starts it,
    /// the colour follows the position at once, and the record ends where
    /// the colour does.
    pub open spec fn is_packed(self) -> bool {
        &&& self.position.offset == 0
        &&& self.color.offset == self.position.offset + self.position.format.size()
        &&& self.array_stride == self.color.offset + self.color.format.size()
    }

    /// Builds the layout of the vertex record by laying the position and then
    /// the colour into it.
    pub fn new() -> (r: VertexLayout)
        ensures
            r == VertexLayout::standard(),
            r.is_packed(),
    {
        let format: VertexFormat = VertexFormat::Float32x3;
        let position: VertexAttribute = VertexAttribute { format, offset: 0, shader_location: 0 };
        let color: VertexAttribute = VertexAttribute {
            format,
            offset: position.offset + position.format.byte_size(),
            shader_location: 1,
        };
        VertexLayout {
            array_stride: color.offset + color.format.byte_size(),
            step_mode: VertexStepMode::Vertex,
            position,
            color,
        }
    }
}

impl PipelineSettings {
    /// The pipeline that rectangles are drawn with: a triangle list, filled,
    /// with the clockwise side in front and the back side culled; no depth or
    /// stencil test, one sample per pixel, and one target that each fragment
    /// overwrites in all four channels. The pipeline takes nothing but the
    /// vertex stream: no bind group and no push constant.
    pub open spec fn standard(target_format: TextureFormat) -> PipelineSettings {
        PipelineSettings {
            vertex_layout: VertexLayout::standard(),
            topology: PrimitiveTopology::TriangleList,
            strip_index_format: None,
            front_face: FrontFace::Cw,
            cull_mode: Some(Face::Back),
            unclipped_depth: false,
            polygon_mode: PolygonMode::Fill,
            conservative: false,
            depth_stencil: false,
            sample_count: 1,
            sample_mask: u64::MAX,
            alpha_to_coverage_enabled: false,
            target_format,
            blend: BlendMode::Replace,
            write_mask: ColorWrites::all(),
            bind_group_layouts: 0,
            push_constant_ranges: 0,
        }
    }

    /// Builds the settings of the pipeline for a target of the given format.
    pub fn new(target_format: TextureFormat) -> (r: PipelineSettings)
        ensures
            r == PipelineSettings::standard(target_format),
    {
        PipelineSettings {
            vertex_layout: VertexLayout::new(),
            topology: PrimitiveTopology::TriangleList,
            strip_index_format: None,
            front_face: FrontFace::Cw,
            cull_mode: Some(Face::Back),
            unclipped_depth: false,
            polygon_mode: PolygonMode::Fill,
            conservative: false,
            depth_stencil: false,
            sample_count: 1,
            sample_mask: u64::MAX,
            alpha_to_coverage_enabled: false,
            target_format,
            blend: BlendMode::Replace,
            write_mask: ColorWrites { red: true, green: true, blue: true, alpha: true },
            bind_group_layouts: 0,
            push_constant_ranges: 0,
        }
    }
}

/// The name of the shader's vertex stage.
pub fn vertex_entry_point() -> (r: &'static str)
    ensures
        r@ == "vertex"@,
{
    "vertex"
}

/// The name of the shader's fragment stage.
pub fn fragment_entry_point() -> (r: &'static str)
    ensures
        r@ == "fragment"@,
{
    "fragment"
}

} // verus!
