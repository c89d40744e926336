//! The renderer's own state, and what it decides at creation, on a resize,
//! for each batch and for each frame.

use vstd::prelude::*;
use crate::batch::{
    batch, drawn, is_batch_of, lemma_upload_replaces_drawn, overwritten, quad_indices, rejection,
    Batch, MAX_RECTS,
};
use crate::error::RenderError;
use crate::geometry::{Rect, Vec3, Vertex};
use crate::layout::{index_bytes, is_index_data, is_vertex_data, vertex_bytes};
use crate::pipeline::{IndexFormat, PipelineSettings, INDEX_SIZE, VERTEX_SIZE};
use crate::surface::SurfaceConfig;

verus! {

/// The number of rectangles that a renderer's buffers are made for where
/// nothing else is asked.
pub const DEFAULT_CAPACITY: usize = 1024;

/// The encoding of one in IEEE 754 binary64.
pub const DOUBLE_ONE: u64 = 0x3ff0_0000_0000_0000;

/// A colour to clear the target to: four channels, each the IEEE 754
/// binary64 encoding of a number between zero and one.
#[derive(Clone, Copy, Debug, PartialEq, Eq)]
pub struct ClearColor {
    pub r: u64,
    pub g: u64,
    pub b: u64,
    pub a: u64,
}

/// What a buffer is bound as.
#[derive(Clone, Copy, Debug, PartialEq, Eq)]
pub enum BufferRole {
    Vertex,
    Index,
}

/// What a buffer is created with.
#[derive(Clone, Copy, Debug, PartialEq, Eq)]
pub struct BufferSettings {
    /// The size of the buffer in bytes.
    pub size: u64,
    pub role: BufferRole,
    /// Whether the buffer can be written to from the host.
    pub copy_dst: bool,
    pub mapped_at_creation: bool,
}

/// The parameters of a frame's render pass and of its one draw.
#[derive(Clone, Copy, Debug, PartialEq, Eq)]
pub struct DrawCall {
    /// The colour that the target is cleared to before the draw.
    pub clear: ClearColor,
    /// Whether what is drawn is kept in the target.
    pub store: bool,
    /// The slot that the vertex buffer is bound to.
    pub vertex_slot: u32,
    pub index_format: IndexFormat,
    /// The first index drawn.
    pub first_index: u32,
    /// The index behind the last one drawn.
    pub end_index: u32,
    /// What is added to each index before a vertex is fetched.
    pub base_vertex: i32,
    pub first_instance: u32,
    pub end_instance: u32,
}

/// Why the surface gave no image to draw to.
#[derive(Clone, Copy, Debug, PartialEq, Eq)]
pub enum SurfaceFailure {
    Timeout,
    /// The surface changed under its configuration.
    Outdated,
    Lost,
    OutOfMemory,
}

/// What to do about a frame whose image could not be had.
#[derive(Clone, Copy, Debug, PartialEq, Eq)]
pub enum Recovery {
    /// Configure the surface with this, then ask for an image once more.
    Reconfigure(SurfaceConfig),
    /// Give the frame up with this failure.
    GiveUp(RenderError),
}

/// What is uploaded for a batch: the geometry, and the bytes of it that go to
/// the start of the vertex buffer and of the index buffer.
#[derive(Debug, PartialEq, Eq)]
pub struct Upload {
    pub vertices: Vec<Vertex>,
    pub indices: Vec<u16>,
    pub vertex_bytes: Vec<u8>,
    pub index_bytes: Vec<u8>,
}

/// What a renderer knows: the size of its surface, the number of rectangles
/// that its buffers are made for, and the number of indices that the last
/// batch left in the index buffer.
pub struct RendererState {
    pub width: u32,
    pub height: u32,
    pub capacity: usize,
    pub index_count: u32,
}

/// The renderer: the host's side of the device's surface and buffers.
pub struct Renderer {
    config: SurfaceConfig,
    capacity: usize,
    indices: u32,
}

impl ClearColor {
    /// Black that lets nothing show through.
    pub open spec fn opaque_black() -> ClearColor {
        ClearColor { r: 0, g: 0, b: 0, a: DOUBLE_ONE }
    }
}

impl BufferSettings {
    /// The vertex buffer for `capacity` rectangles: four records each.
    pub open spec fn vertices_for(capacity: usize) -> BufferSettings {
        BufferSettings {
            size: (capacity * 4 * VERTEX_SIZE) as u64,
            role: BufferRole::Vertex,
            copy_dst: true,
            mapped_at_creation: false,
        }
    }

    /// The index buffer for `capacity` rectangles: six indices each.
    pub open spec fn indices_for(capacity: usize) -> BufferSettings {
        BufferSettings {
            size: (capacity * 6 * INDEX_SIZE) as u64,
            role: BufferRole::Index,
            copy_dst: true,
            mapped_at_creation: false,
        }
    }
}

impl Upload {
    /// Whether this is the upload for `rects`, where `displace` adds an
    /// offset to a position: the rectangles' geometry, and its bytes.
    pub open spec fn is_upload_of<F: Fn(Vec3, Vec3) -> Vec3>(
        self,
        rects: Seq<Rect>,
        displace: F,
    ) -> bool {
        &&& is_batch_of(rects, displace, self.vertices@, self.indices@)
        &&& is_vertex_data(self.vertices@, self.vertex_bytes@)
        &&& is_index_data(self.indices@, self.index_bytes@)
    }
}

impl RendererState {
    /// A renderer as it is created: a surface without pixels, and nothing to
    /// draw.
    pub open spec fn initial(capacity: usize) -> RendererState {
        RendererState { width: 0, height: 0, capacity, index_count: 0 }
    }

    /// Whether the buffers' vertices can be told apart by 16-bit indices, and
    /// the indices to draw lie within the index buffer.
    pub open spec fn well_formed(self) -> bool {
        &&& self.capacity <= MAX_RECTS
        &&& self.index_count <= 6 * self.capacity
    }

    /// The renderer after a resize.
    pub open spec fn resized(self, width: u32, height: u32) -> RendererState {
        RendererState { width, height, ..self }
    }

    /// The renderer after a batch of `index_count` indices was loaded.
    pub open spec fn loaded(self, index_count: u32) -> RendererState {
        RendererState { index_count, ..self }
    }

    /// The configuration of the renderer's surface.
    pub open spec fn config(self) -> SurfaceConfig {
        SurfaceConfig::sized(self.width, self.height)
    }

    /// The draw of a frame: the target is cleared to opaque black, and one
    /// instance of all the indices of the last batch is drawn from vertex
    /// slot 0 with 16-bit indices. There is no draw onto a surface without
    /// pixels.
    pub open spec fn draw_call(self) -> Result<DrawCall, RenderError> {
        if self.width == 0 || self.height == 0 {
            Err(RenderError::ZeroSizedSurface { width: self.width, height: self.height })
        } else {
            Ok(
                DrawCall {
                    clear: ClearColor::opaque_black(),
                    store: true,
                    vertex_slot: 0,
                    index_format: IndexFormat::Uint16,
                    first_index: 0,
                    end_index: self.index_count,
                    base_vertex: 0,
                    first_instance: 0,
                    end_instance: 1,
                },
            )
        }
    }

    /// What to do where the surface gave no image. A surface that is out of
    /// date is configured anew and asked once more; if it is out of date
    /// again, the frame is given up. Any other failure ends the frame at
    /// once.
    pub open spec fn recovery(self, failure: SurfaceFailure, retried: bool) -> Recovery {
        match failure {
            SurfaceFailure::Outdated => if retried {
                Recovery::GiveUp(RenderError::StaleSurface)
            } else {
                Recovery::Reconfigure(self.config())
            },
            SurfaceFailure::Timeout => Recovery::GiveUp(RenderError::SurfaceTimeout),
            SurfaceFailure::Lost => Recovery::GiveUp(RenderError::SurfaceLost),
            SurfaceFailure::OutOfMemory => Recovery::GiveUp(RenderError::OutOfMemory),
        }
    }
}

impl View for Renderer {
    type V = RendererState;

    closed spec fn view(&self) -> RendererState {
        RendererState {
            width: self.config.width,
            height: self.config.height,
            capacity: self.capacity,
            index_count: self.indices,
        }
    }
}

impl Renderer {
    #[verifier::type_invariant]
    spec fn inv(self) -> bool {
        &&& self.config == SurfaceConfig::sized(self.config.width, self.config.height)
        &&& self@.well_formed()
    }

    /// Creates a renderer whose buffers are made for 1024 rectangles.
    pub fn new() -> (r: Renderer)
        ensures
            r@ == RendererState::initial(DEFAULT_CAPACITY),
            r@.well_formed(),
    {
        Renderer { config: SurfaceConfig::new(0, 0), capacity: DEFAULT_CAPACITY, indices: 0 }
    }

    /// Creates a renderer whose buffers are made for `capacity` rectangles.
    /// A capacity beyond what 16-bit indices can address is refused.
    pub fn with_capacity(capacity: usize) -> (r: Result<Renderer, RenderError>)
        ensures
            match r {
                Ok(renderer) => {
                    &&& capacity <= MAX_RECTS
                    &&& renderer@ == RendererState::initial(capacity)
                    &&& renderer@.well_formed()
                },
                Err(e) => {
                    &&& capacity > MAX_RECTS
                    &&& e == (RenderError::IndexRangeExceeded { rects: capacity })
                },
            },
    {
        if capacity > MAX_RECTS {
            Err(RenderError::IndexRangeExceeded { rects: capacity })
        } else {
            Ok(Renderer { config: SurfaceConfig::new(0, 0), capacity, indices: 0 })
        }
    }

    /// The width of the surface in pixels.
    pub fn width(&self) -> (r: u32)
        ensures
            r == self@.width,
    {
        self.config.width
    }

    /// The height of the surface in pixels.
    pub fn height(&self) -> (r: u32)
        ensures
            r == self@.height,
    {
        self.config.height
    }

    /// The number of rectangles that the buffers are made for.
    pub fn capacity(&self) -> (r: usize)
        ensures
            r == self@.capacity,
            r <= MAX_RECTS,
    {
        proof {
            use_type_invariant(self);
        }
        self.capacity
    }

    /// The number of indices that a frame draws.
    pub fn index_count(&self) -> (r: u32)
        ensures
            r == self@.index_count,
            r <= 6 * self@.capacity,
    {
        proof {
            use_type_invariant(self);
        }
        self.indices
    }

    /// The configuration to give the surface.
    pub fn config(&self) -> (r: SurfaceConfig)
        ensures
            r == self@.config(),
    {
        proof {
            use_type_invariant(self);
        }
        self.config
    }

    /// The settings to create the pipeline with: those of a pipeline that
    /// draws to the surface's format.
    pub fn pipeline(&self) -> (r: PipelineSettings)
        ensures
            r == PipelineSettings::standard(self@.config().format),
    {
        proof {
            use_type_invariant(self);
        }
        PipelineSettings::new(self.config.format)
    }

    /// The settings to create the vertex buffer with.
    pub fn vertex_buffer(&self) -> (r: BufferSettings)
        ensures
            r == BufferSettings::vertices_for(self@.capacity),
            r.size == 96 * self@.capacity,
    {
        proof {
            use_type_invariant(self);
        }
        let records: u64 = self.capacity as u64 * 4;
        BufferSettings {
            size: records * VERTEX_SIZE,
            role: BufferRole::Vertex,
            copy_dst: true,
            mapped_at_creation: false,
        }
    }

    /// The settings to create the index buffer with.
    pub fn index_buffer(&self) -> (r: BufferSettings)
        ensures
            r == BufferSettings::indices_for(self@.capacity),
            r.size == 12 * self@.capacity,
    {
        proof {
            use_type_invariant(self);
        }
        let indices: u64 = self.capacity as u64 * 6;
        BufferSettings {
            size: indices * INDEX_SIZE,
            role: BufferRole::Index,
            copy_dst: true,
            mapped_at_creation: false,
        }
    }

    /// Takes the surface's new size. The surface is to be configured with
    /// `config()` before the next frame.
    pub fn resize(&mut self, new_width: u32, new_height: u32)
        ensures
            final(self)@ == old(self)@.resized(new_width, new_height),
    {
        proof {
            use_type_invariant(&*self);
        }
        self.config = SurfaceConfig::new(new_width, new_height);
    }

    /// Builds the geometry of `rects` and the bytes to upload for it, and
    /// notes the number of indices for the frames to come. `displace` adds an
    /// offset to a position; each vertex sits where it puts the rectangle's
    /// centre moved by the corner's offset.
    ///
    /// A batch of more rectangles than the buffers are made for is refused,
    /// and the renderer stays as it was.
    pub fn batch_rects<F: Fn(Vec3, Vec3) -> Vec3>(&mut self, rects: &[Rect], displace: F) -> (r:
        Result<Upload, RenderError>)
        requires
            forall|m: int| 0 <= m < rects.len() ==> (#[trigger] rects[m]).is_displaceable(displace),
        ensures
            match rejection(rects.len(), old(self)@.capacity) {
                Some(e) => r == Err::<Upload, RenderError>(e) && final(self)@ == old(self)@,
                None => r matches Ok(upload) && {
                    &&& upload.is_upload_of(rects@, displace)
                    &&& upload.vertices.len() == 4 * rects.len()
                    &&& upload.indices.len() == 6 * rects.len()
                    &&& forall|j: int|
                        0 <= j < upload.indices.len() ==> 0 <= #[trigger] upload.indices[j] < 4
                            * rects.len()
                    &&& upload.vertex_bytes.len() == 96 * rects.len()
                    &&& upload.index_bytes.len() == 12 * rects.len()
                    &&& final(self)@ == old(self)@.loaded((6 * rects.len()) as u32)
                },
            },
    {
        proof {
            use_type_invariant(&*self);
        }
        match batch(rects, self.capacity, displace) {
            Err(e) => Err(e),
            Ok(geometry) => Ok(self.load_model(geometry)),
        }
    }

    /// Makes the bytes to upload for a batch, and notes the number of its
    /// indices.
    fn load_model(&mut self, geometry: Batch) -> (r: Upload)
        requires
            geometry.vertices.len() <= 4 * old(self)@.capacity,
            geometry.indices.len() <= 6 * old(self)@.capacity,
        ensures
            r.vertices == geometry.vertices,
            r.indices == geometry.indices,
            is_vertex_data(r.vertices@, r.vertex_bytes@),
            is_index_data(r.indices@, r.index_bytes@),
            r.vertex_bytes.len() == 24 * geometry.vertices.len(),
            r.index_bytes.len() == 2 * geometry.indices.len(),
            final(self)@ == old(self)@.loaded(geometry.indices.len() as u32),
    {
        proof {
            use_type_invariant(&*self);
        }
        let vertex_bytes: Vec<u8> = vertex_bytes(geometry.vertices.as_slice());
        let index_bytes: Vec<u8> = index_bytes(geometry.indices.as_slice());
        self.indices = geometry.indices.len() as u32;
        Upload { vertices: geometry.vertices, indices: geometry.indices, vertex_bytes, index_bytes }
    }

    /// Decides a frame's draw from the renderer's state, which it leaves as
    /// it is. A surface without pixels, as it is before the first resize, is
    /// not drawn to.
    pub fn draw(&mut self) -> (r: Result<DrawCall, RenderError>)
        ensures
            r == old(self)@.draw_call(),
            final(self)@ == old(self)@,
    {
        if self.config.width == 0 || self.config.height == 0 {
            Err(
                RenderError::ZeroSizedSurface {
                    width: self.config.width,
                    height: self.config.height,
                },
            )
        } else {
            Ok(
                DrawCall {
                    clear: ClearColor { r: 0, g: 0, b: 0, a: DOUBLE_ONE },
                    store: true,
                    vertex_slot: 0,
                    index_format: IndexFormat::Uint16,
                    first_index: 0,
                    end_index: self.indices,
                    base_vertex: 0,
                    first_instance: 0,
                    end_instance: 1,
                },
            )
        }
    }

    /// Decides what to do where the surface gave no image for a frame.
    /// `retried` tells whether the surface was already configured anew for
    /// this frame.
    pub fn recover(&self, failure: SurfaceFailure, retried: bool) -> (r: Recovery)
        ensures
            r == self@.recovery(failure, retried),
    {
        proof {
            use_type_invariant(self);
        }
        match failure {
            SurfaceFailure::Outdated => {
                if retried {
                    Recovery::GiveUp(RenderError::StaleSurface)
                } else {
                    Recovery::Reconfigure(self.config)
                }
            },
            SurfaceFailure::Timeout => Recovery::GiveUp(RenderError::SurfaceTimeout),
            SurfaceFailure::Lost => Recovery::GiveUp(RenderError::SurfaceLost),
            SurfaceFailure::OutOfMemory => Recovery::GiveUp(RenderError::OutOfMemory),
        }
    }
}

/// A frame after a resize to a size with pixels is drawn, whatever the
/// renderer was before, and it draws the indices that were loaded.
pub proof fn lemma_draw_after_resize(state: RendererState, width: u32, height: u32)
    requires
        width > 0,
        height > 0,
    ensures
        state.resized(width, height).draw_call() matches Ok(call) && call.first_index == 0
            && call.end_index == state.index_count,
{
}

/// A frame before any resize is not drawn: the surface has no pixels yet.
pub proof fn lemma_no_draw_before_resize(capacity: usize)
    ensures
        RendererState::initial(capacity).draw_call() == Err::<DrawCall, RenderError>(
            RenderError::ZeroSizedSurface { width: 0, height: 0 },
        ),
{
}

/// A batch decides alone what the next frame shows. Whatever the renderer
/// drew before and whatever the buffers held, once the batch's geometry is
/// written to the start of the buffers the frame's draw fetches the batch's
/// own vertices, index by index, and nothing that an earlier batch left
/// behind.
pub proof fn lemma_frame_shows_last_batch(
    state: RendererState,
    vertex_buffer: Seq<Vertex>,
    index_buffer: Seq<u16>,
    vertices: Seq<Vertex>,
    rects: nat,
)
    requires
        state.well_formed(),
        state.width > 0,
        state.height > 0,
        vertex_buffer.len() == 4 * state.capacity,
        index_buffer.len() == 6 * state.capacity,
        rects <= state.capacity,
        vertices.len() == 4 * rects,
    ensures
        state.loaded((6 * rects) as u32).draw_call() matches Ok(call) && {
            &&& call.first_index == 0
            &&& call.end_index == 6 * rects
            &&& drawn(
                overwritten(vertex_buffer, vertices),
                overwritten(index_buffer, quad_indices(rects)),
                call.end_index as nat,
            ) == drawn(vertices, quad_indices(rects), 6 * rects)
        },
{
    lemma_upload_replaces_drawn(vertex_buffer, index_buffer, vertices, rects);
}

/// Neither a resize nor a batch that fits the buffers breaks a renderer's
/// bounds.
pub proof fn lemma_state_stays_well_formed(
    state: RendererState,
    width: u32,
    height: u32,
    rects: usize,
)
    requires
        state.well_formed(),
        rejection(rects, state.capacity) is None,
    ensures
        state.resized(width, height).well_formed(),
        state.loaded((6 * rects) as u32).well_formed(),
        6 * rects <= u32::MAX,
{
}

} // verus!
