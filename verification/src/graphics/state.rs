//! The renderer's state on the CPU side: the batch of the frame that is being
//! built, the background, the sizes of the GPU buffers, and the step that the
//! frame is at.

use vstd::prelude::*;
use crate::graphics::background::{Background, transparent};
use crate::graphics::color::Color;
use crate::graphics::frame::{
    BufferPlan, DrawCommand, FrameAction, FrameEvent, Phase, UploadPlan, plan_buffer, INDEX_STRIDE,
};
use crate::graphics::geometry::{Geometry, GeometryBuffer, Quad, bytes_of_indices, quad_indices};

verus! {

/// What a renderer state holds.
pub struct StateView<V> {
    /// The batch of the frame that is being built.
    pub geometry: Geometry<V>,
    pub background: Background,
    /// The size in bytes of one vertex in GPU memory.
    pub vertex_stride: u32,
    /// The bytes that the GPU's vertex buffer has room for: the most that
    /// any upload so far has put into it.
    pub vertex_capacity: u64,
    /// The bytes that the GPU's index buffer has room for: the most that any
    /// upload so far has put into it.
    pub index_capacity: u64,
    pub phase: Phase,
}

impl<V> StateView<V> {
    /// The state at start: nothing batched, no clear requested, GPU buffers
    /// with room for nothing, between frames.
    pub open spec fn initial(vertex_stride: u32) -> Self {
        StateView {
            geometry: Geometry::empty(),
            background: Background { color: transparent(), should_clear: false },
            vertex_stride,
            vertex_capacity: 0,
            index_capacity: 0,
            phase: Phase::Idle,
        }
    }

    /// The size in bytes of the batch's vertices.
    pub open spec fn vertex_bytes(self) -> int {
        self.geometry.vertices.len() * self.vertex_stride
    }

    /// The size in bytes of the batch's indices.
    pub open spec fn index_bytes(self) -> int {
        self.geometry.indices.len() * INDEX_STRIDE
    }

    /// What the upload of the batch as it stands asks of the two GPU buffers.
    pub open spec fn upload_plan(self) -> UploadPlan {
        UploadPlan {
            vertices: plan_buffer(self.vertex_capacity, self.vertex_bytes() as u64),
            indices: plan_buffer(self.index_capacity, self.index_bytes() as u64),
        }
    }

    /// The draw call for the batch as it stands: all of its indices, behind a
    /// clear if one was requested.
    pub open spec fn draw_command(self) -> DrawCommand {
        DrawCommand {
            index_count: self.geometry.indices.len() as u32,
            clear: self.background.requested(),
        }
    }

    /// A shape of `vertex_count` vertices with these local indices can be
    /// pushed: no frame is under way, and the batch accepts the shape.
    pub open spec fn accepts(self, vertex_count: nat, indices: Seq<u16>) -> bool {
        self.phase == Phase::Idle && self.geometry.accepts(vertex_count, indices)
    }

    /// The state with another batch.
    pub open spec fn with_geometry(self, geometry: Geometry<V>) -> Self {
        StateView { geometry, ..self }
    }

    /// The state with another background.
    pub open spec fn with_background(self, background: Background) -> Self {
        StateView { background, ..self }
    }

    /// The state at another step of the frame.
    pub open spec fn at(self, phase: Phase) -> Self {
        StateView { phase, ..self }
    }

    /// The state once the batch is uploaded as planned: each GPU buffer has
    /// the room that the plan gives it.
    pub open spec fn uploading(self) -> Self {
        StateView {
            vertex_capacity: self.upload_plan().vertices.capacity,
            index_capacity: self.upload_plan().indices.capacity,
            phase: Phase::Uploading,
            ..self
        }
    }

    /// The state once a frame is presented: the batch empty, no clear
    /// requested, between frames.
    pub open spec fn finished(self) -> Self {
        StateView {
            geometry: Geometry::empty(),
            background: self.background.settled(),
            phase: Phase::Idle,
            ..self
        }
    }

    /// The state after a report, and what is asked of the caller next.
    ///
    /// A frame goes from idle through beginning, uploading, drawing and
    /// presenting back to idle. Without a drawable surface the frame is
    /// skipped and the state is what it was before the frame was requested.
    /// A report that does not fit the step changes nothing.
    pub open spec fn step(self, event: FrameEvent) -> (Self, FrameAction) {
        match (self.phase, event) {
            (Phase::Idle, FrameEvent::RenderRequested) => (
                self.at(Phase::Beginning),
                FrameAction::BeginFrame,
            ),
            (Phase::Beginning, FrameEvent::SurfaceUnavailable) => (
                self.at(Phase::Idle),
                FrameAction::Skip,
            ),
            (Phase::Beginning, FrameEvent::SurfaceAcquired) => (
                self.uploading(),
                FrameAction::Upload(self.upload_plan()),
            ),
            (Phase::Uploading, FrameEvent::Uploaded) => (
                self.at(Phase::Drawing),
                FrameAction::Draw(self.draw_command()),
            ),
            (Phase::Drawing, FrameEvent::Drawn) => (
                self.at(Phase::Presenting),
                FrameAction::Present,
            ),
            (Phase::Presenting, FrameEvent::Presented) => (self.finished(), FrameAction::Finish),
            _ => (self, FrameAction::Ignore),
        }
    }
}

/// The renderer's state on the CPU side, for vertices of type `V`.
pub struct State<V> {
    geometry: GeometryBuffer<V>,
    background: Background,
    vertex_stride: u32,
    vertex_capacity: u64,
    index_capacity: u64,
    phase: Phase,
}

impl<V> View for State<V> {
    type V = StateView<V>;

    closed spec fn view(&self) -> StateView<V> {
        StateView {
            geometry: self.geometry@,
            background: self.background,
            vertex_stride: self.vertex_stride,
            vertex_capacity: self.vertex_capacity,
            index_capacity: self.index_capacity,
            phase: self.phase,
        }
    }
}

impl<V: Copy> State<V> {
    /// A state with nothing batched, for vertices that take `vertex_stride`
    /// bytes each in GPU memory.
    pub fn new(vertex_stride: u32) -> (state: Self)
        ensures
            state@ == StateView::<V>::initial(vertex_stride),
    {
        State {
            geometry: GeometryBuffer::new(),
            background: Background::default(),
            vertex_stride,
            vertex_capacity: 0,
            index_capacity: 0,
            phase: Phase::Idle,
        }
    }

    /// The batch of the frame that is being built.
    pub fn geometry(&self) -> (geometry: &GeometryBuffer<V>)
        ensures
            geometry@ == self@.geometry,
    {
        &self.geometry
    }

    /// The vertices of the batch, in draw order.
    pub fn vertices(&self) -> (vertices: &[V])
        ensures
            vertices@ == self@.geometry.vertices,
    {
        self.geometry.vertices()
    }

    /// The indices of the batch. Each of them names a vertex of the batch.
    pub fn indices(&self) -> (indices: &[u16])
        ensures
            indices@ == self@.geometry.indices,
            self@.geometry.resolved(),
    {
        self.geometry.indices()
    }

    /// The indices of the batch as the bytes that go to the GPU.
    pub fn index_bytes(&self) -> (bytes: &[u8])
        ensures
            bytes@.len() == self@.index_bytes(),
            bytes@ == bytes_of_indices(self@.geometry.indices, true) || bytes@ == bytes_of_indices(
                self@.geometry.indices,
                false,
            ),
    {
        self.geometry.index_bytes()
    }

    /// The background.
    pub fn background(&self) -> (background: Background)
        ensures
            background == self@.background,
    {
        self.background
    }

    /// The step that the frame is at.
    pub fn phase(&self) -> (phase: Phase)
        ensures
            phase == self@.phase,
    {
        self.phase
    }

    /// The size in bytes of one vertex in GPU memory.
    pub fn vertex_stride(&self) -> (stride: u32)
        ensures
            stride == self@.vertex_stride,
    {
        self.vertex_stride
    }

    /// The bytes that the GPU's vertex buffer has room for.
    pub fn vertex_capacity(&self) -> (capacity: u64)
        ensures
            capacity == self@.vertex_capacity,
    {
        self.vertex_capacity
    }

    /// The bytes that the GPU's index buffer has room for.
    pub fn index_capacity(&self) -> (capacity: u64)
        ensures
            capacity == self@.index_capacity,
    {
        self.index_capacity
    }

    /// Whether a shape of `vertex_count` vertices with these local indices can
    /// be pushed. While a frame is under way, none can.
    pub fn accepts(&self, vertex_count: usize, indices: &[u16]) -> (fits: bool)
        ensures
            fits == self@.accepts(vertex_count as nat, indices@),
    {
        match self.phase {
            Phase::Idle => self.geometry.accepts(vertex_count, indices),
            _ => false,
        }
    }

    /// Whether one more quad can be pushed. While a frame is under way, none
    /// can.
    pub fn accepts_quad(&self) -> (fits: bool)
        ensures
            fits == self@.accepts(4, quad_indices()),
    {
        match self.phase {
            Phase::Idle => self.geometry.accepts_quad(),
            _ => false,
        }
    }

    /// Pushes a shape onto the batch: the vertices as they are, and each local
    /// index raised by the number of vertices that the batch held before.
    pub fn push_shape(&mut self, vertices: &[V], indices: &[u16])
        requires
            old(self)@.accepts(vertices@.len(), indices@),
        ensures
            final(self)@ == old(self)@.with_geometry(
                old(self)@.geometry.push_shape(vertices@, indices@),
            ),
            final(self)@.geometry.resolved(),
    {
        self.geometry.push_shape(vertices, indices);
    }

    /// Pushes a quad onto the batch, as two triangles in the fixed winding
    /// order.
    pub fn push_quad(&mut self, quad: Quad<V>)
        requires
            old(self)@.accepts(4, quad_indices()),
        ensures
            final(self)@ == old(self)@.with_geometry(old(self)@.geometry.push_quad(quad)),
            final(self)@.geometry.resolved(),
    {
        self.geometry.push_quad(quad);
    }

    /// Requests that the next frame is cleared to `color`.
    pub fn clear_background(&mut self, color: Color)
        ensures
            final(self)@ == old(self)@.with_background(Background::cleared(color)),
    {
        self.background.clear(color);
    }

    /// Takes a report and says what is to be done next.
    pub fn step(&mut self, event: FrameEvent) -> (action: FrameAction)
        ensures
            final(self)@ == old(self)@.step(event).0,
            action == old(self)@.step(event).1,
            final(self)@.geometry.resolved(),
    {
        let _ = self.geometry.indices();
        match (self.phase, event) {
            (Phase::Idle, FrameEvent::RenderRequested) => {
                self.phase = Phase::Beginning;
                FrameAction::BeginFrame
            },
            (Phase::Beginning, FrameEvent::SurfaceUnavailable) => {
                self.phase = Phase::Idle;
                FrameAction::Skip
            },
            (Phase::Beginning, FrameEvent::SurfaceAcquired) => {
                let plan = self.upload_plan();
                self.vertex_capacity = plan.vertices.capacity;
                self.index_capacity = plan.indices.capacity;
                self.phase = Phase::Uploading;
                FrameAction::Upload(plan)
            },
            (Phase::Uploading, FrameEvent::Uploaded) => {
                let command = self.draw_command();
                self.phase = Phase::Drawing;
                FrameAction::Draw(command)
            },
            (Phase::Drawing, FrameEvent::Drawn) => {
                self.phase = Phase::Presenting;
                FrameAction::Present
            },
            (Phase::Presenting, FrameEvent::Presented) => {
                self.geometry.clear();
                self.background.reset();
                self.phase = Phase::Idle;
                FrameAction::Finish
            },
            _ => FrameAction::Ignore,
        }
    }

    /// What the upload of the batch as it stands asks of the two GPU buffers.
    pub fn upload_plan(&self) -> (plan: UploadPlan)
        ensures
            plan == self@.upload_plan(),
            plan.vertices.bytes == self@.vertex_bytes(),
            plan.indices.bytes == self@.index_bytes(),
    {
        let vertex_count = self.geometry.vertices().len();
        let index_count = self.geometry.indices().len();
        assert(vertex_count * self.vertex_stride <= 0x1_0000 * 0xFFFF_FFFF) by (nonlinear_arith)
            requires
                vertex_count <= 0x1_0000,
                self.vertex_stride <= 0xFFFF_FFFF,
        ;
        let vertex_bytes: u64 = vertex_count as u64 * self.vertex_stride as u64;
        let index_bytes: u64 = index_count as u64 * INDEX_STRIDE;
        UploadPlan {
            vertices: BufferPlan::new(self.vertex_capacity, vertex_bytes),
            indices: BufferPlan::new(self.index_capacity, index_bytes),
        }
    }

    /// The draw call for the batch as it stands.
    pub fn draw_command(&self) -> (command: DrawCommand)
        ensures
            command == self@.draw_command(),
            command.index_count == self@.geometry.indices.len(),
            self@.geometry.resolved(),
    {
        let index_count = self.geometry.indices().len();
        DrawCommand { index_count: index_count as u32, clear: self.background.clear_color() }
    }
}

/// A frame that is submitted goes through its steps in order: the surface is
/// acquired, the batch as it stood is uploaded, then drawn with all of its
/// indices, then presented. After that the renderer is idle again, the batch
/// is empty and no clear is requested, whether or not one was requested for
/// this frame. The background colour and the stride stay, and each GPU buffer
/// has the size that the upload gave it.
pub proof fn lemma_submitted_frame<V>(state: StateView<V>)
    requires
        state.phase == Phase::Idle,
    ensures
        ({
            let requested = state.step(FrameEvent::RenderRequested);
            let acquired = requested.0.step(FrameEvent::SurfaceAcquired);
            let uploaded = acquired.0.step(FrameEvent::Uploaded);
            let drawn = uploaded.0.step(FrameEvent::Drawn);
            let presented = drawn.0.step(FrameEvent::Presented);
            &&& requested.1 == FrameAction::BeginFrame
            &&& acquired.1 == FrameAction::Upload(state.upload_plan())
            &&& uploaded.1 == FrameAction::Draw(state.draw_command())
            &&& drawn.1 == FrameAction::Present
            &&& presented.1 == FrameAction::Finish
            &&& presented.0.phase == Phase::Idle
            &&& presented.0.geometry == Geometry::<V>::empty()
            &&& presented.0.geometry.vertices.len() == 0
            &&& presented.0.geometry.indices.len() == 0
            &&& !presented.0.background.should_clear
            &&& presented.0.background.color == state.background.color
            &&& presented.0.vertex_stride == state.vertex_stride
            &&& presented.0.vertex_capacity == state.upload_plan().vertices.capacity
            &&& presented.0.index_capacity == state.upload_plan().indices.capacity
        }),
{
}

/// What is drawn is what was uploaded: the draw call of a submitted frame
/// names as many indices as the upload put into the index buffer, two bytes
/// each; the vertex buffer took one stride for each vertex; every index names
/// one of those vertices; and each GPU buffer is large enough for what it
/// took.
pub proof fn lemma_draw_names_what_was_uploaded<V>(state: StateView<V>)
    requires
        state.phase == Phase::Idle,
        state.geometry.resolved(),
    ensures
        ({
            let requested = state.step(FrameEvent::RenderRequested);
            let acquired = requested.0.step(FrameEvent::SurfaceAcquired);
            let uploaded = acquired.0.step(FrameEvent::Uploaded);
            &&& acquired.1 matches FrameAction::Upload(plan) && uploaded.1 matches FrameAction::Draw(
                command,
            ) && {
                &&& plan.indices.bytes == 2 * command.index_count
                &&& command.index_count == state.geometry.indices.len()
                &&& plan.vertices.bytes == state.geometry.vertices.len() * state.vertex_stride
                &&& plan.vertices.bytes <= plan.vertices.capacity
                &&& plan.indices.bytes <= plan.indices.capacity
                &&& plan.vertices.capacity == uploaded.0.vertex_capacity
                &&& plan.indices.capacity == uploaded.0.index_capacity
                &&& command.clear == state.background.requested()
            }
            &&& uploaded.0.geometry == state.geometry
            &&& uploaded.0.geometry.resolved()
        }),
{
    lemma_batch_bytes_fit(state);
}

/// Without a drawable surface the frame is skipped as a whole: the renderer
/// is idle again and its state is what it was before the frame was
/// requested, batch and background included.
pub proof fn lemma_skipped_frame<V>(state: StateView<V>)
    requires
        state.phase == Phase::Idle,
    ensures
        ({
            let requested = state.step(FrameEvent::RenderRequested);
            let refused = requested.0.step(FrameEvent::SurfaceUnavailable);
            &&& requested.1 == FrameAction::BeginFrame
            &&& refused.1 == FrameAction::Skip
            &&& refused.0 == state
        }),
{
}

/// Whenever a step ends a frame, the batch is empty and no clear is
/// requested; and only the end of a frame empties the batch: every other step
/// leaves batch and background as they are.
pub proof fn lemma_only_the_end_of_a_frame_resets<V>(state: StateView<V>, event: FrameEvent)
    ensures
        state.step(event).1 == FrameAction::Finish ==> {
            &&& state.step(event).0.phase == Phase::Idle
            &&& state.step(event).0.geometry == Geometry::<V>::empty()
            &&& !state.step(event).0.background.should_clear
        },
        state.step(event).1 != FrameAction::Finish ==> {
            &&& state.step(event).0.geometry == state.geometry
            &&& state.step(event).0.background == state.background
        },
{
}

/// No step makes a GPU buffer smaller, and a buffer changes its size only
/// where an upload is planned whose bytes did not fit. After that step each
/// buffer takes the bytes of the batch.
pub proof fn lemma_buffers_only_grow<V>(state: StateView<V>, event: FrameEvent)
    requires
        state.geometry.resolved(),
    ensures
        state.step(event).0.vertex_capacity >= state.vertex_capacity,
        state.step(event).0.index_capacity >= state.index_capacity,
        state.step(event).0.vertex_capacity != state.vertex_capacity ==> {
            &&& state.step(event).1 == FrameAction::Upload(state.upload_plan())
            &&& state.upload_plan().vertices.reallocate
            &&& state.vertex_bytes() > state.vertex_capacity
            &&& state.step(event).0.vertex_capacity == state.vertex_bytes()
        },
        state.step(event).0.index_capacity != state.index_capacity ==> {
            &&& state.step(event).1 == FrameAction::Upload(state.upload_plan())
            &&& state.upload_plan().indices.reallocate
            &&& state.index_bytes() > state.index_capacity
            &&& state.step(event).0.index_capacity == state.index_bytes()
        },
        state.step(event).1 == FrameAction::Upload(state.upload_plan()) ==> {
            &&& state.upload_plan().vertices.bytes == state.vertex_bytes()
            &&& state.upload_plan().indices.bytes == state.index_bytes()
            &&& state.step(event).0.vertex_capacity >= state.vertex_bytes()
            &&& state.step(event).0.index_capacity >= state.index_bytes()
        },
{
    lemma_batch_bytes_fit(state);
}

/// The bytes of a batch within its limits fit in 64 bits, and its number of
/// indices in 32.
pub proof fn lemma_batch_bytes_fit<V>(state: StateView<V>)
    requires
        state.geometry.resolved(),
    ensures
        0 <= state.vertex_bytes() <= 0x1_0000 * 0xFFFF_FFFF,
        0 <= state.index_bytes() <= 2 * 0xFFFF_FFFF,
        state.draw_command().index_count == state.geometry.indices.len(),
{
    assert(0 <= state.geometry.vertices.len() * state.vertex_stride <= 0x1_0000 * 0xFFFF_FFFF)
        by (nonlinear_arith)
        requires
            0 <= state.geometry.vertices.len() <= 0x1_0000,
            0 <= state.vertex_stride <= 0xFFFF_FFFF,
    ;
}

} // verus!
