//! The steps of one frame, and what each of them asks of the GPU.
//!
//! A frame is begun by acquiring a drawable surface, then the batch is
//! uploaded, drawn with one indexed draw call, and presented. The library
//! decides; the caller does the work that a step names and reports back.

use vstd::arithmetic::div_mod::{lemma_fundamental_div_mod, lemma_mod_multiples_basic};
use vstd::prelude::*;
use crate::graphics::color::Color;

verus! {

/// The size in bytes of one index.
pub const INDEX_STRIDE: u64 = 2;

/// Where the renderer stands within a frame.
#[derive(Debug, PartialEq, Eq, Structural, Clone, Copy)]
pub enum Phase {
    /// Between frames. Shapes are collected.
    Idle,
    /// A frame was requested; the drawable surface is being acquired.
    Beginning,
    /// The batch is being copied to the GPU.
    Uploading,
    /// The draw call is being recorded and submitted.
    Drawing,
    /// The frame is being presented.
    Presenting,
}

/// What the caller reports to the renderer.
#[derive(Debug, PartialEq, Eq, Structural, Clone, Copy)]
pub enum FrameEvent {
    /// The shapes of this frame are all emitted; it is to be rendered.
    RenderRequested,
    /// A drawable surface was acquired.
    SurfaceAcquired,
    /// No drawable surface is to be had, because it is lost or out of date.
    SurfaceUnavailable,
    /// The batch is in GPU memory.
    Uploaded,
    /// The draw call was submitted.
    Drawn,
    /// The frame was presented.
    Presented,
}

/// What is to be done with one GPU buffer before the draw call.
#[derive(Debug, PartialEq, Eq, Structural, Clone, Copy)]
pub struct BufferPlan {
    /// The number of bytes to copy into the buffer.
    pub bytes: u64,
    /// The bytes that the buffer to copy into has room for. The buffer is
    /// allocated in whole copy units: see `allocation_size`.
    pub capacity: u64,
    /// Whether a new buffer of that size has to replace the old one first.
    pub reallocate: bool,
}

/// What is to be done with the vertex and the index buffer.
#[derive(Debug, PartialEq, Eq, Structural, Clone, Copy)]
pub struct UploadPlan {
    pub vertices: BufferPlan,
    pub indices: BufferPlan,
}

/// The one draw call of a frame.
#[derive(Debug, PartialEq, Eq, Clone, Copy)]
pub struct DrawCommand {
    /// The number of indices to draw, from the start of the index buffer.
    pub index_count: u32,
    /// The colour to clear the frame to first. Without one, what the frame
    /// held before is kept.
    pub clear: Option<Color>,
}

/// What the renderer asks of the caller.
#[derive(Debug, PartialEq, Eq, Clone, Copy)]
pub enum FrameAction {
    /// Acquire a drawable surface.
    BeginFrame,
    /// No frame is drawn this time. Nothing was changed.
    Skip,
    /// Copy the batch to the GPU as the plan says.
    Upload(UploadPlan),
    /// Record and submit the draw call.
    Draw(DrawCommand),
    /// Present the frame.
    Present,
    /// The frame is done and the batch is empty again.
    Finish,
    /// The report does not fit the step that the frame is at. Nothing was
    /// changed.
    Ignore,
}

/// The plan for a buffer of `capacity` bytes that has to take `bytes` bytes:
/// a buffer is replaced only where the bytes do not fit, by one that they
/// fill; it is never replaced by a smaller one.
pub open spec fn plan_buffer(capacity: u64, bytes: u64) -> BufferPlan {
    if bytes > capacity {
        BufferPlan { bytes, capacity: bytes, reallocate: true }
    } else {
        BufferPlan { bytes, capacity, reallocate: false }
    }
}

/// The size to allocate for a buffer that has room for `capacity` bytes,
/// where the GPU copies in units of `unit` bytes: the least whole number of
/// units that holds the bytes, and one unit at least.
pub open spec fn allocated(capacity: u64, unit: u64) -> int {
    if capacity == 0 {
        unit as int
    } else {
        ((capacity + unit - 1) / (unit as int)) * unit
    }
}

/// The size to allocate for a buffer that has room for `capacity` bytes, in
/// whole copy units of `unit` bytes: the least such size that holds the bytes
/// and is not empty.
pub fn allocation_size(capacity: u64, unit: u64) -> (size: u64)
    requires
        0 < unit,
        capacity + unit <= u64::MAX,
    ensures
        size == allocated(capacity, unit),
        size % unit == 0,
        capacity <= size,
        unit <= size,
        size < unit + (if capacity == 0 {
            1
        } else {
            capacity
        }),
{
    if capacity == 0 {
        assert(unit % unit == 0) by (nonlinear_arith)
            requires
                0 < unit,
        ;
        return unit;
    }
    let units: u64 = (capacity + (unit - 1)) / unit;
    proof {
        lemma_whole_units((capacity + unit - 1) as int, unit as int);
        assert(units * unit >= unit) by (nonlinear_arith)
            requires
                units * unit >= 1,
                0 < unit,
                0 <= units,
        ;
    }
    units * unit
}

/// The bytes at the start of `length` bytes that make whole copy units of
/// `unit` bytes: the rest is less than one unit.
pub open spec fn whole_part(length: usize, unit: usize) -> int {
    (length / unit) * unit
}

/// How many of `length` bytes, counted from the first, make whole copy units
/// of `unit` bytes. What is left behind them is less than one unit.
pub fn whole_units(length: usize, unit: usize) -> (whole: usize)
    requires
        0 < unit,
    ensures
        whole == whole_part(length, unit),
        whole % unit == 0,
        whole <= length,
        length - whole < unit,
{
    proof {
        lemma_whole_units(length as int, unit as int);
    }
    (length / unit) * unit
}

/// The whole units in a number: a multiple of the unit, not above the number
/// and less than one unit below it.
proof fn lemma_whole_units(x: int, unit: int)
    requires
        0 <= x,
        0 < unit,
    ensures
        0 <= (x / unit) * unit <= x,
        x - (x / unit) * unit < unit,
        ((x / unit) * unit) % unit == 0,
{
    lemma_fundamental_div_mod(x, unit);
    lemma_mod_multiples_basic(x / unit, unit);
    assert((x / unit) * unit == unit * (x / unit)) by (nonlinear_arith);
    assert(0 <= x % unit < unit);
    assert(0 <= x / unit) by (nonlinear_arith)
        requires
            0 <= x,
            0 < unit,
    ;
}

impl BufferPlan {
    /// Plans the upload of `bytes` bytes into a buffer of `capacity` bytes.
    pub fn new(capacity: u64, bytes: u64) -> (plan: Self)
        ensures
            plan == plan_buffer(capacity, bytes),
    {
        if bytes > capacity {
            BufferPlan { bytes, capacity: bytes, reallocate: true }
        } else {
            BufferPlan { bytes, capacity, reallocate: false }
        }
    }
}

} // verus!
