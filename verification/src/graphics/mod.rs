//! Colours, the per-frame geometry batch and the frame lifecycle.

pub mod background;
pub mod color;
pub mod frame;
pub mod geometry;
pub mod state;

pub use background::Background;
pub use state::State;
