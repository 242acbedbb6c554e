//! The decision and bookkeeping core of a small real-time mesh viewer:
//! scene bounds, geometry packing, pipeline descriptions, camera input,
//! the frame clock and the per-tick frame state machine.

pub mod bounds;
pub mod mesh;
pub mod pipeline;
pub mod input;
pub mod frame;
