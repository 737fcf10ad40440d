//! The numeric core of a small real-time 3D scene: the input accumulator, the
//! camera pose with its pitch limit, the projection parameters, the events
//! of the window and what each asks for, the grid of instance placements,
//! and the packed records and buffer layouts that the GPU reads.
//!
//! Real-valued quantities are carried as IEEE-754 single-precision bit
//! patterns (`u32`), the form in which they are stored in GPU buffers. The
//! library orders, negates, stores and packs them; it performs no rounding
//! arithmetic itself: sums, products, sines and matrices are the caller's.
//! Grid placements are exact integers.

pub mod controller;
pub mod events;
pub mod layout;
pub mod light;
pub mod pipelines;
pub mod scalar;
pub mod transforms;
pub mod view;
