//! Core of a small two-dimensional particle visualiser: particles spawned under
//! the pointer fall towards a fixed attractor and are drawn as instanced
//! triangle fans.
//!
//! Every real number the library carries is held as the bit pattern of a
//! single-precision value. The library moves, compares and serialises those
//! patterns; arithmetic on them is done by functions that the caller supplies.

pub mod black_hole;
pub mod bytes;
pub mod create_perfect_shape;
pub mod event;
pub mod frame;
pub mod instance;
pub mod jitter;
pub mod layout;
pub mod mesh;
pub mod scalar;
pub mod state;
pub mod utils;
pub mod vertex;
