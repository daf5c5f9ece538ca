//! What one frame consists of.

use vstd::prelude::*;

verus! {

/// One of the two render pipelines.
#[derive(Clone, Copy, Debug, PartialEq, Eq)]
pub enum Pipeline {
    /// Draws the particles: one shape, once for each particle.
    Instances,
    /// Draws the attractor.
    BlackHole,
}

/// One indexed draw.
#[derive(Clone, Copy, Debug, PartialEq, Eq)]
pub struct DrawCall {
    pub pipeline: Pipeline,
    /// The draw reads the indices from 0 up to this number.
    pub num_indices: u32,
    /// The draw covers the instances from 0 up to this number.
    pub num_instances: u32,
}

/// What one frame shows: the colour that the target is cleared to, as four
/// double-precision bit patterns for red, green, blue and alpha, and the draws
/// in their order.
#[derive(Clone, Copy, Debug, PartialEq, Eq)]
pub struct Frame {
    pub clear_color: [u64; 4],
    pub draws: [DrawCall; 2],
}

/// The background: the patterns of 0.1, 0.2, 0.3 and, for alpha, 1.0.
pub open spec fn background() -> Seq<u64> {
    seq![0x3FB9_9999_9999_999A, 0x3FC9_9999_9999_999A, 0x3FD3_3333_3333_3333, 0x3FF0_0000_0000_0000]
}

} // verus!
