//! The push that a new particle starts with.

use crate::scalar::{is_within, within};
use vstd::prelude::*;

verus! {

/// The pattern of 0.05, the largest push that a new particle gets along one
/// axis.
pub const JITTER_BOUND: u32 = 0x3D4C_CCCD;

/// The push that a new particle starts with, along `x` and along `y`. Each is
/// at most 0.05 in absolute value.
#[derive(Clone, Copy, Debug, PartialEq, Eq)]
pub struct Jitter {
    x: u32,
    y: u32,
}

impl View for Jitter {
    type V = (u32, u32);

    closed spec fn view(&self) -> (u32, u32) {
        (self.x, self.y)
    }
}

/// Both components of a push are small enough for a new particle.
pub open spec fn is_jitter(push: (u32, u32)) -> bool {
    within(push.0, JITTER_BOUND) && within(push.1, JITTER_BOUND)
}

impl Jitter {
    #[verifier::type_invariant]
    spec fn well_formed(self) -> bool {
        is_jitter(self@)
    }

    /// Accepts a push whose components are both at most 0.05 in absolute value,
    /// and no other.
    pub fn new(x: u32, y: u32) -> (out: Option<Jitter>)
        ensures
            out is Some <==> is_jitter((x, y)),
            out matches Some(jitter) ==> jitter@ == (x, y),
    {
        if is_within(x, JITTER_BOUND) && is_within(y, JITTER_BOUND) {
            Some(Jitter { x, y })
        } else {
            None
        }
    }

    /// The push along `x`.
    pub fn x(&self) -> (out: u32)
        ensures
            out == self@.0,
            is_jitter(self@),
    {
        proof {
            use_type_invariant(self);
        }
        self.x
    }

    /// The push along `y`.
    pub fn y(&self) -> (out: u32)
        ensures
            out == self@.1,
            is_jitter(self@),
    {
        proof {
            use_type_invariant(self);
        }
        self.y
    }
}

} // verus!
