//! Particles: what the simulation keeps of each, how a force moves one, and
//! what the graphics device is told.

use crate::layout::{is_record_layout, record_layout, VertexBufferLayout, VertexStepMode};
use crate::scalar::ZERO;
use crate::vertex::Record;
use vstd::prelude::*;

verus! {

/// Three single-precision components, each as its bit pattern.
#[derive(Clone, Copy, Debug, PartialEq, Eq)]
pub struct Vector3 {
    pub x: u32,
    pub y: u32,
    pub z: u32,
}

/// A particle: where it is, what colour it has, and the force that has built
/// up on it since it was spawned.
#[derive(Clone, Copy, Debug, PartialEq, Eq)]
pub struct Instance {
    pub position: Vector3,
    pub color: Vector3,
    pub forces: Vector3,
}

/// What the graphics device is told of a particle: its position and its
/// colour. The force is not among it.
#[derive(Clone, Copy, Debug, PartialEq, Eq)]
pub struct InstanceRaw {
    pub position: [u32; 3],
    pub color: [u32; 3],
}

/// `sum` is what `adder` gives for `a` and `b`, component by component.
pub open spec fn is_sum<A: Fn(u32, u32) -> u32>(
    adder: &A,
    a: Vector3,
    b: Vector3,
    sum: Vector3,
) -> bool {
    &&& call_ensures(*adder, (a.x, b.x), sum.x)
    &&& call_ensures(*adder, (a.y, b.y), sum.y)
    &&& call_ensures(*adder, (a.z, b.z), sum.z)
}

/// `after` is `before` with the force `delta` applied: the force is added to
/// what had built up, and then the position moves by all the force that has
/// built up, the new one included. The colour stays.
pub open spec fn is_accumulated<A: Fn(u32, u32) -> u32>(
    adder: &A,
    before: Instance,
    delta: Vector3,
    after: Instance,
) -> bool {
    &&& is_sum(adder, before.forces, delta, after.forces)
    &&& is_sum(adder, before.position, after.forces, after.position)
    &&& after.color == before.color
}

/// `force` is the attractor's pull on `particle`, as `pull` computes it: a
/// force in the plane that depends on the particle's place in the plane alone.
pub open spec fn is_pull_on<P: Fn(u32, u32) -> (u32, u32)>(
    pull: &P,
    particle: Instance,
    force: Vector3,
) -> bool {
    &&& call_ensures(*pull, (particle.position.x, particle.position.y), (force.x, force.y))
    &&& force.z == ZERO
}

/// The sum of two vectors under an addition of components.
pub open spec fn vector_sum(plus: spec_fn(u32, u32) -> u32, a: Vector3, b: Vector3) -> Vector3 {
    Vector3 { x: plus(a.x, b.x), y: plus(a.y, b.y), z: plus(a.z, b.z) }
}

/// The vector without length: the pattern of zero in every component.
pub open spec fn zero_vector() -> Vector3 {
    Vector3 { x: ZERO, y: ZERO, z: ZERO }
}

/// `adder` computes `plus`.
pub open spec fn computes<A: Fn(u32, u32) -> u32>(
    adder: &A,
    plus: spec_fn(u32, u32) -> u32,
) -> bool {
    forall|a: u32, b: u32, sum: u32| call_ensures(*adder, (a, b), sum) ==> sum == plus(a, b)
}

impl Instance {
    /// What the graphics device is told of this particle.
    pub open spec fn spec_to_raw(self) -> InstanceRaw {
        InstanceRaw {
            position: [self.position.x, self.position.y, self.position.z],
            color: [self.color.x, self.color.y, self.color.z],
        }
    }

    /// What the graphics device is told of this particle.
    pub fn to_raw(&self) -> (raw: InstanceRaw)
        ensures
            raw == self.spec_to_raw(),
    {
        InstanceRaw {
            position: [self.position.x, self.position.y, self.position.z],
            color: [self.color.x, self.color.y, self.color.z],
        }
    }

    /// The attractor's pull on this particle: what `pull` computes for the
    /// particle's place in the plane, as a force in the plane.
    ///
    /// `pull` is never kept from a place: a particle that lies on the attractor
    /// gets whatever `pull` makes of a distance of zero, and a pull that is not
    /// a number is handed on as it is.
    pub fn calculate_gravitational_pull<P: Fn(u32, u32) -> (u32, u32)>(&self, pull: &P) -> (force:
        Vector3)
        requires
            call_requires(*pull, (self.position.x, self.position.y)),
        ensures
            is_pull_on(pull, *self, force),
    {
        let (x, y) = pull(self.position.x, self.position.y);
        Vector3 { x, y, z: ZERO }
    }

    /// Applies a force: adds it to the force that has built up, and moves the
    /// particle by the whole of what has built up. The built-up force is never
    /// cleared, so a constant force moves the particle further with each call.
    ///
    /// `adder` adds two single-precision values.
    pub fn update_forces<A: Fn(u32, u32) -> u32>(&mut self, forces: Vector3, adder: &A)
        requires
            forall|a: u32, b: u32| call_requires(*adder, (a, b)),
        ensures
            is_accumulated(adder, *old(self), forces, *final(self)),
    {
        let x = adder(self.forces.x, forces.x);
        let y = adder(self.forces.y, forces.y);
        let z = adder(self.forces.z, forces.z);
        self.forces = Vector3 { x, y, z };
        self.update_position(adder);
    }

    /// Moves the particle by the force that has built up on it.
    fn update_position<A: Fn(u32, u32) -> u32>(&mut self, adder: &A)
        requires
            forall|a: u32, b: u32| call_requires(*adder, (a, b)),
        ensures
            is_sum(adder, old(self).position, old(self).forces, final(self).position),
            final(self).forces == old(self).forces,
            final(self).color == old(self).color,
    {
        let x = adder(self.position.x, self.forces.x);
        let y = adder(self.position.y, self.forces.y);
        let z = adder(self.position.z, self.forces.z);
        self.position = Vector3 { x, y, z };
    }
}

impl InstanceRaw {
    /// The layout of a buffer of particles: stepped per instance, position at
    /// shader location 3 and colour at location 4.
    pub fn desc() -> (layout: VertexBufferLayout)
        ensures
            is_record_layout(layout, VertexStepMode::Instance, 3),
    {
        record_layout(VertexStepMode::Instance, 3)
    }
}

impl Record for InstanceRaw {
    open spec fn words(&self) -> Seq<u32> {
        self.position@ + self.color@
    }

    fn write(&self, out: &mut Vec<u32>) {
        out.push(self.position[0]);
        out.push(self.position[1]);
        out.push(self.position[2]);
        out.push(self.color[0]);
        out.push(self.color[1]);
        out.push(self.color[2]);
        assert(out@ =~= old(out)@ + self.words());
    }
}

/// The built-up force is carried from one call to the next. Where `adder`
/// computes `plus`, two calls with the same force leave the force added twice,
/// and the particle moved first by the force after one call and then by the
/// force after two.
pub proof fn lemma_force_compounds<A: Fn(u32, u32) -> u32>(
    adder: &A,
    plus: spec_fn(u32, u32) -> u32,
    start: Instance,
    force: Vector3,
    once: Instance,
    twice: Instance,
)
    requires
        computes(adder, plus),
        is_accumulated(adder, start, force, once),
        is_accumulated(adder, once, force, twice),
    ensures
        once.forces == vector_sum(plus, start.forces, force),
        once.position == vector_sum(plus, start.position, once.forces),
        twice.forces == vector_sum(plus, once.forces, force),
        twice.position == vector_sum(plus, once.position, twice.forces),
{
}

/// A particle at `P` without force, pushed twice by `F`: after the first call
/// its force is `F` and its position `P + F`; after the second its force is
/// `F + F` and its position `(P + F) + (F + F)`, not `P + (F + F)`. This holds
/// where `adder` computes `plus` and `F` added to zero is `F`, as it is for
/// every number but the negative zero.
pub proof fn lemma_force_compounds_from_rest<A: Fn(u32, u32) -> u32>(
    adder: &A,
    plus: spec_fn(u32, u32) -> u32,
    start: Instance,
    force: Vector3,
    once: Instance,
    twice: Instance,
)
    requires
        computes(adder, plus),
        vector_sum(plus, zero_vector(), force) == force,
        start.forces == zero_vector(),
        is_accumulated(adder, start, force, once),
        is_accumulated(adder, once, force, twice),
    ensures
        once.forces == force,
        once.position == vector_sum(plus, start.position, force),
        twice.forces == vector_sum(plus, force, force),
        twice.position == vector_sum(
            plus,
            vector_sum(plus, start.position, force),
            vector_sum(plus, force, force),
        ),
{
    lemma_force_compounds(adder, plus, start, force, once, twice);
}

} // verus!
