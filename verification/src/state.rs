//! The simulation: the particles, the pointer, and what each event and each
//! tick does to them.

use crate::black_hole::{black, BlackHole, BLACK_HOLE_INDICES, BLACK_HOLE_VERTICES};
use crate::bytes::is_word_image;
use crate::create_perfect_shape::{is_ring, lemma_fan_in_bounds};
use crate::event::{
    Action, ElementState, Event, Key, MouseButton, PhysicalSize, SurfaceError, WindowEvent,
};
use crate::instance::{is_accumulated, is_pull_on, Instance, InstanceRaw, Vector3};
use crate::mesh::{Mesh, MeshView};
use crate::frame::{background, DrawCall, Frame, Pipeline};
use crate::jitter::{is_jitter, Jitter, JITTER_BOUND};
use crate::scalar::{within, HALF, ONE, ZERO};
use crate::vertex::{buffer_contents, lemma_buffer_length, record_words};
use vstd::prelude::*;

verus! {

/// The number of corners of a particle's disk.
pub const PARTICLE_VERTICES: u32 = 8;

/// The number of indices in a particle's fan.
pub const PARTICLE_INDICES: u32 = 18;

/// The colour of the particles' shape: red.
pub open spec fn red() -> [u32; 3] {
    [ONE, ZERO, ZERO]
}

/// The colour of a particle: pale yellow.
pub open spec fn pale_yellow() -> Vector3 {
    Vector3 { x: ONE, y: ONE, z: HALF }
}

/// What to do with the instance buffer after a tick.
#[derive(Debug, PartialEq, Eq)]
pub struct InstanceUpload {
    /// Where a particle was spawned: what the particles looked like right
    /// after the spawn step. The buffer is allocated anew from these bytes,
    /// whole and not by appending, before `contents` is written.
    pub allocation: Option<Vec<u8>>,
    /// What the buffer holds after the tick, from its first byte on.
    pub contents: Vec<u8>,
}

/// The particle that is spawned under the pointer with a given push: in the
/// plane, pale yellow, with no force but the push.
pub open spec fn spawned_at(mouse_x: u32, mouse_y: u32, push: (u32, u32)) -> Instance {
    Instance {
        position: Vector3 { x: mouse_x, y: mouse_y, z: ZERO },
        color: pale_yellow(),
        forces: Vector3 { x: push.0, y: push.1, z: ZERO },
    }
}

/// What the graphics device is told of `instances`, in their order.
pub open spec fn raw_of(instances: Seq<Instance>) -> Seq<InstanceRaw> {
    Seq::new(instances.len(), |i: int| instances[i].spec_to_raw())
}

/// `after` is `before` after one step of physics: the attractor's pull at the
/// particle's position, as `pull` computes it, is applied to it as a force in
/// the plane.
pub open spec fn is_pulled<P: Fn(u32, u32) -> (u32, u32), A: Fn(u32, u32) -> u32>(
    pull: &P,
    adder: &A,
    before: Instance,
    after: Instance,
) -> bool {
    exists|force: Vector3|
        {
            &&& #[trigger] is_pull_on(pull, before, force)
            &&& is_accumulated(adder, before, force, after)
        }
}

/// What a [`State`] holds.
pub struct StateView {
    pub size: PhysicalSize,
    pub shape: MeshView,
    pub instances: Seq<Instance>,
    pub mouse_x: u32,
    pub mouse_y: u32,
    pub is_lmb_pressed: bool,
    pub black_hole: MeshView,
}

impl StateView {
    /// This state with other particles.
    pub open spec fn with_instances(self, instances: Seq<Instance>) -> StateView {
        StateView {
            size: self.size,
            shape: self.shape,
            instances,
            mouse_x: self.mouse_x,
            mouse_y: self.mouse_y,
            is_lmb_pressed: self.is_lmb_pressed,
            black_hole: self.black_hole,
        }
    }

    /// This state with the primary button down or up.
    pub open spec fn with_button(self, is_lmb_pressed: bool) -> StateView {
        StateView {
            size: self.size,
            shape: self.shape,
            instances: self.instances,
            mouse_x: self.mouse_x,
            mouse_y: self.mouse_y,
            is_lmb_pressed,
            black_hole: self.black_hole,
        }
    }

    /// This state with the pointer elsewhere.
    pub open spec fn with_pointer(self, mouse_x: u32, mouse_y: u32) -> StateView {
        StateView {
            size: self.size,
            shape: self.shape,
            instances: self.instances,
            mouse_x,
            mouse_y,
            is_lmb_pressed: self.is_lmb_pressed,
            black_hole: self.black_hole,
        }
    }

    /// This state with another size.
    pub open spec fn with_size(self, size: PhysicalSize) -> StateView {
        StateView {
            size,
            shape: self.shape,
            instances: self.instances,
            mouse_x: self.mouse_x,
            mouse_y: self.mouse_y,
            is_lmb_pressed: self.is_lmb_pressed,
            black_hole: self.black_hole,
        }
    }

    /// The state after the window has been given a new size. A size with a
    /// side of zero is ignored.
    pub open spec fn resize(self, new_size: PhysicalSize) -> StateView {
        if new_size.is_usable() {
            self.with_size(new_size)
        } else {
            self
        }
    }

    /// The state after an event of the window has been taken in: the primary
    /// button sets and clears the flag, a move of the pointer is recorded, and
    /// nothing else matters.
    pub open spec fn input(self, event: WindowEvent) -> StateView {
        match event {
            WindowEvent::MouseInput { state, button: MouseButton::Left } => self.with_button(
                state == ElementState::Pressed,
            ),
            WindowEvent::CursorMoved { x, y } => self.with_pointer(x, y),
            _ => self,
        }
    }

    /// The state after the spawn step of a tick: while the primary button is
    /// held, one particle is appended under the pointer.
    pub open spec fn spawn(self, push: (u32, u32)) -> StateView {
        if self.is_lmb_pressed {
            self.with_instances(self.instances.push(spawned_at(self.mouse_x, self.mouse_y, push)))
        } else {
            self
        }
    }

    /// What the caller does after an event of the window: a request to close
    /// and the Escape key going down end the loop, and a new size that can be
    /// used asks for the surface to be configured. The primary button plays no
    /// part in it.
    pub open spec fn window_reaction(event: WindowEvent) -> Action {
        match event {
            WindowEvent::CloseRequested => Action::Exit,
            WindowEvent::KeyboardInput {
                state: ElementState::Pressed,
                key: Key::Escape,
            } => Action::Exit,
            WindowEvent::Resized(size) => if size.is_usable() {
                Action::Reconfigure
            } else {
                Action::Nothing
            },
            WindowEvent::ScaleFactorChanged { new_inner_size } => if new_inner_size.is_usable() {
                Action::Reconfigure
            } else {
                Action::Nothing
            },
            _ => Action::Nothing,
        }
    }

    /// The state after an event of the event loop. An event of the window is
    /// taken in as input, and a new size is taken over, whether the primary
    /// button is held or not.
    pub open spec fn after_event(self, event: Event) -> StateView {
        match event {
            Event::WindowEvent(window_event) => {
                let taken = self.input(window_event);
                match window_event {
                    WindowEvent::Resized(size) => taken.resize(size),
                    WindowEvent::ScaleFactorChanged { new_inner_size } => taken.resize(
                        new_inner_size,
                    ),
                    _ => taken,
                }
            },
            _ => self,
        }
    }

    /// What the caller does after an event of the event loop. It depends on
    /// the event alone.
    pub open spec fn reaction(event: Event) -> Action {
        match event {
            Event::WindowEvent(window_event) => Self::window_reaction(window_event),
            Event::RedrawRequested => Action::Redraw,
            Event::RedrawEventsCleared => Action::RequestRedraw,
            Event::Other => Action::Nothing,
        }
    }

    /// What the caller does after it has tried to draw a frame. A lost or
    /// outdated surface is configured anew at the size at hand, and the next
    /// frame tries again; without memory the loop ends; a timeout costs the
    /// frame and a warning.
    pub open spec fn frame_reaction(self, result: Result<(), SurfaceError>) -> Action {
        match result {
            Ok(_) => Action::Nothing,
            Err(SurfaceError::Lost) | Err(SurfaceError::Outdated) => if self.size.is_usable() {
                Action::Reconfigure
            } else {
                Action::Nothing
            },
            Err(SurfaceError::OutOfMemory) => Action::Exit,
            Err(SurfaceError::Timeout) => Action::WarnTimeout,
        }
    }

    /// The two draws of a frame, for a number of particles that fits in 32
    /// bits: the particles' shape once for each particle, then the attractor
    /// once.
    pub open spec fn draws(self) -> Seq<DrawCall> {
        seq![
            DrawCall {
                pipeline: Pipeline::Instances,
                num_indices: self.shape.num_indices,
                num_instances: self.instances.len() as u32,
            },
            DrawCall {
                pipeline: Pipeline::BlackHole,
                num_indices: self.black_hole.num_indices,
                num_instances: 1,
            },
        ]
    }
}

impl StateView {
    /// The state after a run of spawn steps: before step `k` the pointer moves
    /// to `pointers[k]`, and the step has the push `pushes[k]`.
    pub open spec fn hold(self, pointers: Seq<(u32, u32)>, pushes: Seq<(u32, u32)>) -> StateView
        decreases pointers.len(),
    {
        if pointers.len() == 0 {
            self
        } else {
            self.hold(pointers.drop_last(), pushes.drop_last()).input(
                WindowEvent::CursorMoved { x: pointers.last().0, y: pointers.last().1 },
            ).spawn(pushes.last())
        }
    }
}

/// While the primary button is held, every spawn step appends exactly one
/// particle: after `n` steps there are `n` more, the earlier ones are as they
/// were, and particle `k` of the new ones lies where the pointer was at step
/// `k`, with the push of that step as its force. Where that push is at most
/// 0.05 in absolute value along each axis, so is the force.
pub proof fn lemma_hold_spawns_one_per_step(
    start: StateView,
    pointers: Seq<(u32, u32)>,
    pushes: Seq<(u32, u32)>,
)
    requires
        start.is_lmb_pressed,
        pointers.len() == pushes.len(),
    ensures
        start.hold(pointers, pushes).is_lmb_pressed,
        start.hold(pointers, pushes).instances.len() == start.instances.len() + pointers.len(),
        forall|k: int|
            0 <= k < start.instances.len() ==> start.hold(pointers, pushes).instances[k]
                == start.instances[k],
        forall|k: int|
            0 <= k < pointers.len() ==> #[trigger] start.hold(
                pointers,
                pushes,
            ).instances[start.instances.len() + k] == spawned_at(
                pointers[k].0,
                pointers[k].1,
                pushes[k],
            ),
        forall|k: int|
            0 <= k < pointers.len() && is_jitter(#[trigger] pushes[k]) ==> {
                let particle = start.hold(pointers, pushes).instances[start.instances.len() + k];
                &&& within(particle.forces.x, JITTER_BOUND)
                &&& within(particle.forces.y, JITTER_BOUND)
            },
    decreases pointers.len(),
{
    if pointers.len() > 0 {
        lemma_hold_spawns_one_per_step(start, pointers.drop_last(), pushes.drop_last());
        let before = start.hold(pointers.drop_last(), pushes.drop_last());
        let end = start.hold(pointers, pushes);
        let n = start.instances.len() as int;
        assert forall|k: int| 0 <= k < pointers.len() implies #[trigger] end.instances[n + k]
            == spawned_at(pointers[k].0, pointers[k].1, pushes[k]) by {
            if k < pointers.len() - 1 {
                assert(before.instances[n + k] == spawned_at(
                    pointers.drop_last()[k].0,
                    pointers.drop_last()[k].1,
                    pushes.drop_last()[k],
                ));
            }
        }
    }
}

/// `after` is `before` one tick later: first the spawn step, then one step of
/// physics for every particle, the new one included. Nothing else changes.
pub open spec fn is_tick<P: Fn(u32, u32) -> (u32, u32), A: Fn(u32, u32) -> u32>(
    pull: &P,
    adder: &A,
    before: StateView,
    push: (u32, u32),
    after: StateView,
) -> bool {
    let spawned = before.spawn(push);
    &&& after == spawned.with_instances(after.instances)
    &&& after.instances.len() == spawned.instances.len()
    &&& forall|i: int|
        0 <= i < spawned.instances.len() ==> is_pulled(
            pull,
            adder,
            spawned.instances[i],
            #[trigger] after.instances[i],
        )
}

/// The simulation's state.
pub struct State {
    size: PhysicalSize,
    shape: Mesh<PARTICLE_VERTICES>,
    instances: Vec<Instance>,
    mouse_x: u32,
    mouse_y: u32,
    is_lmb_pressed: bool,
    black_hole: BlackHole,
}

impl View for State {
    type V = StateView;

    closed spec fn view(&self) -> StateView {
        StateView {
            size: self.size,
            shape: self.shape@,
            instances: self.instances@,
            mouse_x: self.mouse_x,
            mouse_y: self.mouse_y,
            is_lmb_pressed: self.is_lmb_pressed,
            black_hole: self.black_hole@,
        }
    }
}

impl State {
    /// The state at start: a window of the given size, no particles, the
    /// pointer at the origin with its button up, and the two shapes, a red
    /// disk of eight corners for the particles and the attractor, both laid
    /// out by `place`.
    pub fn new<F: Fn(u32, u32) -> (u32, u32)>(size: PhysicalSize, place: &F) -> (state: State)
        requires
            forall|i: u32, n: u32|
                1 <= i <= n && (n == PARTICLE_VERTICES || n == BLACK_HOLE_VERTICES)
                    ==> call_requires(*place, (i, n)),
        ensures
            state@.size == size,
            state@.instances == Seq::<Instance>::empty(),
            state@.mouse_x == ZERO,
            state@.mouse_y == ZERO,
            !state@.is_lmb_pressed,
            is_ring(place, PARTICLE_VERTICES, red(), state@.shape.vertices),
            state@.shape.is_consistent(),
            is_ring(place, BLACK_HOLE_VERTICES, black(), state@.black_hole.vertices),
            state@.black_hole.is_consistent(),
    {
        let shape = Mesh::new([ONE, ZERO, ZERO], place);
        let black_hole = BlackHole::new(place);
        State {
            size,
            shape,
            instances: Vec::new(),
            mouse_x: ZERO,
            mouse_y: ZERO,
            is_lmb_pressed: false,
            black_hole,
        }
    }

    /// The size that the surface was last configured to.
    pub fn size(&self) -> (out: PhysicalSize)
        ensures
            out == self@.size,
    {
        self.size
    }

    /// The particles, in the order in which they were spawned.
    pub fn instances(&self) -> (out: &Vec<Instance>)
        ensures
            out@ == self@.instances,
    {
        &self.instances
    }

    /// Where the pointer was last seen.
    pub fn mouse(&self) -> (out: (u32, u32))
        ensures
            out == (self@.mouse_x, self@.mouse_y),
    {
        (self.mouse_x, self.mouse_y)
    }

    /// Whether the primary button is held.
    pub fn is_lmb_pressed(&self) -> (out: bool)
        ensures
            out == self@.is_lmb_pressed,
    {
        self.is_lmb_pressed
    }

    /// The shape that is drawn once for each particle: a disk of eight
    /// corners.
    pub fn shape(&self) -> (out: &Mesh<PARTICLE_VERTICES>)
        ensures
            out@ == self@.shape,
    {
        &self.shape
    }

    /// The attractor.
    pub fn black_hole(&self) -> (out: &BlackHole)
        ensures
            out@ == self@.black_hole,
    {
        &self.black_hole
    }

    /// Takes over a new size of the window, unless one of its sides is zero.
    /// Returns whether the surface is to be configured anew.
    pub fn resize(&mut self, new_size: PhysicalSize) -> (reconfigure: bool)
        ensures
            final(self)@ == old(self)@.resize(new_size),
            reconfigure == new_size.is_usable(),
    {
        if new_size.width > 0 && new_size.height > 0 {
            self.size = new_size;
            true
        } else {
            false
        }
    }

    /// Takes in an event of the window, and returns whether the primary button
    /// is held after it.
    pub fn input(&mut self, event: &WindowEvent) -> (held: bool)
        ensures
            final(self)@ == old(self)@.input(*event),
            held == final(self)@.is_lmb_pressed,
    {
        match event {
            WindowEvent::MouseInput { state, button } => {
                match button {
                    MouseButton::Left => {
                        match state {
                            ElementState::Pressed => {
                                self.is_lmb_pressed = true;
                            },
                            ElementState::Released => {
                                self.is_lmb_pressed = false;
                            },
                        }
                    },
                    _ => {},
                }
            },
            WindowEvent::CursorMoved { x, y } => {
                self.mouse_x = *x;
                self.mouse_y = *y;
            },
            _ => {},
        }
        self.is_lmb_pressed
    }

    /// What the graphics device is told of the particles, in their order.
    pub fn raw_instances(&self) -> (raw: Vec<InstanceRaw>)
        ensures
            raw@ == raw_of(self@.instances),
    {
        let mut raw: Vec<InstanceRaw> = Vec::new();
        let mut i: usize = 0;
        while i < self.instances.len()
            invariant
                i <= self.instances@.len(),
                raw@.len() == i,
                forall|j: int| 0 <= j < i ==> raw@[j] == self.instances@[j].spec_to_raw(),
            decreases self.instances@.len() - i,
        {
            raw.push(self.instances[i].to_raw());
            i = i + 1;
        }
        assert(raw@ =~= raw_of(self@.instances));
        raw
    }

    /// The contents of the instance buffer: the memory image of what the
    /// graphics device is told of the particles, one record of six words for
    /// each.
    pub fn instance_data(&self) -> (bytes: Vec<u8>)
        ensures
            is_word_image(bytes@, record_words(raw_of(self@.instances))),
    {
        let raw = self.raw_instances();
        buffer_contents(&raw)
    }

    /// Appends a particle under the pointer while the primary button is held.
    fn spawn(&mut self, jitter: Jitter) -> (spawned: bool)
        ensures
            final(self)@ == old(self)@.spawn(jitter@),
            spawned == old(self)@.is_lmb_pressed,
            is_jitter(jitter@),
    {
        let push_x = jitter.x();
        let push_y = jitter.y();
        if self.is_lmb_pressed {
            self.instances.push(
                Instance {
                    position: Vector3 { x: self.mouse_x, y: self.mouse_y, z: ZERO },
                    color: Vector3 { x: ONE, y: ONE, z: HALF },
                    forces: Vector3 { x: push_x, y: push_y, z: ZERO },
                },
            );
            true
        } else {
            false
        }
    }

    /// The spawn step of a tick. While the primary button is held, one
    /// particle is appended under the pointer: in the plane, pale yellow, with
    /// the given push as its only force. There is no cap on their number.
    ///
    /// Returns the contents of the instance buffer where a particle was
    /// spawned: the buffer is then allocated anew from them.
    pub fn process_user_input(&mut self, jitter: Jitter) -> (contents: Option<Vec<u8>>)
        ensures
            is_jitter(jitter@),
            final(self)@ == old(self)@.spawn(jitter@),
            contents is Some <==> old(self)@.is_lmb_pressed,
            contents matches Some(bytes) ==> is_word_image(
                bytes@,
                record_words(raw_of(final(self)@.instances)),
            ),
    {
        if self.spawn(jitter) {
            Some(self.instance_data())
        } else {
            None
        }
    }

    /// One tick: the spawn step, then one step of physics for every particle,
    /// then the new contents of the instance buffer. The push of a particle
    /// that the tick spawns is at most 0.05 in absolute value along each axis.
    ///
    /// `pull` computes the attractor's pull in the plane at a position in the
    /// plane, and `adder` adds two single-precision values. Each particle is
    /// pulled once, in the order of the collection; the particles do not act on
    /// each other. No value is looked at on the way: what is not a number
    /// passes through the tick into the buffer.
    pub fn update<P: Fn(u32, u32) -> (u32, u32), A: Fn(u32, u32) -> u32>(
        &mut self,
        jitter: Jitter,
        pull: &P,
        adder: &A,
    ) -> (upload: InstanceUpload)
        requires
            forall|x: u32, y: u32| call_requires(*pull, (x, y)),
            forall|a: u32, b: u32| call_requires(*adder, (a, b)),
        ensures
            is_jitter(jitter@),
            is_tick(pull, adder, old(self)@, jitter@, final(self)@),
            upload.allocation is Some <==> old(self)@.is_lmb_pressed,
            upload.allocation matches Some(bytes) ==> is_word_image(
                bytes@,
                record_words(raw_of(old(self)@.spawn(jitter@).instances)),
            ),
            is_word_image(upload.contents@, record_words(raw_of(final(self)@.instances))),
    {
        let allocation = self.process_user_input(jitter);
        let ghost spawned = self@;
        let count = self.instances.len();
        let mut i: usize = 0;
        while i < count
            invariant
                i <= count,
                count == spawned.instances.len(),
                self@ == spawned.with_instances(self@.instances),
                self@.instances.len() == count,
                forall|x: u32, y: u32| call_requires(*pull, (x, y)),
                forall|a: u32, b: u32| call_requires(*adder, (a, b)),
                forall|j: int|
                    0 <= j < i ==> is_pulled(
                        pull,
                        adder,
                        spawned.instances[j],
                        #[trigger] self@.instances[j],
                    ),
                forall|j: int| i <= j < count ==> self@.instances[j] == spawned.instances[j],
            decreases count - i,
        {
            let mut instance = self.instances[i];
            let force = instance.calculate_gravitational_pull(pull);
            instance.update_forces(force, adder);
            self.instances.set(i, instance);
            assert(is_pulled(
                pull,
                adder,
                spawned.instances[i as int],
                self@.instances[i as int],
            )) by {
                assert(is_pull_on(pull, spawned.instances[i as int], force));
            }
            i = i + 1;
        }
        InstanceUpload { allocation, contents: self.instance_data() }
    }

    /// One frame: the target is cleared to the background, and then there are
    /// exactly two draws, the particles' shape once for each particle and the
    /// attractor once.
    ///
    /// A draw counts its instances in 32 bits, so there can be no more
    /// particles than that.
    pub fn render(&self) -> (frame: Frame)
        requires
            self@.instances.len() <= u32::MAX,
        ensures
            frame.clear_color@ == background(),
            frame.draws@ == self@.draws(),
            frame.draws[0].num_indices == PARTICLE_INDICES,
            frame.draws[1].num_indices == BLACK_HOLE_INDICES,
            frame.draws[0].num_instances == self@.instances.len(),
            frame.draws[1].num_instances == 1,
            self@.shape.is_consistent(),
            self@.black_hole.is_consistent(),
    {
        let particles = self.shape().num_indices();
        let (_, _, attractor) = self.black_hole.get_buffers();
        let count = self.instances.len() as u32;
        let draws = [
            DrawCall {
                pipeline: Pipeline::Instances,
                num_indices: particles,
                num_instances: count,
            },
            DrawCall { pipeline: Pipeline::BlackHole, num_indices: attractor, num_instances: 1 },
        ];
        assert(draws@ =~= self@.draws());
        let clear_color: [u64; 4] = [
            0x3FB9_9999_9999_999A,
            0x3FC9_9999_9999_999A,
            0x3FD3_3333_3333_3333,
            0x3FF0_0000_0000_0000,
        ];
        assert(clear_color@ =~= background());
        Frame { clear_color, draws }
    }

    /// Takes an event of the event loop and says what the caller does next.
    /// A request to close and the Escape key end the loop, and a new size is
    /// taken over, at any time: a held button keeps none of them back.
    pub fn handle_event(&mut self, event: &Event) -> (action: Action)
        ensures
            final(self)@ == old(self)@.after_event(*event),
            action == StateView::reaction(*event),
    {
        match event {
            Event::WindowEvent(window_event) => {
                self.input(window_event);
                match window_event {
                    WindowEvent::CloseRequested => Action::Exit,
                    WindowEvent::KeyboardInput {
                        state: ElementState::Pressed,
                        key: Key::Escape,
                    } => Action::Exit,
                    WindowEvent::Resized(size) => self.reconfigure_to(*size),
                    WindowEvent::ScaleFactorChanged { new_inner_size } => self.reconfigure_to(
                        *new_inner_size,
                    ),
                    _ => Action::Nothing,
                }
            },
            Event::RedrawRequested => Action::Redraw,
            Event::RedrawEventsCleared => Action::RequestRedraw,
            Event::Other => Action::Nothing,
        }
    }

    /// Resizes, and asks for the surface to be configured where that is due.
    fn reconfigure_to(&mut self, new_size: PhysicalSize) -> (action: Action)
        ensures
            final(self)@ == old(self)@.resize(new_size),
            action == (if new_size.is_usable() {
                Action::Reconfigure
            } else {
                Action::Nothing
            }),
    {
        if self.resize(new_size) {
            Action::Reconfigure
        } else {
            Action::Nothing
        }
    }

    /// Takes the outcome of drawing a frame and says what the caller does
    /// next. The state stays as it is.
    pub fn frame_result(&mut self, result: Result<(), SurfaceError>) -> (action: Action)
        ensures
            final(self)@ == old(self)@,
            action == old(self)@.frame_reaction(result),
    {
        match result {
            Ok(_) => Action::Nothing,
            Err(SurfaceError::Lost) | Err(SurfaceError::Outdated) => {
                let size = self.size;
                self.reconfigure_to(size)
            },
            Err(SurfaceError::OutOfMemory) => Action::Exit,
            Err(SurfaceError::Timeout) => Action::WarnTimeout,
        }
    }
}

/// Picks the format of the surface among those that it offers: the first one
/// in sRGB, or the very first where none is. `is_srgb` says of each offered
/// format, in order, whether it is in sRGB.
pub fn choose_surface_format(is_srgb: &Vec<bool>) -> (chosen: usize)
    requires
        is_srgb@.len() > 0,
    ensures
        chosen < is_srgb@.len(),
        forall|j: int| 0 <= j < chosen ==> !is_srgb@[j],
        is_srgb@[chosen as int] || (chosen == 0 && forall|j: int|
            0 <= j < is_srgb@.len() ==> !is_srgb@[j]),
{
    let mut i: usize = 0;
    while i < is_srgb.len()
        invariant
            i <= is_srgb@.len(),
            forall|j: int| 0 <= j < i ==> !is_srgb@[j],
        decreases is_srgb@.len() - i,
    {
        if is_srgb[i] {
            return i;
        }
        i = i + 1;
    }
    0
}

/// A tick while the primary button is held appends one particle, spawned
/// under the pointer with the push of the tick and then pulled once like the
/// others. The particles that were there keep their places in the order.
pub proof fn lemma_tick_spawns_under_pointer<P: Fn(u32, u32) -> (u32, u32), A: Fn(u32, u32) -> u32>(
    pull: &P,
    adder: &A,
    before: StateView,
    push: (u32, u32),
    after: StateView,
)
    requires
        before.is_lmb_pressed,
        is_tick(pull, adder, before, push, after),
    ensures
        after.instances.len() == before.instances.len() + 1,
        is_pulled(
            pull,
            adder,
            spawned_at(before.mouse_x, before.mouse_y, push),
            after.instances.last(),
        ),
        forall|i: int|
            0 <= i < before.instances.len() ==> is_pulled(
                pull,
                adder,
                before.instances[i],
                #[trigger] after.instances[i],
            ),
{
    let spawned = before.spawn(push);
    assert(spawned.instances.last() == spawned_at(before.mouse_x, before.mouse_y, push));
    assert forall|i: int| 0 <= i < before.instances.len() implies is_pulled(
        pull,
        adder,
        before.instances[i],
        #[trigger] after.instances[i],
    ) by {
        assert(spawned.instances[i] == before.instances[i]);
    }
}

/// While the primary button is held, every tick adds exactly one particle,
/// whatever the physics does: where each state of `trace` is one tick after
/// the one before it, the last state has as many particles more than the
/// first as there were ticks.
pub proof fn lemma_ticks_spawn_one_each<P: Fn(u32, u32) -> (u32, u32), A: Fn(u32, u32) -> u32>(
    pull: &P,
    adder: &A,
    trace: Seq<StateView>,
    pushes: Seq<(u32, u32)>,
)
    requires
        trace.len() == pushes.len() + 1,
        trace[0].is_lmb_pressed,
        forall|k: int|
            0 <= k < pushes.len() ==> is_tick(
                pull,
                adder,
                trace[k],
                #[trigger] pushes[k],
                trace[k + 1],
            ),
    ensures
        trace.last().is_lmb_pressed,
        trace.last().instances.len() == trace[0].instances.len() + pushes.len(),
    decreases pushes.len(),
{
    if pushes.len() > 0 {
        let n = pushes.len() as int;
        assert forall|k: int| 0 <= k < n - 1 implies is_tick(
            pull,
            adder,
            trace.drop_last()[k],
            #[trigger] pushes.drop_last()[k],
            trace.drop_last()[k + 1],
        ) by {
            assert(is_tick(pull, adder, trace[k], pushes[k], trace[k + 1]));
        }
        lemma_ticks_spawn_one_each(pull, adder, trace.drop_last(), pushes.drop_last());
        assert(is_tick(pull, adder, trace[n - 1], pushes[n - 1], trace[n]));
    }
}

/// No event removes, adds or changes a particle, and the shapes stay as they
/// are: only a tick touches the collection.
pub proof fn lemma_events_keep_particles(state: StateView, event: Event)
    ensures
        state.after_event(event).instances == state.instances,
        state.after_event(event).shape == state.shape,
        state.after_event(event).black_hole == state.black_hole,
{
}

/// The draws of a frame fit the buffers that they read. The instance buffer
/// holds one stride for each instance that is drawn; each index buffer holds
/// two bytes for each index that is read; and every index that is read names a
/// vertex that its vertex buffer holds.
pub proof fn lemma_draws_fit_buffers(state: StateView, instance_buffer: Seq<u8>)
    requires
        state.shape.is_consistent(),
        state.black_hole.is_consistent(),
        state.instances.len() <= u32::MAX,
        is_word_image(instance_buffer, record_words(raw_of(state.instances))),
    ensures
        state.draws().len() == 2,
        instance_buffer.len() == 24 * state.draws()[0].num_instances,
        state.shape.index_buffer.len() == 2 * state.draws()[0].num_indices,
        state.black_hole.index_buffer.len() == 2 * state.draws()[1].num_indices,
        state.shape.vertex_buffer.len() == 24 * state.shape.vertices.len(),
        state.black_hole.vertex_buffer.len() == 24 * state.black_hole.vertices.len(),
        forall|j: int|
            0 <= j < state.draws()[0].num_indices ==> #[trigger] state.shape.indices[j]
                < state.shape.vertices.len(),
        forall|j: int|
            0 <= j < state.draws()[1].num_indices ==> #[trigger] state.black_hole.indices[j]
                < state.black_hole.vertices.len(),
{
    lemma_buffer_length(raw_of(state.instances), instance_buffer);
    lemma_buffer_length(state.shape.vertices, state.shape.vertex_buffer);
    lemma_buffer_length(state.black_hole.vertices, state.black_hole.vertex_buffer);
    assert forall|j: int|
        0 <= j < state.draws()[0].num_indices implies #[trigger] state.shape.indices[j]
        < state.shape.vertices.len() by {
        lemma_fan_in_bounds(state.shape.vertices.len(), j);
    }
    assert forall|j: int|
        0 <= j < state.draws()[1].num_indices implies #[trigger] state.black_hole.indices[j]
        < state.black_hole.vertices.len() by {
        lemma_fan_in_bounds(state.black_hole.vertices.len(), j);
    }
}

} // verus!
