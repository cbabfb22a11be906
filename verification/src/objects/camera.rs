//! The camera's input-driven state: six movement-intent flags and the look gate.
//!
//! The camera's pose is made of real numbers and lives with the caller. This
//! module decides what happens to it: which unit steps a frame applies and in
//! which order, and which input events turn, reset or leave the pose.

use vstd::prelude::*;

use crate::input::{InputEvent, Key, MouseButton};

verus! {

/// One of the six ways the camera can be asked to move. The variants are listed
/// in the order in which a frame applies them.
#[derive(Clone, Copy, Debug, PartialEq, Eq, Structural)]
pub enum Direction {
    Up,
    Left,
    Down,
    Right,
    Forward,
    Backward,
}

/// An axis of the camera's own frame, derived each frame from its look direction.
#[derive(Clone, Copy, Debug, PartialEq, Eq, Structural)]
pub enum Axis {
    /// The camera's right-hand side.
    Right,
    /// The camera's up.
    Up,
    /// The look direction.
    Forward,
}

impl Direction {
    /// The camera axis along which this movement goes.
    pub open spec fn spec_axis(self) -> Axis {
        match self {
            Direction::Up | Direction::Down => Axis::Up,
            Direction::Left | Direction::Right => Axis::Right,
            Direction::Forward | Direction::Backward => Axis::Forward,
        }
    }

    #[verifier::when_used_as_spec(spec_axis)]
    pub fn axis(self) -> (a: Axis)
        ensures
            a == self.spec_axis(),
    {
        match self {
            Direction::Up | Direction::Down => Axis::Up,
            Direction::Left | Direction::Right => Axis::Right,
            Direction::Forward | Direction::Backward => Axis::Forward,
        }
    }

    /// `1` where the movement follows its axis, `-1` where it goes against it.
    pub open spec fn spec_sign(self) -> int {
        match self {
            Direction::Up | Direction::Right | Direction::Forward => 1,
            Direction::Down | Direction::Left | Direction::Backward => -1,
        }
    }

    pub fn sign(self) -> (s: i8)
        ensures
            s == self.spec_sign(),
    {
        match self {
            Direction::Up | Direction::Right | Direction::Forward => 1,
            Direction::Down | Direction::Left | Direction::Backward => -1,
        }
    }

    /// The place of this movement in the order in which a frame applies them.
    pub open spec fn rank(self) -> int {
        match self {
            Direction::Up => 0,
            Direction::Left => 1,
            Direction::Down => 2,
            Direction::Right => 3,
            Direction::Forward => 4,
            Direction::Backward => 5,
        }
    }
}

/// A point or a direction of world space with whole-number coordinates.
#[derive(Clone, Copy, Debug, PartialEq, Eq, Structural)]
pub struct GridVector {
    pub x: i32,
    pub y: i32,
    pub z: i32,
}

/// What the caller has to do to the camera's pose in answer to an input event.
#[derive(Clone, Copy, Debug, PartialEq, Eq, Structural)]
pub enum PoseCommand {
    /// Leave the pose as it is.
    Keep,
    /// Put the camera at `position`, looking along `direction`.
    Reset { position: GridVector, direction: GridVector },
    /// Turn the look direction by the pointer's offset from the window centre,
    /// then move the pointer back to the centre.
    Look,
}

/// The command that puts the camera one unit in front of the origin, looking
/// down the negative z axis.
pub open spec fn front_view() -> PoseCommand {
    PoseCommand::Reset {
        position: GridVector { x: 0, y: 0, z: 1 },
        direction: GridVector { x: 0, y: 0, z: -1i32 },
    }
}

/// The input-driven state of the camera.
#[derive(Clone, Copy, Debug, PartialEq, Eq, Structural)]
pub struct Camera {
    pub moving_up: bool,
    pub moving_left: bool,
    pub moving_down: bool,
    pub moving_right: bool,
    pub moving_forward: bool,
    pub moving_backward: bool,
    /// The look gate: pointer motion turns the camera only while this is set.
    pub moving_direction: bool,
}

/// `[d]` if `on`, else nothing.
pub open spec fn step_if(on: bool, d: Direction) -> Seq<Direction> {
    if on {
        seq![d]
    } else {
        Seq::empty()
    }
}

impl Camera {
    /// Whether the camera is currently asked to move in direction `d`.
    pub open spec fn spec_is_moving(&self, d: Direction) -> bool {
        match d {
            Direction::Up => self.moving_up,
            Direction::Left => self.moving_left,
            Direction::Down => self.moving_down,
            Direction::Right => self.moving_right,
            Direction::Forward => self.moving_forward,
            Direction::Backward => self.moving_backward,
        }
    }

    /// This camera with the flag for `d` set to `on` and everything else as it is.
    pub open spec fn with_moving(self, d: Direction, on: bool) -> Camera {
        match d {
            Direction::Up => Camera { moving_up: on, ..self },
            Direction::Left => Camera { moving_left: on, ..self },
            Direction::Down => Camera { moving_down: on, ..self },
            Direction::Right => Camera { moving_right: on, ..self },
            Direction::Forward => Camera { moving_forward: on, ..self },
            Direction::Backward => Camera { moving_backward: on, ..self },
        }
    }

    /// The unit steps that one frame applies to the position, in order: one for
    /// each active flag, none for the others. Opposite flags do not cancel here;
    /// each contributes its own step.
    pub open spec fn movement(self) -> Seq<Direction> {
        step_if(self.moving_up, Direction::Up)
            + step_if(self.moving_left, Direction::Left)
            + step_if(self.moving_down, Direction::Down)
            + step_if(self.moving_right, Direction::Right)
            + step_if(self.moving_forward, Direction::Forward)
            + step_if(self.moving_backward, Direction::Backward)
    }

    /// The state after a key transition.
    pub open spec fn after_key(self, key: Key, pressed: bool) -> Camera {
        match key.spec_direction() {
            Some(d) => self.with_moving(d, pressed),
            None => self,
        }
    }

    /// The state after a mouse button transition: only the right button is observed.
    pub open spec fn after_mouse(self, button: MouseButton, pressed: bool) -> Camera {
        if button == MouseButton::Right {
            Camera { moving_direction: pressed, ..self }
        } else {
            self
        }
    }

    /// The state after one input event.
    pub open spec fn after_event(self, event: InputEvent) -> Camera {
        match event {
            InputEvent::KeyTransition { key, pressed } => self.after_key(key, pressed),
            InputEvent::MouseButtonTransition { button, pressed } => self.after_mouse(
                button,
                pressed,
            ),
            InputEvent::PointerMoved => self,
            InputEvent::Other => self,
        }
    }

    /// What one input event asks the caller to do to the pose.
    pub open spec fn command_for(self, event: InputEvent) -> PoseCommand {
        match event {
            InputEvent::KeyTransition { key, pressed } => if key.spec_is_reset() {
                front_view()
            } else {
                PoseCommand::Keep
            },
            InputEvent::PointerMoved => if self.moving_direction {
                PoseCommand::Look
            } else {
                PoseCommand::Keep
            },
            _ => PoseCommand::Keep,
        }
    }

    /// The camera at rest: no movement asked for, look gate closed.
    pub open spec fn at_rest() -> Camera {
        Camera {
            moving_up: false,
            moving_left: false,
            moving_down: false,
            moving_right: false,
            moving_forward: false,
            moving_backward: false,
            moving_direction: false,
        }
    }

    /// The state after a run of input events, applied first to last.
    pub open spec fn after_events(self, events: Seq<InputEvent>) -> Camera
        decreases events.len(),
    {
        if events.len() == 0 {
            self
        } else {
            self.after_events(events.drop_last()).after_event(events.last())
        }
    }

    /// A camera at rest.
    pub fn new() -> (camera: Camera)
        ensures
            camera == Camera::at_rest(),
    {
        Camera {
            moving_up: false,
            moving_left: false,
            moving_down: false,
            moving_right: false,
            moving_forward: false,
            moving_backward: false,
            moving_direction: false,
        }
    }

    #[verifier::when_used_as_spec(spec_is_moving)]
    pub fn is_moving(&self, d: Direction) -> (on: bool)
        ensures
            on == self.spec_is_moving(d),
    {
        match d {
            Direction::Up => self.moving_up,
            Direction::Left => self.moving_left,
            Direction::Down => self.moving_down,
            Direction::Right => self.moving_right,
            Direction::Forward => self.moving_forward,
            Direction::Backward => self.moving_backward,
        }
    }

    /// The integration step of one frame, as far as it is decided here: the unit
    /// steps to apply to the position, in the order in which to apply them. The
    /// caller derives the three axes once from the look direction as it stands
    /// before the first step, and then adds to the position, for each entry, the
    /// entry's axis times its sign times the step length. The flags are left as
    /// they are.
    pub fn update(&self) -> (steps: Vec<Direction>)
        ensures
            steps@ == self.movement(),
    {
        let mut steps: Vec<Direction> = Vec::new();
        if self.moving_up {
            steps.push(Direction::Up);
        }
        if self.moving_left {
            steps.push(Direction::Left);
        }
        if self.moving_down {
            steps.push(Direction::Down);
        }
        if self.moving_right {
            steps.push(Direction::Right);
        }
        if self.moving_forward {
            steps.push(Direction::Forward);
        }
        if self.moving_backward {
            steps.push(Direction::Backward);
        }
        steps
    }

    /// Applies one input event to the flags and says what it means for the pose.
    pub fn process_input(&mut self, event: &InputEvent) -> (command: PoseCommand)
        ensures
            *final(self) == old(self).after_event(*event),
            command == old(self).command_for(*event),
    {
        match event {
            InputEvent::KeyTransition { key, pressed } => self.handle_key(*key, *pressed),
            InputEvent::MouseButtonTransition { button, pressed } => {
                self.handle_mouse(*button, *pressed);
                PoseCommand::Keep
            },
            InputEvent::PointerMoved => {
                if self.moving_direction {
                    PoseCommand::Look
                } else {
                    PoseCommand::Keep
                }
            },
            InputEvent::Other => PoseCommand::Keep,
        }
    }

    /// A key transition: a movement key sets its flag to `pressed`, the front
    /// view shortcut asks for the front view on press and on release alike, and
    /// any other key does nothing.
    pub fn handle_key(&mut self, key: Key, pressed: bool) -> (command: PoseCommand)
        ensures
            *final(self) == old(self).after_key(key, pressed),
            command == (if key.spec_is_reset() {
                front_view()
            } else {
                PoseCommand::Keep
            }),
    {
        match key {
            Key::ControlLeft => {
                self.moving_up = pressed;
                PoseCommand::Keep
            },
            Key::ShiftLeft => {
                self.moving_down = pressed;
                PoseCommand::Keep
            },
            Key::KeyA => {
                self.moving_left = pressed;
                PoseCommand::Keep
            },
            Key::KeyD => {
                self.moving_right = pressed;
                PoseCommand::Keep
            },
            Key::KeyW => {
                self.moving_forward = pressed;
                PoseCommand::Keep
            },
            Key::KeyS => {
                self.moving_backward = pressed;
                PoseCommand::Keep
            },
            Key::F1 => PoseCommand::Reset {
                position: GridVector { x: 0, y: 0, z: 1 },
                direction: GridVector { x: 0, y: 0, z: -1 },
            },
            Key::Other => PoseCommand::Keep,
        }
    }

    /// A mouse button transition: the right button opens the look gate while it
    /// is held; the other buttons do nothing.
    pub fn handle_mouse(&mut self, button: MouseButton, pressed: bool)
        ensures
            *final(self) == old(self).after_mouse(button, pressed),
    {
        match button {
            MouseButton::Right => {
                self.moving_direction = pressed;
            },
            _ => {},
        }
    }
}

/// Whether `event` is a transition of the key that asks for movement `d`.
pub open spec fn is_transition_of(event: InputEvent, d: Direction) -> bool {
    event matches InputEvent::KeyTransition { key, .. } && key.spec_direction() == Some(d)
}

/// What the most recent transition of the key for `d` in `events` was (`true`
/// for a press), or `None` if that key does not occur.
pub open spec fn last_key_transition(events: Seq<InputEvent>, d: Direction) -> Option<bool>
    decreases events.len(),
{
    if events.len() == 0 {
        None
    } else if is_transition_of(events.last(), d) {
        Some(events.last()->KeyTransition_pressed)
    } else {
        last_key_transition(events.drop_last(), d)
    }
}

/// What the most recent transition of the right mouse button in `events` was,
/// or `None` if that button does not occur.
pub open spec fn last_look_transition(events: Seq<InputEvent>) -> Option<bool>
    decreases events.len(),
{
    if events.len() == 0 {
        None
    } else if events.last() matches InputEvent::MouseButtonTransition { button, pressed }
        && button == MouseButton::Right {
        Some(events.last()->MouseButtonTransition_pressed)
    } else {
        last_look_transition(events.drop_last())
    }
}

/// The sum of the signs of the steps in `steps` that go along `axis`.
pub open spec fn net_steps(steps: Seq<Direction>, axis: Axis) -> int
    decreases steps.len(),
{
    if steps.len() == 0 {
        0
    } else {
        net_steps(steps.drop_last(), axis) + if steps.last().spec_axis() == axis {
            steps.last().spec_sign()
        } else {
            0
        }
    }
}

/// `1` for `true`, `0` for `false`.
pub open spec fn count(flag: bool) -> int {
    if flag {
        1
    } else {
        0
    }
}

/// Every input event is idempotent: delivering it a second time right after the
/// first changes no flag and asks for the same thing. In particular a key
/// release delivered twice leaves the key's flag off both times.
pub proof fn lemma_event_idempotent(camera: Camera, event: InputEvent)
    ensures
        camera.after_event(event).after_event(event) == camera.after_event(event),
        camera.after_event(event).command_for(event) == camera.command_for(event),
        forall|d: Direction|
            is_transition_of(event, d) ==> {
                &&& camera.after_event(event).spec_is_moving(d)
                    == event->KeyTransition_pressed
                &&& camera.after_event(event).after_event(event).spec_is_moving(d)
                    == event->KeyTransition_pressed
            },
{
}

/// A key transition changes the flag of its own movement and no other flag, and
/// never the look gate; a key that asks for no movement changes nothing.
pub proof fn lemma_key_sets_only_its_flag(camera: Camera, key: Key, pressed: bool, d: Direction)
    ensures
        camera.after_key(key, pressed).spec_is_moving(d) == (if key.spec_direction() == Some(d) {
            pressed
        } else {
            camera.spec_is_moving(d)
        }),
        camera.after_key(key, pressed).moving_direction == camera.moving_direction,
{
}

/// Pointer motion never changes the state, and it turns the camera exactly
/// while the look gate is open.
pub proof fn lemma_pointer_motion_is_gated(camera: Camera)
    ensures
        camera.after_event(InputEvent::PointerMoved) == camera,
        camera.command_for(InputEvent::PointerMoved) == PoseCommand::Look
            <==> camera.moving_direction,
{
}

/// After any run of events, each movement flag holds the most recent transition
/// of its key, and the look gate that of the right mouse button; where the key
/// or the button did not occur, the flag is what it was before.
pub proof fn lemma_flags_hold_latest_transition(camera: Camera, events: Seq<InputEvent>)
    ensures
        forall|d: Direction|
            #[trigger] camera.after_events(events).spec_is_moving(d) == (match last_key_transition(
                events,
                d,
            ) {
                Some(pressed) => pressed,
                None => camera.spec_is_moving(d),
            }),
        camera.after_events(events).moving_direction == (match last_look_transition(events) {
            Some(pressed) => pressed,
            None => camera.moving_direction,
        }),
    decreases events.len(),
{
    if events.len() > 0 {
        let earlier = events.drop_last();
        let before = camera.after_events(earlier);
        lemma_flags_hold_latest_transition(camera, earlier);
        assert(camera.after_events(events) == before.after_event(events.last()));
        assert forall|d: Direction|
            #[trigger] camera.after_events(events).spec_is_moving(d) == (match last_key_transition(
                events,
                d,
            ) {
                Some(pressed) => pressed,
                None => camera.spec_is_moving(d),
            }) by {
            assert(before.spec_is_moving(d) == (match last_key_transition(earlier, d) {
                Some(pressed) => pressed,
                None => camera.spec_is_moving(d),
            }));
        }
    }
}

/// Whether the ranks of `steps` increase strictly from each entry to the next.
pub open spec fn ascending(steps: Seq<Direction>) -> bool {
    forall|i: int, j: int| 0 <= i < j < steps.len() ==> steps[i].rank() < steps[j].rank()
}

proof fn lemma_append_step(steps: Seq<Direction>, on: bool, d: Direction)
    requires
        ascending(steps),
        forall|i: int| 0 <= i < steps.len() ==> steps[i].rank() < d.rank(),
    ensures
        (steps + step_if(on, d)).len() == steps.len() + count(on),
        forall|x: Direction|
            (steps + step_if(on, d)).contains(x) <==> (steps.contains(x) || (on && x == d)),
        forall|a: Axis|
            #[trigger] net_steps(steps + step_if(on, d), a) == net_steps(steps, a) + (if on
                && d.spec_axis() == a {
                d.spec_sign()
            } else {
                0
            }),
        ascending(steps + step_if(on, d)),
        forall|i: int|
            0 <= i < (steps + step_if(on, d)).len() ==> (steps + step_if(on, d))[i].rank()
                <= d.rank(),
{
    let longer = steps + step_if(on, d);
    if on {
        assert(longer.drop_last() =~= steps);
        assert(longer.last() == d);
        assert forall|x: Direction| longer.contains(x) <==> (steps.contains(x) || x == d) by {
            if steps.contains(x) {
                let k = choose|k: int| 0 <= k < steps.len() && steps[k] == x;
                assert(longer[k] == x);
            }
            if x == d {
                assert(longer[longer.len() - 1] == x);
            }
        }
    } else {
        assert(longer =~= steps);
    }
}

/// The steps of a frame are exactly the movements whose flag is set, each once,
/// in the fixed order of [`Direction::rank`]. Along each axis they add up to the
/// flag with the axis minus the flag against it: opposite movements cancel, and
/// movements along different axes add up without being scaled down.
pub proof fn lemma_movement_lists_active_flags(camera: Camera)
    ensures
        forall|d: Direction| camera.movement().contains(d) <==> camera.spec_is_moving(d),
        ascending(camera.movement()),
        camera.movement().len() == count(camera.moving_up) + count(camera.moving_left) + count(
            camera.moving_down,
        ) + count(camera.moving_right) + count(camera.moving_forward) + count(
            camera.moving_backward,
        ),
        net_steps(camera.movement(), Axis::Up) == count(camera.moving_up) - count(
            camera.moving_down,
        ),
        net_steps(camera.movement(), Axis::Right) == count(camera.moving_right) - count(
            camera.moving_left,
        ),
        net_steps(camera.movement(), Axis::Forward) == count(camera.moving_forward) - count(
            camera.moving_backward,
        ),
{
    let s0 = Seq::<Direction>::empty();
    let s1 = s0 + step_if(camera.moving_up, Direction::Up);
    let s2 = s1 + step_if(camera.moving_left, Direction::Left);
    let s3 = s2 + step_if(camera.moving_down, Direction::Down);
    let s4 = s3 + step_if(camera.moving_right, Direction::Right);
    let s5 = s4 + step_if(camera.moving_forward, Direction::Forward);
    let s6 = s5 + step_if(camera.moving_backward, Direction::Backward);
    lemma_append_step(s0, camera.moving_up, Direction::Up);
    lemma_append_step(s1, camera.moving_left, Direction::Left);
    lemma_append_step(s2, camera.moving_down, Direction::Down);
    lemma_append_step(s3, camera.moving_right, Direction::Right);
    lemma_append_step(s4, camera.moving_forward, Direction::Forward);
    lemma_append_step(s5, camera.moving_backward, Direction::Backward);
    assert(s1 =~= step_if(camera.moving_up, Direction::Up));
    assert(s6 == camera.movement());
    assert forall|d: Direction| camera.movement().contains(d) <==> camera.spec_is_moving(d) by {
        assert(!s0.contains(d));
    }
}

} // verus!
