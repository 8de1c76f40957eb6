//! The controller's state machine: which movement keys are held, where the
//! pointer went, whether it is dragging, and what each frame is to do about
//! it.
//!
//! The controller never looks inside a pointer position. It is generic in
//! the type `V` of positions and only remembers from where to where the
//! pointer moved last; what that displacement amounts to is for the caller
//! to work out.
use std::time::Duration;
use std::time::Instant;
use vstd::prelude::*;

verus! {

/// `std::time::Instant`, a reading of the monotonic clock. Nothing inside a
/// reading is visible to proofs.
#[verifier::external_type_specification]
#[verifier::external_body]
pub struct ExInstant(std::time::Instant);

/// `std::time::Instant::now` reads the monotonic clock. The reading depends on
/// the moment of the call, so nothing is claimed of it.
pub assume_specification[ std::time::Instant::now ]() -> (now: Instant);

/// `std::time::Instant::elapsed` gives the time that has passed since the
/// reading was taken. The amount depends on the moment of the call, so
/// nothing is claimed of it.
pub assume_specification[ std::time::Instant::elapsed ](since: &Instant) -> (elapsed: Duration);

/// Whether a key or button went down or came up.
#[derive(Clone, Copy, Debug, PartialEq, Eq, Structural)]
pub enum ElementState {
    Pressed,
    Released,
}

/// The keys the controller knows, and `Other` for every key it does not.
#[derive(Clone, Copy, Debug, PartialEq, Eq, Structural)]
pub enum Key {
    A,
    D,
    E,
    Q,
    S,
    W,
    Other,
}

/// A pointer button.
#[derive(Clone, Copy, Debug, PartialEq, Eq, Structural)]
pub enum MouseButton {
    Left,
    Right,
    Middle,
    Other(u16),
}

/// One key going down or coming up. `virtual_keycode` is `None` where the
/// platform could not name the key.
#[derive(Clone, Copy, Debug, PartialEq, Eq, Structural)]
pub struct KeyboardInput {
    pub state: ElementState,
    pub virtual_keycode: Option<Key>,
}

/// What the window reports to the controller.
#[derive(Debug, PartialEq)]
pub enum Event<V> {
    KeyboardInput { input: KeyboardInput },
    CursorMoved { position: V },
    MouseInput { state: ElementState, button: MouseButton },
    /// Any event that changes neither the keys held, nor the pointer, nor
    /// the dragging.
    Other,
}

/// One flag for each of the three axes of movement.
#[derive(Clone, Copy, Debug, PartialEq, Eq, Structural)]
pub struct Axes {
    pub x: bool,
    pub y: bool,
    pub z: bool,
}

/// The direction of movement that the held keys ask for: along each axis
/// `1`, `-1`, or `0` for none. `x` points right, `y` up and `z` forward.
#[derive(Clone, Copy, Debug, PartialEq, Eq, Structural)]
pub struct Movement {
    pub x: i8,
    pub y: i8,
    pub z: i8,
}

/// A move of the pointer from one position to another.
#[derive(Debug, PartialEq)]
pub struct Displacement<V> {
    pub from: V,
    pub to: V,
}

impl<V: Copy> Clone for Displacement<V> {
    fn clone(&self) -> (copy: Self)
        ensures
            copy == *self,
    {
        *self
    }
}

impl<V: Copy> Copy for Displacement<V> {

}

/// What the controller has gathered from the events so far.
#[derive(Debug, PartialEq)]
pub struct InputState<V> {
    /// The keys held that push along an axis: right, up, forward.
    pub direction: Axes,
    /// The keys held that push against an axis: left, down, backward.
    pub direction_complement: Axes,
    /// Where the pointer was seen last.
    pub mouse_recent: V,
    /// The last move of the pointer, if no frame has used it yet; else a
    /// displacement that goes nowhere.
    pub mouse_delta: Displacement<V>,
    /// Whether the left pointer button is held.
    pub dragging: bool,
}

impl<V: Copy> Clone for InputState<V> {
    fn clone(&self) -> (copy: Self)
        ensures
            copy == *self,
    {
        *self
    }
}

impl<V: Copy> Copy for InputState<V> {

}

/// What one frame is to do.
#[derive(Debug)]
pub struct Tick<V> {
    /// The time since the frame before.
    pub elapsed: Duration,
    /// The direction in which to move the camera.
    pub movement: Movement,
    /// The displacement of the pointer by which to turn the camera; `None`
    /// where the camera is not to turn at all.
    pub rotation: Option<Displacement<V>>,
}

/// The pull along one axis of a key pushing along it and a key pushing
/// against it.
pub open spec fn net(along: bool, against: bool) -> i8 {
    if along == against {
        0i8
    } else if along {
        1i8
    } else {
        -1i8
    }
}

/// The key that pushes the other way on the axis of `key`.
pub open spec fn opposite(key: Key) -> Key {
    match key {
        Key::A => Key::D,
        Key::D => Key::A,
        Key::E => Key::Q,
        Key::Q => Key::E,
        Key::S => Key::W,
        Key::W => Key::S,
        Key::Other => Key::Other,
    }
}

/// The going down of `key`.
pub open spec fn pressed(key: Key) -> KeyboardInput {
    KeyboardInput { state: ElementState::Pressed, virtual_keycode: Some(key) }
}

/// `event` is `key` going down or coming up.
pub open spec fn is_about<V>(event: Event<V>, key: Key) -> bool {
    event matches Event::KeyboardInput { input } && input.virtual_keycode == Some(key)
}

impl Movement {
    /// The component of the movement on the axis of `key`; `0` for a key
    /// without an axis.
    pub open spec fn on_axis_of(self, key: Key) -> int {
        match key {
            Key::A | Key::D => self.x as int,
            Key::E | Key::Q => self.y as int,
            Key::S | Key::W => self.z as int,
            Key::Other => 0,
        }
    }
}

impl<V> Displacement<V> {
    /// The displacement that goes nowhere from `position`.
    pub open spec fn still(position: V) -> Displacement<V> {
        Displacement { from: position, to: position }
    }
}

impl<V> InputState<V> {
    /// No key held, no move of the pointer pending, not dragging, and the
    /// pointer taken to be at `pointer`.
    pub open spec fn idle(pointer: V) -> InputState<V> {
        InputState {
            direction: Axes { x: false, y: false, z: false },
            direction_complement: Axes { x: false, y: false, z: false },
            mouse_recent: pointer,
            mouse_delta: Displacement::still(pointer),
            dragging: false,
        }
    }

    /// The state after a key went down or came up. `D`, `E` and `W` push
    /// right, up and forward; `A`, `Q` and `S` push left, down and backward.
    /// Any other key, and a key without a name, changes nothing.
    pub open spec fn after_keyboard_input(self, input: KeyboardInput) -> InputState<V> {
        let held = input.state == ElementState::Pressed;
        match input.virtual_keycode {
            Some(Key::E) => InputState { direction: Axes { y: held, ..self.direction }, ..self },
            Some(Key::Q) => InputState {
                direction_complement: Axes { y: held, ..self.direction_complement },
                ..self
            },
            Some(Key::D) => InputState { direction: Axes { x: held, ..self.direction }, ..self },
            Some(Key::A) => InputState {
                direction_complement: Axes { x: held, ..self.direction_complement },
                ..self
            },
            Some(Key::W) => InputState { direction: Axes { z: held, ..self.direction }, ..self },
            Some(Key::S) => InputState {
                direction_complement: Axes { z: held, ..self.direction_complement },
                ..self
            },
            Some(Key::Other) | None => self,
        }
    }

    /// The state after an event. A move of the pointer replaces the pending
    /// displacement by the one from the last position to the new one. Only
    /// the left button starts and ends a drag.
    pub open spec fn after_event(self, event: Event<V>) -> InputState<V> {
        match event {
            Event::KeyboardInput { input } => self.after_keyboard_input(input),
            Event::CursorMoved { position } => InputState {
                mouse_recent: position,
                mouse_delta: Displacement { from: self.mouse_recent, to: position },
                ..self
            },
            Event::MouseInput { state, button: MouseButton::Left } => InputState {
                dragging: state == ElementState::Pressed,
                ..self
            },
            Event::MouseInput { .. } | Event::Other => self,
        }
    }

    /// Whether `key` is held. `Other` never is.
    pub open spec fn holds(self, key: Key) -> bool {
        match key {
            Key::D => self.direction.x,
            Key::A => self.direction_complement.x,
            Key::E => self.direction.y,
            Key::Q => self.direction_complement.y,
            Key::W => self.direction.z,
            Key::S => self.direction_complement.z,
            Key::Other => false,
        }
    }

    /// The movement that the held keys ask for: on each axis the key along it
    /// less the key against it.
    pub open spec fn net_movement(self) -> Movement {
        Movement {
            x: net(self.direction.x, self.direction_complement.x),
            y: net(self.direction.y, self.direction_complement.y),
            z: net(self.direction.z, self.direction_complement.z),
        }
    }

    /// The displacement by which a frame turns the camera: the pending one
    /// while dragging; otherwise the camera does not turn.
    pub open spec fn rotation(self) -> Option<Displacement<V>> {
        if self.dragging {
            Some(self.mouse_delta)
        } else {
            None
        }
    }

    /// The state after a frame: while dragging the pending displacement is
    /// used up, and one that goes nowhere takes its place; otherwise it
    /// stays for a later frame.
    pub open spec fn after_frame(self) -> InputState<V> {
        if self.dragging {
            InputState { mouse_delta: Displacement::still(self.mouse_recent), ..self }
        } else {
            self
        }
    }
}

/// A key is held once it has gone down, and whether it is held changes with
/// no event but its own going down or coming up, nor with a frame.
pub proof fn lemma_key_stays_held<V>(state: InputState<V>, key: Key, event: Event<V>)
    requires
        key != Key::Other,
    ensures
        state.after_event(Event::KeyboardInput { input: pressed(key) }).holds(key),
        !is_about(event, key) ==> state.after_event(event).holds(key) == state.holds(key),
        state.after_frame().holds(key) == state.holds(key),
{
}

/// While a key and its opposite are both held there is no movement on their
/// axis.
pub proof fn lemma_opposing_keys_cancel<V>(state: InputState<V>, key: Key)
    requires
        state.holds(key),
        state.holds(opposite(key)),
    ensures
        state.net_movement().on_axis_of(key) == 0,
{
}

/// A displacement of the pointer turns the camera at most once: the frame
/// after one that turned the camera turns it by a displacement that goes
/// nowhere, unless the pointer has moved in between. The keys held are not
/// touched by a frame.
pub proof fn lemma_rotation_is_used_once<V>(state: InputState<V>)
    requires
        state.dragging,
    ensures
        state.after_frame().rotation() == Some(Displacement::still(state.mouse_recent)),
        state.after_frame().net_movement() == state.net_movement(),
        state.after_frame().after_frame() == state.after_frame(),
{
}

/// The controller: the moment of its last frame and the input gathered since
/// it was made.
pub struct Interaction<V> {
    clock: Instant,
    state: InputState<V>,
}

impl<V> View for Interaction<V> {
    type V = InputState<V>;

    closed spec fn view(&self) -> InputState<V> {
        self.state
    }
}

fn signed(along: bool, against: bool) -> (pull: i8)
    ensures
        pull == net(along, against),
{
    if along == against {
        0
    } else if along {
        1
    } else {
        -1
    }
}

impl<V: Copy> Interaction<V> {
    /// A controller with no key held and no drag, whose first frame measures
    /// its time from now, and which takes the pointer to be at `pointer`.
    pub fn new(pointer: V) -> (interaction: Interaction<V>)
        ensures
            interaction@ == InputState::idle(pointer),
    {
        Interaction {
            clock: Instant::now(),
            state: InputState {
                direction: Axes { x: false, y: false, z: false },
                direction_complement: Axes { x: false, y: false, z: false },
                mouse_recent: pointer,
                mouse_delta: Displacement { from: pointer, to: pointer },
                dragging: false,
            },
        }
    }

    /// The input gathered so far.
    pub fn state(&self) -> (state: InputState<V>)
        ensures
            state == self@,
    {
        self.state
    }

    /// Takes note of a key going down or coming up.
    pub fn process_keyboard_input(&mut self, input: KeyboardInput)
        ensures
            final(self)@ == old(self)@.after_keyboard_input(input),
    {
        let held = match input.state {
            ElementState::Pressed => true,
            ElementState::Released => false,
        };
        let key = match input.virtual_keycode {
            Some(key) => key,
            None => return ,
        };
        match key {
            Key::E => self.state.direction.y = held,
            Key::Q => self.state.direction_complement.y = held,
            Key::D => self.state.direction.x = held,
            Key::A => self.state.direction_complement.x = held,
            Key::W => self.state.direction.z = held,
            Key::S => self.state.direction_complement.z = held,
            Key::Other => (),
        }
    }

    /// Takes note of an event.
    pub fn process_event(&mut self, event: &Event<V>)
        ensures
            final(self)@ == old(self)@.after_event(*event),
    {
        match *event {
            Event::KeyboardInput { input } => self.process_keyboard_input(input),
            Event::CursorMoved { position } => {
                self.state.mouse_delta = Displacement {
                    from: self.state.mouse_recent,
                    to: position,
                };
                self.state.mouse_recent = position;
            },
            Event::MouseInput { state: ElementState::Pressed, button: MouseButton::Left } => {
                self.state.dragging = true
            },
            Event::MouseInput { state: ElementState::Released, button: MouseButton::Left } => {
                self.state.dragging = false
            },
            _ => (),
        }
    }

    /// What a frame is to do that comes `elapsed` after the one before:
    /// move as the held keys ask and, while dragging, turn by the pending
    /// displacement of the pointer, which is thereby used up.
    pub fn advance(&mut self, elapsed: Duration) -> (tick: Tick<V>)
        ensures
            tick.elapsed == elapsed,
            tick.movement == old(self)@.net_movement(),
            tick.rotation == old(self)@.rotation(),
            final(self)@ == old(self)@.after_frame(),
    {
        let movement = Movement {
            x: signed(self.state.direction.x, self.state.direction_complement.x),
            y: signed(self.state.direction.y, self.state.direction_complement.y),
            z: signed(self.state.direction.z, self.state.direction_complement.z),
        };
        let rotation = if self.state.dragging {
            let pending = self.state.mouse_delta;
            self.state.mouse_delta = Displacement {
                from: self.state.mouse_recent,
                to: self.state.mouse_recent,
            };
            Some(pending)
        } else {
            None
        };
        Tick { elapsed, movement, rotation }
    }

    /// The time since the frame before, or since the controller was made;
    /// the next frame measures from now.
    fn compute_delta_time(&mut self) -> (elapsed: Duration)
        ensures
            final(self)@ == old(self)@,
    {
        let elapsed = self.clock.elapsed();
        self.clock = Instant::now();
        elapsed
    }

    /// Measures the time since the frame before and says what this frame is
    /// to do. The time is whatever the clock gives; all else is as in
    /// `advance`.
    pub fn update(&mut self) -> (tick: Tick<V>)
        ensures
            tick.movement == old(self)@.net_movement(),
            tick.rotation == old(self)@.rotation(),
            final(self)@ == old(self)@.after_frame(),
    {
        let elapsed = self.compute_delta_time();
        self.advance(elapsed)
    }
}

} // verus!
