//! Movement input: which movements are being asked for right now.
//!
//! Keys are tracked as held or not held rather than as single presses, so
//! that a key kept down moves the camera on every logic step.

use vstd::prelude::*;

verus! {

/// A movement the user can ask of the camera.
#[derive(Clone, Copy, Debug, PartialEq, Eq, Structural)]
pub enum InputEvent {
    MoveForward,
    MoveBackward,
    StrafeLeft,
    StrafeRight,
    Ascend,
    Descend,
}

/// A physical key, as far as the viewer tells keys apart.
#[derive(Clone, Copy, Debug, PartialEq, Eq, Structural)]
pub enum KeyCode {
    KeyW,
    KeyS,
    KeyA,
    KeyD,
    Space,
    KeyC,
    /// Any key that is bound to nothing.
    Unbound,
}

/// Whether a key or button went down or came up.
#[derive(Clone, Copy, Debug, PartialEq, Eq, Structural)]
pub enum ElementState {
    Pressed,
    Released,
}

impl InputEvent {
    /// The movement a key is bound to, if it is bound to one.
    pub open spec fn bound_to(key: KeyCode) -> Option<InputEvent> {
        match key {
            KeyCode::KeyW => Some(InputEvent::MoveForward),
            KeyCode::KeyS => Some(InputEvent::MoveBackward),
            KeyCode::KeyA => Some(InputEvent::StrafeLeft),
            KeyCode::KeyD => Some(InputEvent::StrafeRight),
            KeyCode::Space => Some(InputEvent::Ascend),
            KeyCode::KeyC => Some(InputEvent::Descend),
            KeyCode::Unbound => None,
        }
    }

    /// The movement a key is bound to, if it is bound to one.
    pub fn from_key(key: KeyCode) -> (event: Option<InputEvent>)
        ensures
            event == Self::bound_to(key),
    {
        match key {
            KeyCode::KeyW => Some(InputEvent::MoveForward),
            KeyCode::KeyS => Some(InputEvent::MoveBackward),
            KeyCode::KeyA => Some(InputEvent::StrafeLeft),
            KeyCode::KeyD => Some(InputEvent::StrafeRight),
            KeyCode::Space => Some(InputEvent::Ascend),
            KeyCode::KeyC => Some(InputEvent::Descend),
            KeyCode::Unbound => None,
        }
    }
}

/// For each movement, whether its key is held.
#[derive(Clone, Copy, Debug)]
pub struct InputState {
    move_forward: bool,
    move_backward: bool,
    strafe_left: bool,
    strafe_right: bool,
    ascend: bool,
    descend: bool,
}

impl InputState {
    /// Whether the key of movement `e` is held.
    pub closed spec fn pressed(self, e: InputEvent) -> bool {
        match e {
            InputEvent::MoveForward => self.move_forward,
            InputEvent::MoveBackward => self.move_backward,
            InputEvent::StrafeLeft => self.strafe_left,
            InputEvent::StrafeRight => self.strafe_right,
            InputEvent::Ascend => self.ascend,
            InputEvent::Descend => self.descend,
        }
    }

    /// The state in which this one holds `value` for `e` and is otherwise
    /// unchanged.
    pub closed spec fn with(self, e: InputEvent, value: bool) -> InputState {
        match e {
            InputEvent::MoveForward => InputState { move_forward: value, ..self },
            InputEvent::MoveBackward => InputState { move_backward: value, ..self },
            InputEvent::StrafeLeft => InputState { strafe_left: value, ..self },
            InputEvent::StrafeRight => InputState { strafe_right: value, ..self },
            InputEvent::Ascend => InputState { ascend: value, ..self },
            InputEvent::Descend => InputState { descend: value, ..self },
        }
    }

    /// No key is held.
    pub fn new() -> (state: Self)
        ensures
            forall|e: InputEvent| !state.pressed(e),
    {
        InputState {
            move_forward: false,
            move_backward: false,
            strafe_left: false,
            strafe_right: false,
            ascend: false,
            descend: false,
        }
    }

    /// Whether the key of movement `e` is held.
    pub fn index(&self, e: InputEvent) -> (held: bool)
        ensures
            held == self.pressed(e),
    {
        match e {
            InputEvent::MoveForward => self.move_forward,
            InputEvent::MoveBackward => self.move_backward,
            InputEvent::StrafeLeft => self.strafe_left,
            InputEvent::StrafeRight => self.strafe_right,
            InputEvent::Ascend => self.ascend,
            InputEvent::Descend => self.descend,
        }
    }

    /// The place where the state of movement `e` is kept. Writing through
    /// it changes that movement and no other.
    pub fn index_mut(&mut self, e: InputEvent) -> (slot: &mut bool)
        ensures
            *slot == old(self).pressed(e),
            *final(self) == old(self).with(e, *final(slot)),
    {
        match e {
            InputEvent::MoveForward => &mut self.move_forward,
            InputEvent::MoveBackward => &mut self.move_backward,
            InputEvent::StrafeLeft => &mut self.strafe_left,
            InputEvent::StrafeRight => &mut self.strafe_right,
            InputEvent::Ascend => &mut self.ascend,
            InputEvent::Descend => &mut self.descend,
        }
    }
}

/// Setting one movement is seen by that movement and by no other.
pub proof fn lemma_with_pressed(state: InputState, e: InputEvent, value: bool, other: InputEvent)
    ensures
        state.with(e, value).pressed(other) == (if other == e {
            value
        } else {
            state.pressed(other)
        }),
{
}

} // verus!
