//! The decisions of the application loop.
//!
//! The host owns the window, the graphics context and the camera. It turns
//! what the windowing system delivers into the events of this module, hands
//! them to [`App`], and carries out what comes back. Nothing here waits,
//! draws or moves anything by itself.

use vstd::prelude::*;
use crate::draw_properties::DrawProperties;
use crate::input::{ElementState, InputEvent, InputState, KeyCode};
use crate::timing::FrameRateInfo;

verus! {

/// Width the window is opened with, in logical pixels.
pub const WINDOW_WIDTH: u32 = 1024;

/// Height the window is opened with, in logical pixels.
pub const WINDOW_HEIGHT: u32 = 768;

/// A button of the pointing device.
#[derive(Clone, Copy, Debug, PartialEq, Eq, Structural)]
pub enum MouseButton {
    Left,
    Right,
    Middle,
    Other,
}

/// One key going down or coming up.
#[derive(Clone, Copy, Debug, PartialEq, Eq, Structural)]
pub struct KeyEvent {
    /// Whether the key means Escape in the active layout.
    pub is_escape: bool,
    /// The physical key, where the platform could identify it.
    pub physical_key: Option<KeyCode>,
    /// Whether the platform repeated the event because the key is held.
    pub repeat: bool,
    pub state: ElementState,
}

/// What the windowing system reports about the viewer's window.
#[derive(Clone, Copy, Debug, PartialEq, Eq, Structural)]
pub enum WindowEvent {
    CloseRequested,
    /// The window now has this size in physical pixels.
    Resized { width: u32, height: u32 },
    KeyboardInput { event: KeyEvent, is_synthetic: bool },
    MouseInput { button: MouseButton, state: ElementState },
    RedrawRequested,
    /// Anything else.
    Other,
}

/// What a device reports, whichever window has the focus. `S` is the
/// scalar type of a motion.
pub enum DeviceEvent<S> {
    /// The pointing device moved by this much, unclipped by any window.
    MouseMotion { delta: (S, S) },
    /// Anything else.
    Other,
}

/// What the host is to do about a window event.
#[derive(Clone, Copy, Debug, PartialEq, Eq, Structural)]
pub enum WindowAction {
    /// Nothing.
    Nothing,
    /// Leave the loop once the frame in flight is done.
    Exit,
    /// Resize the surface and the renderer's viewport to this size.
    Resize { width: u32, height: u32 },
    /// Hide the cursor and hold it, locked if the platform can, else
    /// confined to the window.
    CaptureCursor,
    /// Put the cursor at this position, let it go and show it.
    ReleaseCursor { x: u32, y: u32 },
    /// Draw one frame and present it; with `overlay`, prepare the control
    /// panel first and draw it over the scene.
    Redraw { overlay: bool },
}

/// The answer to a window event.
#[derive(Clone, Copy, Debug, PartialEq, Eq, Structural)]
pub struct Response {
    pub action: WindowAction,
    /// Whether the control panel is to see the event too.
    pub forward_to_gui: bool,
}

/// What one logic step asks of the host.
pub struct UpdatePlan {
    /// The movements to apply to the camera, in this order, each for one
    /// fixed timestep.
    pub movements: Vec<InputEvent>,
    /// The vertical-sync setting to put in force, where it changed.
    pub vsync: Option<bool>,
}

/// Whether the event asks the viewer to close: the window's close button, or
/// Escape going either way.
pub open spec fn asks_to_exit(event: WindowEvent) -> bool {
    match event {
        WindowEvent::CloseRequested => true,
        WindowEvent::KeyboardInput { event, .. } => event.is_escape,
        _ => false,
    }
}

/// The physical key of an event that counts as movement input: a real key
/// event, not repeated, of an identified key, that does not ask to exit.
pub open spec fn movement_key(event: WindowEvent) -> Option<(KeyCode, ElementState)> {
    match event {
        WindowEvent::KeyboardInput { event, is_synthetic } => match event.physical_key {
            Some(key) if !event.is_escape && !event.repeat && !is_synthetic => Some(
                (key, event.state),
            ),
            _ => None,
        },
        _ => None,
    }
}

/// The state the right mouse button goes to, for an event about that
/// button.
pub open spec fn look_button(event: WindowEvent) -> Option<ElementState> {
    match event {
        WindowEvent::MouseInput { button: MouseButton::Right, state } => Some(state),
        _ => None,
    }
}

/// What the host is to do about `event`.
pub open spec fn action_for(event: WindowEvent, overlay: bool) -> WindowAction {
    if asks_to_exit(event) {
        WindowAction::Exit
    } else {
        match event {
            WindowEvent::Resized { width, height } if width != 0 && height != 0 => {
                WindowAction::Resize { width, height }
            },
            WindowEvent::MouseInput { button: MouseButton::Right, state } => match state {
                ElementState::Pressed => WindowAction::CaptureCursor,
                ElementState::Released => WindowAction::ReleaseCursor {
                    x: (WINDOW_WIDTH / 2) as u32,
                    y: (WINDOW_HEIGHT / 2) as u32,
                },
            },
            WindowEvent::RedrawRequested => WindowAction::Redraw { overlay },
            _ => WindowAction::Nothing,
        }
    }
}

/// Whether the control panel sees `event`: it sees every event but the
/// movement input of a key that is bound to nothing.
pub open spec fn reaches_gui(event: WindowEvent) -> bool {
    match movement_key(event) {
        Some((key, _)) => InputEvent::bound_to(key) is Some,
        None => true,
    }
}

/// The movement keys held after `event`, if `held` were held before.
pub open spec fn input_after(held: InputState, event: WindowEvent) -> InputState {
    match movement_key(event) {
        Some((key, state)) => match InputEvent::bound_to(key) {
            Some(movement) => held.with(movement, state == ElementState::Pressed),
            None => held,
        },
        None => held,
    }
}

/// Whether mouse look is active after `event`, if it was `looking` before.
pub open spec fn looking_after(looking: bool, event: WindowEvent) -> bool {
    match look_button(event) {
        Some(state) => state == ElementState::Pressed,
        None => looking,
    }
}

/// `movement` alone if it is held, else nothing.
pub open spec fn if_held(held: InputState, movement: InputEvent) -> Seq<InputEvent> {
    if held.pressed(movement) {
        seq![movement]
    } else {
        Seq::empty()
    }
}

/// The movements that are held, in the order in which a logic step applies
/// them: forward, backward, left, right, up, down.
pub open spec fn held_movements(held: InputState) -> Seq<InputEvent> {
    if_held(held, InputEvent::MoveForward) + if_held(held, InputEvent::MoveBackward) + if_held(
        held,
        InputEvent::StrafeLeft,
    ) + if_held(held, InputEvent::StrafeRight) + if_held(held, InputEvent::Ascend) + if_held(
        held,
        InputEvent::Descend,
    )
}

/// What the viewer remembers between events: which movement keys are held,
/// whether mouse look is active, which vertical-sync setting is in force, and
/// the latest frame-rate sample.
pub struct App {
    input_state: InputState,
    right_mouse_pressed: bool,
    vsync_enabled: bool,
    frame_rate_info: FrameRateInfo,
}

impl App {
    /// The movement keys that are held.
    pub closed spec fn input(self) -> InputState {
        self.input_state
    }

    /// Whether mouse look is active.
    pub closed spec fn looking(self) -> bool {
        self.right_mouse_pressed
    }

    /// The vertical-sync setting in force.
    pub closed spec fn vsync(self) -> bool {
        self.vsync_enabled
    }

    /// The latest frame-rate sample.
    pub closed spec fn frame_rate(self) -> FrameRateInfo {
        self.frame_rate_info
    }

    /// The viewer at start: no key held, mouse look off, no vertical sync,
    /// nothing measured. It never fails.
    pub fn new() -> (app: Result<Self, String>)
        ensures
            app matches Ok(a) && {
                &&& forall|e: InputEvent| !a.input().pressed(e)
                &&& !a.looking()
                &&& !a.vsync()
                &&& a.frame_rate() == (FrameRateInfo { frame_count: 0, elapsed_nanos: 0 })
            },
    {
        Ok(
            App {
                input_state: InputState::new(),
                right_mouse_pressed: false,
                vsync_enabled: false,
                frame_rate_info: FrameRateInfo::new(),
            },
        )
    }

    /// The window is there: takes over the vertical-sync setting of
    /// `draw_props` and returns it, to be set on the new surface.
    pub fn resumed<S>(&mut self, draw_props: &DrawProperties<S>) -> (vsync: bool)
        ensures
            vsync == draw_props.vsync_enabled,
            final(self).vsync() == vsync,
            final(self).input() == old(self).input(),
            final(self).looking() == old(self).looking(),
            final(self).frame_rate() == old(self).frame_rate(),
    {
        self.vsync_enabled = draw_props.vsync_enabled;
        self.vsync_enabled
    }

    /// Takes in one window event and says what the host is to do about it.
    ///
    /// Closing the window or Escape ends the loop. A resize to a size with
    /// no empty side is passed on. A real, unrepeated event of a bound key
    /// sets or clears that movement; of an unbound key, it is dropped and
    /// not even shown to the control panel. The right mouse button turns
    /// mouse look on while it is down; letting go puts the cursor back at
    /// the centre of the window. A redraw request draws one frame, with the
    /// control panel if `draw_props` shows it.
    pub fn window_event<S>(&mut self, event: WindowEvent, draw_props: &DrawProperties<S>) -> (response:
        Response)
        ensures
            response.action == action_for(event, draw_props.overlay_gui_enabled),
            response.forward_to_gui == reaches_gui(event),
            final(self).input() == input_after(old(self).input(), event),
            final(self).looking() == looking_after(old(self).looking(), event),
            final(self).vsync() == old(self).vsync(),
            final(self).frame_rate() == old(self).frame_rate(),
    {
        let mut action = WindowAction::Nothing;
        match event {
            WindowEvent::CloseRequested => {
                action = WindowAction::Exit;
            },
            WindowEvent::KeyboardInput { event: key_event, is_synthetic } => {
                if key_event.is_escape {
                    action = WindowAction::Exit;
                } else if !key_event.repeat && !is_synthetic {
                    match key_event.physical_key {
                        Some(key) => {
                            match InputEvent::from_key(key) {
                                Some(movement) => {
                                    let slot = self.input_state.index_mut(movement);
                                    *slot = key_event.state == ElementState::Pressed;
                                },
                                None => {
                                    return Response {
                                        action: WindowAction::Nothing,
                                        forward_to_gui: false,
                                    };
                                },
                            }
                        },
                        None => {},
                    }
                }
            },
            WindowEvent::Resized { width, height } => {
                if width != 0 && height != 0 {
                    action = WindowAction::Resize { width, height };
                }
            },
            WindowEvent::MouseInput { button, state } => {
                if button == MouseButton::Right {
                    self.right_mouse_pressed = state == ElementState::Pressed;
                    action =
                    match state {
                        ElementState::Pressed => WindowAction::CaptureCursor,
                        ElementState::Released => WindowAction::ReleaseCursor {
                            x: WINDOW_WIDTH / 2,
                            y: WINDOW_HEIGHT / 2,
                        },
                    };
                }
            },
            WindowEvent::RedrawRequested => {
                action = WindowAction::Redraw { overlay: draw_props.overlay_gui_enabled };
            },
            WindowEvent::Other => {},
        }
        Response { action, forward_to_gui: true }
    }

    /// Takes in one device event. The motion of the pointing device is
    /// handed back, unchanged, as the offsets to turn the camera by, while
    /// mouse look is active; any other event, and any motion while mouse
    /// look is off, gives nothing.
    pub fn device_event<S>(&self, event: DeviceEvent<S>) -> (look: Option<(S, S)>)
        ensures
            look == (match event {
                DeviceEvent::MouseMotion { delta } if self.looking() => Some(delta),
                _ => None,
            }),
    {
        match event {
            DeviceEvent::MouseMotion { delta } => {
                if self.right_mouse_pressed {
                    Some(delta)
                } else {
                    None
                }
            },
            DeviceEvent::Other => None,
        }
    }

    /// One logic step. The plan lists the movements whose keys are held,
    /// and the vertical-sync setting of `draw_props` if it differs from the
    /// one in force, which it then replaces.
    pub fn update<S>(&mut self, draw_props: &DrawProperties<S>) -> (plan: UpdatePlan)
        ensures
            plan.movements@ == held_movements(old(self).input()),
            plan.vsync == (if draw_props.vsync_enabled != old(self).vsync() {
                Some(draw_props.vsync_enabled)
            } else {
                None
            }),
            final(self).vsync() == draw_props.vsync_enabled,
            final(self).input() == old(self).input(),
            final(self).looking() == old(self).looking(),
            final(self).frame_rate() == old(self).frame_rate(),
    {
        let mut movements: Vec<InputEvent> = Vec::new();
        if self.input_state.index(InputEvent::MoveForward) {
            movements.push(InputEvent::MoveForward);
        }
        if self.input_state.index(InputEvent::MoveBackward) {
            movements.push(InputEvent::MoveBackward);
        }
        if self.input_state.index(InputEvent::StrafeLeft) {
            movements.push(InputEvent::StrafeLeft);
        }
        if self.input_state.index(InputEvent::StrafeRight) {
            movements.push(InputEvent::StrafeRight);
        }
        if self.input_state.index(InputEvent::Ascend) {
            movements.push(InputEvent::Ascend);
        }
        if self.input_state.index(InputEvent::Descend) {
            movements.push(InputEvent::Descend);
        }
        assert(movements@ =~= held_movements(self.input_state));
        let vsync = if self.vsync_enabled != draw_props.vsync_enabled {
            self.vsync_enabled = draw_props.vsync_enabled;
            Some(self.vsync_enabled)
        } else {
            None
        };
        UpdatePlan { movements, vsync }
    }

    /// Whether the key of `movement` is held.
    pub fn is_held(&self, movement: InputEvent) -> (held: bool)
        ensures
            held == self.input().pressed(movement),
    {
        self.input_state.index(movement)
    }

    /// Whether mouse look is active.
    pub fn is_looking(&self) -> (looking: bool)
        ensures
            looking == self.looking(),
    {
        self.right_mouse_pressed
    }

    /// The vertical-sync setting in force.
    pub fn vsync_enabled(&self) -> (vsync: bool)
        ensures
            vsync == self.vsync(),
    {
        self.vsync_enabled
    }

    /// The latest frame-rate sample.
    pub fn frame_rate_info(&self) -> (info: FrameRateInfo)
        ensures
            info == self.frame_rate(),
    {
        self.frame_rate_info
    }

    /// Keeps `info` as the latest frame-rate sample.
    pub fn set_frame_rate_info(&mut self, info: FrameRateInfo)
        ensures
            final(self).frame_rate() == info,
            final(self).input() == old(self).input(),
            final(self).looking() == old(self).looking(),
            final(self).vsync() == old(self).vsync(),
    {
        self.frame_rate_info = info;
    }
}

/// A key that is held alone moves the camera alone: the plan of a logic
/// step then holds its movement and nothing else.
pub proof fn lemma_one_key_one_movement(held: InputState, movement: InputEvent)
    requires
        forall|other: InputEvent| held.pressed(other) == (other == movement),
    ensures
        held_movements(held) == Seq::<InputEvent>::empty().push(movement),
{
    assert(held.pressed(InputEvent::MoveForward) == (InputEvent::MoveForward == movement));
    assert(held.pressed(InputEvent::MoveBackward) == (InputEvent::MoveBackward == movement));
    assert(held.pressed(InputEvent::StrafeLeft) == (InputEvent::StrafeLeft == movement));
    assert(held.pressed(InputEvent::StrafeRight) == (InputEvent::StrafeRight == movement));
    assert(held.pressed(InputEvent::Ascend) == (InputEvent::Ascend == movement));
    assert(held.pressed(InputEvent::Descend) == (InputEvent::Descend == movement));
    assert(held_movements(held) =~= Seq::<InputEvent>::empty().push(movement));
}

/// Mouse look follows the right button and nothing else: it is on after
/// the button went down and off after it came up, whatever it was before,
/// and no other event changes it.
pub proof fn lemma_look_follows_the_button(looking: bool, event: WindowEvent)
    ensures
        looking_after(looking, event) == (match event {
            WindowEvent::MouseInput { button: MouseButton::Right, state: ElementState::Pressed } =>
                true,
            WindowEvent::MouseInput { button: MouseButton::Right, state: ElementState::Released } =>
                false,
            _ => looking,
        }),
{
}

/// No window event both holds a key and leaves the loop, and the keys that
/// are held change only by movement input of a bound key.
pub proof fn lemma_keys_change_by_their_own_events(held: InputState, event: WindowEvent)
    ensures
        input_after(held, event) != held ==> action_for(event, true) == WindowAction::Nothing
            && reaches_gui(event),
        action_for(event, true) != WindowAction::Nothing ==> input_after(held, event) == held,
{
}

} // verus!
