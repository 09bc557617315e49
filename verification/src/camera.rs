//! The arcball camera's input state machine.
//!
//! The camera reacts to mouse input: dragging with the left button
//! rotates around the target, dragging with the right button pans, and
//! the scroll wheel zooms.  Positions and wheel deltas are carried as
//! the bit patterns of the float coordinates the window system
//! delivers; the state machine only stores and routes them, it never
//! computes with them.  The float geometry itself (projecting onto the
//! arcball, clamping the zoom) happens outside the library, driven by
//! the actions returned here.

use vstd::prelude::*;

verus! {

/// A mouse button, as far as the camera distinguishes them.
#[derive(Clone, Copy, PartialEq, Eq, Structural, Debug)]
pub enum MouseButton {
    Left,
    Right,
    Other,
}

/// Whether a button went down or up.
#[derive(Clone, Copy, PartialEq, Eq, Structural, Debug)]
pub enum ButtonState {
    Pressed,
    Released,
}

/// A cursor position: the bit patterns of the two float coordinates.
#[derive(Clone, Copy, PartialEq, Eq, Structural, Debug)]
pub struct ScreenPos {
    pub x_bits: u64,
    pub y_bits: u64,
}

/// An input event the camera reacts to.
#[derive(Clone, Copy, PartialEq, Eq, Structural, Debug)]
pub enum CameraEvent {
    /// A mouse button changed state.
    Button { button: MouseButton, state: ButtonState },
    /// The cursor moved to a new position.
    CursorMoved { position: ScreenPos },
    /// The wheel scrolled by a pixel delta (bit pattern of the float
    /// vertical component).
    Wheel { delta_y_bits: u64 },
    /// The wheel scrolled in a form the camera ignores.
    WheelOther,
}

/// What the camera should do in response to an event.
#[derive(Clone, Copy, PartialEq, Eq, Structural, Debug)]
pub enum CameraAction {
    /// Nothing to do.
    Idle,
    /// Rotate the view on the arcball from one cursor position to the
    /// other.
    Rotate { from: ScreenPos, to: ScreenPos },
    /// Pan the view target by the cursor movement.
    Pan { from: ScreenPos, to: ScreenPos },
    /// Zoom towards the target by the wheel delta.
    Zoom { magnitude_bits: u64 },
}

/// The camera's input state: which button is held, whether the next
/// cursor position is the first of a new drag, and the last cursor
/// position seen.
#[derive(Clone, Copy, Debug)]
pub struct CameraInput {
    pub current_button: Option<MouseButton>,
    pub first_press_pending: bool,
    pub last_position: ScreenPos,
}

impl CameraInput {
    /// A fresh input state: no button held, no drag in progress, the
    /// cursor at the zero position.
    pub fn new() -> (s: CameraInput)
        ensures
            s.current_button is None,
            s.first_press_pending == false,
            s.last_position == (ScreenPos { x_bits: 0, y_bits: 0 }),
    {
        CameraInput {
            current_button: None,
            first_press_pending: false,
            last_position: ScreenPos { x_bits: 0, y_bits: 0 },
        }
    }

    /// Feeds one event into the state machine and returns the action
    /// the camera should perform.
    ///
    /// A press records the button and starts a new drag, so the first
    /// cursor position that follows is only stored; every later cursor
    /// move rotates (left button) or pans (right button) from the last
    /// stored position to the new one, which is then stored in turn.
    /// A pixel-delta wheel event zooms and leaves the state alone.
    pub fn handle_event(&mut self, event: CameraEvent) -> (action: CameraAction)
        ensures
            match event {
                CameraEvent::Button { button, state } => {
                    &&& action == CameraAction::Idle
                    &&& final(self).last_position == old(self).last_position
                    &&& (state == ButtonState::Pressed ==> final(self).current_button == Some(
                        button,
                    ) && final(self).first_press_pending == true)
                    &&& (state == ButtonState::Released ==> final(self).current_button is None
                        && final(self).first_press_pending == old(self).first_press_pending)
                },
                CameraEvent::CursorMoved { position } => {
                    &&& final(self).last_position == position
                    &&& final(self).current_button == old(self).current_button
                    &&& final(self).first_press_pending == false
                    &&& action == if old(self).first_press_pending {
                        CameraAction::Idle
                    } else if old(self).current_button == Some(MouseButton::Left) {
                        CameraAction::Rotate { from: old(self).last_position, to: position }
                    } else if old(self).current_button == Some(MouseButton::Right) {
                        CameraAction::Pan { from: old(self).last_position, to: position }
                    } else {
                        CameraAction::Idle
                    }
                },
                CameraEvent::Wheel { delta_y_bits } => {
                    &&& *final(self) == *old(self)
                    &&& action == (CameraAction::Zoom { magnitude_bits: delta_y_bits })
                },
                CameraEvent::WheelOther => {
                    &&& *final(self) == *old(self)
                    &&& action == CameraAction::Idle
                },
            },
    {
        match event {
            CameraEvent::Button { button, state } => {
                if state == ButtonState::Pressed {
                    self.current_button = Some(button);
                    self.first_press_pending = true;
                } else {
                    self.current_button = None;
                }
                CameraAction::Idle
            },
            CameraEvent::CursorMoved { position } => {
                if self.first_press_pending {
                    self.last_position = position;
                    self.first_press_pending = false;
                    CameraAction::Idle
                } else {
                    let action = match self.current_button {
                        Some(MouseButton::Left) => CameraAction::Rotate {
                            from: self.last_position,
                            to: position,
                        },
                        Some(MouseButton::Right) => CameraAction::Pan {
                            from: self.last_position,
                            to: position,
                        },
                        _ => CameraAction::Idle,
                    };
                    self.last_position = position;
                    action
                }
            },
            CameraEvent::Wheel { delta_y_bits } => {
                CameraAction::Zoom { magnitude_bits: delta_y_bits }
            },
            CameraEvent::WheelOther => CameraAction::Idle,
        }
    }
}

} // verus!
