//! The event model: raw native events and normalized simulator events.
//!
//! A [`NativeEvent`] holds, as plain values, exactly what the translation
//! rules read from one raw event of the native windowing subsystem. A
//! [`SimulatorEvent`] is the normalized result: every positional field is in
//! the logical coordinate space of the rendered framebuffer.

use crate::fraction::UnitFraction;
use crate::geometry::Point;
use vstd::prelude::*;

verus! {

/// The symbolic key code the native subsystem reports for the escape key.
pub const KEYCODE_ESCAPE: i32 = 27;

/// The mouse button a native button event reports.
#[derive(Clone, Copy, Debug, PartialEq, Eq, Structural)]
pub enum MouseButton {
    Unknown,
    Left,
    Middle,
    Right,
    X1,
    X2,
}

/// The directionality of a scroll: natural, flipped, or a value the
/// native subsystem did not recognize.
#[derive(Clone, Copy, Debug, PartialEq, Eq, Structural)]
pub enum MouseWheelDirection {
    Normal,
    Flipped,
    Unknown(u32),
}

/// One raw input event of the native windowing subsystem, reduced to the
/// plain values the translation rules read. Positions of mouse events are in
/// raw device pixels; positions and pressure of touch events are fractions
/// of the window extent (resp. of full pressure).
#[derive(Clone, Copy, Debug)]
#[allow(inconsistent_fields)]
pub enum NativeEvent {
    /// The platform's quit signal.
    Quit,
    /// A key was pressed; `keycode` is `None` when the native subsystem
    /// cannot resolve a symbolic code for it.
    KeyDown { keycode: Option<i32>, keymod: u16, repeat: bool },
    /// A key was released.
    KeyUp { keycode: Option<i32>, keymod: u16, repeat: bool },
    /// A mouse button was released at device position `(x, y)`.
    MouseButtonUp { x: i32, y: i32, mouse_btn: MouseButton },
    /// A mouse button was pressed at device position `(x, y)`.
    MouseButtonDown { x: i32, y: i32, mouse_btn: MouseButton },
    /// The mouse moved to device position `(x, y)`.
    MouseMotion { x: i32, y: i32 },
    /// The scroll wheel moved by `(x, y)` steps.
    MouseWheel { x: i32, y: i32, direction: MouseWheelDirection },
    /// A finger touched down.
    FingerDown { finger_id: i64, x: UnitFraction, y: UnitFraction, pressure: UnitFraction },
    /// A finger moved while touching.
    FingerMotion { finger_id: i64, x: UnitFraction, y: UnitFraction, pressure: UnitFraction },
    /// A finger was lifted.
    FingerUp { finger_id: i64, x: UnitFraction, y: UnitFraction, pressure: UnitFraction },
    /// Any other native event kind; it carries nothing the adapter reads.
    Unhandled,
}

/// A native event mapped to the logical coordinate space of the framebuffer.
#[derive(Clone, Copy, Debug, PartialEq, Eq, Structural)]
pub enum SimulatorEvent {
    /// A keypress event, fired on key up.
    KeyUp {
        /// The key being released.
        keycode: i32,
        /// The modifiers held at the time of key up.
        keymod: u16,
        /// Whether the key is repeating.
        repeat: bool,
    },
    /// A keypress event, fired on key down.
    KeyDown {
        /// The key being pressed.
        keycode: i32,
        /// The modifiers held at the time of key down.
        keymod: u16,
        /// Whether the key is repeating.
        repeat: bool,
    },
    /// A mouse click event, fired on mouse up.
    MouseButtonUp {
        /// The mouse button being released.
        mouse_btn: MouseButton,
        /// The location of the mouse in logical coordinates.
        point: Point,
    },
    /// A mouse click event, fired on mouse down.
    MouseButtonDown {
        /// The mouse button being pressed.
        mouse_btn: MouseButton,
        /// The location of the mouse in logical coordinates.
        point: Point,
    },
    /// A mouse wheel event.
    MouseWheel {
        /// The scroll wheel delta in the x and y direction.
        scroll_delta: Point,
        /// The directionality of the scroll (normal or flipped).
        direction: MouseWheelDirection,
    },
    /// A mouse move event.
    MouseMove {
        /// The current mouse position in logical coordinates.
        point: Point,
    },
    /// A touch started event.
    TouchStarted {
        /// The ID of the finger that started the touch.
        id: i64,
        /// The location of the touch in logical coordinates.
        point: Point,
        /// The pressure of the touch, as a percentage.
        pressure: u32,
    },
    /// A touch moved event.
    TouchMoved {
        /// The ID of the finger that moved.
        id: i64,
        /// The location of the touch in logical coordinates.
        point: Point,
        /// The pressure of the touch, as a percentage.
        pressure: u32,
    },
    /// A touch ended event.
    TouchEnded {
        /// The ID of the finger that ended the touch.
        id: i64,
        /// The location of the touch in logical coordinates.
        point: Point,
        /// The pressure of the touch, as a percentage.
        pressure: u32,
    },
    /// A touch cancelled event. The translation rules never produce it from
    /// a native event; it is part of the normalized model for hosts that
    /// inject it themselves.
    TouchCancelled {
        /// The ID of the finger whose touch was cancelled.
        id: i64,
        /// The location of the touch in logical coordinates.
        point: Point,
        /// The pressure of the touch, as a percentage.
        pressure: u32,
    },
    /// An exit event.
    Quit,
}

} // verus!
