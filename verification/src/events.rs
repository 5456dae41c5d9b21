//! Event vocabulary: what the native layer delivers, and how pointer events
//! are classified before they reach the user callback.

use vstd::prelude::*;

verus! {

/// Which button a classified mouse event reports.
#[derive(Debug, Clone, Copy, PartialEq, Eq, Structural)]
pub enum MouseButton {
    Left,
    Right,
    Unknown,
}

/// Whether a pointer event came from a real mouse or was synthesized from touch.
#[derive(Debug, Clone, Copy, PartialEq, Eq, Structural)]
pub enum MouseKind {
    Mouse,
    Touch,
}

/// The coordinate space the window reports sizes and positions in.
#[derive(Debug, Clone, Copy, PartialEq, Eq, Structural)]
pub enum AppUnits {
    DeviceIndependent,
    HardwarePixels,
}

/// Device id that the native layer reserves for pointer events it synthesizes
/// from touch input.
pub const TOUCH_MOUSE_ID: u32 = u32::MAX;

/// The button code a native pointer notification carries, before classification.
#[derive(Debug, Clone, Copy, PartialEq, Eq, Structural)]
pub enum NativeButton {
    Unknown,
    Left,
    Middle,
    Right,
    X1,
    X2,
}

/// A notification delivered by the native windowing layer, reduced to the
/// plain values the loop policy reads. Sizes and coordinates are in hardware
/// pixels, as the native layer reports them.
#[derive(Debug, Clone, Copy, PartialEq, Eq, Structural)]
pub enum NativeEvent {
    /// The window was asked to close; the loop must stop.
    Quit,
    /// The window became visible again and needs a repaint.
    Exposed,
    /// The window was restored from a minimized state.
    Restored,
    /// The native window took a new size.
    Resized { width: i32, height: i32 },
    /// A pointer button was pressed.
    PointerDown { device: u32, button: NativeButton, x: i32, y: i32 },
    /// A pointer button was released.
    PointerUp { device: u32, button: NativeButton, x: i32, y: i32 },
    /// The pointer moved.
    PointerMove { device: u32, x: i32, y: i32 },
    /// Any other native notification; ignored by the loop.
    Other,
}

impl NativeEvent {
    /// The native layer never reports a negative window size.
    pub open spec fn wf(self) -> bool {
        match self {
            NativeEvent::Resized { width, height } => 0 <= width && 0 <= height,
            _ => true,
        }
    }

    /// Runtime check of `wf`, for callers outside the verified world.
    pub fn is_wf(&self) -> (r: bool)
        ensures
            r == self.wf(),
    {
        match *self {
            NativeEvent::Resized { width, height } => width >= 0 && height >= 0,
            _ => true,
        }
    }
}

/// An event handed to the user callback, with coordinates still in hardware
/// pixels. The backend converts them to the window's unit mode before the
/// callback sees them.
#[derive(Debug, Clone, Copy, PartialEq, Eq, Structural)]
pub enum HwEvent {
    /// Emitted exactly once, when the loop starts.
    Show,
    /// The window took a new size.
    Resize { width: i32, height: i32 },
    /// A classified pointer press.
    MouseDown { x: i32, y: i32, kind: MouseKind, button: MouseButton },
    /// A classified pointer release.
    MouseUp { x: i32, y: i32, kind: MouseKind, button: MouseButton },
    /// A classified pointer move.
    MouseMove { x: i32, y: i32, kind: MouseKind },
}

/// One step the loop must take, in order, after a state transition.
#[derive(Debug, Clone, Copy, PartialEq, Eq, Structural)]
pub enum Action {
    /// Point the GL viewport at the new hardware size.
    SetViewport { width: i32, height: i32 },
    /// Invoke the user callback with this event.
    Dispatch(HwEvent),
    /// Run a render pass: clear, invoke the callback with a render event,
    /// present the frame.
    Render,
}

/// How a pointer event is classified: an event from the reserved touch device
/// is touch input with no known button; anything else is mouse input, with the
/// left and right buttons mapped through and every other code unknown.
pub open spec fn spec_decode_mouse(device: u32, button: NativeButton) -> (MouseKind, MouseButton) {
    if device == TOUCH_MOUSE_ID {
        (MouseKind::Touch, MouseButton::Unknown)
    } else {
        (
            MouseKind::Mouse,
            match button {
                NativeButton::Left => MouseButton::Left,
                NativeButton::Right => MouseButton::Right,
                _ => MouseButton::Unknown,
            },
        )
    }
}

/// Classify a native pointer event's device id and button code.
pub fn decode_mouse(device: u32, button: NativeButton) -> (r: (MouseKind, MouseButton))
    ensures
        r == spec_decode_mouse(device, button),
{
    if device == TOUCH_MOUSE_ID {
        return (MouseKind::Touch, MouseButton::Unknown);
    }
    match button {
        NativeButton::Left => (MouseKind::Mouse, MouseButton::Left),
        NativeButton::Right => (MouseKind::Mouse, MouseButton::Right),
        _ => (MouseKind::Mouse, MouseButton::Unknown),
    }
}

/// A pointer event from the reserved touch device is always classified as
/// touch input with an unknown button, whatever button code it carries.
pub proof fn lemma_touch_sentinel_is_touch(button: NativeButton)
    ensures
        spec_decode_mouse(TOUCH_MOUSE_ID, button) == (MouseKind::Touch, MouseButton::Unknown),
{
}

/// A pointer event from any other device with the native right-button code is
/// classified as mouse input with the right button.
pub proof fn lemma_right_button_is_mouse_right(device: u32)
    requires
        device != TOUCH_MOUSE_ID,
    ensures
        spec_decode_mouse(device, NativeButton::Right) == (MouseKind::Mouse, MouseButton::Right),
{
}

} // verus!
