//! The canonical event algebra delivered to application code.
//!
//! Times are carried as milliseconds on a monotone clock (`u64` ticks);
//! positions and axis values as integers in the platform's native units; a
//! scroll amount as the exact ratio of a movement to the axis increment.

use vstd::prelude::*;

verus! {

/// Identity of a native window: the platform handle, stable and unique
/// within a process across its lifetime.
#[derive(Debug, Clone, Copy, PartialEq, Eq, Structural, Hash)]
pub struct WindowId(pub u64);

/// Identity of an input device; may be reissued after a `Removed` event.
#[derive(Debug, Clone, Copy, PartialEq, Eq, Structural, Hash)]
pub struct DeviceId(pub i32);

/// Wraps a native window handle as a `WindowId`.
pub fn mkwid(w: u64) -> (r: WindowId)
    ensures
        r == WindowId(w),
{
    WindowId(w)
}

/// Wraps a native device number as a `DeviceId`.
pub fn mkdid(d: i32) -> (r: DeviceId)
    ensures
        r == DeviceId(d),
{
    DeviceId(d)
}

/// The boolean quadruple of currently depressed modifier keys.
#[derive(Debug, Clone, Copy, PartialEq, Eq, Structural, Default)]
pub struct ModifiersState {
    pub shift: bool,
    pub ctrl: bool,
    pub alt: bool,
    pub logo: bool,
}

#[derive(Debug, Clone, Copy, PartialEq, Eq, Structural)]
pub enum ElementState {
    Pressed,
    Released,
}

#[derive(Debug, Clone, Copy, PartialEq, Eq, Structural)]
pub enum MouseButton {
    Left,
    Right,
    Middle,
    Other(u8),
}

#[derive(Debug, Clone, Copy, PartialEq, Eq, Structural)]
pub enum TouchPhase {
    Started,
    Moved,
    Ended,
    Cancelled,
}

/// A scroll amount in lines, as the exact ratio `(x_num / den, y_num / den)`.
///
/// Positive `y` is scroll-up and positive `x` is scroll-right, independent of
/// the platform's native sign. `den` is the scroll axis increment (1 for
/// whole-line sources such as wheel buttons).
#[derive(Debug, Clone, Copy, PartialEq, Eq, Structural)]
pub struct LineDelta {
    pub x_num: i64,
    pub y_num: i64,
    pub den: i64,
}

/// A point or a motion in the platform's native units.
#[derive(Debug, Clone, Copy, PartialEq, Eq, Structural)]
pub struct Position {
    pub x: i64,
    pub y: i64,
}

/// A layout-independent symbolic key identifier.
#[derive(Debug, Clone, Copy, PartialEq, Eq, Structural)]
pub enum VirtualKeyCode {
    Key0, Key1, Key2, Key3, Key4, Key5, Key6, Key7, Key8, Key9,
    A, B, C, D, E, F, G, H, I, J, K, L, M,
    N, O, P, Q, R, S, T, U, V, W, X, Y, Z,
    F1, F2, F3, F4, F5, F6, F7, F8, F9, F10, F11, F12,
    F13, F14, F15, F16, F17, F18, F19, F20, F21, F22, F23, F24,
    Escape, Tab, Space, Return, Back, Insert, Home, Delete, End,
    PageUp, PageDown, Left, Right, Down, Up,
    LShift, RShift, LControl, RControl, LAlt, RAlt, LWin, RWin,
    Apostrophe, Backslash, Comma, Equals, Grave, LBracket, RBracket,
    Minus, Period, Semicolon, Slash, Caret,
    Numlock, Numpad0, Numpad1, Numpad2, Numpad3, Numpad4,
    Numpad5, Numpad6, Numpad7, Numpad8, Numpad9,
    NumpadEnter, NumpadEquals, Add, Subtract, Multiply, Divide, Decimal,
    VolumeUp, VolumeDown,
}

/// A key event: the platform-normalized hardware scancode, the symbolic key
/// if one is known for it, and the modifier state at the moment the event was
/// produced.
#[derive(Debug, Clone, Copy, PartialEq, Eq, Structural)]
pub struct KeyboardInput {
    pub scancode: u32,
    pub state: ElementState,
    pub virtual_keycode: Option<VirtualKeyCode>,
    pub modifiers: ModifiersState,
}

/// A touch point: phase, position in window coordinates, and the platform's
/// identifier for the touch sequence.
#[derive(Debug, Clone, Copy, PartialEq, Eq, Structural)]
pub struct Touch {
    pub device_id: DeviceId,
    pub phase: TouchPhase,
    pub location: Position,
    pub id: u64,
}

/// An event concerning one window. File paths are carried as raw bytes, as
/// the platform hands them over.
#[derive(Debug, Clone, PartialEq, Eq)]
pub enum WindowEvent {
    Resized(u32, u32),
    Moved(Position),
    CloseRequested,
    Destroyed,
    Refresh,
    Focused(bool),
    /// A finalized character, as its Unicode scalar value.
    ReceivedCharacter(u32),
    KeyboardInput { device_id: DeviceId, input: KeyboardInput },
    CursorEntered { device_id: DeviceId },
    CursorLeft { device_id: DeviceId },
    CursorMoved { device_id: DeviceId, position: Position, modifiers: ModifiersState },
    MouseInput { device_id: DeviceId, state: ElementState, button: MouseButton, modifiers: ModifiersState },
    MouseWheel { device_id: DeviceId, delta: LineDelta, phase: TouchPhase, modifiers: ModifiersState },
    AxisMotion { device_id: DeviceId, axis: u32, value: i64 },
    Touch(Touch),
    HoveredFile(Vec<u8>),
    DroppedFile(Vec<u8>),
    HoveredFileCancelled,
    HiDpiFactorChanged(u32),
}

/// An event concerning one device, independent of any window.
#[derive(Debug, Clone, Copy, PartialEq, Eq)]
pub enum DeviceEvent {
    Added,
    Removed,
    Motion { axis: u32, value: i64 },
    MouseMotion { delta: Position },
    MouseWheel { delta: LineDelta },
    Button { button: u32, state: ElementState },
    Key(KeyboardInput),
}

/// Why an iteration of the loop began.
#[derive(Debug, Clone, Copy, PartialEq, Eq, Structural)]
pub enum StartCause {
    Init,
    Poll,
    WaitCancelled { start: u64, requested_resume: Option<u64> },
    ResumeTimeReached { start: u64, requested_resume: u64 },
}

/// The per-iteration wait mode selected by the user callback.
#[derive(Debug, Clone, Copy, PartialEq, Eq, Structural)]
pub enum ControlFlow {
    Poll,
    Wait,
    WaitUntil(u64),
    Exit,
}

impl Default for ControlFlow {
    /// The loop polls until the callback asks for anything else.
    fn default() -> (r: Self)
        ensures
            r == ControlFlow::Poll,
    {
        ControlFlow::Poll
    }
}

/// An event as delivered to the user callback, over a user payload type `T`.
#[derive(Debug, Clone, PartialEq, Eq)]
pub enum Event<T> {
    WindowEvent { window_id: WindowId, event: WindowEvent },
    DeviceEvent { device_id: DeviceId, event: DeviceEvent },
    UserEvent(T),
    Awakened,
    NewEvents(StartCause),
    EventsCleared,
    LoopDestroyed,
}

/// The error returned from a proxy whose loop has been destroyed.
#[derive(Debug, Clone, Copy, PartialEq, Eq, Structural)]
pub struct EventsLoopClosed;

} // verus!
