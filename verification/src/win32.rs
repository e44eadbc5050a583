//! The Win32 adapter's translation logic: window-message translation, the
//! per-window state the messages read and write, the mouse-capture
//! reference count, and the timeout arithmetic of a deadline wait.
//!
//! The embedding program runs the native message pump: it decodes each
//! message's parameters to plain values, hands them in, delivers the events
//! and performs the returned operations. Positions and sizes are carried in
//! physical pixels together with the window's dots-per-inch, from which a
//! scale factor of `dpi / 96` follows.

use vstd::prelude::*;

use crate::channel::channel_send;
use crate::event::{
    ControlFlow, DeviceEvent, DeviceId, ElementState, Event, EventsLoopClosed, KeyboardInput,
    LineDelta, ModifiersState, MouseButton, Position, Touch, TouchPhase, VirtualKeyCode,
    WindowEvent, mkdid, mkwid,
};
use crate::runner::{EventLoopRunner, events_cleared_next, new_events_emitted, new_events_next};

verus! {

/// The whole-line unit of native wheel deltas.
pub const WHEEL_DELTA: i64 = 120;

/// The device identity this adapter reports for window-message input.
pub const WIN32_DEVICE: i32 = 0;

/// A size in physical pixels.
#[derive(Debug, Clone, Copy, PartialEq, Eq, Structural)]
pub struct PhysicalSize {
    pub width: u64,
    pub height: u64,
}

/// A native window rectangle.
#[derive(Debug, Clone, Copy, PartialEq, Eq, Structural)]
pub struct WindowRect {
    pub left: i32,
    pub top: i32,
    pub right: i32,
    pub bottom: i32,
}

/// Window info saved on entering fullscreen, for the restore.
#[derive(Debug, Clone, Copy, PartialEq, Eq, Structural)]
pub struct SavedWindowInfo {
    pub style: i64,
    pub ex_style: i64,
    pub rect: WindowRect,
    pub is_fullscreen: bool,
    /// The dots-per-inch saved on entering fullscreen, taken once by the
    /// first change that follows.
    pub dpi: Option<u32>,
}

/// One dimension scaled from one dots-per-inch to another, saturating.
pub open spec fn rescale(value: u64, old_dpi: u32, new_dpi: u32) -> u64 {
    let scaled = (value * new_dpi) / (old_dpi as int);
    if scaled > u64::MAX {
        u64::MAX
    } else {
        scaled as u64
    }
}

/// Per-window state the window messages read and write.
#[derive(Debug, Clone, Copy, PartialEq, Eq, Structural)]
pub struct WindowState {
    pub cursor_grabbed: bool,
    pub cursor_hidden: bool,
    pub max_size: Option<PhysicalSize>,
    pub min_size: Option<PhysicalSize>,
    /// Whether the mouse is hovering the window.
    pub mouse_in_window: bool,
    pub saved_window_info: Option<SavedWindowInfo>,
    /// The window's current dots-per-inch.
    pub dpi: u32,
    pub decorations: bool,
    pub always_on_top: bool,
    pub maximized: bool,
    pub resizable: bool,
    /// How many mouse buttons are down: capture is held until the last
    /// release.
    pub mouse_buttons_down: u32,
}

impl WindowState {
    /// The state of a fresh window at the given dots-per-inch.
    pub fn new(dpi: u32) -> (r: WindowState)
        ensures
            r.mouse_in_window == false,
            r.mouse_buttons_down == 0,
            r.dpi == dpi,
            r.min_size is None,
            r.max_size is None,
            r.saved_window_info is None,
    {
        WindowState {
            cursor_grabbed: false,
            cursor_hidden: false,
            max_size: None,
            min_size: None,
            mouse_in_window: false,
            saved_window_info: None,
            dpi,
            decorations: true,
            always_on_top: false,
            maximized: false,
            resizable: true,
            mouse_buttons_down: 0,
        }
    }

    /// Rescales the minimum and maximum sizes when the window's
    /// dots-per-inch changes, saturating at the type's bounds.
    pub fn update_min_max(&mut self, old_dpi: u32, new_dpi: u32)
        requires
            old_dpi > 0,
        ensures
            final(self).max_size == match old(self).max_size {
                Some(s) => Some(
                    PhysicalSize {
                        width: rescale(s.width, old_dpi, new_dpi),
                        height: rescale(s.height, old_dpi, new_dpi),
                    },
                ),
                None => None::<PhysicalSize>,
            },
            final(self).min_size == match old(self).min_size {
                Some(s) => Some(
                    PhysicalSize {
                        width: rescale(s.width, old_dpi, new_dpi),
                        height: rescale(s.height, old_dpi, new_dpi),
                    },
                ),
                None => None::<PhysicalSize>,
            },
            *final(self) == (WindowState {
                max_size: final(self).max_size,
                min_size: final(self).min_size,
                ..*old(self)
            }),
    {
        if let Some(s) = self.max_size {
            self.max_size = Some(PhysicalSize {
                width: rescale_exec(s.width, old_dpi, new_dpi),
                height: rescale_exec(s.height, old_dpi, new_dpi),
            });
        }
        if let Some(s) = self.min_size {
            self.min_size = Some(PhysicalSize {
                width: rescale_exec(s.width, old_dpi, new_dpi),
                height: rescale_exec(s.height, old_dpi, new_dpi),
            });
        }
    }
}

/// One dimension scaled from one dots-per-inch to another, saturating.
pub fn rescale_exec(value: u64, old_dpi: u32, new_dpi: u32) -> (r: u64)
    requires
        old_dpi > 0,
    ensures
        r == rescale(value, old_dpi, new_dpi),
{
    proof {
        assert((value as u128) * (new_dpi as u128) <= (u64::MAX as u128) * (u32::MAX as u128))
            by (nonlinear_arith)
            requires
                value <= u64::MAX,
                new_dpi <= u32::MAX,
        ;
    }
    let wide: u128 = (value as u128) * (new_dpi as u128);
    let scaled: u128 = wide / (old_dpi as u128);
    if scaled > u64::MAX as u128 {
        u64::MAX
    } else {
        scaled as u64
    }
}

/// Captures the mouse for a button press, counting the held buttons so a
/// release with other buttons still down keeps the capture.
pub fn capture_mouse(window_state: &mut WindowState) -> (acquire: bool)
    requires
        old(window_state).mouse_buttons_down < u32::MAX,
    ensures
        final(window_state).mouse_buttons_down == old(window_state).mouse_buttons_down + 1,
        *final(window_state) == (WindowState {
            mouse_buttons_down: final(window_state).mouse_buttons_down,
            ..*old(window_state)
        }),
        acquire == true,
{
    window_state.mouse_buttons_down = window_state.mouse_buttons_down + 1;
    true
}

/// Releases one button; the capture is let go exactly when no button
/// remains down.
pub fn release_mouse(window_state: &mut WindowState) -> (release: bool)
    ensures
        final(window_state).mouse_buttons_down == if old(window_state).mouse_buttons_down > 0 {
            (old(window_state).mouse_buttons_down - 1) as u32
        } else {
            0u32
        },
        *final(window_state) == (WindowState {
            mouse_buttons_down: final(window_state).mouse_buttons_down,
            ..*old(window_state)
        }),
        release == (final(window_state).mouse_buttons_down == 0),
{
    if window_state.mouse_buttons_down > 0 {
        window_state.mouse_buttons_down = window_state.mouse_buttons_down - 1;
    }
    window_state.mouse_buttons_down == 0
}

/// The native timeout of a duration, in milliseconds: nanoseconds round
/// up, and anything beyond the 32-bit range becomes the infinite timeout.
pub open spec fn timeout_of(secs: u64, subsec_nanos: u32) -> u32 {
    let ms = secs * 1000 + subsec_nanos / 1000000 + if subsec_nanos % 1000000 > 0 {
        1int
    } else {
        0int
    };
    if ms > u32::MAX {
        INFINITE
    } else {
        ms as u32
    }
}

/// The native infinite timeout.
pub const INFINITE: u32 = 0xFFFFFFFF;

/// Converts a duration to a native millisecond timeout: nanosecond
/// precision rounds up, and a duration beyond the 32-bit millisecond range
/// becomes the infinite timeout.
pub fn dur2timeout(secs: u64, subsec_nanos: u32) -> (r: u32)
    requires
        subsec_nanos < 1000000000,
    ensures
        r == timeout_of(secs, subsec_nanos),
{
    let ms_whole: u128 = (secs as u128) * 1000;
    let ms_frac: u128 = (subsec_nanos / 1000000) as u128;
    let round_up: u128 = if subsec_nanos % 1000000 > 0 {
        1
    } else {
        0
    };
    let ms: u128 = ms_whole + ms_frac + round_up;
    if ms > u32::MAX as u128 {
        INFINITE
    } else {
        ms as u32
    }
}

/// The timeout handed to the native blocking wait for a deadline: the time
/// left, less the one millisecond that is spun away to offset the coarse
/// native timer, clamped into the 32-bit range. A deadline already reached
/// waits not at all.
pub fn wait_timeout_millis(now: u64, wait_until: u64) -> (r: u32)
    ensures
        r == if now >= wait_until {
            0u32
        } else if wait_until - now > u32::MAX {
            (INFINITE - 1) as u32
        } else {
            ((wait_until - now) as u32 - 1) as u32
        },
{
    if now >= wait_until {
        0
    } else {
        let left = wait_until - now;
        if left > u32::MAX as u64 {
            INFINITE - 1
        } else {
            (left as u32) - 1
        }
    }
}

/// One decoded raw mouse button report: the button number and whether it
/// went down.
#[derive(Debug, Clone, Copy, PartialEq, Eq, Structural)]
pub struct RawButton {
    pub button: u32,
    pub pressed: bool,
}

/// One decoded touch report.
#[derive(Debug, Clone, Copy, PartialEq, Eq, Structural)]
pub struct TouchReport {
    pub phase: Option<TouchPhase>,
    pub x: i64,
    pub y: i64,
    pub id: u64,
}

/// A window message, decoded to plain values by the embedding program. The
/// modifier state is read at dispatch time by the embedder and carried on
/// the message.
#[derive(Debug, Clone)]
pub enum WindowsMessage {
    Close,
    Destroy,
    /// The window must repaint.
    Paint,
    /// A reposition; carried only when the native flags say the window
    /// moved, with the new size when the same reposition also resized.
    PosChanged { x: i32, y: i32, resized: Option<(u32, u32)> },
    Size { width: u32, height: u32 },
    Char { code: u32 },
    MouseMove { x: i64, y: i64, mods: ModifiersState },
    MouseLeave,
    /// A wheel turn, in native units of one-hundred-twentieths of a line.
    Wheel { value: i64, mods: ModifiersState },
    Key { pressed: bool, scancode: u32, vkey: Option<VirtualKeyCode>, mods: ModifiersState },
    Button { button: MouseButton, pressed: bool, mods: ModifiersState },
    DeviceChange { added: bool, device: i32 },
    RawMouse { dx: i64, dy: i64, wheel_turns: Option<i64>, buttons: Vec<RawButton> },
    RawKey { pressed: bool, scancode: u32, vkey: Option<VirtualKeyCode>, mods: ModifiersState },
    TouchInput { reports: Vec<TouchReport> },
    SetFocus { x: i64, y: i64, mods: ModifiersState },
    KillFocus,
    DpiChanged { dpi: u32 },
}

/// An operation the message translation asks the embedding program to
/// perform on the native window.
#[derive(Debug, Clone, Copy, PartialEq, Eq, Structural)]
pub enum Win32Action {
    /// Capture the mouse for the window.
    SetCapture,
    /// Let the capture go: the last button came up.
    ReleaseCapture,
    /// Ask for a leave message so `CursorLeft` can be delivered.
    TrackMouseLeave,
    /// Move and size the window to the rectangle the platform suggested
    /// with a dots-per-inch change.
    ApplySuggestedRect,
}

/// The button events of a raw mouse report, in order.
pub open spec fn raw_button_events<T>(device: i32, buttons: Seq<RawButton>) -> Seq<Event<T>>
    decreases buttons.len(),
{
    if buttons.len() == 0 {
        Seq::empty()
    } else {
        seq![
            Event::<T>::DeviceEvent {
                device_id: DeviceId(device),
                event: DeviceEvent::Button {
                    button: buttons[0].button,
                    state: if buttons[0].pressed {
                        ElementState::Pressed
                    } else {
                        ElementState::Released
                    },
                },
            },
        ] + raw_button_events(device, buttons.drop_first())
    }
}

proof fn lemma_raw_button_events_take_step<T>(device: i32, buttons: Seq<RawButton>, k: int)
    requires
        0 < k <= buttons.len(),
    ensures
        raw_button_events::<T>(device, buttons.take(k)) == raw_button_events::<T>(
            device,
            buttons.take(k - 1),
        ) + seq![
            Event::<T>::DeviceEvent {
                device_id: DeviceId(device),
                event: DeviceEvent::Button {
                    button: buttons[k - 1].button,
                    state: if buttons[k - 1].pressed {
                        ElementState::Pressed
                    } else {
                        ElementState::Released
                    },
                },
            },
        ],
    decreases k,
{
    if k == 1 {
        assert(buttons.take(1).drop_first() =~= buttons.take(0));
        assert(raw_button_events::<T>(device, buttons.take(0)) =~= Seq::<Event<T>>::empty());
        assert(buttons.take(1)[0] == buttons[0]);
        assert(raw_button_events::<T>(device, buttons.take(1)) =~= Seq::<Event<T>>::empty() + seq![
            Event::<T>::DeviceEvent {
                device_id: DeviceId(device),
                event: DeviceEvent::Button {
                    button: buttons[0].button,
                    state: if buttons[0].pressed {
                        ElementState::Pressed
                    } else {
                        ElementState::Released
                    },
                },
            },
        ]);
    } else {
        lemma_raw_button_events_take_step::<T>(device, buttons.drop_first(), k - 1);
        assert(buttons.take(k).drop_first() =~= buttons.drop_first().take(k - 1));
        assert(buttons.take(k - 1).drop_first() =~= buttons.drop_first().take(k - 2));
        assert(buttons.take(k)[0] == buttons[0]);
        assert(buttons.take(k - 1)[0] == buttons[0]);
        assert(raw_button_events::<T>(device, buttons.take(k)) =~= raw_button_events::<T>(
            device,
            buttons.take(k - 1),
        ) + seq![
            Event::<T>::DeviceEvent {
                device_id: DeviceId(device),
                event: DeviceEvent::Button {
                    button: buttons[k - 1].button,
                    state: if buttons[k - 1].pressed {
                        ElementState::Pressed
                    } else {
                        ElementState::Released
                    },
                },
            },
        ]);
    }
}

/// The touch events of a touch message, in report order; a report whose
/// flags name no phase is skipped.
pub open spec fn touch_events<T>(window: u64, reports: Seq<TouchReport>) -> Seq<Event<T>>
    decreases reports.len(),
{
    if reports.len() == 0 {
        Seq::empty()
    } else {
        let head: Seq<Event<T>> = match reports[0].phase {
            Some(phase) => seq![
                Event::<T>::WindowEvent {
                    window_id: crate::event::WindowId(window),
                    event: WindowEvent::Touch(
                        Touch {
                            device_id: DeviceId(WIN32_DEVICE),
                            phase,
                            location: Position { x: reports[0].x, y: reports[0].y },
                            id: reports[0].id,
                        },
                    ),
                },
            ],
            None => Seq::empty(),
        };
        head + touch_events(window, reports.drop_first())
    }
}

proof fn lemma_touch_events_take_step<T>(window: u64, reports: Seq<TouchReport>, k: int)
    requires
        0 < k <= reports.len(),
    ensures
        touch_events::<T>(window, reports.take(k)) == touch_events::<T>(window, reports.take(k - 1))
            + ({
            match reports[k - 1].phase {
                Some(phase) => seq![
                    Event::<T>::WindowEvent {
                        window_id: crate::event::WindowId(window),
                        event: WindowEvent::Touch(
                            Touch {
                                device_id: DeviceId(WIN32_DEVICE),
                                phase,
                                location: Position { x: reports[k - 1].x, y: reports[k - 1].y },
                                id: reports[k - 1].id,
                            },
                        ),
                    },
                ],
                None => Seq::<Event<T>>::empty(),
            }
        }),
    decreases k,
{
    if k == 1 {
        assert(reports.take(1).drop_first() =~= reports.take(0));
        assert(touch_events::<T>(window, reports.take(0)) =~= Seq::<Event<T>>::empty());
        assert(reports.take(1)[0] == reports[0]);
        assert(touch_events::<T>(window, reports.take(1)) =~= Seq::<Event<T>>::empty()
            + touch_events::<T>(window, reports.take(1)));
    } else {
        lemma_touch_events_take_step::<T>(window, reports.drop_first(), k - 1);
        assert(reports.take(k).drop_first() =~= reports.drop_first().take(k - 1));
        assert(reports.take(k - 1).drop_first() =~= reports.drop_first().take(k - 2));
        assert(reports.take(k)[0] == reports[0]);
        assert(reports.take(k - 1)[0] == reports[0]);
        assert(touch_events::<T>(window, reports.take(k)) =~= touch_events::<T>(
            window,
            reports.take(k - 1),
        ) + ({
            match reports[k - 1].phase {
                Some(phase) => seq![
                    Event::<T>::WindowEvent {
                        window_id: crate::event::WindowId(window),
                        event: WindowEvent::Touch(
                            Touch {
                                device_id: DeviceId(WIN32_DEVICE),
                                phase,
                                location: Position { x: reports[k - 1].x, y: reports[k - 1].y },
                                id: reports[k - 1].id,
                            },
                        ),
                    },
                ],
                None => Seq::<Event<T>>::empty(),
            }
        }));
    }
}


/// The events and operations one window message stands for, given the
/// window's state: the exact translation of each message kind.
pub open spec fn message_outcome<T>(
    window: u64,
    state: WindowState,
    msg: WindowsMessage,
) -> (Seq<Event<T>>, Seq<Win32Action>, WindowState) {
    let wid = crate::event::WindowId(window);
    let did = DeviceId(WIN32_DEVICE);
    match msg {
        WindowsMessage::Close => (
            seq![Event::<T>::WindowEvent { window_id: wid, event: WindowEvent::CloseRequested }],
            Seq::empty(),
            state,
        ),
        WindowsMessage::Destroy => (
            seq![Event::<T>::WindowEvent { window_id: wid, event: WindowEvent::Destroyed }],
            Seq::empty(),
            state,
        ),
        WindowsMessage::Paint => (
            seq![Event::<T>::WindowEvent { window_id: wid, event: WindowEvent::Refresh }],
            Seq::empty(),
            state,
        ),
        WindowsMessage::PosChanged { x, y, resized } => {
            // When one reposition both resizes and moves, the resize is
            // announced first.
            let resize_part: Seq<Event<T>> = match resized {
                Some((width, height)) => seq![
                    Event::<T>::WindowEvent { window_id: wid, event: WindowEvent::Resized(width, height) },
                ],
                None => Seq::empty(),
            };
            (
                resize_part + seq![
                    Event::<T>::WindowEvent {
                        window_id: wid,
                        event: WindowEvent::Moved(Position { x: x as i64, y: y as i64 }),
                    },
                ],
                Seq::empty(),
                state,
            )
        },
        WindowsMessage::Size { width, height } => (
            seq![
                Event::<T>::WindowEvent { window_id: wid, event: WindowEvent::Resized(width, height) },
            ],
            Seq::empty(),
            state,
        ),
        WindowsMessage::Char { code } => (
            seq![
                Event::<T>::WindowEvent { window_id: wid, event: WindowEvent::ReceivedCharacter(code) },
            ],
            Seq::empty(),
            state,
        ),
        WindowsMessage::MouseMove { x, y, mods } => {
            let entered: Seq<Event<T>> = if !state.mouse_in_window {
                seq![
                    Event::<T>::WindowEvent {
                        window_id: wid,
                        event: WindowEvent::CursorEntered { device_id: did },
                    },
                ]
            } else {
                Seq::empty()
            };
            let track: Seq<Win32Action> = if !state.mouse_in_window {
                seq![Win32Action::TrackMouseLeave]
            } else {
                Seq::empty()
            };
            (
                entered + seq![
                    Event::<T>::WindowEvent {
                        window_id: wid,
                        event: WindowEvent::CursorMoved {
                            device_id: did,
                            position: Position { x, y },
                            modifiers: mods,
                        },
                    },
                ],
                track,
                WindowState { mouse_in_window: true, ..state },
            )
        },
        WindowsMessage::MouseLeave => {
            let left: Seq<Event<T>> = if state.mouse_in_window {
                seq![
                    Event::<T>::WindowEvent {
                        window_id: wid,
                        event: WindowEvent::CursorLeft { device_id: did },
                    },
                ]
            } else {
                Seq::empty()
            };
            (left, Seq::empty(), WindowState { mouse_in_window: false, ..state })
        },
        WindowsMessage::Wheel { value, mods } => (
            seq![
                Event::<T>::WindowEvent {
                    window_id: wid,
                    event: WindowEvent::MouseWheel {
                        device_id: did,
                        delta: LineDelta { x_num: 0int as i64, y_num: value, den: WHEEL_DELTA },
                        phase: TouchPhase::Moved,
                        modifiers: mods,
                    },
                },
            ],
            Seq::empty(),
            state,
        ),
        WindowsMessage::Key { pressed, scancode, vkey, mods } => {
            let key_event = Event::<T>::WindowEvent {
                window_id: wid,
                event: WindowEvent::KeyboardInput {
                    device_id: did,
                    input: KeyboardInput {
                        scancode,
                        state: if pressed {
                            ElementState::Pressed
                        } else {
                            ElementState::Released
                        },
                        virtual_keycode: vkey,
                        modifiers: mods,
                    },
                },
            };
            let delete_char: Seq<Event<T>> = if pressed && vkey == Some(VirtualKeyCode::Delete) {
                seq![
                    Event::<T>::WindowEvent {
                        window_id: wid,
                        event: WindowEvent::ReceivedCharacter(0x7Fu32),
                    },
                ]
            } else {
                Seq::empty()
            };
            (seq![key_event] + delete_char, Seq::empty(), state)
        },
        WindowsMessage::Button { button, pressed, mods } => {
            let ev = Event::<T>::WindowEvent {
                window_id: wid,
                event: WindowEvent::MouseInput {
                    device_id: did,
                    state: if pressed {
                        ElementState::Pressed
                    } else {
                        ElementState::Released
                    },
                    button,
                    modifiers: mods,
                },
            };
            if pressed {
                (
                    seq![ev],
                    seq![Win32Action::SetCapture],
                    WindowState {
                        mouse_buttons_down: if state.mouse_buttons_down < u32::MAX {
                            (state.mouse_buttons_down + 1) as u32
                        } else {
                            u32::MAX
                        },
                        ..state
                    },
                )
            } else {
                let remaining: u32 = if state.mouse_buttons_down > 0 {
                    (state.mouse_buttons_down - 1) as u32
                } else {
                    0u32
                };
                (
                    seq![ev],
                    if remaining == 0 {
                        seq![Win32Action::ReleaseCapture]
                    } else {
                        Seq::empty()
                    },
                    WindowState { mouse_buttons_down: remaining, ..state },
                )
            }
        },
        WindowsMessage::DeviceChange { added, device } => (
            seq![
                Event::<T>::DeviceEvent {
                    device_id: DeviceId(device),
                    event: if added {
                        DeviceEvent::Added
                    } else {
                        DeviceEvent::Removed
                    },
                },
            ],
            Seq::empty(),
            state,
        ),
        WindowsMessage::RawMouse { dx, dy, wheel_turns, buttons } => {
            let x_part: Seq<Event<T>> = if dx != 0 {
                seq![
                    Event::<T>::DeviceEvent {
                        device_id: did,
                        event: DeviceEvent::Motion { axis: 0u32, value: dx },
                    },
                ]
            } else {
                Seq::empty()
            };
            let y_part: Seq<Event<T>> = if dy != 0 {
                seq![
                    Event::<T>::DeviceEvent {
                        device_id: did,
                        event: DeviceEvent::Motion { axis: 1u32, value: dy },
                    },
                ]
            } else {
                Seq::empty()
            };
            let both_part: Seq<Event<T>> = if dx != 0 || dy != 0 {
                seq![
                    Event::<T>::DeviceEvent {
                        device_id: did,
                        event: DeviceEvent::MouseMotion { delta: Position { x: dx, y: dy } },
                    },
                ]
            } else {
                Seq::empty()
            };
            let wheel_part: Seq<Event<T>> = match wheel_turns {
                Some(turns) => seq![
                    Event::<T>::DeviceEvent {
                        device_id: did,
                        event: DeviceEvent::MouseWheel {
                            delta: LineDelta { x_num: 0int as i64, y_num: turns, den: 1int as i64 },
                        },
                    },
                ],
                None => Seq::empty(),
            };
            (
                x_part + y_part + both_part + wheel_part + raw_button_events(WIN32_DEVICE, buttons@),
                Seq::empty(),
                state,
            )
        },
        WindowsMessage::RawKey { pressed, scancode, vkey, mods } => (
            seq![
                Event::<T>::DeviceEvent {
                    device_id: did,
                    event: DeviceEvent::Key(
                        KeyboardInput {
                            scancode,
                            state: if pressed {
                                ElementState::Pressed
                            } else {
                                ElementState::Released
                            },
                            virtual_keycode: vkey,
                            modifiers: mods,
                        },
                    ),
                },
            ],
            Seq::empty(),
            state,
        ),
        WindowsMessage::TouchInput { reports } => (
            touch_events(window, reports@),
            Seq::empty(),
            state,
        ),
        WindowsMessage::SetFocus { x, y, mods } => (
            seq![
                Event::<T>::WindowEvent { window_id: wid, event: WindowEvent::Focused(true) },
                Event::<T>::WindowEvent {
                    window_id: wid,
                    event: WindowEvent::CursorMoved {
                        device_id: did,
                        position: Position { x, y },
                        modifiers: mods,
                    },
                },
            ],
            Seq::empty(),
            state,
        ),
        WindowsMessage::KillFocus => (
            seq![Event::<T>::WindowEvent { window_id: wid, event: WindowEvent::Focused(false) }],
            Seq::empty(),
            state,
        ),
        WindowsMessage::DpiChanged { dpi } => {
            let suppress = match state.saved_window_info {
                Some(info) => if !info.is_fullscreen {
                    !(info.dpi != Some(dpi)) || info.is_fullscreen
                } else {
                    true
                },
                None => false,
            };
            let state1 = if !suppress && state.dpi > 0 {
                let rescaled = WindowState {
                    max_size: match state.max_size {
                        Some(s) => Some(
                            PhysicalSize {
                                width: rescale(s.width, state.dpi, dpi),
                                height: rescale(s.height, state.dpi, dpi),
                            },
                        ),
                        None => None::<PhysicalSize>,
                    },
                    min_size: match state.min_size {
                        Some(s) => Some(
                            PhysicalSize {
                                width: rescale(s.width, state.dpi, dpi),
                                height: rescale(s.height, state.dpi, dpi),
                            },
                        ),
                        None => None::<PhysicalSize>,
                    },
                    ..state
                };
                rescaled
            } else {
                state
            };
            let state2 = WindowState {
                dpi,
                saved_window_info: match state1.saved_window_info {
                    Some(info) => Some(
                        SavedWindowInfo {
                            dpi: if !info.is_fullscreen {
                                None
                            } else {
                                info.dpi
                            },
                            ..info
                        },
                    ),
                    None => None::<SavedWindowInfo>,
                },
                ..state1
            };
            (
                seq![
                    Event::<T>::WindowEvent {
                        window_id: wid,
                        event: WindowEvent::HiDpiFactorChanged(dpi),
                    },
                ],
                if suppress {
                    Seq::empty()
                } else {
                    seq![Win32Action::ApplySuggestedRect]
                },
                state2,
            )
        },
    }
}


/// The events of a raw mouse report: per-axis motions, the combined
/// motion, the wheel turn, then the button transitions.
fn raw_mouse_events<T>(
    dx: i64,
    dy: i64,
    wheel_turns: Option<i64>,
    buttons: &Vec<RawButton>,
) -> (out: Vec<Event<T>>)
    ensures
        ({
            let did = DeviceId(WIN32_DEVICE);
            let x_part: Seq<Event<T>> = if dx != 0 {
                seq![
                    Event::<T>::DeviceEvent {
                        device_id: did,
                        event: DeviceEvent::Motion { axis: 0u32, value: dx },
                    },
                ]
            } else {
                Seq::empty()
            };
            let y_part: Seq<Event<T>> = if dy != 0 {
                seq![
                    Event::<T>::DeviceEvent {
                        device_id: did,
                        event: DeviceEvent::Motion { axis: 1u32, value: dy },
                    },
                ]
            } else {
                Seq::empty()
            };
            let both_part: Seq<Event<T>> = if dx != 0 || dy != 0 {
                seq![
                    Event::<T>::DeviceEvent {
                        device_id: did,
                        event: DeviceEvent::MouseMotion { delta: Position { x: dx, y: dy } },
                    },
                ]
            } else {
                Seq::empty()
            };
            let wheel_part: Seq<Event<T>> = match wheel_turns {
                Some(turns) => seq![
                    Event::<T>::DeviceEvent {
                        device_id: did,
                        event: DeviceEvent::MouseWheel {
                            delta: LineDelta { x_num: 0int as i64, y_num: turns, den: 1int as i64 },
                        },
                    },
                ],
                None => Seq::empty(),
            };
            out@ == x_part + y_part + both_part + wheel_part + raw_button_events::<T>(
                WIN32_DEVICE,
                buttons@,
            )
        }),
{
    let did = mkdid(WIN32_DEVICE);
    let mut out: Vec<Event<T>> = Vec::new();
    if dx != 0 {
        out.push(Event::DeviceEvent {
            device_id: did,
            event: DeviceEvent::Motion { axis: 0, value: dx },
        });
    }
    if dy != 0 {
        out.push(Event::DeviceEvent {
            device_id: did,
            event: DeviceEvent::Motion { axis: 1, value: dy },
        });
    }
    if dx != 0 || dy != 0 {
        out.push(Event::DeviceEvent {
            device_id: did,
            event: DeviceEvent::MouseMotion { delta: Position { x: dx, y: dy } },
        });
    }
    if let Some(turns) = wheel_turns {
        out.push(Event::DeviceEvent {
            device_id: did,
            event: DeviceEvent::MouseWheel {
                delta: LineDelta { x_num: 0, y_num: turns, den: 1 },
            },
        });
    }
    let ghost head = out@;
    let n = buttons.len();
    let mut k: usize = 0;
    while k < n
        invariant
            n == buttons@.len(),
            0 <= k <= n,
            out@ == head + raw_button_events::<T>(WIN32_DEVICE, buttons@.take(k as int)),
        decreases n - k,
    {
        let b = buttons[k];
        out.push(Event::DeviceEvent {
            device_id: mkdid(WIN32_DEVICE),
            event: DeviceEvent::Button {
                button: b.button,
                state: if b.pressed {
                    ElementState::Pressed
                } else {
                    ElementState::Released
                },
            },
        });
        k = k + 1;
        proof {
            lemma_raw_button_events_take_step::<T>(WIN32_DEVICE, buttons@, k as int);
            assert(out@ =~= head + raw_button_events::<T>(WIN32_DEVICE, buttons@.take(k as int)));
        }
    }
    proof {
        assert(buttons@.take(n as int) =~= buttons@);
    }
    out
}

/// The touch events of a touch message, one per report that names a phase.
fn touch_input_events<T>(window: u64, reports: &Vec<TouchReport>) -> (out: Vec<Event<T>>)
    ensures
        out@ == touch_events::<T>(window, reports@),
{
    let mut out: Vec<Event<T>> = Vec::new();
    let n = reports.len();
    let mut k: usize = 0;
    while k < n
        invariant
            n == reports@.len(),
            0 <= k <= n,
            out@ == touch_events::<T>(window, reports@.take(k as int)),
        decreases n - k,
    {
        let rep = reports[k];
        if let Some(phase) = rep.phase {
            out.push(Event::WindowEvent {
                window_id: mkwid(window),
                event: WindowEvent::Touch(Touch {
                    device_id: mkdid(WIN32_DEVICE),
                    phase,
                    location: Position { x: rep.x, y: rep.y },
                    id: rep.id,
                }),
            });
        }
        k = k + 1;
        proof {
            lemma_touch_events_take_step::<T>(window, reports@, k as int);
            assert(out@ =~= touch_events::<T>(window, reports@.take(k as int)));
        }
    }
    proof {
        assert(reports@.take(n as int) =~= reports@);
    }
    out
}

/// Translates one window message: the events it stands for, the operations
/// the embedder owes the native window, and the window's updated state —
/// exactly as [`message_outcome`] lays them out.
#[verifier::rlimit(100)]
#[verifier::spinoff_prover]
pub fn process_window_message<T>(
    window: u64,
    window_state: &mut WindowState,
    msg: WindowsMessage,
) -> (r: (Vec<Event<T>>, Vec<Win32Action>))
    requires
        old(window_state).dpi > 0,
    ensures
        ({
            let outcome = message_outcome::<T>(window, *old(window_state), msg);
            &&& r.0@ == outcome.0
            &&& r.1@ == outcome.1
            &&& *final(window_state) == outcome.2
        }),
{
    let ghost outcome = message_outcome::<T>(window, *old(window_state), msg);
    let wid = mkwid(window);
    let did = mkdid(WIN32_DEVICE);
    let mut out: Vec<Event<T>> = Vec::new();
    let mut actions: Vec<Win32Action> = Vec::new();
    match msg {
        WindowsMessage::Close => {
            out.push(Event::WindowEvent { window_id: wid, event: WindowEvent::CloseRequested });
        
            proof {
                assert(out@ =~= outcome.0);
                assert(actions@ =~= outcome.1);
                assert(*window_state == outcome.2);
            }
        },
        WindowsMessage::Destroy => {
            out.push(Event::WindowEvent { window_id: wid, event: WindowEvent::Destroyed });
        
            proof {
                assert(out@ =~= outcome.0);
                assert(actions@ =~= outcome.1);
                assert(*window_state == outcome.2);
            }
        },
        WindowsMessage::Paint => {
            out.push(Event::WindowEvent { window_id: wid, event: WindowEvent::Refresh });
            proof {
                assert(out@ =~= outcome.0);
                assert(actions@ =~= outcome.1);
                assert(*window_state == outcome.2);
            }
        },
        WindowsMessage::PosChanged { x, y, resized } => {
            if let Some((width, height)) = resized {
                out.push(Event::WindowEvent {
                    window_id: wid,
                    event: WindowEvent::Resized(width, height),
                });
            }
            out.push(Event::WindowEvent {
                window_id: wid,
                event: WindowEvent::Moved(Position { x: x as i64, y: y as i64 }),
            });
        
            proof {
                assert(out@ =~= outcome.0);
                assert(actions@ =~= outcome.1);
                assert(*window_state == outcome.2);
            }
        },
        WindowsMessage::Size { width, height } => {
            out.push(Event::WindowEvent {
                window_id: wid,
                event: WindowEvent::Resized(width, height),
            });
        
            proof {
                assert(out@ =~= outcome.0);
                assert(actions@ =~= outcome.1);
                assert(*window_state == outcome.2);
            }
        },
        WindowsMessage::Char { code } => {
            out.push(Event::WindowEvent {
                window_id: wid,
                event: WindowEvent::ReceivedCharacter(code),
            });
        
            proof {
                assert(out@ =~= outcome.0);
                assert(actions@ =~= outcome.1);
                assert(*window_state == outcome.2);
            }
        },
        WindowsMessage::MouseMove { x, y, mods } => {
            if !window_state.mouse_in_window {
                window_state.mouse_in_window = true;
                out.push(Event::WindowEvent {
                    window_id: wid,
                    event: WindowEvent::CursorEntered { device_id: did },
                });
                actions.push(Win32Action::TrackMouseLeave);
            }
            out.push(Event::WindowEvent {
                window_id: wid,
                event: WindowEvent::CursorMoved {
                    device_id: did,
                    position: Position { x, y },
                    modifiers: mods,
                },
            });
            proof {
                assert(out@ =~= outcome.0);
                assert(actions@ =~= outcome.1);
            }
        },
        WindowsMessage::MouseLeave => {
            if window_state.mouse_in_window {
                window_state.mouse_in_window = false;
                out.push(Event::WindowEvent {
                    window_id: wid,
                    event: WindowEvent::CursorLeft { device_id: did },
                });
            }
        
            proof {
                assert(out@ =~= outcome.0);
                assert(actions@ =~= outcome.1);
                assert(*window_state == outcome.2);
            }
        },
        WindowsMessage::Wheel { value, mods } => {
            out.push(Event::WindowEvent {
                window_id: wid,
                event: WindowEvent::MouseWheel {
                    device_id: did,
                    delta: LineDelta { x_num: 0, y_num: value, den: WHEEL_DELTA },
                    phase: TouchPhase::Moved,
                    modifiers: mods,
                },
            });
        
            proof {
                assert(out@ =~= outcome.0);
                assert(actions@ =~= outcome.1);
                assert(*window_state == outcome.2);
            }
        },
        WindowsMessage::Key { pressed, scancode, vkey, mods } => {
            out.push(Event::WindowEvent {
                window_id: wid,
                event: WindowEvent::KeyboardInput {
                    device_id: did,
                    input: KeyboardInput {
                        scancode,
                        state: if pressed {
                            ElementState::Pressed
                        } else {
                            ElementState::Released
                        },
                        virtual_keycode: vkey,
                        modifiers: mods,
                    },
                },
            });
            if pressed && vkey == Some(VirtualKeyCode::Delete) {
                out.push(Event::WindowEvent {
                    window_id: wid,
                    event: WindowEvent::ReceivedCharacter(0x7F),
                });
            }
            proof {
                assert(out@ =~= outcome.0);
            }
        },
        WindowsMessage::Button { button, pressed, mods } => {
            out.push(Event::WindowEvent {
                window_id: wid,
                event: WindowEvent::MouseInput {
                    device_id: did,
                    state: if pressed {
                        ElementState::Pressed
                    } else {
                        ElementState::Released
                    },
                    button,
                    modifiers: mods,
                },
            });
            if pressed {
                if window_state.mouse_buttons_down < u32::MAX {
                    capture_mouse(window_state);
                } else {
                }
                actions.push(Win32Action::SetCapture);
            } else {
                let release = release_mouse(window_state);
                if release {
                    actions.push(Win32Action::ReleaseCapture);
                }
            }
            proof {
                assert(out@ =~= outcome.0);
                assert(actions@ =~= outcome.1);
            }
        },
        WindowsMessage::DeviceChange { added, device } => {
            out.push(Event::DeviceEvent {
                device_id: mkdid(device),
                event: if added {
                    DeviceEvent::Added
                } else {
                    DeviceEvent::Removed
                },
            });
        
            proof {
                assert(out@ =~= outcome.0);
                assert(actions@ =~= outcome.1);
                assert(*window_state == outcome.2);
            }
        },
        WindowsMessage::RawMouse { dx, dy, wheel_turns, buttons } => {
            let mut events: Vec<Event<T>> = raw_mouse_events(dx, dy, wheel_turns, &buttons);
            out.append(&mut events);
            proof {
                assert(out@ =~= outcome.0);
            }
        },
        WindowsMessage::RawKey { pressed, scancode, vkey, mods } => {
            out.push(Event::DeviceEvent {
                device_id: did,
                event: DeviceEvent::Key(KeyboardInput {
                    scancode,
                    state: if pressed {
                        ElementState::Pressed
                    } else {
                        ElementState::Released
                    },
                    virtual_keycode: vkey,
                    modifiers: mods,
                }),
            });
        
            proof {
                assert(out@ =~= outcome.0);
                assert(actions@ =~= outcome.1);
                assert(*window_state == outcome.2);
            }
        },
        WindowsMessage::TouchInput { reports } => {
            let mut events: Vec<Event<T>> = touch_input_events(window, &reports);
            out.append(&mut events);
            proof {
                assert(out@ =~= outcome.0);
            }
        },
        WindowsMessage::SetFocus { x, y, mods } => {
            out.push(Event::WindowEvent { window_id: wid, event: WindowEvent::Focused(true) });
            out.push(Event::WindowEvent {
                window_id: wid,
                event: WindowEvent::CursorMoved {
                    device_id: did,
                    position: Position { x, y },
                    modifiers: mods,
                },
            });
            proof {
                assert(out@ =~= outcome.0);
            }
        },
        WindowsMessage::KillFocus => {
            out.push(Event::WindowEvent { window_id: wid, event: WindowEvent::Focused(false) });
        
            proof {
                assert(out@ =~= outcome.0);
                assert(actions@ =~= outcome.1);
                assert(*window_state == outcome.2);
            }
        },
        WindowsMessage::DpiChanged { dpi } => {
            let suppress = match window_state.saved_window_info {
                Some(info) => if !info.is_fullscreen {
                    !(info.dpi != Some(dpi)) || info.is_fullscreen
                } else {
                    true
                },
                None => false,
            };
            if !suppress {
                let old_dpi = window_state.dpi;
                window_state.update_min_max(old_dpi, dpi);
                actions.push(Win32Action::ApplySuggestedRect);
            }
            if let Some(info) = window_state.saved_window_info {
                if !info.is_fullscreen {
                    window_state.saved_window_info = Some(SavedWindowInfo { dpi: None, ..info });
                }
            }
            window_state.dpi = dpi;
            out.push(Event::WindowEvent {
                window_id: wid,
                event: WindowEvent::HiDpiFactorChanged(dpi),
            });
            proof {
                assert(out@ =~= outcome.0);
                assert(actions@ =~= outcome.1);
                assert(*window_state == outcome.2);
            }
        },
    }
    proof {
        if out@.len() == 0 {
            assert(out@ =~= Seq::<Event<T>>::empty());
        }
        if out@.len() == 1 {
            assert(out@ =~= seq![out@[0]]);
        }
        if actions@.len() == 0 {
            assert(actions@ =~= Seq::<Win32Action>::empty());
        }
        if actions@.len() == 1 {
            assert(actions@ =~= seq![actions@[0]]);
        }
    }
    (out, actions)
}

/// The wait the loop performs after a turn, per the chosen control flow.
#[derive(Debug, Clone, Copy, PartialEq, Eq, Structural)]
pub enum WaitDecision {
    /// Exit: the loop ends and `LoopDestroyed` follows.
    ExitLoop,
    /// Block on the native source indefinitely.
    BlockIndefinitely,
    /// Block until the deadline or the next native message.
    BlockUntil(u64),
    /// Do not block.
    DontBlock,
}

/// Chooses the wait after a turn from the control flow the callback left.
pub fn wait_mode(cf: ControlFlow) -> (r: WaitDecision)
    ensures
        r == match cf {
            ControlFlow::Exit => WaitDecision::ExitLoop,
            ControlFlow::Wait => WaitDecision::BlockIndefinitely,
            ControlFlow::WaitUntil(deadline) => WaitDecision::BlockUntil(deadline),
            ControlFlow::Poll => WaitDecision::DontBlock,
        },
{
    match cf {
        ControlFlow::Exit => WaitDecision::ExitLoop,
        ControlFlow::Wait => WaitDecision::BlockIndefinitely,
        ControlFlow::WaitUntil(deadline) => WaitDecision::BlockUntil(deadline),
        ControlFlow::Poll => WaitDecision::DontBlock,
    }
}

/// During a native modal loop (a resize or a move), the hidden painter
/// window's paint message marks the drained queue: the turn is closed and,
/// but for a plain wait, the next one opened at once. The caller learns
/// the events to deliver, the wait to perform, and whether to queue the
/// next paint round.
pub fn modal_queue_drained<T>(
    runner: &mut EventLoopRunner,
    cf: ControlFlow,
    now: u64,
) -> (r: (Vec<Event<T>>, WaitDecision, bool))
    requires
        !(cf is Exit) || !(events_cleared_next::<T>(old(runner).state, cf, now).0 is Idle)
            || new_events_next(events_cleared_next::<T>(old(runner).state, cf, now).0, cf, now).0
            is HandlingEvents,
    ensures
        ({
            let cleared = events_cleared_next::<T>(old(runner).state, cf, now);
            let opened = new_events_next(cleared.0, cf, now);
            &&& final(runner).state == opened.0
            &&& r.0@ == cleared.1 + new_events_emitted::<T>(cleared.0, cf, now)
            &&& r.1 == match cf {
                ControlFlow::Exit => WaitDecision::ExitLoop,
                ControlFlow::Wait => WaitDecision::BlockIndefinitely,
                ControlFlow::WaitUntil(deadline) => WaitDecision::BlockUntil(deadline),
                ControlFlow::Poll => WaitDecision::DontBlock,
            }
            &&& r.2 == (cf is Poll || cf is WaitUntil)
        }),
{
    let mut out: Vec<Event<T>> = runner.events_cleared(cf, now);
    let mut opened: Vec<Event<T>> = runner.new_events(cf, now);
    out.append(&mut opened);
    let decision = wait_mode(cf);
    let queue_again = match cf {
        ControlFlow::Poll => true,
        ControlFlow::WaitUntil(_) => true,
        _ => false,
    };
    (out, decision, queue_again)
}


/// Drains one queued user event when the wakeup message arrives: the
/// payloads come out in the order the proxies sent them, each delivered as
/// a user event at the next dispatch point.
pub fn drain_user_event<T>(receiver: &crossbeam_channel::Receiver<T>) -> (r: Option<Event<T>>)
    ensures
        r matches Some(e) ==> e is UserEvent,
{
    match crate::channel::channel_try_recv(receiver) {
        Some(value) => Some(Event::UserEvent(value)),
        None => None,
    }
}

/// A cloneable cross-thread handle that queues a user event and posts a
/// native message so a blocked loop wakes to drain it.
#[derive(Clone)]
#[verifier::reject_recursive_types(T)]
pub struct EventLoopProxy<T> {
    pub sender: crossbeam_channel::Sender<T>,
}

impl<T> EventLoopProxy<T> {
    /// Queues the event for the loop's next dispatch point. `Err` reports
    /// that the loop has been destroyed; no queued payload is lost.
    pub fn send_event(&self, event: T) -> Result<(), EventsLoopClosed> {
        channel_send(&self.sender, event)
    }
}

} // verus!
