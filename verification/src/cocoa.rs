//! The Cocoa adapter's translation logic: the key tables, the modifier
//! derivation from event flags, the mouse-motion splitting, and the handler
//! that drives the callback from the native run loop's observers.
//!
//! The native types stay with the embedding program: it reads an event's
//! key code, modifier flags or mouse deltas and hands the plain values in.

use vstd::prelude::*;
use vstd::string::StrSliceExecFns;

use crate::channel::channel_send;
use crate::event::{
    ControlFlow, DeviceEvent, DeviceId, ElementState, Event, EventsLoopClosed, KeyboardInput,
    ModifiersState, Position, StartCause, VirtualKeyCode, WindowEvent, mkdid,
};

verus! {

/// The bits of the native modifier-flags word.
pub const SHIFT_FLAG: u64 = 0x20000;
pub const CONTROL_FLAG: u64 = 0x40000;
pub const ALTERNATE_FLAG: u64 = 0x80000;
pub const COMMAND_FLAG: u64 = 0x100000;

/// The device identity this adapter reports for its single pointer and
/// keyboard.
pub const COCOA_DEVICE: i32 = 0;

/// The symbolic key of a platform key code, by the fixed physical-to-
/// virtual table.
pub open spec fn virtual_key_of(code: u16) -> Option<VirtualKeyCode> {
    match code {
        0x00 => Some(VirtualKeyCode::A),
        0x01 => Some(VirtualKeyCode::S),
        0x02 => Some(VirtualKeyCode::D),
        0x03 => Some(VirtualKeyCode::F),
        0x04 => Some(VirtualKeyCode::H),
        0x05 => Some(VirtualKeyCode::G),
        0x06 => Some(VirtualKeyCode::Z),
        0x07 => Some(VirtualKeyCode::X),
        0x08 => Some(VirtualKeyCode::C),
        0x09 => Some(VirtualKeyCode::V),
        0x0b => Some(VirtualKeyCode::B),
        0x0c => Some(VirtualKeyCode::Q),
        0x0d => Some(VirtualKeyCode::W),
        0x0e => Some(VirtualKeyCode::E),
        0x0f => Some(VirtualKeyCode::R),
        0x10 => Some(VirtualKeyCode::Y),
        0x11 => Some(VirtualKeyCode::T),
        0x12 => Some(VirtualKeyCode::Key1),
        0x13 => Some(VirtualKeyCode::Key2),
        0x14 => Some(VirtualKeyCode::Key3),
        0x15 => Some(VirtualKeyCode::Key4),
        0x16 => Some(VirtualKeyCode::Key6),
        0x17 => Some(VirtualKeyCode::Key5),
        0x18 => Some(VirtualKeyCode::Equals),
        0x19 => Some(VirtualKeyCode::Key9),
        0x1a => Some(VirtualKeyCode::Key7),
        0x1b => Some(VirtualKeyCode::Minus),
        0x1c => Some(VirtualKeyCode::Key8),
        0x1d => Some(VirtualKeyCode::Key0),
        0x1e => Some(VirtualKeyCode::RBracket),
        0x1f => Some(VirtualKeyCode::O),
        0x20 => Some(VirtualKeyCode::U),
        0x21 => Some(VirtualKeyCode::LBracket),
        0x22 => Some(VirtualKeyCode::I),
        0x23 => Some(VirtualKeyCode::P),
        0x24 => Some(VirtualKeyCode::Return),
        0x25 => Some(VirtualKeyCode::L),
        0x26 => Some(VirtualKeyCode::J),
        0x27 => Some(VirtualKeyCode::Apostrophe),
        0x28 => Some(VirtualKeyCode::K),
        0x29 => Some(VirtualKeyCode::Semicolon),
        0x2a => Some(VirtualKeyCode::Backslash),
        0x2b => Some(VirtualKeyCode::Comma),
        0x2c => Some(VirtualKeyCode::Slash),
        0x2d => Some(VirtualKeyCode::N),
        0x2e => Some(VirtualKeyCode::M),
        0x2f => Some(VirtualKeyCode::Period),
        0x30 => Some(VirtualKeyCode::Tab),
        0x31 => Some(VirtualKeyCode::Space),
        0x32 => Some(VirtualKeyCode::Grave),
        0x33 => Some(VirtualKeyCode::Back),
        0x35 => Some(VirtualKeyCode::Escape),
        0x36 => Some(VirtualKeyCode::RWin),
        0x37 => Some(VirtualKeyCode::LWin),
        0x38 => Some(VirtualKeyCode::LShift),
        0x3a => Some(VirtualKeyCode::LAlt),
        0x3b => Some(VirtualKeyCode::LControl),
        0x3c => Some(VirtualKeyCode::RShift),
        0x3d => Some(VirtualKeyCode::RAlt),
        0x3e => Some(VirtualKeyCode::RControl),
        0x40 => Some(VirtualKeyCode::F17),
        0x41 => Some(VirtualKeyCode::Decimal),
        0x43 => Some(VirtualKeyCode::Multiply),
        0x45 => Some(VirtualKeyCode::Add),
        0x47 => Some(VirtualKeyCode::Numlock),
        0x49 => Some(VirtualKeyCode::VolumeUp),
        0x4a => Some(VirtualKeyCode::VolumeDown),
        0x4b => Some(VirtualKeyCode::Divide),
        0x4c => Some(VirtualKeyCode::NumpadEnter),
        0x4e => Some(VirtualKeyCode::Subtract),
        0x4f => Some(VirtualKeyCode::F18),
        0x50 => Some(VirtualKeyCode::F19),
        0x51 => Some(VirtualKeyCode::NumpadEquals),
        0x52 => Some(VirtualKeyCode::Numpad0),
        0x53 => Some(VirtualKeyCode::Numpad1),
        0x54 => Some(VirtualKeyCode::Numpad2),
        0x55 => Some(VirtualKeyCode::Numpad3),
        0x56 => Some(VirtualKeyCode::Numpad4),
        0x57 => Some(VirtualKeyCode::Numpad5),
        0x58 => Some(VirtualKeyCode::Numpad6),
        0x59 => Some(VirtualKeyCode::Numpad7),
        0x5a => Some(VirtualKeyCode::F20),
        0x5b => Some(VirtualKeyCode::Numpad8),
        0x5c => Some(VirtualKeyCode::Numpad9),
        0x60 => Some(VirtualKeyCode::F5),
        0x61 => Some(VirtualKeyCode::F6),
        0x62 => Some(VirtualKeyCode::F7),
        0x63 => Some(VirtualKeyCode::F3),
        0x64 => Some(VirtualKeyCode::F8),
        0x65 => Some(VirtualKeyCode::F9),
        0x67 => Some(VirtualKeyCode::F11),
        0x69 => Some(VirtualKeyCode::F13),
        0x6a => Some(VirtualKeyCode::F16),
        0x6b => Some(VirtualKeyCode::F14),
        0x6d => Some(VirtualKeyCode::F10),
        0x6f => Some(VirtualKeyCode::F12),
        0x71 => Some(VirtualKeyCode::F15),
        0x72 => Some(VirtualKeyCode::Insert),
        0x73 => Some(VirtualKeyCode::Home),
        0x74 => Some(VirtualKeyCode::PageUp),
        0x75 => Some(VirtualKeyCode::Delete),
        0x76 => Some(VirtualKeyCode::F4),
        0x77 => Some(VirtualKeyCode::End),
        0x78 => Some(VirtualKeyCode::F2),
        0x79 => Some(VirtualKeyCode::PageDown),
        0x7a => Some(VirtualKeyCode::F1),
        0x7b => Some(VirtualKeyCode::Left),
        0x7c => Some(VirtualKeyCode::Right),
        0x7d => Some(VirtualKeyCode::Down),
        0x7e => Some(VirtualKeyCode::Up),
        0xa => Some(VirtualKeyCode::Caret),
        _ => None,
    }
}

/// Translates a platform key code through the fixed table.
pub fn to_virtual_key_code(code: u16) -> (r: Option<VirtualKeyCode>)
    ensures
        r == virtual_key_of(code),
{
    match code {
        0x00 => Some(VirtualKeyCode::A),
        0x01 => Some(VirtualKeyCode::S),
        0x02 => Some(VirtualKeyCode::D),
        0x03 => Some(VirtualKeyCode::F),
        0x04 => Some(VirtualKeyCode::H),
        0x05 => Some(VirtualKeyCode::G),
        0x06 => Some(VirtualKeyCode::Z),
        0x07 => Some(VirtualKeyCode::X),
        0x08 => Some(VirtualKeyCode::C),
        0x09 => Some(VirtualKeyCode::V),
        0x0b => Some(VirtualKeyCode::B),
        0x0c => Some(VirtualKeyCode::Q),
        0x0d => Some(VirtualKeyCode::W),
        0x0e => Some(VirtualKeyCode::E),
        0x0f => Some(VirtualKeyCode::R),
        0x10 => Some(VirtualKeyCode::Y),
        0x11 => Some(VirtualKeyCode::T),
        0x12 => Some(VirtualKeyCode::Key1),
        0x13 => Some(VirtualKeyCode::Key2),
        0x14 => Some(VirtualKeyCode::Key3),
        0x15 => Some(VirtualKeyCode::Key4),
        0x16 => Some(VirtualKeyCode::Key6),
        0x17 => Some(VirtualKeyCode::Key5),
        0x18 => Some(VirtualKeyCode::Equals),
        0x19 => Some(VirtualKeyCode::Key9),
        0x1a => Some(VirtualKeyCode::Key7),
        0x1b => Some(VirtualKeyCode::Minus),
        0x1c => Some(VirtualKeyCode::Key8),
        0x1d => Some(VirtualKeyCode::Key0),
        0x1e => Some(VirtualKeyCode::RBracket),
        0x1f => Some(VirtualKeyCode::O),
        0x20 => Some(VirtualKeyCode::U),
        0x21 => Some(VirtualKeyCode::LBracket),
        0x22 => Some(VirtualKeyCode::I),
        0x23 => Some(VirtualKeyCode::P),
        0x24 => Some(VirtualKeyCode::Return),
        0x25 => Some(VirtualKeyCode::L),
        0x26 => Some(VirtualKeyCode::J),
        0x27 => Some(VirtualKeyCode::Apostrophe),
        0x28 => Some(VirtualKeyCode::K),
        0x29 => Some(VirtualKeyCode::Semicolon),
        0x2a => Some(VirtualKeyCode::Backslash),
        0x2b => Some(VirtualKeyCode::Comma),
        0x2c => Some(VirtualKeyCode::Slash),
        0x2d => Some(VirtualKeyCode::N),
        0x2e => Some(VirtualKeyCode::M),
        0x2f => Some(VirtualKeyCode::Period),
        0x30 => Some(VirtualKeyCode::Tab),
        0x31 => Some(VirtualKeyCode::Space),
        0x32 => Some(VirtualKeyCode::Grave),
        0x33 => Some(VirtualKeyCode::Back),
        0x35 => Some(VirtualKeyCode::Escape),
        0x36 => Some(VirtualKeyCode::RWin),
        0x37 => Some(VirtualKeyCode::LWin),
        0x38 => Some(VirtualKeyCode::LShift),
        0x3a => Some(VirtualKeyCode::LAlt),
        0x3b => Some(VirtualKeyCode::LControl),
        0x3c => Some(VirtualKeyCode::RShift),
        0x3d => Some(VirtualKeyCode::RAlt),
        0x3e => Some(VirtualKeyCode::RControl),
        0x40 => Some(VirtualKeyCode::F17),
        0x41 => Some(VirtualKeyCode::Decimal),
        0x43 => Some(VirtualKeyCode::Multiply),
        0x45 => Some(VirtualKeyCode::Add),
        0x47 => Some(VirtualKeyCode::Numlock),
        0x49 => Some(VirtualKeyCode::VolumeUp),
        0x4a => Some(VirtualKeyCode::VolumeDown),
        0x4b => Some(VirtualKeyCode::Divide),
        0x4c => Some(VirtualKeyCode::NumpadEnter),
        0x4e => Some(VirtualKeyCode::Subtract),
        0x4f => Some(VirtualKeyCode::F18),
        0x50 => Some(VirtualKeyCode::F19),
        0x51 => Some(VirtualKeyCode::NumpadEquals),
        0x52 => Some(VirtualKeyCode::Numpad0),
        0x53 => Some(VirtualKeyCode::Numpad1),
        0x54 => Some(VirtualKeyCode::Numpad2),
        0x55 => Some(VirtualKeyCode::Numpad3),
        0x56 => Some(VirtualKeyCode::Numpad4),
        0x57 => Some(VirtualKeyCode::Numpad5),
        0x58 => Some(VirtualKeyCode::Numpad6),
        0x59 => Some(VirtualKeyCode::Numpad7),
        0x5a => Some(VirtualKeyCode::F20),
        0x5b => Some(VirtualKeyCode::Numpad8),
        0x5c => Some(VirtualKeyCode::Numpad9),
        0x60 => Some(VirtualKeyCode::F5),
        0x61 => Some(VirtualKeyCode::F6),
        0x62 => Some(VirtualKeyCode::F7),
        0x63 => Some(VirtualKeyCode::F3),
        0x64 => Some(VirtualKeyCode::F8),
        0x65 => Some(VirtualKeyCode::F9),
        0x67 => Some(VirtualKeyCode::F11),
        0x69 => Some(VirtualKeyCode::F13),
        0x6a => Some(VirtualKeyCode::F16),
        0x6b => Some(VirtualKeyCode::F14),
        0x6d => Some(VirtualKeyCode::F10),
        0x6f => Some(VirtualKeyCode::F12),
        0x71 => Some(VirtualKeyCode::F15),
        0x72 => Some(VirtualKeyCode::Insert),
        0x73 => Some(VirtualKeyCode::Home),
        0x74 => Some(VirtualKeyCode::PageUp),
        0x75 => Some(VirtualKeyCode::Delete),
        0x76 => Some(VirtualKeyCode::F4),
        0x77 => Some(VirtualKeyCode::End),
        0x78 => Some(VirtualKeyCode::F2),
        0x79 => Some(VirtualKeyCode::PageDown),
        0x7a => Some(VirtualKeyCode::F1),
        0x7b => Some(VirtualKeyCode::Left),
        0x7c => Some(VirtualKeyCode::Right),
        0x7d => Some(VirtualKeyCode::Down),
        0x7e => Some(VirtualKeyCode::Up),
        0xa => Some(VirtualKeyCode::Caret),
        _ => None,
    }
}

/// The symbolic key of a function key that announces itself only through a
/// private-use code point in the characters of the event.
pub open spec fn additional_key_of(code: u32) -> Option<VirtualKeyCode> {
    match code {
        0xf718 => Some(VirtualKeyCode::F21),
        0xf719 => Some(VirtualKeyCode::F22),
        0xf71a => Some(VirtualKeyCode::F23),
        0xf71b => Some(VirtualKeyCode::F24),
        _ => None,
    }
}

/// The first character's code point, or nothing for an empty string.
fn first_char_code(s: &str) -> (r: Option<u32>)
    ensures
        r == (if s@.len() == 0 {
            None::<u32>
        } else {
            Some(s@[0] as u32)
        }),
{
    if s.unicode_len() > 0 {
        Some(s.get_char(0) as u32)
    } else {
        None
    }
}

/// Translates the first character of an event's text, where the fixed
/// table knows no key: the private-use code points of the upper function
/// keys.
pub fn check_additional_virtual_key_codes(s: &Option<String>) -> (r: Option<VirtualKeyCode>)
    ensures
        match s {
            Some(text) => if text@.len() > 0 {
                r == additional_key_of(text@[0] as u32)
            } else {
                r == None::<VirtualKeyCode>
            },
            None => r == None::<VirtualKeyCode>,
        },
{
    if let Some(text) = s {
        if let Some(code) = first_char_code(text.as_str()) {
            return match code {
                0xf718 => Some(VirtualKeyCode::F21),
                0xf719 => Some(VirtualKeyCode::F22),
                0xf71a => Some(VirtualKeyCode::F23),
                0xf71b => Some(VirtualKeyCode::F24),
                _ => None,
            };
        }
    }
    None
}

/// The modifier state a native modifier-flags word encodes.
pub open spec fn mods_of_flags(flags: u64) -> ModifiersState {
    ModifiersState {
        shift: flags & SHIFT_FLAG != 0,
        ctrl: flags & CONTROL_FLAG != 0,
        alt: flags & ALTERNATE_FLAG != 0,
        logo: flags & COMMAND_FLAG != 0,
    }
}

/// Reads the modifier state out of an event's modifier flags, so the
/// modifiers on an event always reflect the flags the platform attached to
/// that very event.
pub fn event_mods(flags: u64) -> (r: ModifiersState)
    ensures
        r == mods_of_flags(flags),
{
    ModifiersState {
        shift: flags & SHIFT_FLAG != 0,
        ctrl: flags & CONTROL_FLAG != 0,
        alt: flags & ALTERNATE_FLAG != 0,
        logo: flags & COMMAND_FLAG != 0,
    }
}

/// Derives a synthetic key press or release from a flags-changed event: if
/// the masked bit differs from the key's prior state, the transition is
/// announced as a keyboard event under the event's own modifiers.
pub fn modifier_event(flags: u64, keymask: u64, keycode: u16, was_key_pressed: bool) -> (r: Option<WindowEvent>)
    ensures
        ({
            let bit_set = flags & keymask != 0;
            if was_key_pressed != bit_set {
                r == Some(WindowEvent::KeyboardInput {
                    device_id: DeviceId(COCOA_DEVICE),
                    input: KeyboardInput {
                        scancode: keycode as u32,
                        state: if was_key_pressed {
                            ElementState::Released
                        } else {
                            ElementState::Pressed
                        },
                        virtual_keycode: virtual_key_of(keycode),
                        modifiers: mods_of_flags(flags),
                    },
                })
            } else {
                r is None
            }
        }),
{
    let bit_set = flags & keymask != 0;
    if was_key_pressed != bit_set {
        let state = if was_key_pressed {
            ElementState::Released
        } else {
            ElementState::Pressed
        };
        Some(WindowEvent::KeyboardInput {
            device_id: mkdid(COCOA_DEVICE),
            input: KeyboardInput {
                scancode: keycode as u32,
                state,
                virtual_keycode: to_virtual_key_code(keycode),
                modifiers: event_mods(flags),
            },
        })
    } else {
        None
    }
}


/// A user-event payload the adapter never produces: nothing outside this
/// module can construct a value of it, so the adapter's own queue carries
/// only non-user events, which `userify` then lifts to the caller's type.
#[derive(Debug, Clone, Copy, PartialEq, Eq)]
pub struct Never {
    _private: (),
}

/// Lifts an event without user payload to any payload type.
pub fn userify<T>(e: Event<Never>) -> (r: Event<T>)
    requires
        !(e is UserEvent),
    ensures
        (e matches Event::WindowEvent { window_id, event } ==> r == Event::WindowEvent::<T> {
            window_id,
            event,
        }),
        (e matches Event::DeviceEvent { device_id, event } ==> r == Event::DeviceEvent::<T> {
            device_id,
            event,
        }),
        e is Awakened ==> r == Event::Awakened::<T>,
        (e matches Event::NewEvents(cause) ==> r == Event::NewEvents::<T>(cause)),
        e is EventsCleared ==> r == Event::EventsCleared::<T>,
        e is LoopDestroyed ==> r == Event::LoopDestroyed::<T>,
        !(r is UserEvent),
{
    match e {
        Event::WindowEvent { window_id, event } => Event::WindowEvent { window_id, event },
        Event::DeviceEvent { device_id, event } => Event::DeviceEvent { device_id, event },
        Event::UserEvent(_) => {
            proof {
                assert(false);
            }
            Event::Awakened
        },
        Event::Awakened => Event::Awakened,
        Event::NewEvents(cause) => Event::NewEvents(cause),
        Event::EventsCleared => Event::EventsCleared,
        Event::LoopDestroyed => Event::LoopDestroyed,
    }
}

/// Events queued by windows and delegates while the callback is busy,
/// drained at the end of each turn.
pub struct PendingEvents {
    pub pending: Vec<Event<Never>>,
}

impl PendingEvents {
    /// An empty queue.
    pub fn new() -> (r: PendingEvents)
        ensures
            r.pending@.len() == 0,
    {
        PendingEvents { pending: Vec::new() }
    }

    /// Appends one event.
    pub fn queue_event(&mut self, event: Event<Never>)
        ensures
            final(self).pending@ == old(self).pending@.push(event),
    {
        self.pending.push(event);
    }

    /// Appends a batch of events, in order.
    pub fn queue_events(&mut self, events: Vec<Event<Never>>)
        ensures
            final(self).pending@ == old(self).pending@ + events@,
    {
        let mut events = events;
        self.pending.append(&mut events);
    }

    /// Takes everything queued, leaving the queue empty.
    pub fn take(&mut self) -> (r: Vec<Event<Never>>)
        ensures
            r@ == old(self).pending@,
            final(self).pending@.len() == 0,
    {
        let r = self.pending.split_off(0);
        proof {
            assert(r@ =~= old(self).pending@);
        }
        r
    }
}

/// The identities a window that is removed on close leaves behind.
pub open spec fn without_window(windows: Seq<u64>, id: u64) -> Seq<u64>
    decreases windows.len(),
{
    if windows.len() == 0 {
        Seq::empty()
    } else {
        let rest = without_window(windows.drop_first(), id);
        if windows[0] == id {
            rest
        } else {
            seq![windows[0]] + rest
        }
    }
}

proof fn lemma_without_window_take_step(windows: Seq<u64>, id: u64, k: int)
    requires
        0 < k <= windows.len(),
    ensures
        without_window(windows.take(k), id) == if windows[k - 1] == id {
            without_window(windows.take(k - 1), id)
        } else {
            without_window(windows.take(k - 1), id) + seq![windows[k - 1]]
        },
    decreases k,
{
    if k == 1 {
        assert(windows.take(1).drop_first() =~= windows.take(0));
        assert(without_window(windows.take(0), id) =~= Seq::<u64>::empty());
        assert(windows.take(1)[0] == windows[0]);
        if windows[0] != id {
            assert(without_window(windows.take(1), id) =~= Seq::<u64>::empty() + seq![windows[0]]);
        }
    } else {
        lemma_without_window_take_step(windows.drop_first(), id, k - 1);
        assert(windows.take(k).drop_first() =~= windows.drop_first().take(k - 1));
        assert(windows.take(k - 1).drop_first() =~= windows.drop_first().take(k - 2));
        assert(windows.take(k)[0] == windows[0]);
        assert(windows.take(k - 1)[0] == windows[0]);
        if windows[0] != id {
            assert(without_window(windows.take(k), id) =~= seq![windows[0]] + without_window(
                windows.drop_first().take(k - 1),
                id,
            ));
            assert(without_window(windows.take(k - 1), id) =~= seq![windows[0]] + without_window(
                windows.drop_first().take(k - 2),
                id,
            ));
        }
    }
}

/// The windows the loop dispatches to, by identity, in registration order.
pub struct WindowList {
    pub windows: Vec<u64>,
}

impl WindowList {
    /// No windows yet.
    pub fn new() -> (r: WindowList)
        ensures
            r.windows@.len() == 0,
    {
        WindowList { windows: Vec::new() }
    }

    /// Registers a window.
    pub fn insert_window(&mut self, id: u64)
        ensures
            final(self).windows@ == old(self).windows@.push(id),
    {
        self.windows.push(id);
    }

    /// Removes every entry of a window that is closing.
    pub fn remove_window(&mut self, id: u64)
        ensures
            final(self).windows@ == without_window(old(self).windows@, id),
    {
        let mut kept: Vec<u64> = Vec::new();
        let n = self.windows.len();
        let mut k: usize = 0;
        while k < n
            invariant
                n == self.windows@.len(),
                self.windows@ == old(self).windows@,
                0 <= k <= n,
                kept@ == without_window(self.windows@.take(k as int), id),
            decreases n - k,
        {
            let w = self.windows[k];
            if w != id {
                kept.push(w);
            }
            k = k + 1;
            proof {
                lemma_without_window_take_step(self.windows@, id, k as int);
                assert(kept@ =~= without_window(self.windows@.take(k as int), id));
            }
        }
        proof {
            assert(self.windows@.take(n as int) =~= self.windows@);
        }
        self.windows = kept;
    }
}

/// What the handler asks of the run-loop waker after a turn, from how the
/// control flow moved.
#[derive(Debug, Clone, Copy, PartialEq, Eq, Structural)]
pub enum WakerAction {
    /// Nothing changed; leave the waker as it stands.
    Unchanged,
    /// Wake immediately and keep waking: the loop polls.
    Start,
    /// Wake once at the given time.
    StartAt(u64),
    /// Stop waking: the loop waits for native events.
    Stop,
    /// Stop the application: the loop is exiting.
    StopApp,
}

/// The decision the handler takes after a turn: how the waker follows the
/// callback's control flow.
pub open spec fn waker_action_of(prev: ControlFlow, now: ControlFlow) -> WakerAction {
    match (prev, now) {
        (ControlFlow::Poll, ControlFlow::Poll) => WakerAction::Unchanged,
        (ControlFlow::Wait, ControlFlow::Wait) => WakerAction::Unchanged,
        (ControlFlow::WaitUntil(a), ControlFlow::WaitUntil(b)) => if a == b {
            WakerAction::Unchanged
        } else {
            WakerAction::StartAt(b)
        },
        (_, ControlFlow::Wait) => WakerAction::Stop,
        (_, ControlFlow::WaitUntil(b)) => WakerAction::StartAt(b),
        (_, ControlFlow::Poll) => WakerAction::Start,
        (_, ControlFlow::Exit) => WakerAction::StopApp,
    }
}

/// The per-loop handler state driven by the native run loop's observers:
/// the control flow the callback chose, its value at the start of the turn
/// (from which the waker decision is derived), and when the loop last went
/// idle, reported as the start of a cancelled or completed wait.
#[derive(Debug, Clone, Copy, PartialEq, Eq, Structural)]
pub struct Handler {
    pub control_flow: ControlFlow,
    pub control_flow_prev: ControlFlow,
    pub wait_start: u64,
}

impl Handler {
    /// Fresh state: the loop polls until the callback chooses otherwise.
    pub fn new() -> (r: Handler)
        ensures
            r.control_flow == ControlFlow::Poll,
            r.control_flow_prev == ControlFlow::Poll,
            r.wait_start == 0,
    {
        Handler {
            control_flow: ControlFlow::Poll,
            control_flow_prev: ControlFlow::Poll,
            wait_start: 0,
        }
    }

    /// The application finished launching: the first turn opens with
    /// `Init`.
    pub fn launched<T>(&mut self) -> (out: Vec<Event<T>>)
        ensures
            *final(self) == *old(self),
            out@ =~= seq![Event::<T>::NewEvents(StartCause::Init)],
    {
        let mut out: Vec<Event<T>> = Vec::new();
        out.push(Event::NewEvents(StartCause::Init));
        out
    }

    /// The run loop woke for a new turn: the turn opens with the cause the
    /// control flow and the clock dictate — `Poll` under polling, the
    /// cancellation or deadline arrival of the wait otherwise. Once the
    /// callback has chosen `Exit`, no turn is announced any more, as the
    /// loop is already stopping.
    pub fn wakeup<T>(&mut self, now: u64) -> (out: Vec<Event<T>>)
        ensures
            final(self).control_flow == old(self).control_flow,
            final(self).control_flow_prev == old(self).control_flow,
            final(self).wait_start == old(self).wait_start,
            out@ =~= if old(self).control_flow is Exit {
                Seq::<Event<T>>::empty()
            } else {
                seq![
                    Event::<T>::NewEvents(
                        crate::runner::wake_cause(old(self).wait_start, old(self).control_flow, now),
                    ),
                ]
            },
    {
        self.control_flow_prev = self.control_flow;
        let mut out: Vec<Event<T>> = Vec::new();
        match self.control_flow {
            ControlFlow::Poll => {
                out.push(Event::NewEvents(StartCause::Poll));
            },
            ControlFlow::Wait => {
                out.push(Event::NewEvents(StartCause::WaitCancelled {
                    start: self.wait_start,
                    requested_resume: None,
                }));
            },
            ControlFlow::WaitUntil(resume_time) => {
                if now >= resume_time {
                    out.push(Event::NewEvents(StartCause::ResumeTimeReached {
                        start: self.wait_start,
                        requested_resume: resume_time,
                    }));
                } else {
                    out.push(Event::NewEvents(StartCause::WaitCancelled {
                        start: self.wait_start,
                        requested_resume: Some(resume_time),
                    }));
                }
            },
            ControlFlow::Exit => {},
        }
        out
    }

    /// The turn's events are done: whatever the windows and delegates
    /// queued meanwhile is flushed first, `EventsCleared` closes the turn
    /// after all of them, the idle start is recorded, and the waker is
    /// redirected by how the callback moved the control flow.
    pub fn cleared(&mut self, pending: &mut PendingEvents, now: u64) -> (r: (Vec<Event<Never>>, WakerAction))
        ensures
            final(self).control_flow == old(self).control_flow,
            final(self).control_flow_prev == old(self).control_flow_prev,
            final(self).wait_start == now,
            final(pending).pending@.len() == 0,
            r.0@ == old(pending).pending@ + seq![Event::<Never>::EventsCleared],
            r.1 == waker_action_of(old(self).control_flow_prev, old(self).control_flow),
    {
        self.wait_start = now;
        let mut out: Vec<Event<Never>> = pending.take();
        out.push(Event::EventsCleared);
        let action = match (self.control_flow_prev, self.control_flow) {
            (ControlFlow::Poll, ControlFlow::Poll) => WakerAction::Unchanged,
            (ControlFlow::Wait, ControlFlow::Wait) => WakerAction::Unchanged,
            (ControlFlow::WaitUntil(a), ControlFlow::WaitUntil(b)) => if a == b {
                WakerAction::Unchanged
            } else {
                WakerAction::StartAt(b)
            },
            (_, ControlFlow::Wait) => WakerAction::Stop,
            (_, ControlFlow::WaitUntil(b)) => WakerAction::StartAt(b),
            (_, ControlFlow::Poll) => WakerAction::Start,
            (_, ControlFlow::Exit) => WakerAction::StopApp,
        };
        proof {
            assert(out@ =~= old(pending).pending@ + seq![Event::<Never>::EventsCleared]);
        }
        (out, action)
    }
}

/// The motion events of one native mouse move: one per nonzero axis, and
/// the combined motion when either axis moved.
pub open spec fn mouse_motion_events(delta_x: i64, delta_y: i64) -> Seq<Event<Never>> {
    let x_part: Seq<Event<Never>> = if delta_x != 0 {
        seq![
            Event::DeviceEvent {
                device_id: DeviceId(COCOA_DEVICE),
                event: DeviceEvent::Motion { axis: 0u32, value: delta_x },
            },
        ]
    } else {
        Seq::empty()
    };
    let y_part: Seq<Event<Never>> = if delta_y != 0 {
        seq![
            Event::DeviceEvent {
                device_id: DeviceId(COCOA_DEVICE),
                event: DeviceEvent::Motion { axis: 1u32, value: delta_y },
            },
        ]
    } else {
        Seq::empty()
    };
    let both_part: Seq<Event<Never>> = if delta_x != 0 || delta_y != 0 {
        seq![
            Event::DeviceEvent {
                device_id: DeviceId(COCOA_DEVICE),
                event: DeviceEvent::MouseMotion {
                    delta: Position { x: delta_x, y: delta_y },
                },
            },
        ]
    } else {
        Seq::empty()
    };
    x_part + y_part + both_part
}

/// Translates a native mouse-moved event: when one of the loop's windows
/// is the target (or holds the key focus), the per-axis motions and the
/// combined motion are produced — the first is delivered at once, the rest
/// are queued; a move that belongs to no window produces nothing, and so
/// does a move of zero.
pub fn translate_mouse_motion(has_target: bool, delta_x: i64, delta_y: i64, pending: &mut PendingEvents) -> (r: Option<Event<Never>>)
    ensures
        ({
            let events = mouse_motion_events(delta_x, delta_y);
            if has_target && events.len() > 0 {
                &&& r == Some(events[0])
                &&& final(pending).pending@ == old(pending).pending@ + events.drop_first()
            } else {
                &&& r == None::<Event<Never>>
                &&& final(pending).pending@ == old(pending).pending@
            }
        }),
{
    if !has_target {
        return None;
    }
    let mut events: Vec<Event<Never>> = Vec::new();
    if delta_x != 0 {
        events.push(Event::DeviceEvent {
            device_id: mkdid(COCOA_DEVICE),
            event: DeviceEvent::Motion { axis: 0, value: delta_x },
        });
    }
    if delta_y != 0 {
        events.push(Event::DeviceEvent {
            device_id: mkdid(COCOA_DEVICE),
            event: DeviceEvent::Motion { axis: 1, value: delta_y },
        });
    }
    if delta_x != 0 || delta_y != 0 {
        events.push(Event::DeviceEvent {
            device_id: mkdid(COCOA_DEVICE),
            event: DeviceEvent::MouseMotion {
                delta: Position { x: delta_x, y: delta_y },
            },
        });
    }
    proof {
        assert(events@ =~= mouse_motion_events(delta_x, delta_y));
    }
    if events.len() == 0 {
        return None;
    }
    let first = events.remove(0);
    pending.queue_events(events);
    Some(first)
}

/// A cloneable cross-thread handle that queues a user event and pokes the
/// native run loop awake.
#[derive(Clone)]
#[verifier::reject_recursive_types(T)]
pub struct Proxy<T> {
    pub sender: crossbeam_channel::Sender<T>,
}

impl<T> Proxy<T> {
    /// Queues the event for the loop's next dispatch point. `Err` reports
    /// that the loop has been destroyed; no queued payload is lost.
    pub fn send_event(&self, event: T) -> Result<(), EventsLoopClosed> {
        channel_send(&self.sender, event)
    }
}


/// Translates a window's bottom-left corner in the native bottom-up screen
/// coordinates into a top-left corner in the canonical top-down ones: the
/// screen height less the far edge of the rectangle.
pub fn bottom_left_to_top_left(pixels_high: i32, origin_y: i32, height: i32) -> (r: i64)
    ensures
        r == pixels_high - (origin_y + height),
{
    (pixels_high as i64) - ((origin_y as i64) + (height as i64))
}

} // verus!
