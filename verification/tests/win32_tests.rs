//! Tests for the Win32 adapter's translation logic and timer arithmetic.

use winloop::event::{
    ControlFlow, DeviceEvent, DeviceId, ElementState, Event, LineDelta, ModifiersState,
    MouseButton, Position, StartCause, TouchPhase, VirtualKeyCode, WindowEvent, WindowId,
};
use winloop::runner::{EventLoopRunner, RunnerState};
use winloop::win32::{
    EventLoopProxy, INFINITE, PhysicalSize, RawButton, TouchReport, WaitDecision, Win32Action,
    WindowState, WindowsMessage, capture_mouse, drain_user_event, dur2timeout,
    modal_queue_drained, process_window_message, release_mouse, wait_timeout_millis,
};

fn no_mods() -> ModifiersState {
    ModifiersState::default()
}

#[test]
fn dur2timeout_rounds_nanoseconds_up_and_saturates() {
    assert_eq!(dur2timeout(1, 0), 1000);
    assert_eq!(dur2timeout(0, 1), 1);
    assert_eq!(dur2timeout(0, 1_000_000), 1);
    assert_eq!(dur2timeout(0, 1_000_001), 2);
    assert_eq!(dur2timeout(0, 999_999_999), 1000);
    // Beyond the 32-bit millisecond range: never time out.
    assert_eq!(dur2timeout(u64::MAX / 1000, 0), INFINITE);
    assert_eq!(dur2timeout(4294967, 295_000_001), INFINITE);
}

#[test]
fn wait_timeout_spares_a_millisecond_for_the_spin() {
    assert_eq!(wait_timeout_millis(100, 100), 0);
    assert_eq!(wait_timeout_millis(101, 100), 0);
    assert_eq!(wait_timeout_millis(100, 200), 99);
    assert_eq!(wait_timeout_millis(0, u64::MAX), INFINITE - 1);
}

#[test]
fn mouse_capture_is_reference_counted() {
    let mut state = WindowState::new(96);
    assert!(capture_mouse(&mut state));
    assert!(capture_mouse(&mut state));
    assert_eq!(state.mouse_buttons_down, 2);
    assert!(!release_mouse(&mut state));
    assert!(release_mouse(&mut state));
    assert_eq!(state.mouse_buttons_down, 0);
    // A stray release stays at zero.
    assert!(release_mouse(&mut state));
}

#[test]
fn min_max_sizes_rescale_with_the_dpi() {
    let mut state = WindowState::new(96);
    state.min_size = Some(PhysicalSize { width: 100, height: 50 });
    state.max_size = Some(PhysicalSize { width: 400, height: 300 });
    state.update_min_max(96, 192);
    assert_eq!(state.min_size, Some(PhysicalSize { width: 200, height: 100 }));
    assert_eq!(state.max_size, Some(PhysicalSize { width: 800, height: 600 }));
}

#[test]
fn close_and_size_messages_translate_directly() {
    let mut state = WindowState::new(96);
    let (events, actions): (Vec<Event<i32>>, _) =
        process_window_message(5, &mut state, WindowsMessage::Close);
    assert_eq!(
        events,
        vec![Event::WindowEvent { window_id: WindowId(5), event: WindowEvent::CloseRequested }]
    );
    assert_eq!(actions, vec![]);
    let (events, _): (Vec<Event<i32>>, _) =
        process_window_message(5, &mut state, WindowsMessage::Size { width: 640, height: 480 });
    assert_eq!(
        events,
        vec![Event::WindowEvent { window_id: WindowId(5), event: WindowEvent::Resized(640, 480) }]
    );
}

#[test]
fn first_mouse_move_enters_and_tracks_the_leave() {
    let mut state = WindowState::new(96);
    let (events, actions): (Vec<Event<i32>>, _) = process_window_message(
        5,
        &mut state,
        WindowsMessage::MouseMove { x: 10, y: 20, mods: no_mods() },
    );
    assert_eq!(
        events,
        vec![
            Event::WindowEvent {
                window_id: WindowId(5),
                event: WindowEvent::CursorEntered { device_id: DeviceId(0) },
            },
            Event::WindowEvent {
                window_id: WindowId(5),
                event: WindowEvent::CursorMoved {
                    device_id: DeviceId(0),
                    position: Position { x: 10, y: 20 },
                    modifiers: no_mods(),
                },
            },
        ]
    );
    assert_eq!(actions, vec![Win32Action::TrackMouseLeave]);
    // The second move only moves.
    let (events, actions): (Vec<Event<i32>>, _) = process_window_message(
        5,
        &mut state,
        WindowsMessage::MouseMove { x: 11, y: 20, mods: no_mods() },
    );
    assert_eq!(events.len(), 1);
    assert_eq!(actions, vec![]);
    // And the leave is announced once.
    let (events, _): (Vec<Event<i32>>, _) =
        process_window_message(5, &mut state, WindowsMessage::MouseLeave);
    assert_eq!(
        events,
        vec![Event::WindowEvent {
            window_id: WindowId(5),
            event: WindowEvent::CursorLeft { device_id: DeviceId(0) },
        }]
    );
}

#[test]
fn wheel_turns_keep_the_native_unit_as_denominator() {
    let mut state = WindowState::new(96);
    let (events, _): (Vec<Event<i32>>, _) = process_window_message(
        5,
        &mut state,
        WindowsMessage::Wheel { value: 120, mods: no_mods() },
    );
    match &events[0] {
        Event::WindowEvent { event: WindowEvent::MouseWheel { delta, phase, .. }, .. } => {
            // One whole notch: 120 native units over 120 — exactly one line.
            assert_eq!(*delta, LineDelta { x_num: 0, y_num: 120, den: 120 });
            assert_eq!(*phase, TouchPhase::Moved);
        }
        other => panic!("expected a wheel event, got {:?}", other),
    }
}

#[test]
fn delete_key_also_emits_the_delete_character() {
    let mut state = WindowState::new(96);
    let (events, _): (Vec<Event<i32>>, _) = process_window_message(
        5,
        &mut state,
        WindowsMessage::Key {
            pressed: true,
            scancode: 83,
            vkey: Some(VirtualKeyCode::Delete),
            mods: no_mods(),
        },
    );
    assert_eq!(events.len(), 2);
    assert_eq!(
        events[1],
        Event::WindowEvent { window_id: WindowId(5), event: WindowEvent::ReceivedCharacter(0x7F) }
    );
}

#[test]
fn buttons_hold_the_capture_until_the_last_release() {
    let mut state = WindowState::new(96);
    let press = |state: &mut WindowState, button| {
        process_window_message::<i32>(
            5,
            state,
            WindowsMessage::Button { button, pressed: true, mods: no_mods() },
        )
        .1
    };
    let release = |state: &mut WindowState, button| {
        process_window_message::<i32>(
            5,
            state,
            WindowsMessage::Button { button, pressed: false, mods: no_mods() },
        )
        .1
    };
    assert_eq!(press(&mut state, MouseButton::Left), vec![Win32Action::SetCapture]);
    assert_eq!(press(&mut state, MouseButton::Right), vec![Win32Action::SetCapture]);
    // The first release keeps the capture: a button is still down.
    assert_eq!(release(&mut state, MouseButton::Left), vec![]);
    assert_eq!(release(&mut state, MouseButton::Right), vec![Win32Action::ReleaseCapture]);
}

#[test]
fn raw_input_reports_motion_wheel_and_buttons() {
    let mut state = WindowState::new(96);
    let (events, _): (Vec<Event<i32>>, _) = process_window_message(
        5,
        &mut state,
        WindowsMessage::RawMouse {
            dx: 2,
            dy: 0,
            wheel_turns: Some(-1),
            buttons: vec![RawButton { button: 1, pressed: true }],
        },
    );
    assert_eq!(
        events,
        vec![
            Event::DeviceEvent {
                device_id: DeviceId(0),
                event: DeviceEvent::Motion { axis: 0, value: 2 },
            },
            Event::DeviceEvent {
                device_id: DeviceId(0),
                event: DeviceEvent::MouseMotion { delta: Position { x: 2, y: 0 } },
            },
            Event::DeviceEvent {
                device_id: DeviceId(0),
                event: DeviceEvent::MouseWheel {
                    delta: LineDelta { x_num: 0, y_num: -1, den: 1 },
                },
            },
            Event::DeviceEvent {
                device_id: DeviceId(0),
                event: DeviceEvent::Button { button: 1, state: ElementState::Pressed },
            },
        ]
    );
}

#[test]
fn touch_reports_skip_phaseless_entries() {
    let mut state = WindowState::new(96);
    let (events, _): (Vec<Event<i32>>, _) = process_window_message(
        5,
        &mut state,
        WindowsMessage::TouchInput {
            reports: vec![
                TouchReport { phase: Some(TouchPhase::Started), x: 1, y: 2, id: 9 },
                TouchReport { phase: None, x: 3, y: 4, id: 9 },
                TouchReport { phase: Some(TouchPhase::Ended), x: 5, y: 6, id: 9 },
            ],
        },
    );
    assert_eq!(events.len(), 2);
}

#[test]
fn dpi_change_rescales_and_applies_the_suggested_rect() {
    let mut state = WindowState::new(96);
    state.min_size = Some(PhysicalSize { width: 100, height: 100 });
    let (events, actions): (Vec<Event<i32>>, _) =
        process_window_message(5, &mut state, WindowsMessage::DpiChanged { dpi: 144 });
    assert_eq!(
        events,
        vec![Event::WindowEvent {
            window_id: WindowId(5),
            event: WindowEvent::HiDpiFactorChanged(144),
        }]
    );
    assert_eq!(actions, vec![Win32Action::ApplySuggestedRect]);
    assert_eq!(state.dpi, 144);
    assert_eq!(state.min_size, Some(PhysicalSize { width: 150, height: 150 }));
}

#[test]
fn modal_paint_boundary_closes_and_reopens_the_turn() {
    let mut runner = EventLoopRunner::new();
    // Open the first turn and deliver nothing.
    let _: Vec<Event<i32>> = runner.new_events(ControlFlow::Poll, 0);
    assert_eq!(runner.state, RunnerState::HandlingEvents);
    // The painter window's message marks the drained queue.
    let (events, decision, again) = modal_queue_drained::<i32>(&mut runner, ControlFlow::Poll, 3);
    assert_eq!(
        events,
        vec![Event::EventsCleared, Event::NewEvents(StartCause::Poll)]
    );
    assert_eq!(decision, WaitDecision::DontBlock);
    assert!(again);
    // Under a plain wait the next turn stays deferred and no new paint
    // round is queued.
    let (events, decision, again) = modal_queue_drained::<i32>(&mut runner, ControlFlow::Wait, 9);
    assert_eq!(events, vec![Event::EventsCleared]);
    assert_eq!(decision, WaitDecision::BlockIndefinitely);
    assert!(!again);
}

#[test]
fn win32_proxy_send_event_queues_for_the_loop() {
    let (tx, rx) = crossbeam_channel::unbounded();
    let proxy = EventLoopProxy { sender: tx };
    assert_eq!(proxy.send_event(7), Ok(()));
    let echoed: i32 = rx.try_recv().unwrap();
    assert_eq!(echoed, 7);
}

#[test]
fn user_event_drain_wraps_queued_payloads_in_order() {
    let (tx, rx) = crossbeam_channel::unbounded();
    tx.send(1).unwrap();
    tx.send(2).unwrap();
    assert_eq!(drain_user_event(&rx), Some(Event::UserEvent(1)));
    assert_eq!(drain_user_event(&rx), Some(Event::UserEvent(2)));
    assert_eq!(drain_user_event::<i32>(&rx), None);
}

#[test]
fn paint_requests_a_repaint() {
    let mut state = WindowState::new(96);
    let (events, _): (Vec<Event<i32>>, _) =
        process_window_message(5, &mut state, WindowsMessage::Paint);
    assert_eq!(
        events,
        vec![Event::WindowEvent { window_id: WindowId(5), event: WindowEvent::Refresh }]
    );
}

#[test]
fn a_resizing_reposition_announces_the_resize_first() {
    let mut state = WindowState::new(96);
    let (events, _): (Vec<Event<i32>>, _) = process_window_message(
        5,
        &mut state,
        WindowsMessage::PosChanged { x: 30, y: 40, resized: Some((800, 600)) },
    );
    assert_eq!(
        events,
        vec![
            Event::WindowEvent { window_id: WindowId(5), event: WindowEvent::Resized(800, 600) },
            Event::WindowEvent {
                window_id: WindowId(5),
                event: WindowEvent::Moved(Position { x: 30, y: 40 }),
            },
        ]
    );
    // A plain move announces only the move.
    let (events, _): (Vec<Event<i32>>, _) = process_window_message(
        5,
        &mut state,
        WindowsMessage::PosChanged { x: 31, y: 40, resized: None },
    );
    assert_eq!(events.len(), 1);
}
