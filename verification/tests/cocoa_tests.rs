//! Tests for the Cocoa adapter's translation logic.

use winloop::cocoa::{
    ALTERNATE_FLAG, COMMAND_FLAG, CONTROL_FLAG, Handler, PendingEvents, SHIFT_FLAG, WakerAction,
    WindowList, bottom_left_to_top_left, check_additional_virtual_key_codes, event_mods,
    modifier_event, to_virtual_key_code, translate_mouse_motion, userify,
};
use winloop::event::{
    ControlFlow, DeviceEvent, DeviceId, ElementState, Event, Position, StartCause, VirtualKeyCode,
    WindowEvent, WindowId,
};

#[test]
fn key_table_maps_known_codes_and_rejects_unknown_ones() {
    assert_eq!(to_virtual_key_code(0x00), Some(VirtualKeyCode::A));
    assert_eq!(to_virtual_key_code(0x0c), Some(VirtualKeyCode::Q));
    assert_eq!(to_virtual_key_code(0x24), Some(VirtualKeyCode::Return));
    assert_eq!(to_virtual_key_code(0x29), Some(VirtualKeyCode::Semicolon));
    assert_eq!(to_virtual_key_code(0x35), Some(VirtualKeyCode::Escape));
    assert_eq!(to_virtual_key_code(0x60), Some(VirtualKeyCode::F5));
    assert_eq!(to_virtual_key_code(0x7e), Some(VirtualKeyCode::Up));
    assert_eq!(to_virtual_key_code(0xa), Some(VirtualKeyCode::Caret));
    assert_eq!(to_virtual_key_code(0x34), None);
    assert_eq!(to_virtual_key_code(0x7f), None);
    assert_eq!(to_virtual_key_code(0x1234), None);
}

#[test]
fn additional_keys_come_from_private_use_code_points() {
    let f21 = Some("\u{f718}".to_string());
    let f24 = Some("\u{f71b}x".to_string());
    let plain = Some("a".to_string());
    let empty = Some(String::new());
    assert_eq!(check_additional_virtual_key_codes(&f21), Some(VirtualKeyCode::F21));
    assert_eq!(check_additional_virtual_key_codes(&f24), Some(VirtualKeyCode::F24));
    assert_eq!(check_additional_virtual_key_codes(&plain), None);
    assert_eq!(check_additional_virtual_key_codes(&empty), None);
    assert_eq!(check_additional_virtual_key_codes(&None), None);
}

#[test]
fn event_mods_reads_each_flag_bit() {
    let mods = event_mods(SHIFT_FLAG | COMMAND_FLAG);
    assert!(mods.shift && mods.logo && !mods.ctrl && !mods.alt);
    let mods = event_mods(CONTROL_FLAG | ALTERNATE_FLAG);
    assert!(!mods.shift && !mods.logo && mods.ctrl && mods.alt);
    let mods = event_mods(0);
    assert!(!mods.shift && !mods.logo && !mods.ctrl && !mods.alt);
}

#[test]
fn modifier_event_announces_transitions_only() {
    // Shift goes down: the flag is set and the key was up.
    let ev = modifier_event(SHIFT_FLAG, SHIFT_FLAG, 0x38, false).unwrap();
    match ev {
        WindowEvent::KeyboardInput { input, .. } => {
            assert_eq!(input.state, ElementState::Pressed);
            assert_eq!(input.virtual_keycode, Some(VirtualKeyCode::LShift));
            assert_eq!(input.scancode, 0x38);
            assert!(input.modifiers.shift);
        }
        other => panic!("expected a key event, got {:?}", other),
    }
    // Shift goes up.
    let ev = modifier_event(0, SHIFT_FLAG, 0x38, true).unwrap();
    match ev {
        WindowEvent::KeyboardInput { input, .. } => {
            assert_eq!(input.state, ElementState::Released);
        }
        other => panic!("expected a key event, got {:?}", other),
    }
    // No transition: no event.
    assert_eq!(modifier_event(SHIFT_FLAG, SHIFT_FLAG, 0x38, true), None);
    assert_eq!(modifier_event(0, SHIFT_FLAG, 0x38, false), None);
}

#[test]
fn mouse_motion_splits_into_axes_and_combined_motion() {
    let mut pending = PendingEvents::new();
    let first = translate_mouse_motion(true, 3, -2, &mut pending).unwrap();
    assert_eq!(
        first,
        Event::DeviceEvent { device_id: DeviceId(0), event: DeviceEvent::Motion { axis: 0, value: 3 } }
    );
    let queued = pending.take();
    assert_eq!(
        queued,
        vec![
            Event::DeviceEvent {
                device_id: DeviceId(0),
                event: DeviceEvent::Motion { axis: 1, value: -2 },
            },
            Event::DeviceEvent {
                device_id: DeviceId(0),
                event: DeviceEvent::MouseMotion { delta: Position { x: 3, y: -2 } },
            },
        ]
    );
}

#[test]
fn zero_motion_and_unfocused_motion_produce_nothing() {
    let mut pending = PendingEvents::new();
    assert_eq!(translate_mouse_motion(true, 0, 0, &mut pending), None);
    assert_eq!(translate_mouse_motion(false, 5, 5, &mut pending), None);
    assert_eq!(pending.take(), vec![]);
}

#[test]
fn handler_opens_turns_and_redirects_the_waker() {
    let mut handler = Handler::new();
    let opening: Vec<Event<i32>> = handler.launched();
    assert_eq!(opening, vec![Event::NewEvents(StartCause::Init)]);

    // Polling: each wakeup announces a poll turn.
    let turn: Vec<Event<i32>> = handler.wakeup(1);
    assert_eq!(turn, vec![Event::NewEvents(StartCause::Poll)]);

    // The callback chose a deadline: the queued events are flushed, the
    // turn closes after all of them, and the waker is pointed at the
    // deadline.
    handler.control_flow = ControlFlow::WaitUntil(50);
    let mut pending = PendingEvents::new();
    pending.queue_event(Event::WindowEvent {
        window_id: WindowId(7),
        event: WindowEvent::Refresh,
    });
    let (events, action) = handler.cleared(&mut pending, 2);
    assert_eq!(
        events,
        vec![
            Event::WindowEvent { window_id: WindowId(7), event: WindowEvent::Refresh },
            Event::EventsCleared,
        ]
    );
    assert_eq!(action, WakerAction::StartAt(50));

    // An unchanged deadline leaves the waker alone.
    handler.control_flow_prev = ControlFlow::WaitUntil(50);
    let (_, action) = handler.cleared(&mut pending, 3);
    assert_eq!(action, WakerAction::Unchanged);

    // Exiting stops the application.
    handler.control_flow = ControlFlow::Exit;
    let (_, action) = handler.cleared(&mut pending, 4);
    assert_eq!(action, WakerAction::StopApp);
}

#[test]
fn wakeups_report_the_cause_of_every_wait() {
    let mut handler = Handler::new();
    let mut pending = PendingEvents::new();
    // A turn closes at time 5 under a plain wait: the next wakeup is an
    // interruption, reported without a deadline.
    handler.control_flow = ControlFlow::Wait;
    handler.cleared(&mut pending, 5);
    let turn: Vec<Event<i32>> = handler.wakeup(9);
    assert_eq!(
        turn,
        vec![Event::NewEvents(StartCause::WaitCancelled { start: 5, requested_resume: None })]
    );
    // Under a deadline, waking early cancels and waking late resumes.
    handler.control_flow = ControlFlow::WaitUntil(100);
    handler.cleared(&mut pending, 10);
    let turn: Vec<Event<i32>> = handler.wakeup(50);
    assert_eq!(
        turn,
        vec![Event::NewEvents(StartCause::WaitCancelled { start: 10, requested_resume: Some(100) })]
    );
    handler.cleared(&mut pending, 60);
    let turn: Vec<Event<i32>> = handler.wakeup(100);
    assert_eq!(
        turn,
        vec![Event::NewEvents(StartCause::ResumeTimeReached { start: 60, requested_resume: 100 })]
    );
}

#[test]
fn exit_suppresses_further_turn_announcements() {
    let mut handler = Handler::new();
    handler.control_flow = ControlFlow::Exit;
    let turn: Vec<Event<i32>> = handler.wakeup(1);
    assert_eq!(turn, vec![]);
}

#[test]
fn window_list_removes_every_entry_of_a_closing_window() {
    let mut list = WindowList::new();
    list.insert_window(1);
    list.insert_window(2);
    list.insert_window(1);
    list.insert_window(3);
    list.remove_window(1);
    assert_eq!(list.windows, vec![2, 3]);
}

#[test]
fn userify_lifts_every_non_user_event() {
    let e = Event::WindowEvent { window_id: WindowId(3), event: WindowEvent::Refresh };
    let lifted: Event<i32> = userify(e);
    assert_eq!(
        lifted,
        Event::WindowEvent { window_id: WindowId(3), event: WindowEvent::Refresh }
    );
    let lifted: Event<i32> = userify(Event::EventsCleared);
    assert_eq!(lifted, Event::EventsCleared);
}

#[test]
fn proxy_send_event_queues_for_the_loop() {
    let (tx, rx) = crossbeam_channel::unbounded();
    let proxy = winloop::cocoa::Proxy { sender: tx };
    assert_eq!(proxy.send_event(42), Ok(()));
    assert_eq!(rx.try_recv(), Ok(42));
    drop(rx);
    assert!(proxy.send_event(43).is_err());
}

#[test]
fn bottom_left_origin_flips_to_top_left() {
    // A 100-pixel-tall window whose bottom edge sits 300 pixels up a
    // 1080-pixel screen has its top edge 680 pixels down.
    assert_eq!(bottom_left_to_top_left(1080, 300, 100), 680);
    assert_eq!(bottom_left_to_top_left(1080, 0, 1080), 0);
}
