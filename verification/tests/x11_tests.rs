//! Scenario tests for the X11 dispatcher: drag-and-drop, scroll axes,
//! window lifecycle, and key translation.

use winloop::device::{DeviceClass, DeviceInfoData, DeviceUse, ScrollOrientation};
use winloop::dnd::{DndAction, DndParseError, parse_uri_list};
use winloop::event::{
    DeviceEvent, DeviceId, ElementState, Event, LineDelta, ModifiersState, Position, TouchPhase,
    VirtualKeyCode, WindowEvent, WindowId,
};
use winloop::registry::FrameExtents;
use winloop::x11::{DndAtoms, EventsLoop, Valuator, XAction, XEventData};

const WM_DELETE: u64 = 1;

fn atoms() -> DndAtoms {
    DndAtoms {
        enter: 100,
        position: 101,
        drop_message: 102,
        leave: 103,
        selection: 104,
        uri_list: 105,
    }
}

fn fresh_loop() -> EventsLoop {
    EventsLoop::new(WM_DELETE, atoms())
}

fn client_message(window: u64, message_type: u64, data: [i64; 5]) -> XEventData {
    XEventData::ClientMessage {
        window,
        message_type,
        data0: data[0],
        data1: data[1],
        data2: data[2],
        data3: data[3],
        data4: data[4],
        property_types: vec![],
    }
}

#[test]
fn close_request_comes_only_for_registered_windows() {
    let mut lp = fresh_loop();
    lp.register_window(7, false);
    let (events, _): (Vec<Event<i32>>, Vec<XAction>) =
        lp.process_event(client_message(7, 999, [WM_DELETE as i64, 0, 0, 0, 0]));
    assert_eq!(
        events,
        vec![Event::WindowEvent { window_id: WindowId(7), event: WindowEvent::CloseRequested }]
    );
    let (events, _): (Vec<Event<i32>>, Vec<XAction>) =
        lp.process_event(client_message(8, 999, [WM_DELETE as i64, 0, 0, 0, 0]));
    assert_eq!(events, vec![]);
}

#[test]
fn drag_and_drop_hovers_then_drops_both_files() {
    let mut lp = fresh_loop();
    lp.register_window(7, false);

    // Enter: version 5, the three inline types include the file list.
    let (events, actions): (Vec<Event<i32>>, _) =
        lp.process_event(client_message(7, 100, [9, 5 << 24, 105, 0, 0]));
    assert_eq!(events, vec![]);
    assert_eq!(actions, vec![]);

    // Position: accepted, the payload is requested and the status sent.
    let (events, actions): (Vec<Event<i32>>, _) =
        lp.process_event(client_message(7, 101, [9, 0, 0, 77, 0]));
    assert_eq!(events, vec![]);
    assert_eq!(
        actions,
        vec![
            XAction::Dnd(DndAction::ConvertSelection { window: 7, time: 77 }),
            XAction::Dnd(DndAction::SendStatus { target: 7, source: 9, accepted: true }),
        ]
    );

    // The payload arrives: both files are hovered.
    let (events, _): (Vec<Event<i32>>, _) = lp.process_event(XEventData::SelectionNotify {
        requestor: 7,
        property: 104,
        data: Some(b"file:///a\r\nfile:///b\r\n".to_vec()),
    });
    assert_eq!(
        events,
        vec![
            Event::WindowEvent {
                window_id: WindowId(7),
                event: WindowEvent::HoveredFile(b"/a".to_vec()),
            },
            Event::WindowEvent {
                window_id: WindowId(7),
                event: WindowEvent::HoveredFile(b"/b".to_vec()),
            },
        ]
    );

    // The drop: both files are delivered and the exchange closed.
    let (events, actions): (Vec<Event<i32>>, _) =
        lp.process_event(client_message(7, 102, [0, 0, 0, 0, 0]));
    assert_eq!(
        events,
        vec![
            Event::WindowEvent {
                window_id: WindowId(7),
                event: WindowEvent::DroppedFile(b"/a".to_vec()),
            },
            Event::WindowEvent {
                window_id: WindowId(7),
                event: WindowEvent::DroppedFile(b"/b".to_vec()),
            },
        ]
    );
    assert_eq!(
        actions,
        vec![XAction::Dnd(DndAction::SendFinished { target: 7, source: 9, accepted: true })]
    );
}

#[test]
fn drag_leave_cancels_the_hover() {
    let mut lp = fresh_loop();
    lp.register_window(7, false);
    let (_, _): (Vec<Event<i32>>, _) =
        lp.process_event(client_message(7, 100, [9, 5 << 24, 105, 0, 0]));
    let (events, _): (Vec<Event<i32>>, _) =
        lp.process_event(client_message(7, 103, [0, 0, 0, 0, 0]));
    assert_eq!(
        events,
        vec![Event::WindowEvent {
            window_id: WindowId(7),
            event: WindowEvent::HoveredFileCancelled,
        }]
    );
}

#[test]
fn uri_list_parsing_decodes_percent_escapes() {
    let paths = parse_uri_list(&b"file:///tmp/a%20b\r\n\r\nfile:///x\n".to_vec()).unwrap();
    assert_eq!(paths, vec![b"/tmp/a b".to_vec(), b"/x".to_vec()]);
    assert_eq!(
        parse_uri_list(&b"file:///bad%zz\r\n".to_vec()),
        Err(DndParseError::BadEscape)
    );
    assert_eq!(
        parse_uri_list(&b"http://elsewhere\r\n".to_vec()),
        Err(DndParseError::NotAFileUri)
    );
    assert_eq!(parse_uri_list(&b"".to_vec()), Ok(vec![]));
}

fn wheel_device(id: i32, increment: i32, start: i32) -> DeviceInfoData {
    DeviceInfoData {
        deviceid: id,
        attachment: 2,
        device_use: DeviceUse::SlavePointer,
        name: "wheel mouse".to_string(),
        classes: vec![
            DeviceClass::Scroll {
                number: 3,
                orientation: ScrollOrientation::Vertical,
                increment,
            },
            DeviceClass::Valuator { number: 3, value: start },
        ],
    }
}

#[test]
fn vertical_scroll_valuators_become_canonical_wheel_deltas() {
    let mut lp = fresh_loop();
    lp.register_window(7, false);
    let actions = lp.init_device(&vec![wheel_device(2, 5, 0)]);
    assert_eq!(actions, vec![XAction::SelectXiEvents { device: 2 }]);

    // Two valuator reports, one increment apart each: each wheel delta is
    // the exact ratio of one line, direction-flipped to scroll-up-positive.
    let mut deltas = Vec::new();
    for value in [5, 10] {
        let (events, _): (Vec<Event<i32>>, _) = lp.process_event(XEventData::XiMotion {
            window: 7,
            device: 2,
            source: 2,
            x: 1,
            y: 1,
            mods_mask: 0,
            valuators: vec![Valuator { axis: 3, value }],
        });
        for e in events {
            if let Event::WindowEvent { event: WindowEvent::MouseWheel { delta, .. }, .. } = e {
                deltas.push(delta);
            }
        }
    }
    // Each delta is -increment over increment: exactly minus one line.
    assert_eq!(
        deltas,
        vec![
            LineDelta { x_num: 0, y_num: -5, den: 5 },
            LineDelta { x_num: 0, y_num: -5, den: 5 },
        ]
    );
    // The session's total movement equals final minus initial, up to sign.
    let total: i64 = deltas.iter().map(|d| d.y_num).sum();
    assert_eq!(total, -(10 - 0));
}

#[test]
fn non_scroll_valuators_report_axis_motion() {
    let mut lp = fresh_loop();
    lp.register_window(7, false);
    lp.init_device(&vec![wheel_device(2, 5, 0)]);
    let (events, _): (Vec<Event<i32>>, _) = lp.process_event(XEventData::XiMotion {
        window: 7,
        device: 2,
        source: 2,
        x: 3,
        y: 4,
        mods_mask: 0,
        valuators: vec![Valuator { axis: 0, value: 11 }],
    });
    assert_eq!(
        events,
        vec![
            Event::WindowEvent {
                window_id: WindowId(7),
                event: WindowEvent::CursorMoved {
                    device_id: DeviceId(2),
                    position: Position { x: 3, y: 4 },
                    modifiers: ModifiersState::default(),
                },
            },
            Event::WindowEvent {
                window_id: WindowId(7),
                event: WindowEvent::AxisMotion { device_id: DeviceId(2), axis: 0, value: 11 },
            },
        ]
    );
}

#[test]
fn cursor_moved_is_coalesced_but_axis_events_are_not() {
    let mut lp = fresh_loop();
    lp.register_window(7, false);
    lp.init_device(&vec![wheel_device(2, 5, 0)]);
    let motion = |lp: &mut EventsLoop| -> Vec<Event<i32>> {
        lp.process_event(XEventData::XiMotion {
            window: 7,
            device: 2,
            source: 2,
            x: 3,
            y: 4,
            mods_mask: 0,
            valuators: vec![Valuator { axis: 0, value: 11 }],
        })
        .0
    };
    let first = motion(&mut lp);
    assert_eq!(first.len(), 2);
    let second = motion(&mut lp);
    assert_eq!(
        second,
        vec![Event::WindowEvent {
            window_id: WindowId(7),
            event: WindowEvent::AxisMotion { device_id: DeviceId(2), axis: 0, value: 11 },
        }]
    );
}

#[test]
fn destroyed_comes_exactly_once_and_nothing_follows() {
    let mut lp = fresh_loop();
    lp.register_window(7, false);
    let (events, actions): (Vec<Event<i32>>, _) =
        lp.process_event(XEventData::DestroyNotify { window: 7 });
    assert_eq!(
        events,
        vec![Event::WindowEvent { window_id: WindowId(7), event: WindowEvent::Destroyed }]
    );
    assert_eq!(actions, vec![XAction::RemoveImeContext { window: 7 }]);
    // A repeated platform removal is idempotent.
    let (events, _): (Vec<Event<i32>>, _) =
        lp.process_event(XEventData::DestroyNotify { window: 7 });
    assert_eq!(events, vec![]);
    // Later events for the destroyed window are absorbed silently.
    let (events, _): (Vec<Event<i32>>, _) = lp.process_event(XEventData::Expose { window: 7 });
    assert_eq!(events, vec![]);
}

#[test]
fn key_events_carry_the_mask_modifiers_and_normalized_scancode() {
    let mut lp = fresh_loop();
    lp.register_window(7, false);
    // Shift (bit 0) and the first modifier group (bit 3, the alt keys).
    let (events, _): (Vec<Event<i32>>, _) = lp.process_event(XEventData::KeyInput {
        window: 7,
        pressed: true,
        keycode: 38,
        state_mask: 1 | 8,
        virtual_keycode: Some(VirtualKeyCode::A),
        committed: vec![97],
    });
    assert_eq!(events.len(), 2);
    match &events[0] {
        Event::WindowEvent {
            window_id,
            event: WindowEvent::KeyboardInput { device_id, input },
        } => {
            assert_eq!(*window_id, WindowId(7));
            assert_eq!(*device_id, DeviceId(3));
            assert_eq!(input.scancode, 30);
            assert_eq!(input.state, ElementState::Pressed);
            assert!(input.modifiers.shift);
            assert!(input.modifiers.alt);
            assert!(!input.modifiers.ctrl);
            assert!(!input.modifiers.logo);
        }
        other => panic!("expected a key event, got {:?}", other),
    }
    assert_eq!(
        events[1],
        Event::WindowEvent {
            window_id: WindowId(7),
            event: WindowEvent::ReceivedCharacter(97),
        }
    );
}

#[test]
fn configure_reports_resize_and_synthetic_move_with_extents() {
    let mut lp = fresh_loop();
    lp.register_window(7, false);
    let extents = FrameExtents { left: 2, top: 20 };
    // The first (real) notification establishes the size.
    let (events, _): (Vec<Event<i32>>, _) = lp.process_event(XEventData::ConfigureNotify {
        window: 7,
        x: 10,
        y: 30,
        width: 640,
        height: 480,
        is_synthetic: false,
        queried_extents: extents,
    });
    assert_eq!(
        events,
        vec![Event::WindowEvent { window_id: WindowId(7), event: WindowEvent::Resized(640, 480) }]
    );
    // A synthetic notification carries the root position: the move is
    // derived over the frame extents.
    let (events, _): (Vec<Event<i32>>, _) = lp.process_event(XEventData::ConfigureNotify {
        window: 7,
        x: 10,
        y: 30,
        width: 640,
        height: 480,
        is_synthetic: true,
        queried_extents: extents,
    });
    assert_eq!(
        events,
        vec![Event::WindowEvent {
            window_id: WindowId(7),
            event: WindowEvent::Moved(Position { x: 8, y: 10 }),
        }]
    );
}

#[test]
fn wakeup_proxy_awakens_the_loop_once_per_poke() {
    let mut lp = fresh_loop();
    let proxy = lp.create_proxy();
    assert_eq!(proxy.wakeup(), Ok(()));
    // The poke surfaces as a client message on the dummy window; no drag
    // atom matches, so the queued wakeup is drained.
    let (events, _): (Vec<Event<i32>>, _) =
        lp.process_event(client_message(99, 999, [0, 0, 0, 0, 0]));
    assert_eq!(events, vec![Event::Awakened]);
    // Nothing queued: nothing delivered.
    let (events, _): (Vec<Event<i32>>, _) =
        lp.process_event(client_message(99, 999, [0, 0, 0, 0, 0]));
    assert_eq!(events, vec![]);
}

#[test]
fn hierarchy_changes_register_and_announce_devices() {
    let mut lp = fresh_loop();
    let (events, _): (Vec<Event<i32>>, _) = lp.process_event(XEventData::XiHierarchy {
        entries: vec![winloop::x11::HierarchyEntry {
            added: true,
            removed: false,
            info: wheel_device(4, 3, 0),
        }],
    });
    assert_eq!(
        events,
        vec![Event::DeviceEvent { device_id: DeviceId(4), event: DeviceEvent::Added }]
    );
    let (events, _): (Vec<Event<i32>>, _) = lp.process_event(XEventData::XiHierarchy {
        entries: vec![winloop::x11::HierarchyEntry {
            added: false,
            removed: true,
            info: wheel_device(4, 3, 0),
        }],
    });
    assert_eq!(
        events,
        vec![Event::DeviceEvent { device_id: DeviceId(4), event: DeviceEvent::Removed }]
    );
}

#[test]
fn raw_motion_splits_axes_and_sums_the_motion() {
    let mut lp = fresh_loop();
    let (events, _): (Vec<Event<i32>>, _) = lp.process_event(XEventData::XiRawMotion {
        device: 2,
        valuators: vec![Valuator { axis: 0, value: 3 }, Valuator { axis: 1, value: -4 }],
    });
    assert_eq!(
        events,
        vec![
            Event::DeviceEvent {
                device_id: DeviceId(2),
                event: DeviceEvent::Motion { axis: 0, value: 3 },
            },
            Event::DeviceEvent {
                device_id: DeviceId(2),
                event: DeviceEvent::Motion { axis: 1, value: -4 },
            },
            Event::DeviceEvent {
                device_id: DeviceId(2),
                event: DeviceEvent::MouseMotion { delta: Position { x: 3, y: -4 } },
            },
        ]
    );
}

#[test]
fn emulated_wheel_clicks_are_suppressed_for_real_axes() {
    let mut lp = fresh_loop();
    lp.register_window(7, false);
    // A real wheel click (button 4) with no emulation reports one line up.
    let (events, _): (Vec<Event<i32>>, _) = lp.process_event(XEventData::XiButton {
        window: 7,
        device: 2,
        pressed: true,
        detail: 4,
        emulated: false,
        mods_mask: 0,
    });
    assert_eq!(events.len(), 1);
    match &events[0] {
        Event::WindowEvent { event: WindowEvent::MouseWheel { delta, phase, .. }, .. } => {
            assert_eq!(*delta, LineDelta { x_num: 0, y_num: 1, den: 1 });
            assert_eq!(*phase, TouchPhase::Moved);
        }
        other => panic!("expected a wheel event, got {:?}", other),
    }
    // The same click emulated from axis motion is suppressed.
    let (events, _): (Vec<Event<i32>>, _) = lp.process_event(XEventData::XiButton {
        window: 7,
        device: 2,
        pressed: true,
        detail: 4,
        emulated: true,
        mods_mask: 0,
    });
    assert_eq!(events, vec![]);
}

#[test]
fn wakeup_pokes_coalesce_into_one_awakening() {
    let mut lp = fresh_loop();
    let proxy = lp.create_proxy();
    // A burst of pokes sets the flag once.
    assert_eq!(proxy.wakeup(), Ok(()));
    assert_eq!(proxy.wakeup(), Ok(()));
    assert_eq!(proxy.wakeup(), Ok(()));
    let (events, _): (Vec<Event<i32>>, _) =
        lp.process_event(client_message(99, 999, [0, 0, 0, 0, 0]));
    assert_eq!(events, vec![Event::Awakened]);
    let (events, _): (Vec<Event<i32>>, _) =
        lp.process_event(client_message(99, 999, [0, 0, 0, 0, 0]));
    assert_eq!(events, vec![]);
}

#[test]
fn reparenting_invalidates_the_cached_frame_extents() {
    let mut lp = fresh_loop();
    lp.register_window(7, false);
    // A synthetic move caches the frame extents it derived with.
    let (_, _): (Vec<Event<i32>>, _) = lp.process_event(XEventData::ConfigureNotify {
        window: 7,
        x: 100,
        y: 100,
        width: 640,
        height: 480,
        is_synthetic: true,
        queried_extents: FrameExtents { left: 2, top: 20 },
    });
    // The window is reparented: the cache must not survive.
    let (events, actions): (Vec<Event<i32>>, _) =
        lp.process_event(XEventData::ReparentNotify { window: 7 });
    assert_eq!(events, vec![]);
    assert_eq!(actions, vec![XAction::UpdateWmInfo]);
    // The next move derives over the freshly queried extents, not the old
    // cache.
    let (events, _): (Vec<Event<i32>>, _) = lp.process_event(XEventData::ConfigureNotify {
        window: 7,
        x: 200,
        y: 200,
        width: 640,
        height: 480,
        is_synthetic: true,
        queried_extents: FrameExtents { left: 8, top: 30 },
    });
    assert_eq!(
        events,
        vec![Event::WindowEvent {
            window_id: WindowId(7),
            event: WindowEvent::Moved(Position { x: 192, y: 170 }),
        }]
    );
}
