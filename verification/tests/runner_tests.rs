//! Scenario tests for the control-flow runner and the loop driver.

use winloop::event::{
    ControlFlow, DeviceId, ElementState, Event, KeyboardInput, ModifiersState, StartCause,
    WindowEvent, WindowId,
};
use winloop::runner::{Delivery, EventHandler, EventLoopRunner, RunnerState, Turn, run_return};

/// A callback that records nothing itself (the driver returns the log) and
/// steers the control flow by simple rules.
struct Steering {
    exit_on_user_event: bool,
    exit_on_window_event: bool,
    exit_on_resume: bool,
    exit_on_poll: bool,
    after_init: Option<ControlFlow>,
}

impl Steering {
    fn new() -> Steering {
        Steering {
            exit_on_user_event: false,
            exit_on_window_event: false,
            exit_on_resume: false,
            exit_on_poll: false,
            after_init: None,
        }
    }
}

impl EventHandler<i32> for Steering {
    fn handle_nonuser_event(&mut self, event: &Event<i32>, control_flow: &mut ControlFlow) {
        match event {
            Event::NewEvents(StartCause::Init) => {
                if let Some(cf) = self.after_init {
                    *control_flow = cf;
                }
            }
            Event::NewEvents(StartCause::ResumeTimeReached { .. }) => {
                if self.exit_on_resume {
                    *control_flow = ControlFlow::Exit;
                }
            }
            Event::NewEvents(StartCause::Poll) => {
                if self.exit_on_poll {
                    *control_flow = ControlFlow::Exit;
                }
            }
            Event::UserEvent(_) => {
                if self.exit_on_user_event {
                    *control_flow = ControlFlow::Exit;
                }
            }
            Event::WindowEvent { .. } => {
                if self.exit_on_window_event {
                    *control_flow = ControlFlow::Exit;
                }
            }
            _ => {}
        }
    }
}

fn turn(start_time: u64, deliveries: Vec<Delivery<i32>>, end_time: u64) -> Turn<i32> {
    Turn { start_time, deliveries, end_time }
}

#[test]
fn cold_start_exits_with_exact_lifecycle() {
    let mut handler = Steering::new();
    handler.after_init = Some(ControlFlow::Exit);
    let log = run_return(&mut handler, vec![turn(0, vec![], 1)]);
    assert_eq!(
        log,
        vec![
            Event::NewEvents(StartCause::Init),
            Event::EventsCleared,
            Event::LoopDestroyed,
        ]
    );
}

#[test]
fn wait_wakeup_delivers_user_event_after_cancellation() {
    // The proxy on another thread queues 42; the adapter drains it and
    // hands it to the loop as a delivery interrupting the wait.
    let (tx, rx) = crossbeam_channel::unbounded();
    tx.send(42).unwrap();
    let payload: i32 = rx.try_recv().unwrap();

    let mut handler = Steering::new();
    handler.after_init = Some(ControlFlow::Wait);
    handler.exit_on_user_event = true;
    let log = run_return(
        &mut handler,
        vec![
            turn(0, vec![], 5),
            turn(10, vec![Delivery { now: 10, event: Event::UserEvent(payload) }], 11),
        ],
    );
    assert_eq!(
        log,
        vec![
            Event::NewEvents(StartCause::Init),
            Event::EventsCleared,
            Event::NewEvents(StartCause::WaitCancelled { start: 5, requested_resume: None }),
            Event::UserEvent(42),
            Event::EventsCleared,
            Event::LoopDestroyed,
        ]
    );
}

#[test]
fn wait_until_reached_reports_resume_time() {
    let mut handler = Steering::new();
    handler.after_init = Some(ControlFlow::WaitUntil(100));
    handler.exit_on_resume = true;
    let log = run_return(&mut handler, vec![turn(0, vec![], 5), turn(100, vec![], 101)]);
    assert_eq!(
        log,
        vec![
            Event::NewEvents(StartCause::Init),
            Event::EventsCleared,
            Event::NewEvents(StartCause::ResumeTimeReached { start: 5, requested_resume: 100 }),
            Event::EventsCleared,
            Event::LoopDestroyed,
        ]
    );
}

#[test]
fn wait_until_preempted_reports_cancellation_with_deadline() {
    let key = Event::WindowEvent {
        window_id: WindowId(7),
        event: WindowEvent::KeyboardInput {
            device_id: DeviceId(3),
            input: KeyboardInput {
                scancode: 30,
                state: ElementState::Pressed,
                virtual_keycode: None,
                modifiers: ModifiersState::default(),
            },
        },
    };
    let mut handler = Steering::new();
    handler.after_init = Some(ControlFlow::WaitUntil(1000));
    handler.exit_on_window_event = true;
    let log = run_return(
        &mut handler,
        vec![
            turn(0, vec![], 5),
            turn(50, vec![Delivery { now: 50, event: key.clone() }], 51),
        ],
    );
    assert_eq!(
        log,
        vec![
            Event::NewEvents(StartCause::Init),
            Event::EventsCleared,
            Event::NewEvents(StartCause::WaitCancelled { start: 5, requested_resume: Some(1000) }),
            key,
            Event::EventsCleared,
            Event::LoopDestroyed,
        ]
    );
}

#[test]
fn poll_turn_without_events_reports_poll_then_cleared() {
    let mut handler = Steering::new();
    handler.exit_on_poll = true;
    let log = run_return(&mut handler, vec![turn(0, vec![], 1), turn(2, vec![], 3)]);
    assert_eq!(
        log,
        vec![
            Event::NewEvents(StartCause::Init),
            Event::EventsCleared,
            Event::NewEvents(StartCause::Poll),
            Event::EventsCleared,
            Event::LoopDestroyed,
        ]
    );
}

#[test]
fn loop_destroyed_is_last_even_when_script_runs_out() {
    let mut handler = Steering::new();
    let log = run_return(&mut handler, vec![turn(0, vec![], 1)]);
    assert_eq!(log.last(), Some(&Event::LoopDestroyed));
    assert_eq!(
        log.iter().filter(|e| matches!(e, Event::LoopDestroyed)).count(),
        1
    );
}

#[test]
fn runner_defers_announcement_under_wait() {
    let mut runner = EventLoopRunner::new();
    let out: Vec<Event<i32>> = runner.new_events(ControlFlow::Poll, 0);
    assert_eq!(out, vec![Event::NewEvents(StartCause::Init)]);
    let out: Vec<Event<i32>> = runner.events_cleared(ControlFlow::Wait, 4);
    assert_eq!(out, vec![Event::EventsCleared]);
    assert_eq!(runner.state, RunnerState::Idle(4));
    // Waking without an event announces nothing yet.
    let out: Vec<Event<i32>> = runner.new_events(ControlFlow::Wait, 9);
    assert_eq!(out, vec![]);
    assert_eq!(runner.state, RunnerState::DeferredNewEvents(4));
    // The event pays the deferred announcement.
    let out = runner.process_event(ControlFlow::Wait, 9, Event::<i32>::Awakened);
    assert_eq!(
        out,
        vec![
            Event::NewEvents(StartCause::WaitCancelled { start: 4, requested_resume: None }),
            Event::Awakened,
        ]
    );
}
