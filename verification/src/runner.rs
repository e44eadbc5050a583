//! The control-flow runner: the state machine that drives one loop iteration,
//! announces why it started, delivers the adapter's events, and closes the
//! iteration.
//!
//! A turn is `new_events`, zero or more `process_event` calls, then
//! `events_cleared`. The runner reports the start cause from the control flow
//! the callback chose and from the clock: `Init` on the first turn, `Poll`
//! under polling, `ResumeTimeReached` when a requested deadline has passed,
//! `WaitCancelled` when an event interrupts a wait. Under `Wait`, or under
//! `WaitUntil` before the deadline, the announcement is deferred until an
//! event actually arrives, so that an empty wait wakes the callback not at
//! all.

use vstd::prelude::*;

use crate::event::{ControlFlow, Event, StartCause};

verus! {

/// Where the runner stands between its three hooks.
#[derive(Debug, Clone, Copy, PartialEq, Eq, Structural)]
pub enum RunnerState {
    /// Just created; the `Init` turn has not begun.
    New,
    /// Idling since the given time, after a completed turn.
    Idle(u64),
    /// The native source woke us while idling since the given time, but no
    /// event has surfaced yet; the turn's `NewEvents` is postponed.
    DeferredNewEvents(u64),
    /// `NewEvents` has been delivered and `EventsCleared` has not.
    HandlingEvents,
}

/// The start cause announced when an event arrives while the announcement
/// was deferred: cancellation or deadline arrival, judged at delivery time.
pub open spec fn wake_cause(wait_start: u64, cf: ControlFlow, now: u64) -> StartCause {
    match cf {
        ControlFlow::Poll => StartCause::Poll,
        ControlFlow::WaitUntil(resume_time) => if now >= resume_time {
            StartCause::ResumeTimeReached { start: wait_start, requested_resume: resume_time }
        } else {
            StartCause::WaitCancelled { start: wait_start, requested_resume: Some(resume_time) }
        },
        _ => StartCause::WaitCancelled { start: wait_start, requested_resume: None },
    }
}

/// The `new_events` transition: next state, and the start cause to announce
/// now, if any.
pub open spec fn new_events_next(s: RunnerState, cf: ControlFlow, now: u64) -> (RunnerState, Option<StartCause>) {
    match s {
        RunnerState::HandlingEvents => (s, None),
        RunnerState::DeferredNewEvents(_) => (s, None),
        RunnerState::New => (RunnerState::HandlingEvents, Some(StartCause::Init)),
        RunnerState::Idle(wait_start) => match cf {
            ControlFlow::Poll => (RunnerState::HandlingEvents, Some(StartCause::Poll)),
            ControlFlow::WaitUntil(resume_time) => if now >= resume_time {
                (
                    RunnerState::HandlingEvents,
                    Some(StartCause::ResumeTimeReached { start: wait_start, requested_resume: resume_time }),
                )
            } else {
                (RunnerState::DeferredNewEvents(wait_start), None)
            },
            _ => (RunnerState::DeferredNewEvents(wait_start), None),
        },
    }
}

/// The events emitted by a `new_events` call.
pub open spec fn new_events_emitted<T>(s: RunnerState, cf: ControlFlow, now: u64) -> Seq<Event<T>> {
    match new_events_next(s, cf, now).1 {
        Some(cause) => seq![Event::NewEvents(cause)],
        None => Seq::empty(),
    }
}

/// The `process_event` transition: the state always ends at
/// `HandlingEvents`; the emission is the deferred or fresh `NewEvents`, if
/// one is owed, followed by the delivered event itself.
pub open spec fn process_event_emitted<T>(s: RunnerState, cf: ControlFlow, now: u64, event: Event<T>) -> Seq<Event<T>> {
    let (s1, announced) = new_events_next(s, cf, now);
    match s1 {
        RunnerState::DeferredNewEvents(wait_start) =>
            seq![Event::NewEvents(wake_cause(wait_start, cf, now)), event],
        _ => match announced {
            Some(cause) => seq![Event::NewEvents(cause), event],
            None => seq![event],
        },
    }
}

/// The `events_cleared` transition: next state and emission.
pub open spec fn events_cleared_next<T>(s: RunnerState, cf: ControlFlow, now: u64) -> (RunnerState, Seq<Event<T>>) {
    match s {
        RunnerState::HandlingEvents => (RunnerState::Idle(now), seq![Event::EventsCleared]),
        RunnerState::New => (s, Seq::empty()),
        RunnerState::Idle(_) => (s, Seq::empty()),
        RunnerState::DeferredNewEvents(wait_start) => {
            let idle = RunnerState::Idle(wait_start);
            match cf {
                ControlFlow::Poll => (idle, seq![Event::NewEvents(StartCause::Poll), Event::EventsCleared]),
                ControlFlow::WaitUntil(resume_time) => if now >= resume_time {
                    (
                        idle,
                        seq![
                            Event::NewEvents(StartCause::ResumeTimeReached {
                                start: wait_start,
                                requested_resume: resume_time,
                            }),
                            Event::EventsCleared,
                        ],
                    )
                } else {
                    (idle, Seq::empty())
                },
                _ => (idle, Seq::empty()),
            }
        },
    }
}

/// The runner proper. The current control flow is owned by whoever runs the
/// callback and is handed to each hook, since the callback may change it
/// between any two deliveries.
#[derive(Debug, Clone, Copy, PartialEq, Eq, Structural)]
pub struct EventLoopRunner {
    pub state: RunnerState,
}

impl EventLoopRunner {
    /// A fresh runner, before the `Init` turn.
    pub fn new() -> (r: EventLoopRunner)
        ensures
            r.state == RunnerState::New,
    {
        EventLoopRunner { state: RunnerState::New }
    }

    /// Announces the start of a turn. Emits at most one `NewEvents`, or
    /// defers it until an event arrives.
    pub fn new_events<T>(&mut self, cf: ControlFlow, now: u64) -> (out: Vec<Event<T>>)
        ensures
            final(self).state == new_events_next(old(self).state, cf, now).0,
            out@ =~= new_events_emitted::<T>(old(self).state, cf, now),
    {
        let mut out: Vec<Event<T>> = Vec::new();
        let next = match self.state {
            RunnerState::HandlingEvents => RunnerState::HandlingEvents,
            RunnerState::DeferredNewEvents(wait_start) => RunnerState::DeferredNewEvents(wait_start),
            RunnerState::New => {
                out.push(Event::NewEvents(StartCause::Init));
                RunnerState::HandlingEvents
            },
            RunnerState::Idle(wait_start) => match cf {
                ControlFlow::Poll => {
                    out.push(Event::NewEvents(StartCause::Poll));
                    RunnerState::HandlingEvents
                },
                ControlFlow::WaitUntil(resume_time) => if now >= resume_time {
                    out.push(Event::NewEvents(StartCause::ResumeTimeReached {
                        start: wait_start,
                        requested_resume: resume_time,
                    }));
                    RunnerState::HandlingEvents
                } else {
                    RunnerState::DeferredNewEvents(wait_start)
                },
                _ => RunnerState::DeferredNewEvents(wait_start),
            },
        };
        self.state = next;
        out
    }

    /// Delivers one adapter event, first paying any owed `NewEvents`.
    ///
    /// An event cannot arrive under a deferred announcement once the
    /// callback has asked for `Exit`: the loop is then past its last
    /// decision point, and the wait that could be cancelled never begins.
    pub fn process_event<T>(&mut self, cf: ControlFlow, now: u64, event: Event<T>) -> (out: Vec<Event<T>>)
        requires
            cf is Exit ==> !(new_events_next(old(self).state, cf, now).0 is DeferredNewEvents),
        ensures
            final(self).state == RunnerState::HandlingEvents,
            out@ =~= process_event_emitted::<T>(old(self).state, cf, now, event),
    {
        let mut out: Vec<Event<T>> = self.new_events(cf, now);
        if let RunnerState::DeferredNewEvents(wait_start) = self.state {
            let cause = match cf {
                ControlFlow::Poll => StartCause::Poll,
                ControlFlow::WaitUntil(resume_time) => if now >= resume_time {
                    StartCause::ResumeTimeReached { start: wait_start, requested_resume: resume_time }
                } else {
                    StartCause::WaitCancelled { start: wait_start, requested_resume: Some(resume_time) }
                },
                _ => StartCause::WaitCancelled { start: wait_start, requested_resume: None },
            };
            out.push(Event::NewEvents(cause));
        }
        self.state = RunnerState::HandlingEvents;
        out.push(event);
        out
    }

    /// Signals that the native queue is drained: closes the turn with
    /// `EventsCleared`, paying a still-owed `NewEvents` first where the
    /// control flow asks for a turn even without events.
    pub fn events_cleared<T>(&mut self, cf: ControlFlow, now: u64) -> (out: Vec<Event<T>>)
        ensures
            final(self).state == events_cleared_next::<T>(old(self).state, cf, now).0,
            out@ =~= events_cleared_next::<T>(old(self).state, cf, now).1,
    {
        let mut out: Vec<Event<T>> = Vec::new();
        let next = match self.state {
            RunnerState::HandlingEvents => {
                out.push(Event::EventsCleared);
                RunnerState::Idle(now)
            },
            RunnerState::New => RunnerState::New,
            RunnerState::Idle(wait_start) => RunnerState::Idle(wait_start),
            RunnerState::DeferredNewEvents(wait_start) => {
                match cf {
                    ControlFlow::Poll => {
                        out.push(Event::NewEvents(StartCause::Poll));
                        out.push(Event::EventsCleared);
                    },
                    ControlFlow::WaitUntil(resume_time) => if now >= resume_time {
                        out.push(Event::NewEvents(StartCause::ResumeTimeReached {
                            start: wait_start,
                            requested_resume: resume_time,
                        }));
                        out.push(Event::EventsCleared);
                    },
                    _ => {},
                }
                RunnerState::Idle(wait_start)
            },
        };
        self.state = next;
        out
    }
}

/// The user callback, boxed behind a trait so the loop can drive it. The
/// callback may set the control flow on every delivery; once it has chosen
/// `Exit`, later changes are discarded.
pub trait EventHandler<T> {
    fn handle_nonuser_event(&mut self, event: &Event<T>, control_flow: &mut ControlFlow);
}

/// One scripted delivery: the clock reading at which the native source
/// surfaced the event.
pub struct Delivery<T> {
    pub now: u64,
    pub event: Event<T>,
}

/// One scripted iteration of the loop: when it began, what the native
/// source delivered, and when the native queue drained.
pub struct Turn<T> {
    pub start_time: u64,
    pub deliveries: Vec<Delivery<T>>,
    pub end_time: u64,
}

/// Runs each delivered event through the callback, keeping the full log.
/// A control flow of `Exit` is final: the callback is then handed a
/// scratch value and its choice is discarded.
fn deliver_all<T, H: EventHandler<T>>(
    handler: &mut H,
    control_flow: &mut ControlFlow,
    log: &mut Vec<Event<T>>,
    events: Vec<Event<T>>,
)
    ensures
        final(log)@ =~= old(log)@ + events@,
        *old(control_flow) is Exit ==> *final(control_flow) is Exit,
        events@.len() == 0 ==> *final(control_flow) == *old(control_flow),
{
    let mut events = events;
    let ghost all = events@;
    let ghost mut done: Seq<Event<T>> = Seq::empty();
    while events.len() > 0
        invariant
            log@ =~= old(log)@ + done,
            done + events@ =~= all,
            *old(control_flow) is Exit ==> *control_flow is Exit,
            done.len() == 0 ==> *control_flow == *old(control_flow),
        decreases events@.len(),
    {
        let ev = events.remove(0);
        if *control_flow == ControlFlow::Exit {
            let mut scratch = ControlFlow::Exit;
            handler.handle_nonuser_event(&ev, &mut scratch);
        } else {
            handler.handle_nonuser_event(&ev, control_flow);
        }
        proof {
            done = done + seq![ev];
        }
        log.push(ev);
    }
    proof {
        assert(done + events@ =~= done);
        assert(log@ =~= old(log)@ + all);
    }
}

/// The events one scripted turn delivers, in order.
pub open spec fn deliveries_payload<T>(ds: Seq<Delivery<T>>) -> Seq<Event<T>>
    decreases ds.len(),
{
    if ds.len() == 0 {
        Seq::empty()
    } else {
        seq![ds[0].event] + deliveries_payload(ds.drop_first())
    }
}

proof fn lemma_deliveries_payload_take_step<T>(ds: Seq<Delivery<T>>, k: int)
    requires
        0 < k <= ds.len(),
    ensures
        deliveries_payload(ds.take(k)) == deliveries_payload(ds.take(k - 1)) + seq![
            ds[k - 1].event,
        ],
    decreases k,
{
    if k == 1 {
        assert(ds.take(1).drop_first() =~= ds.take(0));
        assert(deliveries_payload(ds.take(0)) =~= Seq::<Event<T>>::empty());
        assert(ds.take(1)[0] == ds[0]);
        assert(deliveries_payload(ds.take(1)) =~= Seq::<Event<T>>::empty() + seq![ds[0].event]);
    } else {
        lemma_deliveries_payload_take_step(ds.drop_first(), k - 1);
        assert(ds.take(k).drop_first() =~= ds.drop_first().take(k - 1));
        assert(ds.take(k - 1).drop_first() =~= ds.drop_first().take(k - 2));
        assert(ds.take(k)[0] == ds[0]);
        assert(ds.take(k - 1)[0] == ds[0]);
        assert(deliveries_payload(ds.take(k)) =~= deliveries_payload(ds.take(k - 1)) + seq![
            ds[k - 1].event,
        ]);
    }
}

/// The whole log a sequence of turn emissions makes, in order.
pub open spec fn flatten_logs<T>(chunks: Seq<Seq<Event<T>>>) -> Seq<Event<T>>
    decreases chunks.len(),
{
    if chunks.len() == 0 {
        Seq::empty()
    } else {
        chunks[0] + flatten_logs(chunks.drop_first())
    }
}

proof fn lemma_flatten_logs_snoc<T>(chunks: Seq<Seq<Event<T>>>, chunk: Seq<Event<T>>)
    ensures
        flatten_logs(chunks.push(chunk)) == flatten_logs(chunks) + chunk,
    decreases chunks.len(),
{
    if chunks.len() == 0 {
        assert(chunks.push(chunk).drop_first() =~= Seq::<Seq<Event<T>>>::empty());
        assert(chunks.push(chunk)[0] == chunk);
        assert(flatten_logs(Seq::<Seq<Event<T>>>::empty()) == Seq::<Event<T>>::empty());
        assert(flatten_logs(chunks.push(chunk)) == chunk + flatten_logs(
            chunks.push(chunk).drop_first(),
        ));
        assert(flatten_logs(chunks) == Seq::<Event<T>>::empty());
        assert(chunk + Seq::<Event<T>>::empty() =~= Seq::<Event<T>>::empty() + chunk);
    } else {
        lemma_flatten_logs_snoc(chunks.drop_first(), chunk);
        assert(chunks.push(chunk).drop_first() =~= chunks.drop_first().push(chunk));
        assert(chunks.push(chunk)[0] == chunks[0]);
        assert(flatten_logs(chunks.push(chunk)) =~= flatten_logs(chunks) + chunk);
    }
}

/// What one turn may put into the log: nothing (a deferred wait in which
/// nothing arrived), or exactly one announcement, the turn's delivered
/// events, and the close.
pub open spec fn turn_emission_ok<T>(chunk: Seq<Event<T>>, payload_events: Seq<Event<T>>) -> bool {
    ||| chunk.len() == 0
    ||| {
        &&& chunk.len() == payload_events.len() + 2
        &&& chunk[0] is NewEvents
        &&& chunk.last() is EventsCleared
        &&& chunk.subrange(1, chunk.len() - 1) =~= payload_events
    }
}

/// Drives the loop over a script of iterations, as the platform loop drives
/// it over the native message queue, and returns the full delivery log: what
/// the callback saw, in order.
///
/// The loop ends when the callback has chosen `Exit` by the close of a turn,
/// or when the script runs out. The log is the concatenation of the turns'
/// emissions — each empty, or exactly one announcement, the turn's
/// deliveries, and the close — with the first turn announcing `Init`, and
/// `LoopDestroyed` delivered exactly once, as the last event.
pub fn run_return<T, H: EventHandler<T>>(handler: &mut H, turns: Vec<Turn<T>>) -> (log: Vec<Event<T>>)
    requires
        forall|i: int, j: int|
            0 <= i < turns@.len() && 0 <= j < turns@[i].deliveries@.len() ==> is_adapter_event(
                turns@[i].deliveries@[j].event,
            ),
    ensures
        log@.len() >= 1,
        log@[log@.len() - 1] is LoopDestroyed,
        forall|i: int| 0 <= i < log@.len() - 1 ==> !(log@[i] is LoopDestroyed),
        turns@.len() == 0 ==> log@ =~= seq![Event::<T>::LoopDestroyed],
        turns@.len() > 0 ==> log@[0] == Event::<T>::NewEvents(StartCause::Init),
        exists|chunks: Seq<Seq<Event<T>>>|
            #![trigger flatten_logs(chunks)]
            {
                &&& chunks.len() <= turns@.len()
                &&& log@ == flatten_logs(chunks) + seq![Event::<T>::LoopDestroyed]
                &&& forall|i: int|
                    0 <= i < chunks.len() ==> turn_emission_ok(
                        #[trigger] chunks[i],
                        deliveries_payload(turns@[i].deliveries@),
                    )
            },
{
    let ghost turns_all = turns@;
    let mut turns = turns;
    let mut runner = EventLoopRunner::new();
    let mut control_flow = ControlFlow::default();
    let mut log: Vec<Event<T>> = Vec::new();
    let mut exited = false;
    let ghost mut chunks: Seq<Seq<Event<T>>> = Seq::empty();
    proof {
        assert(turns@ =~= turns_all.skip(0));
    }
    while !exited && turns.len() > 0
        invariant
            forall|i: int, j: int|
                0 <= i < turns_all.len() && 0 <= j < turns_all[i].deliveries@.len()
                    ==> is_adapter_event(turns_all[i].deliveries@[j].event),
            forall|i: int| 0 <= i < log@.len() ==> !(log@[i] is LoopDestroyed),
            runner.state is New || runner.state is Idle,
            !exited ==> !(control_flow is Exit),
            chunks.len() <= turns_all.len(),
            turns@ == turns_all.skip(chunks.len() as int),
            log@ == flatten_logs(chunks),
            forall|i: int|
                0 <= i < chunks.len() ==> turn_emission_ok(
                    #[trigger] chunks[i],
                    deliveries_payload(turns_all[i].deliveries@),
                ),
            runner.state is New <==> chunks.len() == 0,
            log@.len() > 0 ==> log@[0] == Event::<T>::NewEvents(StartCause::Init),
            chunks.len() > 0 ==> log@.len() > 0,
            exited ==> chunks.len() > 0,
        decreases turns@.len(),
    {
        let ghost turns_before = turns@;
        let ghost turn_start = log@.len() as int;
        let turn = turns.remove(0);
        proof {
            assert(turn == turns_all[chunks.len() as int]);
            assert(turns@ =~= turns_all.skip(chunks.len() as int + 1));
            assert(forall|j: int|
                0 <= j < turn.deliveries@.len() ==> is_adapter_event(turn.deliveries@[j].event));
        }
        let ghost deliveries_all = turn.deliveries@;
        let ghost was_new = runner.state is New;
        let opening = runner.new_events(control_flow, turn.start_time);
        deliver_all(handler, &mut control_flow, &mut log, opening);
        proof {
            assert(log@.skip(turn_start) =~= opening@);
        }
        let mut deliveries = turn.deliveries;
        while deliveries.len() > 0
            invariant
                runner.state is DeferredNewEvents || runner.state is HandlingEvents,
                runner.state is DeferredNewEvents ==> !(control_flow is Exit),
                forall|j: int|
                    0 <= j < deliveries@.len() ==> is_adapter_event(deliveries@[j].event),
                forall|i: int| 0 <= i < log@.len() ==> !(log@[i] is LoopDestroyed),
                0 <= turn_start <= log@.len(),
                deliveries@.len() <= deliveries_all.len(),
                deliveries@ =~= deliveries_all.skip(
                    deliveries_all.len() - deliveries@.len(),
                ),
                runner.state is DeferredNewEvents ==> deliveries@ =~= deliveries_all && log@.len()
                    == turn_start,
                runner.state is HandlingEvents ==> ({
                    let chunk = log@.skip(turn_start);
                    let done = deliveries_all.len() - deliveries@.len();
                    &&& chunk.len() >= 1
                    &&& chunk[0] is NewEvents
                    &&& chunk.skip(1) =~= deliveries_payload(deliveries_all.take(done as int))
                }),
                log@.len() > 0 ==> log@[0] == Event::<T>::NewEvents(StartCause::Init),
                !was_new ==> turn_start > 0,
                was_new ==> log@.len() > turn_start,
                turn_start > 0 ==> log@.len() > 0,
                log@.take(turn_start) == flatten_logs(chunks),
            decreases deliveries@.len(),
        {
            let ghost pending_before = deliveries@;
            let ghost done_before = deliveries_all.len() - deliveries@.len();
            let ghost log_before = log@;
            let d = deliveries.remove(0);
            proof {
                assert(0 <= done_before < deliveries_all.len());
                assert(deliveries_all.skip(done_before as int)[0] == deliveries_all[
                    done_before as int
                ]);
                assert(d == deliveries_all[done_before as int]);
                assert(forall|j: int|
                    0 <= j < deliveries@.len() ==> deliveries@[j] == pending_before[j + 1]);
                assert(deliveries@ =~= deliveries_all.skip(done_before + 1));
            }
            let ghost state_before = runner.state;
            let out = runner.process_event(control_flow, d.now, d.event);
            proof {
                assert(forall|i: int| 0 <= i < out@.len() ==> !(out@[i] is LoopDestroyed));
            }
            deliver_all(handler, &mut control_flow, &mut log, out);
            proof {
                assert(log_before.len() > 0) by {
                    if state_before is DeferredNewEvents {
                        assert(turn_start > 0);
                    }
                }
                assert(log@[0] == log_before[0]);
                lemma_deliveries_payload_take_step(deliveries_all, done_before + 1);
                assert(log@.skip(turn_start) =~= log_before.skip(turn_start) + out@);
                assert(log@.take(turn_start) =~= log_before.take(turn_start));
                if state_before is DeferredNewEvents {
                    assert(deliveries_all.take(done_before as int) =~= Seq::<Delivery<T>>::empty());
                    assert(log@.skip(turn_start).skip(1) =~= deliveries_payload(
                        deliveries_all.take(done_before + 1),
                    ));
                } else {
                    assert(log@.skip(turn_start).skip(1) =~= log_before.skip(turn_start).skip(1)
                        + out@);
                }
            }
        }
        let ghost log_mid = log@;
        let closing = runner.events_cleared(control_flow, turn.end_time);
        deliver_all(handler, &mut control_flow, &mut log, closing);
        proof {
            let chunk = log@.skip(turn_start);
            assert(log@.skip(turn_start) =~= log_mid.skip(turn_start) + closing@);
            assert(log@.take(turn_start) =~= log_mid.take(turn_start));
            assert(turn_emission_ok(chunk, deliveries_payload(deliveries_all))) by {
                assert(deliveries_all.take(deliveries_all.len() as int) =~= deliveries_all);
                if chunk.len() > 0 {
                    assert(chunk.subrange(1, chunk.len() - 1) =~= chunk.skip(1).take(
                        chunk.len() - 2,
                    ));
                    assert(chunk.skip(1).take(chunk.len() - 2) =~= chunk.skip(1).drop_last());
                }
            }
            lemma_flatten_logs_snoc(chunks, chunk);
            chunks = chunks.push(chunk);
            assert(log@ =~= log@.take(turn_start) + chunk);
            assert(log@ == flatten_logs(chunks));
        }
        if control_flow == ControlFlow::Exit {
            exited = true;
        }
    }
    let ghost chunks_final = chunks;
    let mut last: Vec<Event<T>> = Vec::new();
    last.push(Event::LoopDestroyed);
    deliver_all(handler, &mut control_flow, &mut log, last);
    proof {
        assert(log@ =~= flatten_logs(chunks_final) + seq![Event::<T>::LoopDestroyed]);
        if turns_all.len() == 0 {
            assert(flatten_logs(chunks_final) =~= Seq::<Event<T>>::empty());
            assert(log@ =~= seq![Event::<T>::LoopDestroyed]);
        } else {
            assert(chunks_final.len() > 0);
            assert(log@[0] == Event::<T>::NewEvents(StartCause::Init));
        }
    }
    log
}

/// One delivery within a turn: the clock and the control flow at the moment
/// the adapter handed the event over, as the callback may change the control
/// flow between any two deliveries.
pub struct DispatchStep<T> {
    pub now: u64,
    pub cf: ControlFlow,
    pub event: Event<T>,
}

/// An event the adapter may deliver: anything but the lifecycle events,
/// which only the runner itself emits.
pub open spec fn is_adapter_event<T>(e: Event<T>) -> bool {
    &&& !(e is NewEvents)
    &&& !(e is EventsCleared)
    &&& !(e is LoopDestroyed)
}

/// The bare events of a sequence of deliveries.
pub open spec fn payload<T>(steps: Seq<DispatchStep<T>>) -> Seq<Event<T>>
    decreases steps.len(),
{
    if steps.len() == 0 {
        Seq::empty()
    } else {
        seq![steps[0].event] + payload(steps.drop_first())
    }
}

/// Folds a sequence of `process_event` calls over the runner: the final
/// state and everything emitted. After any delivery the state is
/// `HandlingEvents`.
pub open spec fn process_fold<T>(s: RunnerState, steps: Seq<DispatchStep<T>>) -> (RunnerState, Seq<Event<T>>)
    decreases steps.len(),
{
    if steps.len() == 0 {
        (s, Seq::empty())
    } else {
        let head = steps[0];
        let out_head = process_event_emitted(s, head.cf, head.now, head.event);
        let rest = process_fold(RunnerState::HandlingEvents, steps.drop_first());
        (rest.0, out_head + rest.1)
    }
}

/// The start cause a whole turn announces, or `None` where the turn wakes
/// the callback not at all (a deferred wait in which nothing arrived).
pub open spec fn turn_cause<T>(
    s0: RunnerState,
    cf0: ControlFlow,
    t_start: u64,
    steps: Seq<DispatchStep<T>>,
    cf_end: ControlFlow,
    t_end: u64,
) -> Option<StartCause> {
    match new_events_next(s0, cf0, t_start).1 {
        Some(cause) => Some(cause),
        None => match new_events_next(s0, cf0, t_start).0 {
            RunnerState::DeferredNewEvents(wait_start) => if steps.len() > 0 {
                Some(wake_cause(wait_start, steps[0].cf, steps[0].now))
            } else {
                match cf_end {
                    ControlFlow::Poll => Some(StartCause::Poll),
                    ControlFlow::WaitUntil(resume_time) => if t_end >= resume_time {
                        Some(StartCause::ResumeTimeReached { start: wait_start, requested_resume: resume_time })
                    } else {
                        None
                    },
                    _ => None,
                }
            },
            _ => None,
        },
    }
}

/// From `HandlingEvents`, a run of deliveries emits exactly the delivered
/// events, in order, and ends at `HandlingEvents`.
proof fn lemma_fold_from_handling<T>(steps: Seq<DispatchStep<T>>)
    ensures
        process_fold::<T>(RunnerState::HandlingEvents, steps).1 =~= payload(steps),
        steps.len() > 0 ==> process_fold::<T>(RunnerState::HandlingEvents, steps).0 == RunnerState::HandlingEvents,
    decreases steps.len(),
{
    if steps.len() > 0 {
        lemma_fold_from_handling::<T>(steps.drop_first());
    }
}

/// For every turn in which the callback runs, exactly one `NewEvents`
/// precedes the delivered events and exactly one `EventsCleared` follows
/// them; a turn in which the callback does not run delivers nothing and
/// swallows nothing.
///
/// The turn is taken from a completed iteration (`New`) or from idling; the
/// control flow at each point is arbitrary, since the callback owns it.
pub proof fn lemma_turn_lifecycle<T>(
    s0: RunnerState,
    cf0: ControlFlow,
    t_start: u64,
    steps: Seq<DispatchStep<T>>,
    cf_end: ControlFlow,
    t_end: u64,
)
    requires
        s0 is New || s0 is Idle,
    ensures
        ({
            let s1 = new_events_next(s0, cf0, t_start).0;
            let out_start = new_events_emitted::<T>(s0, cf0, t_start);
            let folded = process_fold(s1, steps);
            let closing = events_cleared_next::<T>(folded.0, cf_end, t_end);
            let total = out_start + folded.1 + closing.1;
            match turn_cause(s0, cf0, t_start, steps, cf_end, t_end) {
                Some(cause) => total =~= seq![Event::NewEvents(cause)] + payload(steps) + seq![
                    Event::EventsCleared,
                ],
                None => total =~= Seq::<Event<T>>::empty() && steps.len() == 0,
            }
        }),
{
    let s1 = new_events_next(s0, cf0, t_start).0;
    match new_events_next(s0, cf0, t_start).1 {
        Some(cause) => {
            lemma_fold_from_handling::<T>(steps);
        },
        None => {
            if let RunnerState::DeferredNewEvents(wait_start) = s1 {
                if steps.len() > 0 {
                    lemma_fold_from_handling::<T>(steps.drop_first());
                }
            }
        },
    }
}

/// After `WaitUntil(d)` with no event before `d`, the next `NewEvents`
/// reports `ResumeTimeReached` with that deadline: directly when the runner
/// wakes past the deadline, and at the close of the turn when the wake-up
/// itself preceded it.
pub proof fn lemma_wait_until_resume<T>(wait_start: u64, resume_time: u64, now: u64)
    requires
        now >= resume_time,
    ensures
        new_events_emitted::<T>(
            RunnerState::Idle(wait_start),
            ControlFlow::WaitUntil(resume_time),
            now,
        ) =~= seq![
            Event::NewEvents(StartCause::ResumeTimeReached { start: wait_start, requested_resume: resume_time }),
        ],
        events_cleared_next::<T>(
            RunnerState::DeferredNewEvents(wait_start),
            ControlFlow::WaitUntil(resume_time),
            now,
        ).1 =~= seq![
            Event::NewEvents(StartCause::ResumeTimeReached { start: wait_start, requested_resume: resume_time }),
            Event::EventsCleared,
        ],
{
}

/// An event that interrupts `WaitUntil(d)` before `d` is announced by
/// `WaitCancelled` carrying `Some(d)`, and is delivered right after it.
pub proof fn lemma_wait_until_cancelled<T>(wait_start: u64, resume_time: u64, now: u64, event: Event<T>)
    requires
        now < resume_time,
    ensures
        process_event_emitted(
            RunnerState::Idle(wait_start),
            ControlFlow::WaitUntil(resume_time),
            now,
            event,
        ) =~= seq![
            Event::NewEvents(StartCause::WaitCancelled { start: wait_start, requested_resume: Some(resume_time) }),
            event,
        ],
        process_event_emitted(
            RunnerState::DeferredNewEvents(wait_start),
            ControlFlow::WaitUntil(resume_time),
            now,
            event,
        ) =~= seq![
            Event::NewEvents(StartCause::WaitCancelled { start: wait_start, requested_resume: Some(resume_time) }),
            event,
        ],
{
}

/// An event that interrupts a plain `Wait` is announced by `WaitCancelled`
/// carrying no deadline, and is delivered right after it.
pub proof fn lemma_wait_cancelled<T>(wait_start: u64, now: u64, event: Event<T>)
    ensures
        process_event_emitted(
            RunnerState::Idle(wait_start),
            ControlFlow::Wait,
            now,
            event,
        ) =~= seq![
            Event::NewEvents(StartCause::WaitCancelled { start: wait_start, requested_resume: None }),
            event,
        ],
        process_event_emitted(
            RunnerState::DeferredNewEvents(wait_start),
            ControlFlow::Wait,
            now,
            event,
        ) =~= seq![
            Event::NewEvents(StartCause::WaitCancelled { start: wait_start, requested_resume: None }),
            event,
        ],
{
}

/// A polling turn with no native event announces `Poll` and closes at once:
/// the whole emission is `NewEvents(Poll)` directly followed by
/// `EventsCleared`.
pub proof fn lemma_poll_turn<T>(wait_start: u64, t_start: u64, t_end: u64)
    ensures
        ({
            let opened = new_events_emitted::<T>(RunnerState::Idle(wait_start), ControlFlow::Poll, t_start);
            let s1 = new_events_next(RunnerState::Idle(wait_start), ControlFlow::Poll, t_start).0;
            let closing = events_cleared_next::<T>(s1, ControlFlow::Poll, t_end);
            opened + closing.1 =~= seq![Event::NewEvents(StartCause::Poll), Event::EventsCleared]
        }),
{
}

} // verus!
