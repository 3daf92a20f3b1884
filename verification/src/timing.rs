//! Timers, animation frames and polling the event queue.
use vstd::prelude::*;

use crate::clipboard::{after_timeouts, process_clipboard_timeouts};
use crate::event::{cached_of, empty_event_data, event_data_of, uncached_of, CachedEventData, NativeEvent, NativeEventData};
use crate::runtime::{handles_below, AppModel, AppState, Timer};
use crate::table::{drop_key, register, remove_key_u64};

verus! {

/// Milliseconds since the Unix epoch on the system clock (0 if the clock
/// reads before the epoch).  Nothing is claimed of the value: it is the time.
#[verifier::external_body]
pub fn native_now_ms() -> u64 {
    match std::time::SystemTime::now().duration_since(std::time::UNIX_EPOCH) {
        Ok(d) => d.as_millis() as u64,
        Err(_) => 0,
    }
}

/// Nanoseconds since the Unix epoch on the system clock (0 if the clock
/// reads before the epoch), the time stamp of clipboard records.  Nothing is
/// claimed of the value: it is the time.
#[verifier::external_body]
pub(crate) fn clock_nanos() -> u64 {
    match std::time::SystemTime::now().duration_since(std::time::UNIX_EPOCH) {
        Ok(d) => d.as_nanos() as u64,
        Err(_) => 0,
    }
}

/// The model after scheduling listener `callback_id` at `fire_at_ms` under
/// the next timer id.
pub open spec fn with_timer(m: AppModel, callback_id: u64, fire_at_ms: u64) -> AppModel {
    AppModel {
        timers: register(m.timers, m.next_timer_id, Timer { callback_id, fire_at_ms }),
        next_timer_id: (m.next_timer_id + 1) as u64,
        ..m
    }
}

/// Schedules listener `callback_id` to fire `delay_ms` milliseconds after
/// `now_ms`; returns the timer id.
pub fn native_set_timeout_at(state: &mut AppState, callback_id: u64, delay_ms: u64, now_ms: u64) -> (id: u64)
    requires
        old(state).next_timer_id < u64::MAX,
        now_ms + delay_ms <= u64::MAX,
    ensures
        handles_below(old(state)@) ==> handles_below(final(state)@),
        id == old(state)@.next_timer_id,
        final(state)@ == with_timer(old(state)@, callback_id, (now_ms + delay_ms) as u64),
{
    let id = state.next_timer_id;
    state.next_timer_id = state.next_timer_id + 1;
    remove_key_u64(&mut state.timers, id);
    state.timers.push((id, Timer { callback_id, fire_at_ms: now_ms + delay_ms }));
    id
}

/// Schedules listener `callback_id` to fire `delay_ms` milliseconds from now
/// on the system clock.  Returns the timer id, or `None` with nothing changed
/// when the firing time or the next id would not fit in 64 bits.
pub fn native_set_timeout(state: &mut AppState, callback_id: u64, delay_ms: u64) -> (id: Option<u64>)
    ensures
        handles_below(old(state)@) ==> handles_below(final(state)@),
        id is None ==> final(state)@ == old(state)@,
        id is None ==> old(state)@.next_timer_id == u64::MAX || delay_ms > 0,
        old(state)@.next_timer_id == u64::MAX ==> id is None,
        id matches Some(t) ==> t == old(state)@.next_timer_id && exists|fire_at: u64|
            delay_ms <= fire_at && final(state)@ == #[trigger] with_timer(old(state)@, callback_id, fire_at),
{
    let now = native_now_ms();
    if state.next_timer_id < u64::MAX && delay_ms <= u64::MAX - now {
        Some(native_set_timeout_at(state, callback_id, delay_ms, now))
    } else {
        None
    }
}

/// Cancels timer `timer_id`.
pub fn native_clear_timeout(state: &mut AppState, timer_id: u64)
    ensures
        handles_below(old(state)@) ==> handles_below(final(state)@),
        final(state)@ == (AppModel { timers: drop_key(old(state)@.timers, timer_id), ..old(state)@ }),
{
    remove_key_u64(&mut state.timers, timer_id);
}

/// Requests listener `callback_id` on the next poll; returns the frame id,
/// taken from the same counter as timer ids.
pub fn native_request_animation_frame(state: &mut AppState, callback_id: u64) -> (id: u64)
    requires
        old(state).next_timer_id < u64::MAX,
    ensures
        handles_below(old(state)@) ==> handles_below(final(state)@),
        id == old(state)@.next_timer_id,
        final(state)@ == (AppModel {
            animation_frames: register(old(state)@.animation_frames, id, callback_id),
            next_timer_id: (id + 1) as u64,
            ..old(state)@
        }),
{
    let id = state.next_timer_id;
    state.next_timer_id = state.next_timer_id + 1;
    remove_key_u64(&mut state.animation_frames, id);
    state.animation_frames.push((id, callback_id));
    id
}

/// Cancels animation frame `frame_id`.
pub fn native_cancel_animation_frame(state: &mut AppState, frame_id: u64)
    ensures
        handles_below(old(state)@) ==> handles_below(final(state)@),
        final(state)@ == (AppModel { animation_frames: drop_key(old(state)@.animation_frames, frame_id), ..old(state)@ }),
{
    remove_key_u64(&mut state.animation_frames, frame_id);
}

/// One animation-frame event per requested frame, in table order.
pub open spec fn frame_events(frames: Seq<(u64, u64)>) -> Seq<NativeEvent> {
    frames.map_values(|f: (u64, u64)| NativeEvent::AnimationFrame { callback_id: f.1 })
}

/// Timers due at `now_ms` (firing time not after it), in table order.
pub open spec fn due_timers(s: Seq<(u64, Timer)>, now_ms: u64) -> Seq<(u64, Timer)>
    decreases s.len(),
{
    if s.len() == 0 {
        s
    } else {
        let r = due_timers(s.drop_last(), now_ms);
        if s.last().1.fire_at_ms <= now_ms {
            r.push(s.last())
        } else {
            r
        }
    }
}

/// Timers still pending at `now_ms`, in table order.
pub open spec fn pending_timers(s: Seq<(u64, Timer)>, now_ms: u64) -> Seq<(u64, Timer)>
    decreases s.len(),
{
    if s.len() == 0 {
        s
    } else {
        let r = pending_timers(s.drop_last(), now_ms);
        if s.last().1.fire_at_ms <= now_ms {
            r
        } else {
            r.push(s.last())
        }
    }
}

/// One timeout event per timer, in order.
pub open spec fn timeout_events(s: Seq<(u64, Timer)>) -> Seq<NativeEvent> {
    s.map_values(|t: (u64, Timer)| NativeEvent::Timeout { callback_id: t.1.callback_id })
}

/// The model after firing, at `now_ms`, every requested animation frame and
/// then every due timer: their events join the end of the queue, the frames
/// are all gone and only pending timers stay.
pub open spec fn after_firing(m: AppModel, now_ms: u64) -> AppModel {
    AppModel {
        animation_frames: Seq::empty(),
        timers: pending_timers(m.timers, now_ms),
        event_queue: m.event_queue + frame_events(m.animation_frames) + timeout_events(due_timers(m.timers, now_ms)),
        ..m
    }
}

/// The model after firing every requested animation frame: one event per
/// frame joins the end of the queue and no frame is left.
pub open spec fn frames_fired(m: AppModel) -> AppModel {
    AppModel { animation_frames: Seq::empty(), event_queue: m.event_queue + frame_events(m.animation_frames), ..m }
}

/// The model after firing the timers due at `now_ms`: their events join the
/// end of the queue and only pending timers stay.
pub open spec fn timers_fired(m: AppModel, now_ms: u64) -> AppModel {
    AppModel {
        timers: pending_timers(m.timers, now_ms),
        event_queue: m.event_queue + timeout_events(due_timers(m.timers, now_ms)),
        ..m
    }
}

/// Fires every requested animation frame.
pub fn fire_frames(state: &mut AppState)
    ensures
        handles_below(old(state)@) ==> handles_below(final(state)@),
        final(state)@ == frames_fired(old(state)@),
{
    let ghost m = state@;
    let mut frames: Vec<(u64, u64)> = Vec::new();
    std::mem::swap(&mut frames, &mut state.animation_frames);
    let mut i: usize = 0;
    while i < frames.len()
        invariant
            i <= frames.len(),
            frames@ == m.animation_frames,
            state@ == (AppModel {
                animation_frames: Seq::empty(),
                event_queue: m.event_queue + frame_events(frames@.take(i as int)),
                ..m
            }),
        decreases frames.len() - i,
    {
        state.event_queue.push(NativeEvent::AnimationFrame { callback_id: frames[i].1 });
        assert(frame_events(frames@.take(i + 1)) =~= frame_events(frames@.take(i as int)).push(
            NativeEvent::AnimationFrame { callback_id: frames@[i as int].1 },
        ));
        i = i + 1;
        assert(state@ =~= (AppModel {
            animation_frames: Seq::empty(),
            event_queue: m.event_queue + frame_events(frames@.take(i as int)),
            ..m
        }));
    }
    assert(frames@.take(frames.len() as int) == frames@);
}

/// Fires every timer due at `now_ms`.
pub fn fire_due_timers(state: &mut AppState, now_ms: u64)
    ensures
        handles_below(old(state)@) ==> handles_below(final(state)@),
        final(state)@ == timers_fired(old(state)@, now_ms),
{
    let ghost m1 = state@;
    let mut timers: Vec<(u64, Timer)> = Vec::new();
    std::mem::swap(&mut timers, &mut state.timers);
    let ghost orig = timers@;
    let mut kept: Vec<(u64, Timer)> = Vec::new();
    for t in it: timers.into_iter()
        invariant
            it.seq() == orig,
            orig == m1.timers,
            kept@ == pending_timers(orig.take(it.index() as int), now_ms),
            state@ == (AppModel {
                timers: Seq::empty(),
                event_queue: m1.event_queue + timeout_events(due_timers(orig.take(it.index() as int), now_ms)),
                ..m1
            }),
    {
        proof {
            let n = it.index() as int;
            assert(orig.take(n + 1).drop_last() == orig.take(n));
            assert(orig.take(n + 1).last() == t);
        }
        if t.1.fire_at_ms <= now_ms {
            let ghost d0 = due_timers(orig.take(it.index() as int), now_ms);
            state.event_queue.push(NativeEvent::Timeout { callback_id: t.1.callback_id });
            assert(timeout_events(d0.push(t)) =~= timeout_events(d0).push(
                NativeEvent::Timeout { callback_id: t.1.callback_id },
            ));
        } else {
            kept.push(t);
        }
        proof {
            let n = it.index() as int;
            assert(state@ =~= (AppModel {
                timers: Seq::empty(),
                event_queue: m1.event_queue + timeout_events(due_timers(orig.take(n + 1), now_ms)),
                ..m1
            }));
        }
    }
    assert(orig.take(orig.len() as int) == orig);
    state.timers = kept;
    assert(state@ =~= timers_fired(m1, now_ms));
}

/// Fires every requested animation frame and every timer due at `now_ms`.
pub fn fire_frames_and_timers(state: &mut AppState, now_ms: u64)
    ensures
        handles_below(old(state)@) ==> handles_below(final(state)@),
        final(state)@ == after_firing(old(state)@, now_ms),
{
    let ghost m = state@;
    fire_frames(state);
    fire_due_timers(state, now_ms);
    assert(state@ =~= after_firing(m, now_ms));
}

/// The queue without its oldest event, and that event's record; the empty
/// record when the queue is empty.
pub open spec fn dequeued(q: Seq<NativeEvent>) -> (Seq<NativeEvent>, NativeEventData) {
    if q.len() == 0 {
        (q, empty_event_data())
    } else {
        (q.drop_first(), event_data_of(q[0]))
    }
}

/// Takes the oldest event off the queue and returns its record, or the empty
/// record (event type -1) when the queue is empty.
fn dequeue(state: &mut AppState) -> (d: NativeEventData)
    ensures
        d == dequeued(old(state)@.event_queue).1,
        final(state)@ == (AppModel { event_queue: dequeued(old(state)@.event_queue).0, ..old(state)@ }),
{
    if state.event_queue.len() > 0 {
        let e = state.event_queue.remove(0);
        assert(old(state)@.event_queue.remove(0) =~= old(state)@.event_queue.drop_first());
        e.to_event_data()
    } else {
        NativeEventData::empty()
    }
}

/// The model after one poll at `now_ms` / `now_ns`: frames and due timers
/// fired, outlived clipboard records dropped, the oldest event taken off.
pub open spec fn polled_model(m: AppModel, now_ms: u64, now_ns: u64) -> AppModel {
    let f = after_firing(m, now_ms);
    AppModel {
        event_queue: dequeued(f.event_queue).0,
        clipboard: after_timeouts(m.clipboard, now_ns),
        ..f
    }
}

/// The record one poll at `now_ms` returns.
pub open spec fn polled_record(m: AppModel, now_ms: u64) -> NativeEventData {
    dequeued(after_firing(m, now_ms).event_queue).1
}

/// One poll at the given clock readings: fires animation frames and due
/// timers, drops outlived clipboard records, then takes the oldest event.
/// Returns its event type (-1 when the queue was empty) and its record.
pub fn native_poll_event_at(state: &mut AppState, now_ms: u64, now_ns: u64) -> (r: (i32, NativeEventData))
    ensures
        handles_below(old(state)@) ==> handles_below(final(state)@),
        r.1 == polled_record(old(state)@, now_ms),
        r.0 == r.1.event_type,
        final(state)@ == polled_model(old(state)@, now_ms, now_ns),
{
    fire_frames_and_timers(state, now_ms);
    process_clipboard_timeouts(&mut state.clipboard, now_ns);
    let d = dequeue(state);
    (d.event_type, d)
}

/// One poll at the current time of the system clock.
pub fn native_poll_event(state: &mut AppState) -> (r: (i32, NativeEventData))
    ensures
        handles_below(old(state)@) ==> handles_below(final(state)@),
        r.0 == r.1.event_type,
        exists|now_ms: u64, now_ns: u64|
            r.1 == polled_record(old(state)@, now_ms) && final(state)@ == polled_model(old(state)@, now_ms, now_ns),
{
    let now_ms = native_now_ms();
    let now_ns = clock_nanos();
    native_poll_event_at(state, now_ms, now_ns)
}

/// The model after one caching poll at `now_ms`: frames and due timers
/// fired, the oldest event taken off and its record kept (or nothing kept
/// when the queue was empty).
pub open spec fn cached_poll_model(m: AppModel, now_ms: u64) -> AppModel {
    let f = after_firing(m, now_ms);
    let (q, d) = dequeued(f.event_queue);
    AppModel {
        event_queue: q,
        last_polled_event: if f.event_queue.len() == 0 { None } else { Some(cached_of(d)) },
        ..f
    }
}

/// One step of waiting for an event: the timers due at `before_ms` fire,
/// then a poll at `now_ms` / `now_ns` (see `native_poll_event_at`).
pub fn native_poll_event_timeout_step(state: &mut AppState, before_ms: u64, now_ms: u64, now_ns: u64) -> (r: (
    i32,
    NativeEventData,
))
    ensures
        handles_below(old(state)@) ==> handles_below(final(state)@),
        r.1 == polled_record(timers_fired(old(state)@, before_ms), now_ms),
        r.0 == r.1.event_type,
        final(state)@ == polled_model(timers_fired(old(state)@, before_ms), now_ms, now_ns),
{
    fire_due_timers(state, before_ms);
    native_poll_event_at(state, now_ms, now_ns)
}

/// What a wait for an event does after one step.
#[derive(Debug, Clone, Copy, PartialEq, Eq, Structural)]
pub enum WaitOutcome {
    /// The step found an event of this type: the wait ends with it.
    Event(i32),
    /// No event, and the deadline has come: the wait ends with -1.
    TimedOut,
    /// No event yet: wait a little and step again.
    KeepWaiting,
}

/// The deadline of a wait of `timeout_ms` begun at `start_ms`; `None`
/// where it would not fit in 64 bits.
pub fn wait_deadline(start_ms: u64, timeout_ms: u64) -> (d: Option<u64>)
    ensures
        start_ms + timeout_ms <= u64::MAX ==> d == Some((start_ms + timeout_ms) as u64),
        start_ms + timeout_ms > u64::MAX ==> d is None,
{
    start_ms.checked_add(timeout_ms)
}

/// Decides a wait after a step that gave `event_type` (-1 for none) at
/// `now_ms`: an event ends the wait; without one the wait ends once
/// `now_ms` reaches `deadline_ms`, else it goes on.
pub fn wait_outcome(event_type: i32, now_ms: u64, deadline_ms: u64) -> (w: WaitOutcome)
    ensures
        w == (if event_type != -1 {
            WaitOutcome::Event(event_type)
        } else if now_ms >= deadline_ms {
            WaitOutcome::TimedOut
        } else {
            WaitOutcome::KeepWaiting
        }),
{
    if event_type != -1 {
        WaitOutcome::Event(event_type)
    } else if now_ms >= deadline_ms {
        WaitOutcome::TimedOut
    } else {
        WaitOutcome::KeepWaiting
    }
}

/// One caching poll at `now_ms`: like `native_poll_event_at` without the
/// clipboard timeouts, keeping the record for `native_get_event_data`.
/// Returns the event type, -1 when the queue was empty.
pub fn native_poll_events_at(state: &mut AppState, now_ms: u64) -> (t: i32)
    ensures
        handles_below(old(state)@) ==> handles_below(final(state)@),
        t == polled_record(old(state)@, now_ms).event_type,
        final(state)@ == cached_poll_model(old(state)@, now_ms),
{
    fire_frames_and_timers(state, now_ms);
    if state.event_queue.len() > 0 {
        let d = dequeue(state);
        state.last_polled_event = Some(CachedEventData::from(d));
        d.event_type
    } else {
        state.last_polled_event = None;
        -1
    }
}

/// One caching poll at the current time of the system clock.
pub fn native_poll_events(state: &mut AppState) -> (t: i32)
    ensures
        handles_below(old(state)@) ==> handles_below(final(state)@),
        exists|now_ms: u64|
            t == polled_record(old(state)@, now_ms).event_type && final(state)@ == cached_poll_model(old(state)@, now_ms),
{
    let now_ms = native_now_ms();
    native_poll_events_at(state, now_ms)
}

/// The record kept by the last caching poll, if it found an event.
pub fn native_get_event_data(state: &AppState) -> (r: Option<NativeEventData>)
    ensures
        r == (match state@.last_polled_event {
            Some(c) => Some(uncached_of(c)),
            None => None,
        }),
{
    match state.last_polled_event {
        Some(c) => Some(c.to_native_event_data()),
        None => None,
    }
}

} // verus!
