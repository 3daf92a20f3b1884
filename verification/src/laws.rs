//! Properties of the runtime that relate several operations.
use vstd::prelude::*;

use crate::dispatch::{
    blurred_model, callbacks_along, focused_in, focused_model, holds, is_owner_index, lemma_owner_unique,
    owner_index, parent_of,
};
use crate::event::{event_data_of, uncached_of, NativeEvent};
use crate::runtime::{
    after_push_child, after_remove_child, after_set_parent, children_of, fresh_element, fresh_window, handles_below, ids_matching,
    position_of, root_of, rooted, text_bytes, walk_bound, window_of, with_attributes, with_element, without, AppModel, ElementView, Timer, WindowView,
};
use crate::table::{
    drop_key, first_with_key, has_key, keys_unique, lemma_drop_key_props, lemma_first_exists,
    lemma_lookup_update_first, lemma_unique_first, lookup, register,
};
use crate::clipboard::CompletedView;
use crate::clipboard_ops::{
    committed_model, first_text_data, format_cstrings_of, formats_data, formats_model, offered_formats, plain_mime, read_model,
    without_completed, without_write, ClipboardRead,
};
use crate::css::{length_of, update_of, StyleUpdate};
use crate::wayland::{commit_payload, WriteDataView};
use crate::x11::{
    chunk_finishes, chunk_model, reply_for, staged_or_empty, IncrView, PropertyView, ReplyView, X11Model,
    X11WriteView,
};
use crate::teardown::{closed_window, destroyed, destroyed_all, listeners_without};
use crate::timing::{
    after_firing, cached_poll_model, due_timers, frame_events, pending_timers, polled_model, polled_record,
    timeout_events, with_timer,
};

verus! {

/// Setting the root of a window and reading it back gives the element.
pub proof fn law_root_round_trip(m: AppModel, w: usize, e: usize)
    requires
        window_of(m, w) is Some,
    ensures
        root_of(rooted(m, w, e), w) == e,
{
    lemma_lookup_update_first(m.windows, w, WindowView { root_element: Some(e), ..window_of(m, w)->0 });
}

/// Appending a child puts it last among the parent's children, after the
/// earlier ones in their order, and makes the parent its parent.
pub proof fn law_append_child(m: AppModel, p: usize, c: usize)
    requires
        m.elements.contains_key(p),
    ensures
        children_of(after_set_parent(after_push_child(m, p, c), c, Some(p)), p) == children_of(m, p).push(c),
        m.elements.contains_key(c) ==> parent_of(after_set_parent(after_push_child(m, p, c), c, Some(p)), c)
            == Some(p),
{
}

/// `without(s, x)` holds no `x`, and is shorter than `s` when `s` holds one.
pub proof fn lemma_without(s: Seq<usize>, x: usize)
    ensures
        !without(s, x).contains(x),
        without(s, x).len() <= s.len(),
        s.contains(x) ==> without(s, x).len() < s.len(),
        forall|y: usize| y != x ==> (#[trigger] without(s, x).contains(y) <==> s.contains(y)),
    decreases s.len(),
{
    if s.len() > 0 {
        let p = s.drop_last();
        lemma_without(p, x);
        assert(s == p.push(s.last()));
        if without(s, x).contains(x) {
            let i = choose|i: int| 0 <= i < without(s, x).len() && without(s, x)[i] == x;
            if s.last() != x && i == without(p, x).len() {
            } else {
                assert(without(p, x)[i] == x);
            }
        }
        if s.contains(x) && s.last() != x {
            let i = choose|i: int| 0 <= i < s.len() && s[i] == x;
            assert(p[i] == x);
        }
        assert forall|y: usize| y != x implies (without(s, x).contains(y) <==> s.contains(y)) by {
            if s.contains(y) {
                let i = choose|i: int| 0 <= i < s.len() && s[i] == y;
                if i < p.len() {
                    assert(p[i] == y);
                    assert(p.contains(y));
                    assert(without(p, x).contains(y));
                    let j = choose|j: int| 0 <= j < without(p, x).len() && without(p, x)[j] == y;
                    if s.last() != x {
                        assert(without(s, x)[j] == y);
                    }
                } else {
                    assert(without(s, x).last() == y);
                }
            }
            if without(s, x).contains(y) {
                let j = choose|j: int| 0 <= j < without(s, x).len() && without(s, x)[j] == y;
                if s.last() != x && j == without(p, x).len() {
                    assert(s[s.len() - 1] == y);
                } else {
                    assert(without(p, x)[j] == y);
                    assert(without(p, x).contains(y));
                    assert(p.contains(y));
                    let i = choose|i: int| 0 <= i < p.len() && p[i] == y;
                    assert(s[i] == y);
                }
            }
        }
    }
}

/// Removing a child takes every occurrence of it out of the parent's
/// children and keeps the others; when it was there the count drops; its
/// parent link is cleared.
pub proof fn law_remove_child(m: AppModel, p: usize, c: usize)
    requires
        m.elements.contains_key(p),
    ensures
        ({
            let m2 = after_set_parent(after_remove_child(m, p, c), c, None);
            &&& children_of(m2, p) == without(children_of(m, p), c)
            &&& !children_of(m2, p).contains(c)
            &&& children_of(m, p).contains(c) ==> children_of(m2, p).len() < children_of(m, p).len()
            &&& m.elements.contains_key(c) && c != p ==> parent_of(m2, c) is None
        }),
{
    lemma_without(children_of(m, p), c);
}

/// Inserting before a child places the new child just ahead of it.
pub proof fn law_insert_before(m: AppModel, p: usize, c: usize, before: usize)
    requires
        m.elements.contains_key(p),
        position_of(children_of(m, p), before) is Some,
    ensures
        ({
            let i = position_of(children_of(m, p), before)->0;
            let m2 = after_set_parent(
                with_element(m, p, ElementView { children: m.elements[p].children.insert(i, c), ..m.elements[p] }),
                c,
                Some(p),
            );
            &&& children_of(m2, p).len() == children_of(m, p).len() + 1
            &&& children_of(m2, p)[i] == c
            &&& children_of(m2, p)[i + 1] == before
        }),
{
    let s = children_of(m, p);
    assert(s.contains(before));
    let k = choose|k: int| 0 <= k < s.len() && s[k] == before;
    lemma_position_exists(s, before, k);
    let i = position_of(s, before)->0;
    assert(0 <= i < s.len() && s[i] == before);
}

/// A sequence that holds `x` has a first position of `x`.
pub proof fn lemma_position_exists(s: Seq<usize>, x: usize, k: int)
    requires
        0 <= k < s.len(),
        s[k] == x,
    ensures
        exists|i: int| 0 <= i < s.len() && s[i] == x && forall|j: int| 0 <= j < i ==> s[j] != x,
    decreases k,
{
    if exists|j: int| 0 <= j < k && s[j] == x {
        let j = choose|j: int| 0 <= j < k && s[j] == x;
        lemma_position_exists(s, x, j);
    } else {
        assert(0 <= k < s.len() && s[k] == x && forall|j: int| 0 <= j < k ==> s[j] != x);
    }
}

/// A listener that was removed is reached by no event.
pub proof fn law_removed_listener_silent(m: AppModel, id: u64, target: Option<usize>, event_type: i32, fuel: nat)
    ensures
        !callbacks_along(AppModel { callbacks: drop_key(m.callbacks, id), ..m }, target, event_type, fuel).contains(
            id,
        ),
    decreases fuel,
{
    let m2 = AppModel { callbacks: drop_key(m.callbacks, id), ..m };
    lemma_drop_key_props(m.callbacks, id);
    match target {
        None => {},
        Some(h) => {
            lemma_ids_keys(m2.callbacks, h, event_type);
            let head = ids_matching(m2.callbacks, h, event_type);
            let tail = if fuel == 0 {
                Seq::<u64>::empty()
            } else {
                callbacks_along(m2, parent_of(m2, h), event_type, (fuel - 1) as nat)
            };
            if fuel > 0 {
                law_removed_listener_silent(m, id, parent_of(m2, h), event_type, (fuel - 1) as nat);
            }
            if (head + tail).contains(id) {
                let k = choose|k: int| 0 <= k < (head + tail).len() && (head + tail)[k] == id;
                if k < head.len() {
                    assert(head[k] == id);
                } else {
                    assert(tail[k - head.len()] == id);
                }
            }
        },
    }
}

/// Every id a listener lookup gives is a key of the table.
pub proof fn lemma_ids_keys(s: Seq<(u64, (usize, i32))>, h: usize, event_type: i32)
    ensures
        forall|x: u64| #[trigger] ids_matching(s, h, event_type).contains(x) ==> has_key(s, x),
    decreases s.len(),
{
    if s.len() > 0 {
        let p = s.drop_last();
        lemma_ids_keys(p, h, event_type);
        assert forall|x: u64| ids_matching(s, h, event_type).contains(x) implies has_key(s, x) by {
            let r = ids_matching(p, h, event_type);
            let k = choose|k: int| 0 <= k < ids_matching(s, h, event_type).len() && ids_matching(s, h, event_type)[k]
                == x;
            if k < r.len() {
                assert(r[k] == x);
                assert(r.contains(x));
                assert(has_key(p, x));
                let j = choose|j: int| 0 <= j < p.len() && p[j].0 == x;
                assert(s[j].0 == x);
            } else {
                assert(s[s.len() - 1].0 == x);
            }
        }
    }
}

/// Polling hands out the events in the order they were queued: the oldest
/// queued event comes first, and the rest of the queue keeps its order ahead
/// of the events that the poll itself fired.
pub proof fn law_poll_fifo(m: AppModel, now_ms: u64, now_ns: u64)
    requires
        m.event_queue.len() > 0,
    ensures
        polled_record(m, now_ms) == event_data_of(m.event_queue[0]),
        polled_model(m, now_ms, now_ns).event_queue == m.event_queue.drop_first() + frame_events(m.animation_frames)
            + timeout_events(due_timers(m.timers, now_ms)),
{
    let q = after_firing(m, now_ms).event_queue;
    assert(q[0] == m.event_queue[0]);
    assert(q.drop_first() =~= m.event_queue.drop_first() + frame_events(m.animation_frames) + timeout_events(
        due_timers(m.timers, now_ms),
    ));
}

/// After a caching poll that found an event, the kept record is the record
/// of that event.
pub proof fn law_cached_record(m: AppModel, now_ms: u64)
    requires
        after_firing(m, now_ms).event_queue.len() > 0,
    ensures
        cached_poll_model(m, now_ms).last_polled_event matches Some(c) && uncached_of(c) == polled_record(m, now_ms),
{
    crate::event::lemma_cache_round_trip(polled_record(m, now_ms));
}

/// Due timers and pending timers split the table: each timer is in exactly
/// one of them, by its firing time.
pub proof fn lemma_timer_split(s: Seq<(u64, Timer)>, now_ms: u64)
    ensures
        forall|x: (u64, Timer)| #[trigger] due_timers(s, now_ms).contains(x) ==> s.contains(x) && x.1.fire_at_ms <= now_ms,
        forall|x: (u64, Timer)| #[trigger] pending_timers(s, now_ms).contains(x) ==> s.contains(x) && x.1.fire_at_ms > now_ms,
        due_timers(s, now_ms).len() + pending_timers(s, now_ms).len() == s.len(),
    decreases s.len(),
{
    if s.len() > 0 {
        let p = s.drop_last();
        lemma_timer_split(p, now_ms);
        assert forall|x: (u64, Timer)| due_timers(s, now_ms).contains(x) implies s.contains(x) && x.1.fire_at_ms
            <= now_ms by {
            let d = due_timers(p, now_ms);
            let k = choose|k: int| 0 <= k < due_timers(s, now_ms).len() && due_timers(s, now_ms)[k] == x;
            if k < d.len() {
                assert(d[k] == x);
                assert(d.contains(x));
                assert(p.contains(x));
                let j = choose|j: int| 0 <= j < p.len() && p[j] == x;
                assert(s[j] == x);
            } else {
                assert(s[s.len() - 1] == x);
            }
        }
        assert forall|x: (u64, Timer)| pending_timers(s, now_ms).contains(x) implies s.contains(x)
            && x.1.fire_at_ms > now_ms by {
            let d = pending_timers(p, now_ms);
            let k = choose|k: int| 0 <= k < pending_timers(s, now_ms).len() && pending_timers(s, now_ms)[k] == x;
            if k < d.len() {
                assert(d[k] == x);
                assert(d.contains(x));
                assert(p.contains(x));
                let j = choose|j: int| 0 <= j < p.len() && p[j] == x;
                assert(s[j] == x);
            } else {
                assert(s[s.len() - 1] == x);
            }
        }
    }
}

/// A timer fires once its time has come: the poll queues its timeout event
/// and the timer is gone.
pub proof fn law_timeout_fires(m: AppModel, callback_id: u64, fire_at_ms: u64, now_ms: u64)
    requires
        fire_at_ms <= now_ms,
    ensures
        ({
            let m1 = with_timer(m, callback_id, fire_at_ms);
            let f = after_firing(m1, now_ms);
            &&& f.event_queue.last() == NativeEvent::Timeout { callback_id }
            &&& !has_key(f.timers, m.next_timer_id)
        }),
{
    let s = drop_key(m.timers, m.next_timer_id);
    let t = (m.next_timer_id, Timer { callback_id, fire_at_ms });
    let s1 = register(m.timers, m.next_timer_id, Timer { callback_id, fire_at_ms });
    assert(s1.drop_last() == s);
    assert(due_timers(s1, now_ms) == due_timers(s, now_ms).push(t));
    assert(pending_timers(s1, now_ms) == pending_timers(s, now_ms));
    lemma_drop_key_props(m.timers, m.next_timer_id);
    lemma_timer_split(s, now_ms);
    if has_key(pending_timers(s, now_ms), m.next_timer_id) {
        let k = choose|k: int| 0 <= k < pending_timers(s, now_ms).len() && pending_timers(s, now_ms)[k].0
            == m.next_timer_id;
        assert(pending_timers(s, now_ms).contains(pending_timers(s, now_ms)[k]));
        let x = pending_timers(s, now_ms)[k];
        assert(s.contains(x));
        let j = choose|j: int| 0 <= j < s.len() && s[j] == x;
        assert(has_key(s, m.next_timer_id));
    }
    let q = m.event_queue + frame_events(m.animation_frames) + timeout_events(due_timers(s1, now_ms));
    assert(timeout_events(due_timers(s1, now_ms)).last() == NativeEvent::Timeout { callback_id });
}

/// A cleared timer never fires: no due timer carries its id.
pub proof fn law_cleared_timer_silent(timers: Seq<(u64, Timer)>, timer_id: u64, now_ms: u64)
    ensures
        !has_key(due_timers(drop_key(timers, timer_id), now_ms), timer_id),
{
    let s = drop_key(timers, timer_id);
    lemma_drop_key_props(timers, timer_id);
    lemma_timer_split(s, now_ms);
    if has_key(due_timers(s, now_ms), timer_id) {
        let k = choose|k: int| 0 <= k < due_timers(s, now_ms).len() && due_timers(s, now_ms)[k].0 == timer_id;
        let x = due_timers(s, now_ms)[k];
        assert(due_timers(s, now_ms).contains(x));
        assert(s.contains(x));
        let j = choose|j: int| 0 <= j < s.len() && s[j] == x;
        assert(has_key(s, timer_id));
    }
}

/// Every requested animation frame fires on the next poll, once: one event
/// per frame, then no frame is left.
pub proof fn law_frames_fire_once(m: AppModel, now_ms: u64)
    ensures
        after_firing(m, now_ms).animation_frames.len() == 0,
        after_firing(m, now_ms).event_queue.subrange(
            m.event_queue.len() as int,
            (m.event_queue.len() + m.animation_frames.len()) as int,
        ) == frame_events(m.animation_frames),
{
    let q = after_firing(m, now_ms).event_queue;
    assert(q.subrange(m.event_queue.len() as int, (m.event_queue.len() + m.animation_frames.len()) as int) =~= frame_events(
        m.animation_frames,
    ));
}

/// Focusing keeps the ownership of elements: the same windows hold the same
/// elements.
pub proof fn lemma_focus_keeps_owner(m: AppModel, el: usize, x: usize)
    ensures
        owner_index(focused_model(m, el), x) == owner_index(m, x),
{
    let m2 = focused_model(m, el);
    assert forall|i: int| 0 <= i < m.windows.len() implies holds(m2, m2.windows[i].1, x) == holds(
        m,
        m.windows[i].1,
        x,
    ) by {}
    if owner_index(m, x) is Some {
        let i = owner_index(m, x)->0;
        assert(is_owner_index(m, x, i));
        assert forall|j: int| 0 <= j < i implies !holds(m2, #[trigger] m2.windows[j].1, x) by {
            assert(!holds(m, m.windows[j].1, x));
        }
        assert(is_owner_index(m2, x, i));
        lemma_owner_unique(m2, x, i);
    } else if owner_index(m2, x) is Some {
        let i = owner_index(m2, x)->0;
        assert(is_owner_index(m2, x, i));
        assert forall|j: int| 0 <= j < i implies !holds(m, #[trigger] m.windows[j].1, x) by {
            assert(!holds(m2, m2.windows[j].1, x));
        }
        assert(is_owner_index(m, x, i));
        lemma_owner_unique(m, x, i);
    }
}

/// After focusing an element that a window holds, that window reports it
/// as focused.
pub proof fn law_focus_then_get(m: AppModel, el: usize)
    requires
        keys_unique(m.windows),
        owner_index(m, el) is Some,
    ensures
        focused_in(focused_model(m, el), m.windows[owner_index(m, el)->0].0) == el,
{
    let i = owner_index(m, el)->0;
    assert(is_owner_index(m, el, i));
    let m2 = focused_model(m, el);
    assert(keys_unique(m2.windows)) by {
        assert forall|a: int, b: int| 0 <= a < m2.windows.len() && 0 <= b < m2.windows.len() && a != b implies m2.windows[a].0
            != m2.windows[b].0 by {
            assert(m.windows[a].0 != m.windows[b].0);
        }
    }
    lemma_unique_first(m2.windows, i);
}

/// Blurring the element just focused leaves its window with no focus.
pub proof fn law_focus_then_blur(m: AppModel, el: usize)
    requires
        owner_index(m, el) is Some,
    ensures
        blurred_model(focused_model(m, el), el).windows[owner_index(m, el)->0].1.focused_element is None,
{
    let i = owner_index(m, el)->0;
    assert(is_owner_index(m, el, i));
    lemma_focus_keeps_owner(m, el, el);
}

/// A created element gets a non-zero handle that no element or window has,
/// and handles stay below the counter.
pub proof fn law_element_handle_fresh(m: AppModel, tag: Seq<char>, text: Option<Seq<char>>)
    requires
        handles_below(m),
        m.next_handle < usize::MAX,
    ensures
        m.next_handle != 0,
        !m.elements.contains_key(m.next_handle),
        !has_key(m.windows, m.next_handle),
        handles_below(
            AppModel {
                next_handle: (m.next_handle + 1) as usize,
                elements: m.elements.insert(m.next_handle, fresh_element(m.next_handle, tag, text)),
                ..m
            },
        ),
{
}

/// A created window gets a non-zero handle that no element or window has,
/// and handles stay below the counter.
pub proof fn law_window_handle_fresh(m: AppModel, w: u32, h: u32)
    requires
        handles_below(m),
        m.next_handle < usize::MAX,
    ensures
        m.next_handle != 0,
        !m.elements.contains_key(m.next_handle),
        !has_key(m.windows, m.next_handle),
        handles_below(
            AppModel {
                next_handle: (m.next_handle + 1) as usize,
                windows: m.windows.push((m.next_handle, fresh_window(w, h))),
                ..m
            },
        ),
{
    let m2 = AppModel {
        next_handle: (m.next_handle + 1) as usize,
        windows: m.windows.push((m.next_handle, fresh_window(w, h))),
        ..m
    };
    assert forall|i: int| 0 <= i < m2.windows.len() implies m2.windows[i].0 < m2.next_handle by {
        if i < m.windows.len() {
            assert(m2.windows[i] == m.windows[i]);
        }
    }
}

/// Windows created only through `native_create_window` under handles below
/// the counter never share a handle.
pub proof fn law_window_keys_unique(m: AppModel, w: u32, h: u32)
    requires
        handles_below(m),
        keys_unique(m.windows),
        m.next_handle < usize::MAX,
    ensures
        keys_unique(m.windows.push((m.next_handle, fresh_window(w, h)))),
{
    let s = m.windows.push((m.next_handle, fresh_window(w, h)));
    assert forall|a: int, b: int| 0 <= a < s.len() && 0 <= b < s.len() && a != b implies s[a].0 != s[b].0 by {
        if a < m.windows.len() && b < m.windows.len() {
            assert(s[a] == m.windows[a] && s[b] == m.windows[b]);
        } else if a < m.windows.len() {
            assert(s[a] == m.windows[a]);
        } else if b < m.windows.len() {
            assert(s[b] == m.windows[b]);
        }
    }
}

/// Releasing or cancelling a clipboard operation forgets its data: no
/// record is left under its id.
pub proof fn law_release_forgets(m: AppModel, callback_id: u64)
    ensures
        lookup(without_completed(m, callback_id).clipboard.completed, callback_id) is None,
{
    lemma_drop_key_props(m.clipboard.completed, callback_id);
}

/// A cancelled write is gone: adding formats to it or committing it finds
/// no such write.
pub proof fn law_cancelled_write_gone(m: AppModel, write_handle: u64)
    ensures
        !has_key(without_write(m, write_handle).clipboard.write_handles, write_handle),
{
    lemma_drop_key_props(m.clipboard.write_handles, write_handle);
}

/// Committing a write uses it up, whatever the outcome.
pub proof fn law_commit_consumes(m: AppModel, write_handle: u64, callback_id: u64, connected: bool, written: bool)
    ensures
        !has_key(committed_model(m, write_handle, callback_id, connected, written).clipboard.write_handles, write_handle),
{
    lemma_drop_key_props(m.clipboard.write_handles, write_handle);
}

/// A text read that found text keeps exactly the text's bytes under its id,
/// and the ready event announces their number.
pub proof fn law_read_keeps_text(m: AppModel, callback_id: u64, t: String, now_ns: u64)
    ensures
        ({
            let m2 = read_model(m, callback_id, ClipboardRead::Text(t), now_ns);
            &&& lookup(m2.clipboard.completed, callback_id) matches Some(c) && c.data == vstd::utf8::encode_utf8(t@)
            &&& m2.event_queue.last() == NativeEvent::ClipboardDataReady {
                callback_id,
                data_size: vstd::utf8::encode_utf8(t@).len() as usize,
            }
        }),
{
    crate::table::lemma_register(
        m.clipboard.completed,
        callback_id,
        CompletedView {
            data: vstd::utf8::encode_utf8(t@),
            formats: None,
            format_cstrings: Seq::empty(),
            completed_at: now_ns,
        },
    );
}

/// A format query that found text offers `text/plain`, and the copies
/// handed out for it (with room for at least one) are its NUL-terminated
/// bytes.
pub proof fn law_formats_offer_text(m: AppModel, callback_id: u64, t: String, now_ns: u64, max_formats: usize)
    requires
        max_formats > 0,
    ensures
        formats_data(formats_model(m, callback_id, ClipboardRead::Text(t), now_ns), callback_id, max_formats)
            == Some(seq![vstd::utf8::encode_utf8(plain_mime()).push(0u8)]),
{
    let v = CompletedView {
        data: Seq::empty(),
        formats: Some(offered_formats(ClipboardRead::Text(t))),
        format_cstrings: Seq::empty(),
        completed_at: now_ns,
    };
    crate::table::lemma_register(m.clipboard.completed, callback_id, v);
    let f = seq![plain_mime()];
    let b = vstd::utf8::encode_utf8(plain_mime());
    assert(vstd::utf8::is_ascii_chars(plain_mime()));
    vstd::utf8::is_ascii_chars_encode_utf8(plain_mime());
    assert forall|i: int| 0 <= i < b.len() implies b[i] != 0u8 by {
        assert(plain_mime()[i] as u8 == b[i]);
        assert(plain_mime()[i] != '\0');
    }
    assert(!b.contains(0u8));
    if max_formats as int > 1 {
        assert(format_cstrings_of(f, max_formats as int) == format_cstrings_of(f, 1));
    }
    assert(format_cstrings_of(f, 0) == Seq::<Seq<u8>>::empty());
    assert(format_cstrings_of(f, 1) == seq![b.push(0u8)]);
}

/// Destroying a tree leaves windows, the event queue and the other
/// bookkeeping as they were.
pub proof fn lemma_destroy_keeps_rest(m: AppModel, h: usize, fuel: nat)
    ensures
        destroyed(m, h, fuel).0.windows == m.windows,
        destroyed(m, h, fuel).0.event_queue == m.event_queue,
        destroyed(m, h, fuel).0.timers == m.timers,
        destroyed(m, h, fuel).0.next_handle == m.next_handle,
    decreases fuel, 1int, 0int,
{
    if fuel > 0 {
        lemma_destroy_all_keeps_rest(m, children_of(m, h), (fuel - 1) as nat);
    }
}

/// See `lemma_destroy_keeps_rest`.
pub proof fn lemma_destroy_all_keeps_rest(m: AppModel, cs: Seq<usize>, fuel: nat)
    ensures
        destroyed_all(m, cs, fuel).0.windows == m.windows,
        destroyed_all(m, cs, fuel).0.event_queue == m.event_queue,
        destroyed_all(m, cs, fuel).0.timers == m.timers,
        destroyed_all(m, cs, fuel).0.next_handle == m.next_handle,
    decreases fuel, 2int, cs.len(),
{
    if cs.len() > 0 {
        lemma_destroy_all_keeps_rest(m, cs.drop_last(), fuel);
        lemma_destroy_keeps_rest(destroyed_all(m, cs.drop_last(), fuel).0, cs.last(), fuel);
    }
}

/// No listener of `h` is left after dropping its listeners.
pub proof fn lemma_listeners_gone(s: Seq<(u64, (usize, i32))>, h: usize)
    ensures
        forall|i: int| 0 <= i < listeners_without(s, h).len() ==> #[trigger] listeners_without(s, h)[i].1.0 != h,
    decreases s.len(),
{
    if s.len() > 0 {
        let p = s.drop_last();
        lemma_listeners_gone(p, h);
        let r = listeners_without(p, h);
        assert forall|i: int| 0 <= i < listeners_without(s, h).len() implies #[trigger] listeners_without(s, h)[i].1.0
            != h by {
            if i < r.len() {
                assert(listeners_without(s, h)[i] == r[i]);
            }
        }
    }
}

/// Destroying an element's tree removes the element and every listener
/// registered on it.
pub proof fn law_destroy_removes(m: AppModel, h: usize, fuel: nat)
    ensures
        !destroyed(m, h, fuel).0.elements.contains_key(h),
        forall|i: int|
            0 <= i < destroyed(m, h, fuel).0.callbacks.len() ==> #[trigger] destroyed(m, h, fuel).0.callbacks[i].1.0
                != h,
{
    let (m1, r1) = if fuel == 0 {
        (m, Seq::<usize>::empty())
    } else {
        destroyed_all(m, children_of(m, h), (fuel - 1) as nat)
    };
    lemma_listeners_gone(m1.callbacks, h);
}

/// A closed window is gone: asking for it finds nothing.
pub proof fn law_closed_window_gone(m: AppModel, w: usize)
    ensures
        window_of(closed_window(m, w).0, w) is None,
{
    let m1 = match window_of(m, w) {
        Some(win) => match win.root_element {
            Some(root) => destroyed(m, root, m.elements.dom().len()).0,
            None => m,
        },
        None => m,
    };
    lemma_drop_key_props(m1.windows, w);
}

/// Setting an element's text and reading it back gives the text's UTF-8
/// bytes.
pub proof fn law_text_round_trip(m: AppModel, w: usize, c: Seq<char>)
    requires
        m.elements.contains_key(w),
    ensures
        text_bytes(with_element(m, w, ElementView { text_content: Some(c), ..m.elements[w] }), w)
            == vstd::utf8::encode_utf8(c),
{
}

/// Setting an attribute makes it read back as the value, leaves the other
/// attributes as they were, and keeps names unique; removing it makes it
/// read back as absent.
pub proof fn law_attribute_round_trip(m: AppModel, w: usize, name: Seq<char>, value: Seq<char>, other: Seq<char>)
    requires
        m.elements.contains_key(w),
        other != name,
    ensures
        ({
            let attrs = m.elements[w].attributes;
            let set = with_attributes(m, w, register(attrs, name, value)).elements[w].attributes;
            let removed = with_attributes(m, w, drop_key(attrs, name)).elements[w].attributes;
            &&& lookup(set, name) == Some(value)
            &&& lookup(set, other) == lookup(attrs, other)
            &&& (keys_unique(attrs) ==> keys_unique(set))
            &&& lookup(removed, name) is None
            &&& lookup(removed, other) == lookup(attrs, other)
        }),
{
    let attrs = m.elements[w].attributes;
    crate::table::lemma_register(attrs, name, value);
    lemma_drop_key_props(attrs, name);
}

/// While text is staged on the X11 clipboard, a request for it as
/// `UTF8_STRING` or `text/plain` is answered with the text's UTF-8 bytes,
/// typed `UTF8_STRING`, whatever else is staged.
pub proof fn law_x11_serves_staged_text(m: X11Model, t: Seq<char>, target: u32)
    requires
        target == m.atoms.utf8_string || target == m.atoms.text_plain,
        target != m.atoms.targets,
    ensures
        reply_for(m.atoms, Some(X11WriteView { text: Some(t), ..staged_or_empty(m.write) }), target)
            == ReplyView::Data(vstd::utf8::encode_utf8(t), m.atoms.utf8_string),
{
}

/// An incremental transfer delivers its chunks joined in order: after a
/// non-empty chunk, the empty chunk that ends the transfer hands out what
/// was gathered before followed by that chunk.
pub proof fn law_x11_incr_joins_chunks(
    m: X11Model,
    window: u32,
    t: IncrView,
    chunk: PropertyView,
    end: PropertyView,
)
    requires
        lookup(m.incrs, window) == Some(t),
        chunk.value.len() > 0,
        end.value.len() == 0,
    ensures
        chunk_finishes(chunk_model(m, window, Some(chunk)), window, Some(end)) == Some(
            IncrView { partial_data: t.partial_data + chunk.value, ..t },
        ),
{
    lemma_lookup_update_first(m.incrs, window, IncrView { partial_data: t.partial_data + chunk.value, ..t });
}

/// A Wayland commit hands the clipboard the text staged last, HTML staged
/// after it notwithstanding.
pub proof fn law_wayland_text_wins(before: Option<WriteDataView>, target: crate::clipboard::ClipboardTarget, text: Seq<char>, html: Seq<char>)
    ensures
        ({
            let after_text = WriteDataView {
                target,
                text: Some(text),
                html: match before {
                    Some(d) => d.html,
                    None => None,
                },
            };
            let after_html = WriteDataView { target, text: after_text.text, html: Some(html) };
            &&& commit_payload(after_text) == Some(text)
            &&& commit_payload(after_html) == Some(text)
        }),
{
}

/// A commit with a connection, of a write whose first text format holds
/// valid UTF-8, hands the system clipboard exactly the text those bytes
/// encode, after the texts handed before, whatever the system answers.
pub proof fn law_commit_hands_text(
    m: AppModel,
    write_handle: u64,
    callback_id: u64,
    written: bool,
    d: Seq<u8>,
)
    requires
        has_key(m.clipboard.write_handles, write_handle),
        first_text_data(lookup(m.clipboard.write_handles, write_handle)->0.formats) == Some(d),
        vstd::utf8::valid_utf8(d),
    ensures
        ({
            let handed = committed_model(m, write_handle, callback_id, true, written).clipboard.handed;
            &&& handed.len() == m.clipboard.handed.len() + 1
            &&& handed.take(m.clipboard.handed.len() as int) == m.clipboard.handed
            &&& vstd::utf8::encode_utf8(handed.last()) == d
        }),
{
    vstd::utf8::decode_utf8_encode_utf8(d);
    let handed = committed_model(m, write_handle, callback_id, true, written).clipboard.handed;
    assert(handed.take(m.clipboard.handed.len() as int) =~= m.clipboard.handed);
}

/// A style property the runtime knows.
pub open spec fn known_property(p: Seq<char>) -> bool {
    p == "display"@
        || p == "flex-direction"@
        || p == "justify-content"@
        || p == "align-items"@
        || p == "width"@
        || p == "height"@
        || p == "background-color"@
        || p == "background"@
        || p == "color"@
        || p == "font-size"@
        || p == "opacity"@
        || p == "border-radius"@
        || p == "border-width"@
        || p == "margin"@
        || p == "padding"@
        || p == "gap"@
        || p == "position"@
        || p == "top"@
        || p == "right"@
        || p == "bottom"@
        || p == "left"@
        || p == "grid-template-columns"@
        || p == "grid-template-rows"@
        || p == "grid-column"@
        || p == "grid-row"@
        || p == "overflow"@
        || p == "z-index"@
        || p == "flex-grow"@
        || p == "flex-shrink"@
        || p == "min-width"@
        || p == "min-height"@
        || p == "max-width"@
        || p == "max-height"@
}

/// Setting a style property the runtime does not know, or a margin,
/// padding or gap whose value is no length, changes no style.
pub proof fn law_style_unknown_unchanged(p: Seq<char>, v: Seq<char>)
    requires
        !known_property(p) || ((p == "margin"@ || p == "padding"@ || p == "gap"@) && length_of(v, 0, v.len() as int) is None),
    ensures
        update_of(p, v) == StyleUpdate::Unchanged,
{
    reveal_strlit("display");
    reveal_strlit("flex-direction");
    reveal_strlit("justify-content");
    reveal_strlit("align-items");
    reveal_strlit("width");
    reveal_strlit("height");
    reveal_strlit("background-color");
    reveal_strlit("background");
    reveal_strlit("color");
    reveal_strlit("font-size");
    reveal_strlit("opacity");
    reveal_strlit("border-radius");
    reveal_strlit("border-width");
    reveal_strlit("margin");
    reveal_strlit("padding");
    reveal_strlit("gap");
    if !known_property(p) {
        assert(update_of(p, v) == StyleUpdate::Unchanged);
    } else if p == "margin"@ {
        assert("margin"@.len() != "display"@.len());
        assert("margin"@.len() != "flex-direction"@.len());
        assert("margin"@.len() != "justify-content"@.len());
        assert("margin"@.len() != "align-items"@.len());
        assert("margin"@.len() != "width"@.len());
        assert("margin"@[0] != "height"@[0]);
        assert("margin"@.len() != "background-color"@.len());
        assert("margin"@.len() != "background"@.len());
        assert("margin"@.len() != "color"@.len());
        assert("margin"@.len() != "font-size"@.len());
        assert("margin"@.len() != "opacity"@.len());
        assert("margin"@.len() != "border-radius"@.len());
        assert("margin"@.len() != "border-width"@.len());
    } else if p == "padding"@ {
        assert("padding"@[0] != "display"@[0]);
        assert("padding"@.len() != "flex-direction"@.len());
        assert("padding"@.len() != "justify-content"@.len());
        assert("padding"@.len() != "align-items"@.len());
        assert("padding"@.len() != "width"@.len());
        assert("padding"@.len() != "height"@.len());
        assert("padding"@.len() != "background-color"@.len());
        assert("padding"@.len() != "background"@.len());
        assert("padding"@.len() != "color"@.len());
        assert("padding"@.len() != "font-size"@.len());
        assert("padding"@[0] != "opacity"@[0]);
        assert("padding"@.len() != "border-radius"@.len());
        assert("padding"@.len() != "border-width"@.len());
        assert("padding"@.len() != "margin"@.len());
    } else {
        assert("gap"@.len() != "display"@.len());
        assert("gap"@.len() != "flex-direction"@.len());
        assert("gap"@.len() != "justify-content"@.len());
        assert("gap"@.len() != "align-items"@.len());
        assert("gap"@.len() != "width"@.len());
        assert("gap"@.len() != "height"@.len());
        assert("gap"@.len() != "background-color"@.len());
        assert("gap"@.len() != "background"@.len());
        assert("gap"@.len() != "color"@.len());
        assert("gap"@.len() != "font-size"@.len());
        assert("gap"@.len() != "opacity"@.len());
        assert("gap"@.len() != "border-radius"@.len());
        assert("gap"@.len() != "border-width"@.len());
        assert("gap"@.len() != "margin"@.len());
        assert("gap"@.len() != "padding"@.len());
    }
}

/// With no format holding a NUL, the copies handed out for `n` slots are
/// one per format up to `min(n, len)`, in order, each the format's UTF-8
/// bytes followed by a NUL.
pub proof fn law_format_copies_count(formats: Seq<Seq<char>>, n: int)
    requires
        0 <= n,
        forall|i: int| 0 <= i < formats.len() ==> !vstd::utf8::encode_utf8(#[trigger] formats[i]).contains(0u8),
    ensures
        format_cstrings_of(formats, n).len() == (if n < formats.len() { n } else { formats.len() as int }),
        forall|i: int|
            0 <= i < format_cstrings_of(formats, n).len() ==> #[trigger] format_cstrings_of(formats, n)[i]
                == vstd::utf8::encode_utf8(formats[i]).push(0u8),
    decreases n,
{
    if n == 0 || formats.len() == 0 {
    } else if n > formats.len() {
        law_format_copies_count(formats, formats.len() as int);
    } else {
        law_format_copies_count(formats, n - 1);
        assert(!vstd::utf8::encode_utf8(formats[n - 1]).contains(0u8));
    }
}

/// A poll of the widget registry never answers -1 for an event, and tells
/// the kinds of event apart: every kind has a code of its own, 0 to 6.
pub proof fn law_widget_codes_distinct(a: crate::widgets::WidgetEvent, b: crate::widgets::WidgetEvent)
    ensures
        0 <= crate::widgets::widget_event_code_of(a) <= 6,
        crate::widgets::widget_event_code_of(a) == crate::widgets::widget_event_code_of(b) ==> {
            &&& (a is Click <==> b is Click)
            &&& (a is KeyDown <==> b is KeyDown)
            &&& (a is KeyUp <==> b is KeyUp)
            &&& (a is MouseMove <==> b is MouseMove)
            &&& (a is Resize <==> b is Resize)
            &&& (a is Close <==> b is Close)
            &&& (a is Redraw <==> b is Redraw)
        },
{
}

} // verus!
