//! Event dispatch: which listeners an event reaches, which window owns an
//! element, and focus changes.
use vstd::prelude::*;

use crate::event::{NativeEvent, EVENT_BLUR, EVENT_FOCUS};
use crate::runtime::{handles_below, 
    collect_focus_callbacks, ids_matching, is_descendant, reaches, walk_bound, windows_view, AppModel,
    AppState, WindowView,
};

verus! {

/// The parent of `h`, or none when `h` is not an element.
pub open spec fn parent_of(m: AppModel, h: usize) -> Option<usize> {
    if m.elements.contains_key(h) {
        m.elements[h].parent
    } else {
        None
    }
}

/// Listener ids for `event_type` met while bubbling up from `start`: those
/// of `start` in table order, then those of its parent, and so on, taking at
/// most `fuel` steps up.
pub open spec fn callbacks_along(m: AppModel, start: Option<usize>, event_type: i32, fuel: nat) -> Seq<u64>
    decreases fuel,
{
    match start {
        None => Seq::empty(),
        Some(h) => ids_matching(m.callbacks, h, event_type) + (if fuel == 0 {
            Seq::empty()
        } else {
            callbacks_along(m, parent_of(m, h), event_type, (fuel - 1) as nat)
        }),
    }
}

/// The listeners an event of `event_type` on `target` reaches, target first,
/// then its ancestors (at most one step up per element, which covers every
/// parent chain without a cycle).
pub fn collect_callbacks_for_event(state: &AppState, target: Option<usize>, event_type: i32) -> (r: Vec<u64>)
    ensures
        r@ == callbacks_along(state@, target, event_type, walk_bound(state@)),
{
    proof {
        crate::runtime::lemma_elements_dom(state.elements@);
    }
    let ghost total = callbacks_along(state@, target, event_type, walk_bound(state@));
    let mut r: Vec<u64> = Vec::new();
    let mut current = target;
    let mut fuel: usize = state.elements.len();
    loop
        invariant_except_break
            r@ + callbacks_along(state@, current, event_type, fuel as nat) == total,
        ensures
            r@ == total,
        decreases fuel,
    {
        match current {
            None => {
                assert(r@ + Seq::<u64>::empty() == r@);
                break;
            },
            Some(h) => {
                let mut ids = collect_focus_callbacks(state, h, event_type);
                let ghost r0 = r@;
                r.append(&mut ids);
                if fuel == 0 {
                    assert(r@ == r0 + ids_matching(state@.callbacks, h, event_type) + Seq::<u64>::empty());
                    break;
                }
                let parent = match state.elements.get(&h) {
                    Some(e) => e.parent,
                    None => None,
                };
                assert(parent == parent_of(state@, h));
                assert(r0 + (ids_matching(state@.callbacks, h, event_type) + callbacks_along(
                    state@,
                    parent,
                    event_type,
                    (fuel - 1) as nat,
                )) == r@ + callbacks_along(state@, parent, event_type, (fuel - 1) as nat));
                current = parent;
                fuel = fuel - 1;
            },
        }
    }
    r
}

/// The kind of event queued for each listener an event reaches; the listener
/// id fills in the rest.
pub enum EventTemplate {
    Click { x: u32, y: u32, button: i32 },
    MouseMove { x: u32, y: u32 },
    KeyDown { key: i32, modifiers: i32 },
    TextInput { text: String },
    Focus,
    Blur,
    Scroll { delta_x: u32, delta_y: u32 },
    Timeout,
    AnimationFrame,
}

/// The event of template `t` for listener `id`.
pub open spec fn instantiate(t: EventTemplate, id: u64) -> NativeEvent {
    match t {
        EventTemplate::Click { x, y, button } => NativeEvent::Click { x, y, button, callback_id: id },
        EventTemplate::MouseMove { x, y } => NativeEvent::MouseMove { x, y, callback_id: id },
        EventTemplate::KeyDown { key, modifiers } => NativeEvent::KeyDown { key, modifiers, callback_id: id },
        EventTemplate::TextInput { text } => NativeEvent::TextInput { text, callback_id: id },
        EventTemplate::Focus => NativeEvent::Focus { callback_id: id },
        EventTemplate::Blur => NativeEvent::Blur { callback_id: id },
        EventTemplate::Scroll { delta_x, delta_y } => NativeEvent::Scroll { delta_x, delta_y, callback_id: id },
        EventTemplate::Timeout => NativeEvent::Timeout { callback_id: id },
        EventTemplate::AnimationFrame => NativeEvent::AnimationFrame { callback_id: id },
    }
}

/// One event of template `t` per listener id, in the order of `ids`.
pub open spec fn events_for(ids: Seq<u64>, t: EventTemplate) -> Seq<NativeEvent> {
    ids.map_values(|id: u64| instantiate(t, id))
}

/// The event of template `t` for listener `id`.
pub fn make_event(t: &EventTemplate, id: u64) -> (e: NativeEvent)
    ensures
        e == instantiate(*t, id),
{
    match t {
        EventTemplate::Click { x, y, button } => NativeEvent::Click { x: *x, y: *y, button: *button, callback_id: id },
        EventTemplate::MouseMove { x, y } => NativeEvent::MouseMove { x: *x, y: *y, callback_id: id },
        EventTemplate::KeyDown { key, modifiers } => NativeEvent::KeyDown {
            key: *key,
            modifiers: *modifiers,
            callback_id: id,
        },
        EventTemplate::TextInput { text } => NativeEvent::TextInput { text: text.clone(), callback_id: id },
        EventTemplate::Focus => NativeEvent::Focus { callback_id: id },
        EventTemplate::Blur => NativeEvent::Blur { callback_id: id },
        EventTemplate::Scroll { delta_x, delta_y } => NativeEvent::Scroll {
            delta_x: *delta_x,
            delta_y: *delta_y,
            callback_id: id,
        },
        EventTemplate::Timeout => NativeEvent::Timeout { callback_id: id },
        EventTemplate::AnimationFrame => NativeEvent::AnimationFrame { callback_id: id },
    }
}

/// Appends one event of template `t` per listener id to `queue`.
pub fn queue_events(queue: &mut Vec<NativeEvent>, ids: &Vec<u64>, t: &EventTemplate)
    ensures
        final(queue)@ == old(queue)@ + events_for(ids@, *t),
{
    let mut i: usize = 0;
    while i < ids.len()
        invariant
            i <= ids.len(),
            queue@ == old(queue)@ + events_for(ids@.take(i as int), *t),
        decreases ids.len() - i,
    {
        let ghost q0 = queue@;
        queue.push(make_event(t, ids[i]));
        assert(events_for(ids@.take(i + 1), *t) =~= events_for(ids@.take(i as int), *t).push(instantiate(*t, ids@[i as int])));
        assert(queue@ =~= old(queue)@ + events_for(ids@.take(i + 1), *t));
        i = i + 1;
    }
    assert(ids@.take(ids.len() as int) == ids@);
}

/// Window `w` holds `element`: it has a root and `element` is the root or
/// lies below it.
pub open spec fn holds(m: AppModel, w: WindowView, element: usize) -> bool {
    match w.root_element {
        Some(r) => reaches(m.elements, r, element, walk_bound(m)),
        None => false,
    }
}

/// `i` is the position of the first window, in creation order, that holds
/// `element`.
pub open spec fn is_owner_index(m: AppModel, element: usize, i: int) -> bool {
    &&& 0 <= i < m.windows.len()
    &&& holds(m, m.windows[i].1, element)
    &&& forall|j: int| 0 <= j < i ==> !holds(m, #[trigger] m.windows[j].1, element)
}

/// Position of the window that owns `element`, if any.
pub open spec fn owner_index(m: AppModel, element: usize) -> Option<int> {
    if exists|i: int| is_owner_index(m, element, i) {
        Some(choose|i: int| is_owner_index(m, element, i))
    } else {
        None
    }
}

/// Handle of the window that owns `element`, if any.
pub open spec fn owner_window(m: AppModel, element: usize) -> Option<usize> {
    match owner_index(m, element) {
        Some(i) => Some(m.windows[i].0),
        None => None,
    }
}

pub proof fn lemma_owner_unique(m: AppModel, element: usize, i: int)
    requires
        is_owner_index(m, element, i),
    ensures
        owner_index(m, element) == Some(i),
{
    let f = choose|f: int| is_owner_index(m, element, f);
    if f < i {
        assert(!holds(m, m.windows[f].1, element));
    } else if i < f {
        assert(!holds(m, m.windows[i].1, element));
    }
}

/// Position of the window that owns `element`.
fn find_owner_index(state: &AppState, element: usize) -> (r: Option<usize>)
    ensures
        r matches Some(i) ==> owner_index(state@, element) == Some(i as int),
        r is None ==> owner_index(state@, element) is None,
{
    let mut i: usize = 0;
    while i < state.windows.len()
        invariant
            i <= state.windows.len(),
            forall|j: int| 0 <= j < i ==> !holds(state@, #[trigger] state@.windows[j].1, element),
        decreases state.windows.len() - i,
    {
        assert(state@.windows[i as int].1 == state.windows@[i as int].1@);
        match state.windows[i].1.root_element {
            Some(root) => {
                if is_descendant(state, element, root) {
                    proof {
                        lemma_owner_unique(state@, element, i as int);
                    }
                    return Some(i);
                }
            },
            None => {},
        }
        i = i + 1;
    }
    proof {
        if exists|k: int| is_owner_index(state@, element, k) {
            let k = choose|k: int| is_owner_index(state@, element, k);
            assert(!holds(state@, state@.windows[k].1, element));
        }
    }
    None
}

/// Handle of the window whose tree holds `element`: the first window, in
/// creation order, whose root is `element` or an ancestor of it.
pub fn find_window_for_element(state: &AppState, element: usize) -> (r: Option<usize>)
    ensures
        r == owner_window(state@, element),
{
    match find_owner_index(state, element) {
        Some(i) => Some(state.windows[i].0),
        None => None,
    }
}

/// The model after focusing `element`: in the window that owns it, a blur
/// event for each blur listener of the element focused before (unless it is
/// `element` itself), then the focus moves, then a focus event for each
/// focus listener of `element`.  Nothing changes when no window owns it.
pub open spec fn focused_model(m: AppModel, element: usize) -> AppModel {
    match owner_index(m, element) {
        None => m,
        Some(i) => {
            let w = m.windows[i].1;
            let blurs = match w.focused_element {
                Some(p) => if p != element {
                    events_for(ids_matching(m.callbacks, p, EVENT_BLUR), EventTemplate::Blur)
                } else {
                    Seq::empty()
                },
                None => Seq::empty(),
            };
            AppModel {
                windows: m.windows.update(i, (m.windows[i].0, WindowView { focused_element: Some(element), ..w })),
                event_queue: m.event_queue + blurs + events_for(
                    ids_matching(m.callbacks, element, EVENT_FOCUS),
                    EventTemplate::Focus,
                ),
                ..m
            }
        },
    }
}

/// The model after blurring `element`: when it is focused in the window
/// that owns it, a blur event for each of its blur listeners and the window
/// loses its focus; otherwise nothing changes.
pub open spec fn blurred_model(m: AppModel, element: usize) -> AppModel {
    match owner_index(m, element) {
        Some(i) => if m.windows[i].1.focused_element == Some(element) {
            AppModel {
                windows: m.windows.update(
                    i,
                    (m.windows[i].0, WindowView { focused_element: None, ..m.windows[i].1 }),
                ),
                event_queue: m.event_queue + events_for(
                    ids_matching(m.callbacks, element, EVENT_BLUR),
                    EventTemplate::Blur,
                ),
                ..m
            }
        } else {
            m
        },
        None => m,
    }
}

/// Moves the focus of the owning window to `element`.
pub fn native_focus(state: &mut AppState, element: usize)
    ensures
        handles_below(old(state)@) ==> handles_below(final(state)@),
        final(state)@ == focused_model(old(state)@, element),
{
    let ghost m = state@;
    match find_owner_index(state, element) {
        None => {},
        Some(i) => {
            let ghost q0 = state.event_queue@;
            let prev = state.windows[i].1.focused_element;
            let mut blur_ids: Vec<u64> = Vec::new();
            if let Some(p) = prev {
                if p != element {
                    blur_ids = collect_focus_callbacks(state, p, EVENT_BLUR);
                }
            }
            queue_events(&mut state.event_queue, &blur_ids, &EventTemplate::Blur);
            let ghost before = state.windows@;
            state.windows[i].1.focused_element = Some(element);
            assert(windows_view(state.windows@) =~= windows_view(before).update(
                i as int,
                (m.windows[i as int].0, WindowView { focused_element: Some(element), ..m.windows[i as int].1 }),
            ));
            let focus_ids = collect_focus_callbacks(state, element, EVENT_FOCUS);
            queue_events(&mut state.event_queue, &focus_ids, &EventTemplate::Focus);
            assert(events_for(Seq::<u64>::empty(), EventTemplate::Blur) =~= Seq::<NativeEvent>::empty());
            assert(state@ =~= focused_model(m, element));
        },
    }
}

/// Takes the focus away from `element` if it has it.
pub fn native_blur(state: &mut AppState, element: usize)
    ensures
        handles_below(old(state)@) ==> handles_below(final(state)@),
        final(state)@ == blurred_model(old(state)@, element),
{
    let ghost m = state@;
    match find_owner_index(state, element) {
        None => {},
        Some(i) => {
            if state.windows[i].1.focused_element == Some(element) {
                let ids = collect_focus_callbacks(state, element, EVENT_BLUR);
                queue_events(&mut state.event_queue, &ids, &EventTemplate::Blur);
                let ghost before = state.windows@;
                state.windows[i].1.focused_element = None;
                assert(windows_view(state.windows@) =~= windows_view(before).update(
                    i as int,
                    (m.windows[i as int].0, WindowView { focused_element: None, ..m.windows[i as int].1 }),
                ));
                assert(state@ =~= blurred_model(m, element));
            }
        },
    }
}

/// The focused element of `window`, or 0 when none is focused or there is
/// no such window.
pub open spec fn focused_in(m: AppModel, window: usize) -> usize {
    match crate::runtime::window_of(m, window) {
        Some(w) => match w.focused_element {
            Some(e) => e,
            None => 0,
        },
        None => 0,
    }
}

/// The focused element of `window` (see `focused_in`).
pub fn native_get_focused(state: &AppState, window: usize) -> (r: usize)
    ensures
        r == focused_in(state@, window),
{
    proof {
        crate::runtime::lemma_windows_keys(state.windows@);
    }
    match crate::table::find_key_usize(&state.windows, window) {
        Some(i) => match state.windows[i].1.focused_element {
            Some(e) => e,
            None => 0,
        },
        None => 0,
    }
}

} // verus!
