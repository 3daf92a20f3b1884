//! The runtime state behind the native platform interface: windows, the
//! element tree, event listeners, the event queue, timers and focus.
use std::collections::HashMap;
use vstd::prelude::*;

use crate::clipboard::{ClipboardModel, ClipboardState};
use crate::event::{CachedEventData, NativeEvent};
use crate::framebuffer::{Pixel, RenderMode};
use crate::table::{drop_key, find_key_usize, first_with_key, has_key, register, is_first_with_key, lemma_first_exists, lemma_first_unique, lookup};

verus! {

/// Handles below the counter: every element and window handle is smaller
/// than the next handle, which is at least 1.
pub open spec fn handles_below(m: AppModel) -> bool {
    &&& m.next_handle >= 1
    &&& forall|k: usize| m.elements.contains_key(k) ==> k < m.next_handle
    &&& forall|i: int| 0 <= i < m.windows.len() ==> m.windows[i].0 < m.next_handle
}


broadcast use vstd::std_specs::hash::group_hash_axioms;

/// One node of the element tree.
pub struct Element {
    pub handle: usize,
    pub tag: String,
    pub text_content: Option<String>,
    /// Attributes as (name, value) pairs, each name at most once.
    pub attributes: Vec<(String, String)>,
    pub children: Vec<usize>,
    pub parent: Option<usize>,
}

#[verifier::ext_equal]
pub struct ElementView {
    pub handle: usize,
    pub tag: Seq<char>,
    pub text_content: Option<Seq<char>>,
    pub attributes: Seq<(Seq<char>, Seq<char>)>,
    pub children: Seq<usize>,
    pub parent: Option<usize>,
}

impl View for Element {
    type V = ElementView;

    open spec fn view(&self) -> ElementView {
        ElementView {
            handle: self.handle,
            tag: self.tag@,
            text_content: match self.text_content {
                Some(t) => Some(t@),
                None => None,
            },
            attributes: self.attributes@.map_values(|a: (String, String)| (a.0@, a.1@)),
            children: self.children@,
            parent: self.parent,
        }
    }
}

/// State of one window.
pub struct WindowState {
    pub width: u32,
    pub height: u32,
    pub root_element: Option<usize>,
    pub focused_element: Option<usize>,
    /// Software framebuffer, `width * height` pixels row by row.
    pub framebuffer: Vec<Pixel>,
    pub render_mode: RenderMode,
}

#[verifier::ext_equal]
pub struct WindowView {
    pub width: u32,
    pub height: u32,
    pub root_element: Option<usize>,
    pub focused_element: Option<usize>,
    pub framebuffer: Seq<Pixel>,
    pub render_mode: RenderMode,
}

impl View for WindowState {
    type V = WindowView;

    open spec fn view(&self) -> WindowView {
        WindowView {
            width: self.width,
            height: self.height,
            root_element: self.root_element,
            focused_element: self.focused_element,
            framebuffer: self.framebuffer@,
            render_mode: self.render_mode,
        }
    }
}

/// A pending timeout.
#[derive(Debug, Clone, Copy, PartialEq, Eq, Structural)]
pub struct Timer {
    pub callback_id: u64,
    pub fire_at_ms: u64,
}

/// The whole runtime state.
pub struct AppState {
    /// Elements by handle.
    pub elements: HashMap<usize, Element>,
    /// Windows by handle, in creation order.
    pub windows: Vec<(usize, WindowState)>,
    /// The next handle to give out, for windows and elements alike.
    pub next_handle: usize,
    /// Events waiting to be polled, oldest first.
    pub event_queue: Vec<NativeEvent>,
    /// Listeners: callback id to (element, event type).
    pub callbacks: Vec<(u64, (usize, i32))>,
    /// Pending timeouts by timer id.
    pub timers: Vec<(u64, Timer)>,
    /// Requested animation frames: frame id to callback id.
    pub animation_frames: Vec<(u64, u64)>,
    /// The next timer or frame id to give out.
    pub next_timer_id: u64,
    /// The event most recently returned by `native_poll_events`.
    pub last_polled_event: Option<CachedEventData>,
    pub clipboard: ClipboardState,
}

#[verifier::ext_equal]
pub struct AppModel {
    pub elements: Map<usize, ElementView>,
    pub windows: Seq<(usize, WindowView)>,
    pub next_handle: usize,
    pub event_queue: Seq<NativeEvent>,
    pub callbacks: Seq<(u64, (usize, i32))>,
    pub timers: Seq<(u64, Timer)>,
    pub animation_frames: Seq<(u64, u64)>,
    pub next_timer_id: u64,
    pub last_polled_event: Option<CachedEventData>,
    pub clipboard: ClipboardModel,
}

pub open spec fn elements_view(m: Map<usize, Element>) -> Map<usize, ElementView> {
    m.map_values(|e: Element| e@)
}

pub open spec fn windows_view(s: Seq<(usize, WindowState)>) -> Seq<(usize, WindowView)> {
    s.map_values(|p: (usize, WindowState)| (p.0, p.1@))
}

impl View for AppState {
    type V = AppModel;

    open spec fn view(&self) -> AppModel {
        AppModel {
            elements: elements_view(self.elements@),
            windows: windows_view(self.windows@),
            next_handle: self.next_handle,
            event_queue: self.event_queue@,
            callbacks: self.callbacks@,
            timers: self.timers@,
            animation_frames: self.animation_frames@,
            next_timer_id: self.next_timer_id,
            last_polled_event: self.last_polled_event,
            clipboard: self.clipboard@,
        }
    }
}

/// The keys of two tables agree position by position.
pub open spec fn same_keys<K, V, W>(s: Seq<(K, V)>, t: Seq<(K, W)>) -> bool {
    s.len() == t.len() && forall|i: int| 0 <= i < s.len() ==> #[trigger] s[i].0 == t[i].0
}

pub proof fn lemma_same_keys_first<K, V, W>(s: Seq<(K, V)>, t: Seq<(K, W)>, k: K)
    requires
        same_keys(s, t),
    ensures
        has_key(s, k) == has_key(t, k),
        first_with_key(s, k) == first_with_key(t, k),
{
    if has_key(s, k) {
        let i = choose|i: int| 0 <= i < s.len() && s[i].0 == k;
        lemma_first_exists(s, k, i);
        let f = first_with_key(s, k);
        assert(t[f].0 == s[f].0);
        assert forall|j: int| 0 <= j < f implies t[j].0 != k by {
            assert(s[j].0 == t[j].0);
        }
        assert(is_first_with_key(t, k, f));
        lemma_first_unique(t, k, f);
    } else if has_key(t, k) {
        let i = choose|i: int| 0 <= i < t.len() && t[i].0 == k;
        assert(s[i].0 == t[i].0);
    }
}

pub proof fn lemma_windows_keys(s: Seq<(usize, WindowState)>)
    ensures
        same_keys(s, windows_view(s)),
        forall|k: usize| #![trigger has_key(s, k)] has_key(s, k) == has_key(windows_view(s), k),
        forall|k: usize| #![trigger first_with_key(s, k)] first_with_key(s, k) == first_with_key(windows_view(s), k),
{
    assert forall|k: usize| #![trigger has_key(s, k)] #![trigger first_with_key(s, k)]
        has_key(s, k) == has_key(windows_view(s), k) && first_with_key(s, k) == first_with_key(windows_view(s), k) by {
        lemma_same_keys_first(s, windows_view(s), k);
    }
}

/// The window stored under `h`, if any.
pub open spec fn window_of(m: AppModel, h: usize) -> Option<WindowView> {
    lookup(m.windows, h)
}

/// Children of element `h`, empty when there is no such element.
pub open spec fn children_of(m: AppModel, h: usize) -> Seq<usize> {
    if m.elements.contains_key(h) {
        m.elements[h].children
    } else {
        Seq::empty()
    }
}

/// `s` without any occurrence of `x`.
pub open spec fn without(s: Seq<usize>, x: usize) -> Seq<usize>
    decreases s.len(),
{
    if s.len() == 0 {
        s
    } else if s.last() == x {
        without(s.drop_last(), x)
    } else {
        without(s.drop_last(), x).push(s.last())
    }
}

/// Position of the first occurrence of `x` in `s`, if any.
pub open spec fn position_of(s: Seq<usize>, x: usize) -> Option<int> {
    if s.contains(x) {
        Some(choose|i: int| 0 <= i < s.len() && s[i] == x && forall|j: int| 0 <= j < i ==> s[j] != x)
    } else {
        None
    }
}

/// A new element: the given handle and tag, no text, no attributes, no
/// children and no parent.
pub open spec fn fresh_element(handle: usize, tag: Seq<char>, text: Option<Seq<char>>) -> ElementView {
    ElementView {
        handle,
        tag,
        text_content: text,
        attributes: Seq::empty(),
        children: Seq::empty(),
        parent: None,
    }
}

/// A new window of `w` by `h` pixels: no root, no focus, a transparent
/// framebuffer of `w * h` pixels, software rendering.
pub open spec fn fresh_window(w: u32, h: u32) -> WindowView {
    WindowView {
        width: w,
        height: h,
        root_element: None,
        focused_element: None,
        framebuffer: Seq::new((w * h) as nat, |_i: int| crate::framebuffer::transparent()),
        render_mode: RenderMode::Software,
    }
}

/// The model with element `h` replaced by `e`.
pub open spec fn with_element(m: AppModel, h: usize, e: ElementView) -> AppModel {
    AppModel { elements: m.elements.insert(h, e), ..m }
}

/// Replacing an existing element keeps handles below the counter.
pub proof fn lemma_with_element_handles(m: AppModel, h: usize, e: ElementView)
    requires
        handles_below(m),
        m.elements.contains_key(h),
    ensures
        handles_below(with_element(m, h, e)),
{
}

/// Setting a parent link keeps handles below the counter.
pub proof fn lemma_set_parent_handles(m: AppModel, c: usize, parent: Option<usize>)
    requires
        handles_below(m),
    ensures
        handles_below(after_set_parent(m, c, parent)),
{
    if m.elements.contains_key(c) {
        lemma_with_element_handles(m, c, ElementView { parent, ..m.elements[c] });
    }
}

/// Children of `p` after appending `c` (no change if `p` is not an element).
pub open spec fn after_push_child(m: AppModel, p: usize, c: usize) -> AppModel {
    if m.elements.contains_key(p) {
        with_element(m, p, ElementView { children: m.elements[p].children.push(c), ..m.elements[p] })
    } else {
        m
    }
}

/// The parent link of `c` set to `parent` (no change if `c` is not an element).
pub open spec fn after_set_parent(m: AppModel, c: usize, parent: Option<usize>) -> AppModel {
    if m.elements.contains_key(c) {
        with_element(m, c, ElementView { parent, ..m.elements[c] })
    } else {
        m
    }
}

/// Every occurrence of `c` removed from the children of `p`.
pub open spec fn after_remove_child(m: AppModel, p: usize, c: usize) -> AppModel {
    if m.elements.contains_key(p) {
        with_element(m, p, ElementView { children: without(m.elements[p].children, c), ..m.elements[p] })
    } else {
        m
    }
}

impl AppState {
    /// An empty runtime: no windows, no elements, handles and ids from 1.
    pub fn new() -> (s: AppState)
        ensures
            s@.elements == Map::<usize, ElementView>::empty(),
            s@.windows.len() == 0,
            s@.next_handle == 1,
            s@.event_queue.len() == 0,
            s@.callbacks.len() == 0,
            s@.timers.len() == 0,
            s@.animation_frames.len() == 0,
            s@.next_timer_id == 1,
            s@.last_polled_event is None,
            s@.clipboard.completed.len() == 0,
            s@.clipboard.write_handles.len() == 0,
            s@.clipboard.next_write_handle == 1,
            !s@.clipboard.connected,
            handles_below(s@),
    {
        let s = AppState {
            elements: HashMap::new(),
            windows: Vec::new(),
            next_handle: 1,
            event_queue: Vec::new(),
            callbacks: Vec::new(),
            timers: Vec::new(),
            animation_frames: Vec::new(),
            next_timer_id: 1,
            last_polled_event: None,
            clipboard: ClipboardState::default(),
        };
        assert(s@.elements =~= Map::<usize, ElementView>::empty());
        s
    }
}

/// Takes the next handle.
pub fn allocate_handle(state: &mut AppState) -> (h: usize)
    requires
        old(state).next_handle < usize::MAX,
    ensures
        handles_below(old(state)@) ==> handles_below(final(state)@),
        h == old(state)@.next_handle,
        final(state)@ == (AppModel { next_handle: (h + 1) as usize, ..old(state)@ }),
{
    let h = state.next_handle;
    state.next_handle = state.next_handle + 1;
    h
}

/// Creates a window of `width` by `height` pixels (the C integers taken as
/// unsigned 32-bit values) and returns its handle.
pub fn native_create_window(state: &mut AppState, width: i32, height: i32) -> (h: usize)
    requires
        old(state).next_handle < usize::MAX,
        (width as u32) * (height as u32) <= u32::MAX,
    ensures
        handles_below(old(state)@) ==> handles_below(final(state)@),
        h == old(state)@.next_handle,
        final(state)@ == (AppModel {
            next_handle: (h + 1) as usize,
            windows: old(state)@.windows.push((h, fresh_window(width as u32, height as u32))),
            ..old(state)@
        }),
{
    let h = allocate_handle(state);
    let w = width as u32;
    let ht = height as u32;
    let pixel_count = (w * ht) as usize;
    let framebuffer = crate::framebuffer::filled(Pixel { r: 0, g: 0, b: 0, a: 0 }, pixel_count);
    let ws = WindowState {
        width: w,
        height: ht,
        root_element: None,
        focused_element: None,
        framebuffer,
        render_mode: RenderMode::Software,
    };
    let ghost before = state.windows@;
    state.windows.push((h, ws));
    assert(windows_view(state.windows@) =~= windows_view(before).push((h, fresh_window(w, ht))));
    h
}

/// Size of window `h` as C integers, or (0, 0) when there is no such window.
pub fn native_window_size(state: &AppState, handle: usize) -> (r: (i32, i32))
    ensures
        r == (match window_of(state@, handle) {
            Some(w) => (w.width as i32, w.height as i32),
            None => (0i32, 0i32),
        }),
{
    proof {
        lemma_windows_keys(state.windows@);
    }
    match find_key_usize(&state.windows, handle) {
        Some(i) => (state.windows[i].1.width as i32, state.windows[i].1.height as i32),
        None => (0, 0),
    }
}

/// The model with `element` as the root of `window` (no change if there is
/// no such window).
pub open spec fn rooted(m: AppModel, window: usize, element: usize) -> AppModel {
    match window_of(m, window) {
        Some(w) => AppModel {
            windows: m.windows.update(
                first_with_key(m.windows, window),
                (window, WindowView { root_element: Some(element), ..w }),
            ),
            ..m
        },
        None => m,
    }
}

/// The root of `window`, or 0 when it has none or there is no such window.
pub open spec fn root_of(m: AppModel, window: usize) -> usize {
    match window_of(m, window) {
        Some(w) => match w.root_element {
            Some(e) => e,
            None => 0,
        },
        None => 0,
    }
}

/// Makes `element` the root of `window` (no change if there is no such window).
pub fn native_set_root(state: &mut AppState, window: usize, element: usize)
    ensures
        handles_below(old(state)@) ==> handles_below(final(state)@),
        final(state)@ == rooted(old(state)@, window, element),
{
    proof {
        lemma_windows_keys(state.windows@);
    }
    let ghost before = state.windows@;
    match find_key_usize(&state.windows, window) {
        Some(i) => {
            state.windows[i].1.root_element = Some(element);
            assert(windows_view(state.windows@) =~= windows_view(before).update(
                i as int,
                (window, WindowView { root_element: Some(element), ..windows_view(before)[i as int].1 }),
            ));
        },
        None => {},
    }
}

/// The root of `window`, or 0 when it has none or there is no such window.
pub fn native_get_root(state: &AppState, window: usize) -> (r: usize)
    ensures
        r == root_of(state@, window),
{
    proof {
        lemma_windows_keys(state.windows@);
    }
    match find_key_usize(&state.windows, window) {
        Some(i) => match state.windows[i].1.root_element {
            Some(e) => e,
            None => 0,
        },
        None => 0,
    }
}

/// Creates an element with the given tag and returns its handle.  The window
/// argument is not used.
pub fn native_create_element(state: &mut AppState, window: usize, tag: String) -> (h: usize)
    requires
        old(state).next_handle < usize::MAX,
    ensures
        handles_below(old(state)@) ==> handles_below(final(state)@),
        h == old(state)@.next_handle,
        final(state)@ == (AppModel {
            next_handle: (h + 1) as usize,
            elements: old(state)@.elements.insert(h, fresh_element(h, tag@, None)),
            ..old(state)@
        }),
{
    let h = allocate_handle(state);
    let e = Element { handle: h, tag, text_content: None, attributes: Vec::new(), children: Vec::new(), parent: None };
    let ghost before = state.elements@;
    state.elements.insert(h, e);
    assert(e@ =~= fresh_element(h, tag@, None));
    assert(elements_view(state.elements@) =~= elements_view(before).insert(h, fresh_element(h, tag@, None)));
    h
}

/// Another name for `native_create_element`.
pub fn native_create_widget(state: &mut AppState, window: usize, tag: String) -> (h: usize)
    requires
        old(state).next_handle < usize::MAX,
    ensures
        handles_below(old(state)@) ==> handles_below(final(state)@),
        h == old(state)@.next_handle,
        final(state)@ == (AppModel {
            next_handle: (h + 1) as usize,
            elements: old(state)@.elements.insert(h, fresh_element(h, tag@, None)),
            ..old(state)@
        }),
{
    native_create_element(state, window, tag)
}

/// Creates a text node holding `content` (tag `#text`) and returns its handle.
pub fn native_create_text(state: &mut AppState, window: usize, content: String) -> (h: usize)
    requires
        old(state).next_handle < usize::MAX,
    ensures
        handles_below(old(state)@) ==> handles_below(final(state)@),
        h == old(state)@.next_handle,
        final(state)@ == (AppModel {
            next_handle: (h + 1) as usize,
            elements: old(state)@.elements.insert(h, fresh_element(h, seq!['#', 't', 'e', 'x', 't'], Some(content@))),
            ..old(state)@
        }),
{
    let h = allocate_handle(state);
    let tag = crate::text::text_tag();
    let e = Element { handle: h, tag, text_content: Some(content), attributes: Vec::new(), children: Vec::new(), parent: None };
    let ghost before = state.elements@;
    state.elements.insert(h, e);
    assert(e@ =~= fresh_element(h, seq!['#', 't', 'e', 'x', 't'], Some(content@)));
    assert(elements_view(state.elements@) =~= elements_view(before).insert(h, e@));
    h
}

/// Removes element `handle` from the element table.  Its children and
/// listeners are left as they are.
pub fn native_destroy_element(state: &mut AppState, handle: usize)
    ensures
        handles_below(old(state)@) ==> handles_below(final(state)@),
        final(state)@ == (AppModel { elements: old(state)@.elements.remove(handle), ..old(state)@ }),
{
    let ghost before = state.elements@;
    let _ = state.elements.remove(&handle);
    assert(elements_view(state.elements@) =~= elements_view(before).remove(handle));
}

/// Another name for `native_destroy_element`.
pub fn native_destroy_widget(state: &mut AppState, handle: usize)
    ensures
        handles_below(old(state)@) ==> handles_below(final(state)@),
        final(state)@ == (AppModel { elements: old(state)@.elements.remove(handle), ..old(state)@ }),
{
    native_destroy_element(state, handle)
}

/// Sets the parent link of `child` (no change if it is not an element).
fn set_parent_link(state: &mut AppState, child: usize, parent: Option<usize>)
    ensures
        final(state)@ == after_set_parent(old(state)@, child, parent),
{
    let ghost before = state.elements@;
    if let Some(mut ce) = state.elements.remove(&child) {
        let ghost old_c = ce;
        ce.parent = parent;
        state.elements.insert(child, ce);
        assert(elements_view(state.elements@) =~= elements_view(before).insert(
            child,
            ElementView { parent, ..old_c@ },
        ));
    } else {
        assert(elements_view(state.elements@) =~= elements_view(before));
    }
}

/// Inserts `child` at position `i` among the children of `parent`.
fn insert_child_at(state: &mut AppState, parent: usize, i: usize, child: usize)
    requires
        old(state)@.elements.contains_key(parent),
        i <= old(state)@.elements[parent].children.len(),
    ensures
        final(state)@ == with_element(old(state)@, parent, ElementView {
            children: old(state)@.elements[parent].children.insert(i as int, child),
            ..old(state)@.elements[parent]
        }),
{
    let ghost before = state.elements@;
    let mut pe = state.elements.remove(&parent).unwrap();
    let ghost old_e = pe;
    pe.children.insert(i, child);
    state.elements.insert(parent, pe);
    assert(elements_view(state.elements@) =~= elements_view(before).insert(
        parent,
        ElementView { children: old_e@.children.insert(i as int, child), ..old_e@ },
    ));
}

/// Appends `child` to the children of `parent` and makes `parent` the parent
/// of `child`; each step is skipped when its element does not exist.
pub fn native_append_child(state: &mut AppState, parent: usize, child: usize)
    ensures
        handles_below(old(state)@) ==> handles_below(final(state)@),
        final(state)@ == after_set_parent(after_push_child(old(state)@, parent, child), child, Some(parent)),
{
    let ghost m0 = state@;
    let ghost before = state.elements@;
    if let Some(mut pe) = state.elements.remove(&parent) {
        let ghost old_e = pe;
        pe.children.push(child);
        state.elements.insert(parent, pe);
        assert(elements_view(state.elements@) =~= elements_view(before).insert(
            parent,
            ElementView { children: old_e@.children.push(child), ..old_e@ },
        ));
    } else {
        assert(elements_view(state.elements@) =~= elements_view(before));
    }
    let ghost m1 = state@;
    assert(m1 == after_push_child(m0, parent, child));
    set_parent_link(state, child, Some(parent));
}

/// `s` without `x`.
fn remove_all(s: &Vec<usize>, x: usize) -> (r: Vec<usize>)
    ensures
        r@ == without(s@, x),
{
    let mut r: Vec<usize> = Vec::new();
    let mut i: usize = 0;
    while i < s.len()
        invariant
            i <= s.len(),
            r@ == without(s@.take(i as int), x),
        decreases s.len() - i,
    {
        assert(s@.take(i + 1).drop_last() == s@.take(i as int));
        if s[i] != x {
            r.push(s[i]);
        }
        i = i + 1;
    }
    assert(s@.take(s.len() as int) == s@);
    r
}

/// Removes every occurrence of `child` from the children of `parent` and
/// clears the parent link of `child`; each step is skipped when its element
/// does not exist.
pub fn native_remove_child(state: &mut AppState, parent: usize, child: usize)
    ensures
        handles_below(old(state)@) ==> handles_below(final(state)@),
        final(state)@ == after_set_parent(after_remove_child(old(state)@, parent, child), child, None),
{
    let ghost m0 = state@;
    let ghost before = state.elements@;
    if let Some(mut pe) = state.elements.remove(&parent) {
        let ghost old_e = pe;
        pe.children = remove_all(&pe.children, child);
        state.elements.insert(parent, pe);
        assert(elements_view(state.elements@) =~= elements_view(before).insert(
            parent,
            ElementView { children: without(old_e@.children, child), ..old_e@ },
        ));
    } else {
        assert(elements_view(state.elements@) =~= elements_view(before));
    }
    let ghost m1 = state@;
    assert(m1 == after_remove_child(m0, parent, child));
    set_parent_link(state, child, None);
}

/// Position of the first `x` in `s`.
fn position(s: &Vec<usize>, x: usize) -> (r: Option<usize>)
    ensures
        r matches Some(i) ==> position_of(s@, x) == Some(i as int) && i < s@.len() && s@[i as int] == x,
        r is None ==> position_of(s@, x) is None,
{
    let mut i: usize = 0;
    while i < s.len()
        invariant
            i <= s.len(),
            forall|j: int| 0 <= j < i ==> s@[j] != x,
        decreases s.len() - i,
    {
        if s[i] == x {
            assert(s@.contains(x));
            let ghost f = choose|f: int| 0 <= f < s@.len() && s@[f] == x && forall|j: int| 0 <= j < f ==> s@[j] != x;
            assert(f == i) by {
                if f < i {
                    assert(s@[f] != x);
                } else if i < f {
                    assert(s@[i as int] != x);
                }
            }
            return Some(i);
        }
        i = i + 1;
    }
    None
}

/// Inserts `child` among the children of `parent` just before the first
/// occurrence of `before`, and makes `parent` the parent of `child`.  Nothing
/// changes when `parent` does not exist or `before` is not among its
/// children.  Returns the position where `child` went.
pub fn native_insert_before(state: &mut AppState, parent: usize, child: usize, before: usize) -> (pos: Option<usize>)
    ensures
        handles_below(old(state)@) ==> handles_below(final(state)@),
        pos == (match position_of(children_of(old(state)@, parent), before) {
            Some(i) => Some(i as usize),
            None => None::<usize>,
        }),
        final(state)@ == (match pos {
            Some(i) => after_set_parent(
                with_element(old(state)@, parent, ElementView {
                    children: old(state)@.elements[parent].children.insert(i as int, child),
                    ..old(state)@.elements[parent]
                }),
                child,
                Some(parent),
            ),
            None => old(state)@,
        }),
{
    let pos = match state.elements.get(&parent) {
        Some(pe) => position(&pe.children, before),
        None => None,
    };
    let ghost m0 = state@;
    match pos {
        Some(i) => {
            insert_child_at(state, parent, i, child);
            let ghost m1 = state@;
            set_parent_link(state, child, Some(parent));
            proof {
                if handles_below(m0) {
                    lemma_with_element_handles(m0, parent, m1.elements[parent]);
                    assert(m1 == with_element(m0, parent, m1.elements[parent]));
                    lemma_set_parent_handles(m1, child, Some(parent));
                }
            }
        },
        None => {},
    }
    pos
}

/// Number of children of `element`, 0 when there is no such element.
pub fn native_get_child_count(state: &AppState, element: usize) -> (n: usize)
    ensures
        n == children_of(state@, element).len(),
{
    match state.elements.get(&element) {
        Some(e) => e.children.len(),
        None => 0,
    }
}

/// Child `index` of `element`, or 0 when there is no such child.
pub fn native_get_child_at(state: &AppState, element: usize, index: usize) -> (c: usize)
    ensures
        c == (if index < children_of(state@, element).len() { children_of(state@, element)[index as int] } else { 0 }),
{
    match state.elements.get(&element) {
        Some(e) => if index < e.children.len() {
            e.children[index]
        } else {
            0
        },
        None => 0,
    }
}

/// Attribute pairs of an element as seen through their views.
pub open spec fn attrs_view(s: Seq<(String, String)>) -> Seq<(Seq<char>, Seq<char>)> {
    s.map_values(|a: (String, String)| (a.0@, a.1@))
}

/// `attrs` without the pairs named `name`.
fn drop_attribute(attrs: Vec<(String, String)>, name: &String) -> (r: Vec<(String, String)>)
    ensures
        attrs_view(r@) == drop_key(attrs_view(attrs@), name@),
{
    let ghost orig = attrs@;
    let mut kept: Vec<(String, String)> = Vec::new();
    for a in it: attrs.into_iter()
        invariant
            it.seq() == orig,
            attrs_view(kept@) == drop_key(attrs_view(orig.take(it.index() as int)), name@),
    {
        proof {
            let n = it.index() as int;
            assert(orig.take(n + 1).drop_last() == orig.take(n));
            assert(attrs_view(orig.take(n + 1)).drop_last() =~= attrs_view(orig.take(n)));
            assert(attrs_view(orig.take(n + 1)).last() == (a.0@, a.1@));
        }
        let same = a.0 == *name;
        if !same {
            let ghost k0 = kept@;
            kept.push(a);
            assert(attrs_view(kept@) =~= attrs_view(k0).push((a.0@, a.1@)));
        }
    }
    assert(orig.take(orig.len() as int) == orig);
    kept
}

/// The model with the attributes of element `h` replaced by `attrs`.
pub open spec fn with_attributes(m: AppModel, h: usize, attrs: Seq<(Seq<char>, Seq<char>)>) -> AppModel {
    with_element(m, h, ElementView { attributes: attrs, ..m.elements[h] })
}

/// Sets attribute `name` of `widget` to `value` (no change if there is no
/// such element).
pub fn native_set_attribute(state: &mut AppState, widget: usize, name: String, value: String)
    ensures
        handles_below(old(state)@) ==> handles_below(final(state)@),
        final(state)@ == (if old(state)@.elements.contains_key(widget) {
            with_attributes(old(state)@, widget, register(old(state)@.elements[widget].attributes, name@, value@))
        } else {
            old(state)@
        }),
{
    let ghost before = state.elements@;
    if let Some(mut e) = state.elements.remove(&widget) {
        let ghost old_e = e;
        let mut attrs: Vec<(String, String)> = Vec::new();
        std::mem::swap(&mut attrs, &mut e.attributes);
        let mut kept = drop_attribute(attrs, &name);
        let ghost k0 = kept@;
        kept.push((name, value));
        assert(attrs_view(kept@) =~= attrs_view(k0).push((name@, value@)));
        e.attributes = kept;
        state.elements.insert(widget, e);
        assert(e@ =~= ElementView { attributes: register(old_e@.attributes, name@, value@), ..old_e@ });
        assert(elements_view(state.elements@) =~= elements_view(before).insert(widget, e@));
    } else {
        assert(elements_view(state.elements@) =~= elements_view(before));
    }
}

/// Removes attribute `name` of `widget` (no change if there is no such element).
pub fn native_remove_attribute(state: &mut AppState, widget: usize, name: String)
    ensures
        handles_below(old(state)@) ==> handles_below(final(state)@),
        final(state)@ == (if old(state)@.elements.contains_key(widget) {
            with_attributes(old(state)@, widget, drop_key(old(state)@.elements[widget].attributes, name@))
        } else {
            old(state)@
        }),
{
    let ghost before = state.elements@;
    if let Some(mut e) = state.elements.remove(&widget) {
        let ghost old_e = e;
        let mut attrs: Vec<(String, String)> = Vec::new();
        std::mem::swap(&mut attrs, &mut e.attributes);
        e.attributes = drop_attribute(attrs, &name);
        state.elements.insert(widget, e);
        assert(e@ =~= ElementView { attributes: drop_key(old_e@.attributes, name@), ..old_e@ });
        assert(elements_view(state.elements@) =~= elements_view(before).insert(widget, e@));
    } else {
        assert(elements_view(state.elements@) =~= elements_view(before));
    }
}

/// Sets the text content of `widget` (no change if there is no such element).
pub fn native_set_text_content(state: &mut AppState, widget: usize, content: String)
    ensures
        handles_below(old(state)@) ==> handles_below(final(state)@),
        final(state)@ == (if old(state)@.elements.contains_key(widget) {
            with_element(old(state)@, widget, ElementView { text_content: Some(content@), ..old(state)@.elements[widget] })
        } else {
            old(state)@
        }),
{
    let ghost before = state.elements@;
    if let Some(mut e) = state.elements.remove(&widget) {
        let ghost old_e = e;
        e.text_content = Some(content);
        state.elements.insert(widget, e);
        assert(e@ =~= ElementView { text_content: Some(content@), ..old_e@ });
        assert(elements_view(state.elements@) =~= elements_view(before).insert(widget, e@));
    } else {
        assert(elements_view(state.elements@) =~= elements_view(before));
    }
}

/// UTF-8 bytes of the text content of `element`; empty when it has none or
/// there is no such element.
pub open spec fn text_bytes(m: AppModel, element: usize) -> Seq<u8> {
    if m.elements.contains_key(element) {
        match m.elements[element].text_content {
            Some(t) => vstd::utf8::encode_utf8(t),
            None => Seq::empty(),
        }
    } else {
        Seq::empty()
    }
}

/// Text content of `element` for a buffer of `buf_len` bytes.
///
/// With `buf_len` 0 (no buffer) the result is the full length in bytes and
/// nothing to copy.  Otherwise the bytes to copy are the longest prefix that
/// leaves room for a terminating NUL, and the count is their number.
pub fn native_get_text_content(state: &AppState, element: usize, buf_len: usize) -> (r: (usize, Vec<u8>))
    ensures
        buf_len == 0 ==> r.0 == text_bytes(state@, element).len() as usize && r.1@.len() == 0,
        buf_len > 0 ==> {
            let n = if text_bytes(state@, element).len() < buf_len - 1 {
                text_bytes(state@, element).len()
            } else {
                (buf_len - 1) as nat
            };
            &&& r.0 == n
            &&& r.1@ == text_bytes(state@, element).take(n as int)
        },
{
    let bytes: &[u8] = match state.elements.get(&element) {
        Some(e) => match &e.text_content {
            Some(t) => t.as_str().as_bytes(),
            None => &[],
        },
        None => &[],
    };
    assert(bytes@ == text_bytes(state@, element));
    if buf_len == 0 {
        return (bytes.len(), Vec::new());
    }
    let copy_len = if bytes.len() < buf_len - 1 { bytes.len() } else { buf_len - 1 };
    let mut out: Vec<u8> = Vec::new();
    let mut i: usize = 0;
    while i < copy_len
        invariant
            copy_len <= bytes@.len(),
            i <= copy_len,
            out@ == bytes@.take(i as int),
        decreases copy_len - i,
    {
        out.push(bytes[i]);
        i = i + 1;
        assert(out@ =~= bytes@.take(i as int));
    }
    (copy_len, out)
}

/// Registers listener `callback_id` for events of type `event_type` on
/// `widget`, replacing an earlier registration of the same id.
pub fn native_add_event_listener(state: &mut AppState, widget: usize, event_type: i32, callback_id: u64)
    ensures
        handles_below(old(state)@) ==> handles_below(final(state)@),
        final(state)@ == (AppModel {
            callbacks: register(old(state)@.callbacks, callback_id, (widget, event_type)),
            ..old(state)@
        }),
{
    crate::table::remove_key_u64(&mut state.callbacks, callback_id);
    state.callbacks.push((callback_id, (widget, event_type)));
}

/// Removes listener `callback_id`; the element and event type are not used.
pub fn native_remove_event_listener(state: &mut AppState, widget: usize, event_type: i32, callback_id: u64)
    ensures
        handles_below(old(state)@) ==> handles_below(final(state)@),
        final(state)@ == (AppModel { callbacks: drop_key(old(state)@.callbacks, callback_id), ..old(state)@ }),
{
    crate::table::remove_key_u64(&mut state.callbacks, callback_id);
}

/// Ids of the listeners registered on `h` for `event_type`, in table order.
pub open spec fn ids_matching(s: Seq<(u64, (usize, i32))>, h: usize, event_type: i32) -> Seq<u64>
    decreases s.len(),
{
    if s.len() == 0 {
        Seq::empty()
    } else {
        let r = ids_matching(s.drop_last(), h, event_type);
        if s.last().1 == (h, event_type) {
            r.push(s.last().0)
        } else {
            r
        }
    }
}

/// Listeners of `element` for `event_type` (focus and blur do not bubble).
pub fn collect_focus_callbacks(state: &AppState, element: usize, event_type: i32) -> (r: Vec<u64>)
    ensures
        r@ == ids_matching(state@.callbacks, element, event_type),
{
    let mut r: Vec<u64> = Vec::new();
    let mut i: usize = 0;
    while i < state.callbacks.len()
        invariant
            i <= state.callbacks.len(),
            r@ == ids_matching(state.callbacks@.take(i as int), element, event_type),
        decreases state.callbacks.len() - i,
    {
        assert(state.callbacks@.take(i + 1).drop_last() == state.callbacks@.take(i as int));
        let (id, (elem, evt)) = state.callbacks[i];
        if elem == element && evt == event_type {
            r.push(id);
        }
        i = i + 1;
    }
    assert(state.callbacks@.take(state.callbacks.len() as int) == state.callbacks@);
    r
}

/// The number of steps a walk through the tree may take: the number of
/// elements, since each step leaves an element and no acyclic walk leaves
/// an element twice.
pub open spec fn walk_bound(m: AppModel) -> nat {
    m.elements.dom().len()
}

/// `target` is `r` or lies below `r`, reached in at most `fuel` steps down.
pub open spec fn reaches(els: Map<usize, ElementView>, r: usize, target: usize, fuel: nat) -> bool
    decreases fuel, 1int, 0int,
{
    r == target || (fuel > 0 && els.contains_key(r) && any_reaches(els, els[r].children, target, (fuel - 1) as nat))
}

/// Some element of `cs` reaches `target` within `fuel` steps.
pub open spec fn any_reaches(els: Map<usize, ElementView>, cs: Seq<usize>, target: usize, fuel: nat) -> bool
    decreases fuel, 2int, cs.len(),
{
    if cs.len() == 0 {
        false
    } else {
        any_reaches(els, cs.drop_last(), target, fuel) || reaches(els, cs.last(), target, fuel)
    }
}

fn descendant_within(els: &HashMap<usize, Element>, element: usize, root: usize, fuel: usize) -> (r: bool)
    ensures
        r == reaches(elements_view(els@), root, element, fuel as nat),
    decreases fuel,
{
    if element == root {
        return true;
    }
    if fuel == 0 {
        return false;
    }
    match els.get(&root) {
        Some(e) => {
            let ghost cs = e.children@;
            assert(elements_view(els@)[root].children == cs);
            let mut i: usize = 0;
            while i < e.children.len()
                invariant
                    0 < fuel,
                    cs == e.children@,
                    elements_view(els@).contains_key(root),
                    elements_view(els@)[root].children == cs,
                    i <= cs.len(),
                    !any_reaches(elements_view(els@), cs.take(i as int), element, (fuel - 1) as nat),
                decreases cs.len() - i,
            {
                assert(cs.take(i + 1).drop_last() == cs.take(i as int));
                if descendant_within(els, element, e.children[i], fuel - 1) {
                    assert(any_reaches(elements_view(els@), cs.take(i + 1), element, (fuel - 1) as nat));
                    assert(cs.take(i + 1).last() == cs[i as int]);
                    proof {
                        lemma_any_reaches_prefix(elements_view(els@), cs, (i + 1) as int, element, (fuel - 1) as nat);
                        assert(elements_view(els@).contains_key(root));
                        assert(reaches(elements_view(els@), root, element, fuel as nat));
                    }
                    return true;
                }
                i = i + 1;
            }
            assert(cs.take(cs.len() as int) == cs);
            false
        },
        None => false,
    }
}

/// A child list that reaches the target through a prefix reaches it.
pub proof fn lemma_any_reaches_prefix(els: Map<usize, ElementView>, cs: Seq<usize>, k: int, target: usize, fuel: nat)
    requires
        0 <= k <= cs.len(),
        any_reaches(els, cs.take(k), target, fuel),
    ensures
        any_reaches(els, cs, target, fuel),
    decreases cs.len() - k,
{
    if k < cs.len() {
        assert(cs.take(k + 1).drop_last() == cs.take(k));
        lemma_any_reaches_prefix(els, cs, k + 1, target, fuel);
    } else {
        assert(cs.take(k) == cs);
    }
}

pub proof fn lemma_elements_dom(m: Map<usize, Element>)
    ensures
        elements_view(m).dom() == m.dom(),
{
    assert(elements_view(m).dom() =~= m.dom());
}

/// Whether `element` is `root` or lies below it.
pub fn is_descendant(state: &AppState, element: usize, root: usize) -> (r: bool)
    ensures
        r == reaches(state@.elements, root, element, walk_bound(state@)),
{
    proof {
        lemma_elements_dom(state.elements@);
    }
    descendant_within(&state.elements, element, root, state.elements.len())
}

} // verus!
