//! Input reaching the runtime: simulated input for tests, events of the
//! host window system, and reading back rendered pixels.
use vstd::prelude::*;

use crate::dispatch::{callbacks_along, collect_callbacks_for_event, events_for, queue_events, EventTemplate};
use crate::event::{NativeEvent, EVENT_CLICK, EVENT_KEYDOWN, EVENT_MOUSEMOVE, EVENT_SCROLL, EVENT_TEXTINPUT, MOUSE_LEFT, MOUSE_MIDDLE, MOUSE_RIGHT};
use crate::framebuffer::{any_in_range, in_range, pixel_at, resize, resized, sample, transparent, Pixel};
use crate::runtime::{handles_below, lemma_windows_keys, walk_bound, window_of, windows_view, AppModel, AppState, WindowView};
use crate::table::{find_key_usize, first_with_key};

verus! {

/// The model after an event of type `event_type` on `target` reached its
/// listeners: one event of template `t` per listener, bubbling order.
pub open spec fn dispatched(m: AppModel, target: Option<usize>, event_type: i32, t: EventTemplate) -> AppModel {
    AppModel {
        event_queue: m.event_queue + events_for(callbacks_along(m, target, event_type, walk_bound(m)), t),
        ..m
    }
}

/// Queues one event of template `t` for each listener of `event_type` that
/// an event on `target` reaches.
pub fn dispatch_event(state: &mut AppState, target: Option<usize>, event_type: i32, t: &EventTemplate)
    ensures
        handles_below(old(state)@) ==> handles_below(final(state)@),
        final(state)@ == dispatched(old(state)@, target, event_type, *t),
{
    let ids = collect_callbacks_for_event(state, target, event_type);
    queue_events(&mut state.event_queue, &ids, t);
}

/// A left click at `(x, y)` (`f32` bit patterns) on `target`, the element
/// that the hit test found there, if any.
pub fn native_simulate_click(state: &mut AppState, target: Option<usize>, x: u32, y: u32)
    ensures
        handles_below(old(state)@) ==> handles_below(final(state)@),
        final(state)@ == dispatched(old(state)@, target, EVENT_CLICK, EventTemplate::Click { x, y, button: MOUSE_LEFT }),
{
    dispatch_event(state, target, EVENT_CLICK, &EventTemplate::Click { x, y, button: MOUSE_LEFT });
}

/// A pointer move to `(x, y)` (`f32` bit patterns) over `target`, the element
/// that the hit test found there, if any.
pub fn native_simulate_mouse_move(state: &mut AppState, target: Option<usize>, x: u32, y: u32)
    ensures
        handles_below(old(state)@) ==> handles_below(final(state)@),
        final(state)@ == dispatched(old(state)@, target, EVENT_MOUSEMOVE, EventTemplate::MouseMove { x, y }),
{
    dispatch_event(state, target, EVENT_MOUSEMOVE, &EventTemplate::MouseMove { x, y });
}

/// The element that keyboard input to `window` goes to: the focused element,
/// else the root, else 0.
pub open spec fn key_target(m: AppModel, window: usize) -> usize {
    match window_of(m, window) {
        Some(w) => match w.focused_element {
            Some(e) => e,
            None => match w.root_element {
                Some(r) => r,
                None => 0,
            },
        },
        None => 0,
    }
}

/// The focused element of `window`, else 0.
pub open spec fn text_target(m: AppModel, window: usize) -> usize {
    match window_of(m, window) {
        Some(w) => match w.focused_element {
            Some(e) => e,
            None => 0,
        },
        None => 0,
    }
}

/// The root of `window`, else 0.
pub open spec fn scroll_target(m: AppModel, window: usize) -> usize {
    match window_of(m, window) {
        Some(w) => match w.root_element {
            Some(r) => r,
            None => 0,
        },
        None => 0,
    }
}

/// The window stored under `window`.
fn window_index(state: &AppState, window: usize) -> (r: Option<usize>)
    ensures
        r matches Some(i) ==> i < state@.windows.len() && window_of(state@, window) == Some(state@.windows[i as int].1)
            && i == first_with_key(state@.windows, window) && state@.windows[i as int].0 == window,
        r is None ==> window_of(state@, window) is None,
{
    proof {
        lemma_windows_keys(state.windows@);
    }
    find_key_usize(&state.windows, window)
}

/// A key press in `window`, sent to its focused element or else its root.
pub fn native_simulate_key(state: &mut AppState, window: usize, key: i32, modifiers: i32)
    ensures
        handles_below(old(state)@) ==> handles_below(final(state)@),
        final(state)@ == dispatched(
            old(state)@,
            Some(key_target(old(state)@, window)),
            EVENT_KEYDOWN,
            EventTemplate::KeyDown { key, modifiers },
        ),
{
    let target = match window_index(state, window) {
        Some(i) => match state.windows[i].1.focused_element {
            Some(e) => e,
            None => match state.windows[i].1.root_element {
                Some(r) => r,
                None => 0,
            },
        },
        None => 0,
    };
    dispatch_event(state, Some(target), EVENT_KEYDOWN, &EventTemplate::KeyDown { key, modifiers });
}

/// Text typed into `window`, sent to its focused element.
pub fn native_simulate_text_input(state: &mut AppState, window: usize, text: String)
    ensures
        handles_below(old(state)@) ==> handles_below(final(state)@),
        final(state)@ == dispatched(
            old(state)@,
            Some(text_target(old(state)@, window)),
            EVENT_TEXTINPUT,
            EventTemplate::TextInput { text },
        ),
{
    let target = match window_index(state, window) {
        Some(i) => match state.windows[i].1.focused_element {
            Some(e) => e,
            None => 0,
        },
        None => 0,
    };
    dispatch_event(state, Some(target), EVENT_TEXTINPUT, &EventTemplate::TextInput { text });
}

/// A scroll by `(delta_x, delta_y)` (`f32` bit patterns) in `window`, sent to
/// its root.
pub fn native_simulate_scroll(state: &mut AppState, window: usize, delta_x: u32, delta_y: u32)
    ensures
        handles_below(old(state)@) ==> handles_below(final(state)@),
        final(state)@ == dispatched(
            old(state)@,
            Some(scroll_target(old(state)@, window)),
            EVENT_SCROLL,
            EventTemplate::Scroll { delta_x, delta_y },
        ),
{
    let target = match window_index(state, window) {
        Some(i) => match state.windows[i].1.root_element {
            Some(r) => r,
            None => 0,
        },
        None => 0,
    };
    dispatch_event(state, Some(target), EVENT_SCROLL, &EventTemplate::Scroll { delta_x, delta_y });
}

/// The pixel at `(x, y)` of `window`'s framebuffer; transparent black
/// outside it or when there is no such window.
pub fn native_sample_pixel(state: &AppState, window: usize, x: i32, y: i32) -> (p: Pixel)
    ensures
        p == (match window_of(state@, window) {
            Some(w) => pixel_at(w.framebuffer, w.width, w.height, x, y),
            None => transparent(),
        }),
{
    match window_index(state, window) {
        Some(i) => {
            let w = &state.windows[i].1;
            sample(&w.framebuffer, w.width, w.height, x, y)
        },
        None => Pixel { r: 0, g: 0, b: 0, a: 0 },
    }
}

/// 1 if some pixel of `window`'s framebuffer lies within the channel
/// ranges, else 0 (also when there is no such window).
pub fn native_has_pixels_matching(
    state: &AppState,
    window: usize,
    r_min: u8,
    r_max: u8,
    g_min: u8,
    g_max: u8,
    b_min: u8,
    b_max: u8,
) -> (r: i32)
    ensures
        r == (match window_of(state@, window) {
            Some(w) => if exists|i: int|
                0 <= i < w.framebuffer.len() && in_range(w.framebuffer[i], r_min, r_max, g_min, g_max, b_min, b_max) {
                1i32
            } else {
                0i32
            },
            None => 0i32,
        }),
{
    match window_index(state, window) {
        Some(i) => {
            assert(state@.windows[i as int].1.framebuffer == state.windows@[i as int].1.framebuffer@);
            if any_in_range(&state.windows[i].1.framebuffer, r_min, r_max, g_min, g_max, b_min, b_max) {
                1
            } else {
                0
            }
        },
        None => 0,
    }
}

/// A mouse button of the host window system.
#[derive(Debug, Clone, Copy, PartialEq, Eq, Structural)]
pub enum PointerButton {
    Left,
    Right,
    Middle,
    Other,
}

/// The button code of a host button; buttons other than the three main ones
/// count as the left button.
pub open spec fn button_code_of(b: PointerButton) -> i32 {
    match b {
        PointerButton::Left => MOUSE_LEFT,
        PointerButton::Right => MOUSE_RIGHT,
        PointerButton::Middle => MOUSE_MIDDLE,
        PointerButton::Other => MOUSE_LEFT,
    }
}

/// The button code of a host button.
pub fn button_code(b: PointerButton) -> (c: i32)
    ensures
        c == button_code_of(b),
{
    match b {
        PointerButton::Left => MOUSE_LEFT,
        PointerButton::Right => MOUSE_RIGHT,
        PointerButton::Middle => MOUSE_MIDDLE,
        PointerButton::Other => MOUSE_LEFT,
    }
}

/// An event of the host window system for one of the runtime's windows.
pub enum WindowInput {
    /// The user asked to close the window.
    CloseRequested,
    /// The window's inner size changed.
    Resized { width: u32, height: u32 },
    /// The pointer moved to `(x, y)` (`f32` bit patterns) over `target`, the
    /// element that the hit test found there, if any.
    CursorMoved { x: u32, y: u32, target: Option<usize> },
    /// A mouse button was released.  The pointer position is not tracked,
    /// so the click has no target and reaches no listener.
    ButtonReleased { button: PointerButton },
    /// The window system asks for a new frame.
    RedrawRequested,
    /// Anything else; ignored.
    Other,
}

/// What the host loop does after the runtime took in a window event.
#[derive(Debug, Clone, Copy, PartialEq, Eq, Structural)]
pub enum LoopAction {
    /// Nothing more to do.
    Continue,
    /// Leave the event loop.
    Exit,
    /// Reconfigure the GPU surface to this size (each side at least 1).
    ResizeSurface { width: u32, height: u32 },
    /// Draw the window.
    Render,
}

/// `w` after a resize to `width` by `height`: new size, framebuffer kept up
/// to `width * height` pixels and padded with transparent black.
pub open spec fn resized_window(w: WindowView, width: u32, height: u32) -> WindowView {
    WindowView {
        width,
        height,
        framebuffer: resized(w.framebuffer, (width * height) as nat, transparent()),
        ..w
    }
}

/// The model after window `window` took in `input`.
pub open spec fn after_window_input(m: AppModel, window: usize, input: WindowInput) -> AppModel {
    match input {
        WindowInput::CloseRequested => AppModel { event_queue: m.event_queue.push(NativeEvent::Close), ..m },
        WindowInput::Resized { width, height } => match window_of(m, window) {
            Some(w) => AppModel {
                windows: m.windows.update(first_with_key(m.windows, window), (window, resized_window(w, width, height))),
                ..m
            },
            None => m,
        },
        WindowInput::CursorMoved { x, y, target } => dispatched(m, target, EVENT_MOUSEMOVE, EventTemplate::MouseMove { x, y }),
        WindowInput::ButtonReleased { button } => dispatched(
            m,
            None,
            EVENT_CLICK,
            EventTemplate::Click { x: 0, y: 0, button: button_code_of(button) },
        ),
        _ => m,
    }
}

/// The action that follows `input`.
pub open spec fn action_for(m: AppModel, window: usize, input: WindowInput) -> LoopAction {
    match input {
        WindowInput::CloseRequested => LoopAction::Exit,
        WindowInput::Resized { width, height } => if window_of(m, window) is Some {
            LoopAction::ResizeSurface {
                width: if width < 1 { 1 } else { width },
                height: if height < 1 { 1 } else { height },
            }
        } else {
            LoopAction::Continue
        },
        WindowInput::RedrawRequested => LoopAction::Render,
        _ => LoopAction::Continue,
    }
}

/// Takes in one event of the host window system for window `window`:
/// a close request queues a close event and ends the loop; a resize sets
/// the new size and resizes the framebuffer; pointer moves reach the
/// listeners of the element under the pointer.
pub fn handle_window_event(state: &mut AppState, window: usize, input: WindowInput) -> (a: LoopAction)
    requires
        input matches WindowInput::Resized { width, height } ==> width * height <= u32::MAX,
    ensures
        handles_below(old(state)@) ==> handles_below(final(state)@),
        final(state)@ == after_window_input(old(state)@, window, input),
        a == action_for(old(state)@, window, input),
{
    match input {
        WindowInput::CloseRequested => {
            state.event_queue.push(NativeEvent::Close);
            LoopAction::Exit
        },
        WindowInput::Resized { width, height } => {
            match window_index(state, window) {
                Some(i) => {
                    proof {
                        lemma_windows_keys(state.windows@);
                    }
                    let ghost before = state.windows@;
                    let ghost w0 = state.windows@[i as int].1@;
                    state.windows[i].1.width = width;
                    state.windows[i].1.height = height;
                    let count = (width * height) as usize;
                    resize(&mut state.windows[i].1.framebuffer, count, Pixel { r: 0, g: 0, b: 0, a: 0 });
                    assert(windows_view(state.windows@) =~= windows_view(before).update(
                        i as int,
                        (window, resized_window(w0, width, height)),
                    ));
                    LoopAction::ResizeSurface {
                        width: if width < 1 { 1 } else { width },
                        height: if height < 1 { 1 } else { height },
                    }
                },
                None => LoopAction::Continue,
            }
        },
        WindowInput::CursorMoved { x, y, target } => {
            dispatch_event(state, target, EVENT_MOUSEMOVE, &EventTemplate::MouseMove { x, y });
            LoopAction::Continue
        },
        WindowInput::ButtonReleased { button } => {
            let b = button_code(button);
            dispatch_event(state, None, EVENT_CLICK, &EventTemplate::Click { x: 0, y: 0, button: b });
            LoopAction::Continue
        },
        WindowInput::RedrawRequested => LoopAction::Render,
        WindowInput::Other => LoopAction::Continue,
    }
}

} // verus!
