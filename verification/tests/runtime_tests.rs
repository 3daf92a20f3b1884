use qliphoth_native::dispatch::{native_blur, native_focus, native_get_focused};
use qliphoth_native::event::{
    NativeEventData, EVENT_ANIMATION_FRAME, EVENT_BLUR, EVENT_CLICK, EVENT_FOCUS, EVENT_TIMEOUT,
};
use qliphoth_native::input::native_simulate_click;
use qliphoth_native::runtime::{
    native_add_event_listener, native_append_child, native_create_element, native_create_text,
    native_create_window, native_destroy_element, native_get_child_at, native_get_child_count, native_get_root,
    native_get_text_content, native_insert_before, native_remove_child, native_remove_event_listener,
    native_set_root, native_window_size, AppState,
};
use qliphoth_native::teardown::native_destroy_window;
use qliphoth_native::timing::{
    native_cancel_animation_frame, native_clear_timeout, native_now_ms, native_poll_event,
    native_request_animation_frame, native_set_timeout,
};

fn poll(state: &mut AppState) -> (i32, NativeEventData) {
    native_poll_event(state)
}

fn wait_ms(ms: u64) {
    let start = native_now_ms();
    while native_now_ms() < start + ms {}
}

fn bits(v: f32) -> u32 {
    v.to_bits()
}

#[test]
fn test_create_window_returns_nonzero_handle() {
    let mut st = AppState::new();
    let handle = native_create_window(&mut st, 800, 600);
    assert!(handle > 0, "Window handle should be non-zero");
}

#[test]
fn test_window_size_matches_requested() {
    let mut st = AppState::new();
    let handle = native_create_window(&mut st, 1024, 768);
    let (w, h) = native_window_size(&st, handle);
    assert_eq!(w, 1024);
    assert_eq!(h, 768);
}

#[test]
fn test_destroy_window_invalidates_handle() {
    let mut st = AppState::new();
    let handle = native_create_window(&mut st, 800, 600);
    native_destroy_window(&mut st, handle);
    let (w, h) = native_window_size(&st, handle);
    assert_eq!(w, 0);
    assert_eq!(h, 0);
}

#[test]
fn test_create_element_returns_nonzero_handle() {
    let mut st = AppState::new();
    let win = native_create_window(&mut st, 800, 600);
    let elem = native_create_element(&mut st, win, "div".to_string());
    assert!(elem > 0, "Element handle should be non-zero");
}

#[test]
fn test_create_text_stores_content() {
    let mut st = AppState::new();
    let win = native_create_window(&mut st, 800, 600);
    let elem = native_create_text(&mut st, win, "Hello, World!".to_string());
    let (len, bytes) = native_get_text_content(&st, elem, 64);
    assert_eq!(len, 13);
    assert_eq!(bytes, b"Hello, World!".to_vec());
}

#[test]
fn test_destroy_element_removes_from_state() {
    let mut st = AppState::new();
    let win = native_create_window(&mut st, 800, 600);
    let elem = native_create_element(&mut st, win, "div".to_string());
    native_destroy_element(&mut st, elem);
    assert_eq!(native_get_child_count(&st, elem), 0);
    assert!(!st.elements.contains_key(&elem));
}

#[test]
fn test_append_child_increases_count() {
    let mut st = AppState::new();
    let win = native_create_window(&mut st, 800, 600);
    let parent = native_create_element(&mut st, win, "div".to_string());
    let child = native_create_element(&mut st, win, "div".to_string());
    assert_eq!(native_get_child_count(&st, parent), 0);
    native_append_child(&mut st, parent, child);
    assert_eq!(native_get_child_count(&st, parent), 1);
    assert_eq!(native_get_child_at(&st, parent, 0), child);
}

#[test]
fn test_remove_child_decreases_count() {
    let mut st = AppState::new();
    let win = native_create_window(&mut st, 800, 600);
    let parent = native_create_element(&mut st, win, "div".to_string());
    let child = native_create_element(&mut st, win, "div".to_string());
    native_append_child(&mut st, parent, child);
    assert_eq!(native_get_child_count(&st, parent), 1);
    native_remove_child(&mut st, parent, child);
    assert_eq!(native_get_child_count(&st, parent), 0);
}

#[test]
fn test_children_maintain_order() {
    let mut st = AppState::new();
    let win = native_create_window(&mut st, 800, 600);
    let parent = native_create_element(&mut st, win, "span".to_string());
    let child1 = native_create_element(&mut st, win, "span".to_string());
    let child2 = native_create_element(&mut st, win, "span".to_string());
    let child3 = native_create_element(&mut st, win, "span".to_string());
    native_append_child(&mut st, parent, child1);
    native_append_child(&mut st, parent, child2);
    native_append_child(&mut st, parent, child3);
    assert_eq!(native_get_child_count(&st, parent), 3);
    assert_eq!(native_get_child_at(&st, parent, 0), child1);
    assert_eq!(native_get_child_at(&st, parent, 1), child2);
    assert_eq!(native_get_child_at(&st, parent, 2), child3);
}

#[test]
fn test_insert_before_correct_position() {
    let mut st = AppState::new();
    let win = native_create_window(&mut st, 800, 600);
    let parent = native_create_element(&mut st, win, "span".to_string());
    let child1 = native_create_element(&mut st, win, "span".to_string());
    let child2 = native_create_element(&mut st, win, "span".to_string());
    let child3 = native_create_element(&mut st, win, "span".to_string());
    native_append_child(&mut st, parent, child1);
    native_append_child(&mut st, parent, child3);
    native_insert_before(&mut st, parent, child2, child3);
    assert_eq!(native_get_child_count(&st, parent), 3);
    assert_eq!(native_get_child_at(&st, parent, 0), child1);
    assert_eq!(native_get_child_at(&st, parent, 1), child2);
    assert_eq!(native_get_child_at(&st, parent, 2), child3);
}

// The hit test at (50, 50) on a 100x100 root finds the root; the hit test
// itself belongs to the layout engine, so the tests hand its answer in.
#[test]
fn test_click_event_dispatched() {
    let mut st = AppState::new();
    let win = native_create_window(&mut st, 400, 300);
    let elem = native_create_element(&mut st, win, "div".to_string());
    native_set_root(&mut st, win, elem);
    let callback_id = 42u64;
    native_add_event_listener(&mut st, elem, EVENT_CLICK, callback_id);
    native_simulate_click(&mut st, Some(elem), bits(50.0), bits(50.0));
    let (result, event) = poll(&mut st);
    assert_eq!(result, EVENT_CLICK);
    assert_eq!(event.event_type, EVENT_CLICK);
    assert_eq!(event.callback_id, callback_id);
}

#[test]
fn test_focus_event_dispatched() {
    let mut st = AppState::new();
    let win = native_create_window(&mut st, 400, 300);
    let elem = native_create_element(&mut st, win, "input".to_string());
    native_set_root(&mut st, win, elem);
    let callback_id = 50u64;
    native_add_event_listener(&mut st, elem, EVENT_FOCUS, callback_id);
    native_focus(&mut st, elem);
    let (result, event) = poll(&mut st);
    assert_eq!(result, EVENT_FOCUS);
    assert_eq!(event.callback_id, callback_id);
    assert_eq!(native_get_focused(&st, win), elem);
}

#[test]
fn test_blur_event_dispatched() {
    let mut st = AppState::new();
    let win = native_create_window(&mut st, 400, 300);
    let elem = native_create_element(&mut st, win, "input".to_string());
    native_set_root(&mut st, win, elem);
    let blur_callback = 51u64;
    native_add_event_listener(&mut st, elem, EVENT_BLUR, blur_callback);
    native_focus(&mut st, elem);
    let _ = poll(&mut st);
    native_blur(&mut st, elem);
    let (result, event) = poll(&mut st);
    assert_eq!(result, EVENT_BLUR);
    assert_eq!(event.callback_id, blur_callback);
}

// The hit test at (50, 50) finds the 100x100 child inside its 200x200 parent.
#[test]
fn test_event_bubbling() {
    let mut st = AppState::new();
    let win = native_create_window(&mut st, 400, 300);
    let parent = native_create_element(&mut st, win, "div".to_string());
    let child = native_create_element(&mut st, win, "div".to_string());
    native_append_child(&mut st, parent, child);
    native_set_root(&mut st, win, parent);
    let parent_callback = 54u64;
    let child_callback = 55u64;
    native_add_event_listener(&mut st, parent, EVENT_CLICK, parent_callback);
    native_add_event_listener(&mut st, child, EVENT_CLICK, child_callback);
    native_simulate_click(&mut st, Some(child), bits(50.0), bits(50.0));
    let (_, event1) = poll(&mut st);
    assert_eq!(event1.callback_id, child_callback);
    let (_, event2) = poll(&mut st);
    assert_eq!(event2.callback_id, parent_callback);
}

#[test]
fn test_remove_event_listener() {
    let mut st = AppState::new();
    let win = native_create_window(&mut st, 400, 300);
    let elem = native_create_element(&mut st, win, "div".to_string());
    native_set_root(&mut st, win, elem);
    let callback_id = 44u64;
    native_add_event_listener(&mut st, elem, EVENT_CLICK, callback_id);
    native_remove_event_listener(&mut st, elem, EVENT_CLICK, callback_id);
    native_simulate_click(&mut st, Some(elem), bits(50.0), bits(50.0));
    let (result, _) = poll(&mut st);
    assert_eq!(result, -1);
}

#[test]
fn test_now_ms_increases() {
    let t1 = native_now_ms();
    wait_ms(10);
    let t2 = native_now_ms();
    assert!(t2 > t1, "Time should increase");
}

#[test]
fn test_set_timeout_fires() {
    let mut st = AppState::new();
    let callback_id = 100u64;
    let timer_id = native_set_timeout(&mut st, callback_id, 50).unwrap();
    assert!(timer_id > 0, "Timer ID should be non-zero");
    wait_ms(60);
    let (result, event) = poll(&mut st);
    assert_eq!(result, EVENT_TIMEOUT);
    assert_eq!(event.callback_id, callback_id);
}

#[test]
fn test_clear_timeout_prevents_fire() {
    let mut st = AppState::new();
    let callback_id = 101u64;
    let timer_id = native_set_timeout(&mut st, callback_id, 50).unwrap();
    native_clear_timeout(&mut st, timer_id);
    wait_ms(60);
    let (result, _) = poll(&mut st);
    assert_eq!(result, -1, "Cleared timeout should not fire");
}

#[test]
fn test_request_animation_frame_fires() {
    let mut st = AppState::new();
    let callback_id = 102u64;
    let frame_id = native_request_animation_frame(&mut st, callback_id);
    assert!(frame_id > 0, "Frame ID should be non-zero");
    let (result, event) = poll(&mut st);
    assert_eq!(result, EVENT_ANIMATION_FRAME);
    assert_eq!(event.callback_id, callback_id);
}

#[test]
fn test_cancel_animation_frame_prevents_fire() {
    let mut st = AppState::new();
    let callback_id = 103u64;
    let frame_id = native_request_animation_frame(&mut st, callback_id);
    native_cancel_animation_frame(&mut st, frame_id);
    let (result, _) = poll(&mut st);
    assert_eq!(result, -1, "Cancelled animation frame should not fire");
}

#[test]
fn test_set_and_get_root() {
    let mut st = AppState::new();
    let win = native_create_window(&mut st, 800, 600);
    let elem = native_create_element(&mut st, win, "div".to_string());
    assert_eq!(native_get_root(&st, win), 0);
    native_set_root(&mut st, win, elem);
    assert_eq!(native_get_root(&st, win), elem);
}
