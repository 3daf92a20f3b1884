use qliphoth_native::timing::{wait_deadline, wait_outcome, WaitOutcome};
use qliphoth_native::clipboard::{
    process_clipboard_timeouts, target_code, ClipboardCompletedData, ClipboardState, ClipboardTarget,
    ClipboardWriteBuilder, CLIPBOARD_ERR_EMPTY, CLIPBOARD_ERR_INTERNAL, CLIPBOARD_ERR_UNAVAILABLE,
};
use qliphoth_native::clipboard_ops::{
    complete_get_formats, complete_read_format, native_clipboard_get_data, native_clipboard_get_data_size,
    native_clipboard_get_formats_data, text_mime, write_begin_at, ClipboardRead,
};
use qliphoth_native::dispatch::{
    collect_callbacks_for_event, find_window_for_element, native_blur, native_focus, native_get_focused,
};
use qliphoth_native::event::{
    CachedEventData, NativeEvent, NativeEventData, EVENT_CLICK, EVENT_CLIPBOARD_DATA_READY,
    EVENT_CLIPBOARD_ERROR, EVENT_CLIPBOARD_FORMATS_AVAILABLE, EVENT_CLOSE, EVENT_FOCUS, EVENT_KEYDOWN,
    EVENT_MOUSEMOVE, EVENT_SCROLL, EVENT_TEXTINPUT, EVENT_TIMEOUT, MOUSE_LEFT, MOUSE_MIDDLE,
};
use qliphoth_native::framebuffer::{fill, fill_rect_opaque, rect_span, resize, sample, Pixel};
use qliphoth_native::input::{
    handle_window_event, native_has_pixels_matching, native_sample_pixel, native_simulate_key,
    native_simulate_scroll, native_simulate_text_input, LoopAction, PointerButton, WindowInput,
};
use qliphoth_native::runtime::{
    is_descendant, native_add_event_listener, native_append_child, native_create_element, native_create_window,
    native_get_text_content, native_remove_attribute, native_set_attribute, native_set_root, AppState,
};
use qliphoth_native::table::{find_key_u64, remove_key_u64};
use qliphoth_native::teardown::{cleanup_window, destroy_element_tree};
use qliphoth_native::timing::{
    native_get_event_data, native_poll_event_at, native_poll_event_timeout_step, native_poll_events_at,
    native_set_timeout_at,
};

fn px(r: u8, g: u8, b: u8) -> Pixel {
    Pixel { r, g, b, a: 255 }
}

#[test]
fn event_records_field_by_field() {
    let d = NativeEvent::Click { x: 1.5f32.to_bits(), y: 2.0f32.to_bits(), button: MOUSE_MIDDLE, callback_id: 9 }
        .to_event_data();
    assert_eq!(d.event_type, EVENT_CLICK);
    assert_eq!(f32::from_bits(d.x), 1.5);
    assert_eq!(d.button, MOUSE_MIDDLE);
    assert_eq!(d.key, 0);
    let t = NativeEvent::TextInput { text: "héllo".to_string(), callback_id: 3 }.to_event_data();
    assert_eq!(t.event_type, EVENT_TEXTINPUT);
    assert_eq!(t.text_len, 6);
    let nul = NativeEvent::TextInput { text: "a\0b".to_string(), callback_id: 3 }.to_event_data();
    assert_eq!(nul.text_len, 0);
    let big = NativeEvent::ClipboardDataReady { callback_id: 1, data_size: 0x1_0000_0005 }.to_event_data();
    assert_eq!(big.width, 5);
    assert_eq!(big.height, 1);
    let f = NativeEvent::ClipboardFormatsAvailable { callback_id: 1, format_count: 2 }.to_event_data();
    assert_eq!(f.key, 2);
    let e = NativeEvent::ClipboardError { callback_id: 1, error_code: 7 }.to_event_data();
    assert_eq!(e.button, 7);
    assert_eq!(NativeEvent::Close.to_event_data().event_type, EVENT_CLOSE);
    assert_eq!(NativeEventData::default().event_type, -1);
}

#[test]
fn cached_record_round_trip() {
    let d = NativeEvent::KeyDown { key: 65, modifiers: 2, callback_id: 4 }.to_event_data();
    assert_eq!(CachedEventData::from(d).to_native_event_data(), d);
}

#[test]
fn tables_find_first_and_remove_all() {
    let mut t: Vec<(u64, i32)> = vec![(1, 10), (2, 20), (1, 30)];
    assert_eq!(find_key_u64(&t, 1), Some(0));
    assert_eq!(find_key_u64(&t, 3), None);
    remove_key_u64(&mut t, 1);
    assert_eq!(t, vec![(2, 20)]);
}

#[test]
fn framebuffer_fill_resize_sample() {
    let mut fb = vec![Pixel::default(); 6];
    fill(&mut fb, px(255, 255, 255));
    assert_eq!(sample(&fb, 3, 2, 2, 1), px(255, 255, 255));
    assert_eq!(sample(&fb, 3, 2, 3, 0), Pixel::default());
    assert_eq!(sample(&fb, 3, 2, -1, 0), Pixel::default());
    resize(&mut fb, 8, Pixel::default());
    assert_eq!(fb.len(), 8);
    assert_eq!(fb[7], Pixel::default());
    resize(&mut fb, 2, Pixel::default());
    assert_eq!(fb, vec![px(255, 255, 255); 2]);
}

#[test]
fn opaque_rectangle_clipped() {
    let mut fb = vec![Pixel::default(); 16];
    fill_rect_opaque(&mut fb, 4, 4, -1, 1, 3, 2, px(1, 2, 3));
    for y in 0..4usize {
        for x in 0..4usize {
            let inside = x < 2 && (1..3).contains(&y);
            let expect = if inside { px(1, 2, 3) } else { Pixel::default() };
            assert_eq!(fb[y * 4 + x], expect, "pixel {} {}", x, y);
        }
    }
    assert_eq!(rect_span(-1, 3, 4), (0, 2));
    assert_eq!(rect_span(2, 10, 4), (2, 4));
}

#[test]
fn window_pixels_and_resize() {
    let mut st = AppState::new();
    let win = native_create_window(&mut st, 4, 3);
    assert_eq!(native_sample_pixel(&st, win, 0, 0), Pixel::default());
    assert_eq!(native_has_pixels_matching(&st, win, 0, 0, 0, 0, 0, 0), 1);
    assert_eq!(native_has_pixels_matching(&st, win, 1, 255, 0, 255, 0, 255), 0);
    assert_eq!(native_has_pixels_matching(&st, 999, 0, 255, 0, 255, 0, 255), 0);
    st.windows[0].1.framebuffer[5] = px(9, 9, 9);
    assert_eq!(native_sample_pixel(&st, win, 1, 1), px(9, 9, 9));
    let a = handle_window_event(&mut st, win, WindowInput::Resized { width: 2, height: 0 });
    assert_eq!(a, LoopAction::ResizeSurface { width: 2, height: 1 });
    assert_eq!(st.windows[0].1.framebuffer.len(), 0);
    assert_eq!(handle_window_event(&mut st, win, WindowInput::RedrawRequested), LoopAction::Render);
    assert_eq!(handle_window_event(&mut st, win, WindowInput::CloseRequested), LoopAction::Exit);
    assert_eq!(st.event_queue, vec![NativeEvent::Close]);
}

#[test]
fn pointer_events_from_window_system() {
    let mut st = AppState::new();
    let win = native_create_window(&mut st, 10, 10);
    let e = native_create_element(&mut st, win, "div".to_string());
    native_add_event_listener(&mut st, e, EVENT_MOUSEMOVE, 5);
    native_add_event_listener(&mut st, e, EVENT_CLICK, 6);
    let moved = WindowInput::CursorMoved { x: 3.0f32.to_bits(), y: 4.0f32.to_bits(), target: Some(e) };
    assert_eq!(handle_window_event(&mut st, win, moved), LoopAction::Continue);
    let released = WindowInput::ButtonReleased { button: PointerButton::Right };
    assert_eq!(handle_window_event(&mut st, win, released), LoopAction::Continue);
    assert_eq!(
        st.event_queue,
        vec![NativeEvent::MouseMove { x: 3.0f32.to_bits(), y: 4.0f32.to_bits(), callback_id: 5 }]
    );
}

#[test]
fn keyboard_text_and_scroll_targets() {
    let mut st = AppState::new();
    let win = native_create_window(&mut st, 10, 10);
    let root = native_create_element(&mut st, win, "div".to_string());
    let input = native_create_element(&mut st, win, "input".to_string());
    native_append_child(&mut st, root, input);
    native_set_root(&mut st, win, root);
    native_add_event_listener(&mut st, root, EVENT_KEYDOWN, 1);
    native_add_event_listener(&mut st, input, EVENT_KEYDOWN, 2);
    native_add_event_listener(&mut st, input, EVENT_TEXTINPUT, 3);
    native_add_event_listener(&mut st, root, EVENT_SCROLL, 4);
    native_simulate_key(&mut st, win, 65, 0);
    assert_eq!(st.event_queue, vec![NativeEvent::KeyDown { key: 65, modifiers: 0, callback_id: 1 }]);
    st.event_queue.clear();
    native_simulate_text_input(&mut st, win, "x".to_string());
    assert!(st.event_queue.is_empty());
    native_focus(&mut st, input);
    assert_eq!(native_get_focused(&st, win), input);
    native_simulate_key(&mut st, win, 66, 1);
    native_simulate_text_input(&mut st, win, "y".to_string());
    native_simulate_scroll(&mut st, win, 0, 7);
    assert_eq!(
        st.event_queue,
        vec![
            NativeEvent::KeyDown { key: 66, modifiers: 1, callback_id: 2 },
            NativeEvent::KeyDown { key: 66, modifiers: 1, callback_id: 1 },
            NativeEvent::TextInput { text: "y".to_string(), callback_id: 3 },
            NativeEvent::Scroll { delta_x: 0, delta_y: 7, callback_id: 4 },
        ]
    );
}

#[test]
fn focus_moves_with_blur_of_previous() {
    let mut st = AppState::new();
    let win = native_create_window(&mut st, 10, 10);
    let root = native_create_element(&mut st, win, "div".to_string());
    let a = native_create_element(&mut st, win, "input".to_string());
    let b = native_create_element(&mut st, win, "input".to_string());
    native_append_child(&mut st, root, a);
    native_append_child(&mut st, root, b);
    native_set_root(&mut st, win, root);
    assert_eq!(find_window_for_element(&st, b), Some(win));
    assert_eq!(find_window_for_element(&st, 999), None);
    native_add_event_listener(&mut st, a, qliphoth_native::event::EVENT_BLUR, 11);
    native_add_event_listener(&mut st, b, EVENT_FOCUS, 12);
    native_focus(&mut st, a);
    native_focus(&mut st, b);
    assert_eq!(st.event_queue, vec![NativeEvent::Blur { callback_id: 11 }, NativeEvent::Focus { callback_id: 12 }]);
    native_blur(&mut st, a);
    assert_eq!(native_get_focused(&st, win), b);
    native_blur(&mut st, b);
    assert_eq!(native_get_focused(&st, win), 0);
    let orphan = native_create_element(&mut st, win, "div".to_string());
    native_focus(&mut st, orphan);
    assert_eq!(native_get_focused(&st, win), 0);
}

#[test]
fn bubbling_order_and_cycle_guard() {
    let mut st = AppState::new();
    let win = native_create_window(&mut st, 10, 10);
    let p = native_create_element(&mut st, win, "div".to_string());
    let c = native_create_element(&mut st, win, "div".to_string());
    native_append_child(&mut st, p, c);
    native_add_event_listener(&mut st, c, EVENT_CLICK, 1);
    native_add_event_listener(&mut st, p, EVENT_CLICK, 2);
    native_add_event_listener(&mut st, c, EVENT_CLICK, 3);
    assert_eq!(collect_callbacks_for_event(&st, Some(c), EVENT_CLICK), vec![1, 3, 2]);
    assert_eq!(collect_callbacks_for_event(&st, None, EVENT_CLICK), Vec::<u64>::new());
    // A parent chain that loops back stops after one step per element.
    native_append_child(&mut st, c, p);
    let ids = collect_callbacks_for_event(&st, Some(c), EVENT_CLICK);
    assert_eq!(ids, vec![1, 3, 2, 1, 3]);
    assert!(is_descendant(&st, c, p));
}

#[test]
fn attributes_replace_and_remove() {
    let mut st = AppState::new();
    let win = native_create_window(&mut st, 1, 1);
    let e = native_create_element(&mut st, win, "div".to_string());
    native_set_attribute(&mut st, e, "id".to_string(), "a".to_string());
    native_set_attribute(&mut st, e, "class".to_string(), "b".to_string());
    native_set_attribute(&mut st, e, "id".to_string(), "c".to_string());
    let el = st.elements.get(&e).unwrap();
    assert_eq!(el.attributes, vec![("class".to_string(), "b".to_string()), ("id".to_string(), "c".to_string())]);
    native_remove_attribute(&mut st, e, "class".to_string());
    assert_eq!(st.elements.get(&e).unwrap().attributes, vec![("id".to_string(), "c".to_string())]);
}

#[test]
fn text_content_buffer_sizes() {
    let mut st = AppState::new();
    let win = native_create_window(&mut st, 1, 1);
    let t = qliphoth_native::runtime::native_create_text(&mut st, win, "Hello".to_string());
    assert_eq!(native_get_text_content(&st, t, 0), (5, vec![]));
    assert_eq!(native_get_text_content(&st, t, 3), (2, b"He".to_vec()));
    assert_eq!(native_get_text_content(&st, t, 6), (5, b"Hello".to_vec()));
    assert_eq!(native_get_text_content(&st, 999, 6), (0, vec![]));
}

#[test]
fn poll_order_timers_and_cache() {
    let mut st = AppState::new();
    st.event_queue.push(NativeEvent::Close);
    native_set_timeout_at(&mut st, 7, 10, 1000);
    native_set_timeout_at(&mut st, 8, 500, 1000);
    let frame = qliphoth_native::timing::native_request_animation_frame(&mut st, 9);
    assert_eq!(frame, 3);
    let (t1, _) = native_poll_event_at(&mut st, 1010, 0);
    assert_eq!(t1, EVENT_CLOSE);
    assert_eq!(
        st.event_queue,
        vec![NativeEvent::AnimationFrame { callback_id: 9 }, NativeEvent::Timeout { callback_id: 7 }]
    );
    assert_eq!(st.timers.len(), 1);
    let t2 = native_poll_events_at(&mut st, 1010);
    assert_eq!(t2, qliphoth_native::event::EVENT_ANIMATION_FRAME);
    assert_eq!(native_get_event_data(&st).unwrap().callback_id, 9);
    let (t3, d3) = native_poll_event_timeout_step(&mut st, 1500, 1500, 0);
    assert_eq!((t3, d3.callback_id), (EVENT_TIMEOUT, 7));
    let (t4, d4) = native_poll_event_at(&mut st, 1500, 0);
    assert_eq!((t4, d4.callback_id), (EVENT_TIMEOUT, 8));
    assert_eq!(native_poll_events_at(&mut st, 1500), -1);
    assert_eq!(native_get_event_data(&st), None);
}

#[test]
fn teardown_of_trees_and_windows() {
    let mut st = AppState::new();
    let win = native_create_window(&mut st, 2, 2);
    let root = native_create_element(&mut st, win, "div".to_string());
    let a = native_create_element(&mut st, win, "div".to_string());
    let b = native_create_element(&mut st, win, "div".to_string());
    let other = native_create_element(&mut st, win, "div".to_string());
    native_append_child(&mut st, root, a);
    native_append_child(&mut st, a, b);
    native_set_root(&mut st, win, root);
    native_add_event_listener(&mut st, b, EVENT_CLICK, 1);
    native_add_event_listener(&mut st, other, EVENT_CLICK, 2);
    let removed = cleanup_window(&mut st, win);
    assert_eq!(removed, vec![b, a, root]);
    assert!(st.windows.is_empty());
    assert_eq!(st.callbacks, vec![(2, (other, EVENT_CLICK))]);
    assert!(st.elements.contains_key(&other));
    assert_eq!(destroy_element_tree(&mut st, 999), Vec::<usize>::new());
    assert_eq!(destroy_element_tree(&mut st, other), vec![other]);
    assert!(st.elements.is_empty());
}

#[test]
fn clipboard_outcomes() {
    let mut st = AppState::new();
    assert_eq!(complete_get_formats(&mut st, 1, ClipboardRead::Text("hi".to_string()), 5), 1);
    assert_eq!(complete_get_formats(&mut st, 2, ClipboardRead::NoContent, 5), 1);
    assert_eq!(complete_get_formats(&mut st, 3, ClipboardRead::Unavailable, 5), 0);
    assert_eq!(
        st.event_queue,
        vec![
            NativeEvent::ClipboardFormatsAvailable { callback_id: 1, format_count: 1 },
            NativeEvent::ClipboardFormatsAvailable { callback_id: 2, format_count: 0 },
            NativeEvent::ClipboardError { callback_id: 3, error_code: CLIPBOARD_ERR_UNAVAILABLE },
        ]
    );
    assert_eq!(native_clipboard_get_formats_data(&mut st, 1, true, 8), 1);
    let entry = &st.clipboard.completed.iter().find(|(id, _)| *id == 1).unwrap().1;
    assert_eq!(entry.format_cstrings, vec![b"text/plain\0".to_vec()]);
    st.event_queue.clear();
    assert_eq!(complete_read_format(&mut st, 4, ClipboardRead::Text("héllo".to_string()), 5), 1);
    assert_eq!(complete_read_format(&mut st, 5, ClipboardRead::NoContent, 5), 0);
    assert_eq!(complete_read_format(&mut st, 6, ClipboardRead::Failed, 5), 0);
    assert_eq!(native_clipboard_get_data_size(&st, 4), 6);
    assert_eq!(native_clipboard_get_data(&st, 4, 3), "hé".as_bytes().to_vec());
    let (t, d) = native_poll_event_at(&mut st, 0, 5);
    assert_eq!((t, d.callback_id, d.width, d.height), (EVENT_CLIPBOARD_DATA_READY, 4, 6, 0));
    let (t, d) = native_poll_event_at(&mut st, 0, 5);
    assert_eq!((t, d.button), (EVENT_CLIPBOARD_ERROR, CLIPBOARD_ERR_EMPTY));
    let (t, d) = native_poll_event_at(&mut st, 0, 5);
    assert_eq!((t, d.button), (EVENT_CLIPBOARD_ERROR, CLIPBOARD_ERR_INTERNAL));
    assert_ne!(EVENT_CLIPBOARD_FORMATS_AVAILABLE, EVENT_CLIPBOARD_DATA_READY);
    assert!(text_mime(&"text/plain;charset=utf-8".to_string()));
    assert!(!text_mime(&"text/html".to_string()));
}

#[test]
fn clipboard_records_expire() {
    let mut clip = ClipboardState::default();
    let rec = |at: u64| ClipboardCompletedData { data: vec![1], formats: None, format_cstrings: vec![], completed_at: at };
    clip.completed.push((1, rec(0)));
    clip.completed.push((2, rec(20_000_000_000)));
    clip.write_handles.push((
        5,
        ClipboardWriteBuilder { target: ClipboardTarget::PrimarySelection, formats: vec![], created_at: 0 },
    ));
    process_clipboard_timeouts(&mut clip, 30_000_000_001);
    let ids: Vec<u64> = clip.completed.iter().map(|(id, _)| *id).collect();
    assert_eq!(ids, vec![2]);
    assert_eq!(clip.write_handles.len(), 1);
    process_clipboard_timeouts(&mut clip, 60_000_000_001);
    assert_eq!(clip.write_handles.len(), 0);
    assert_eq!(clip.completed.len(), 0);
}

#[test]
fn write_handles_count_up_and_stop_at_wrap() {
    let mut st = AppState::new();
    let target = target_code(ClipboardTarget::PrimarySelection);
    assert_eq!(target, 1);
    assert_eq!(ClipboardTarget::from(1), ClipboardTarget::PrimarySelection);
    assert_eq!(ClipboardTarget::from(5), ClipboardTarget::Clipboard);
    st.clipboard.next_write_handle = u64::MAX;
    assert_eq!(write_begin_at(&mut st, target, 0), u64::MAX);
    assert_eq!(st.clipboard.next_write_handle, 0);
    assert_eq!(write_begin_at(&mut st, target, 0), 0);
    assert_eq!(st.clipboard.write_handles.len(), 1);
    assert_eq!(st.clipboard.write_handles[0].1.target, ClipboardTarget::PrimarySelection);
    assert_eq!(MOUSE_LEFT, 0);
}

#[test]
fn rect_wholly_off_buffer_paints_nothing() {
    assert_eq!(rect_span(-20, 10, 2), (0, 0));
    assert_eq!(rect_span(-5, 5, 2), (0, 0));
    let mut fb = vec![Pixel::default(); 2];
    fill_rect_opaque(&mut fb, 2, 1, -20, 0, 10, 1, Pixel { r: 9, g: 9, b: 9, a: 255 });
    assert_eq!(fb, vec![Pixel::default(); 2]);
    fill_rect_opaque(&mut fb, 2, 1, 0, -3, 2, 2, Pixel { r: 9, g: 9, b: 9, a: 255 });
    assert_eq!(fb, vec![Pixel::default(); 2]);
}

#[test]
fn waiting_for_an_event_decides_by_event_then_deadline() {
    assert_eq!(wait_deadline(1000, 50), Some(1050));
    assert_eq!(wait_deadline(u64::MAX, 1), None);
    assert_eq!(wait_outcome(7, 2000, 1050), WaitOutcome::Event(7));
    assert_eq!(wait_outcome(-1, 1050, 1050), WaitOutcome::TimedOut);
    assert_eq!(wait_outcome(-1, 1049, 1050), WaitOutcome::KeepWaiting);
}
