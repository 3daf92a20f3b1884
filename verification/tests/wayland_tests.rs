use qliphoth_native::clipboard::{
    ClipboardCompletedData, ClipboardTarget, CLIPBOARD_ERR_EMPTY, CLIPBOARD_ERR_INTERNAL,
};
use qliphoth_native::event::NativeEvent;
use qliphoth_native::wayland::{
    commit_text, complete_wayland_formats, complete_wayland_read, WaylandWriteData,
};

#[test]
fn test_wayland_write_data_struct() {
    let data = WaylandWriteData {
        target: ClipboardTarget::Clipboard,
        text: Some("Hello".to_string()),
        html: None,
    };
    assert_eq!(data.target, ClipboardTarget::Clipboard);
    assert_eq!(data.text, Some("Hello".to_string()));
    assert!(data.html.is_none());
}

#[test]
fn test_wayland_write_data_with_html() {
    let data = WaylandWriteData {
        target: ClipboardTarget::PrimarySelection,
        text: Some("Plain text".to_string()),
        html: Some("<b>Bold</b>".to_string()),
    };
    assert_eq!(data.target, ClipboardTarget::PrimarySelection);
    assert!(data.text.is_some());
    assert!(data.html.is_some());
}

#[test]
fn wayland_read_keeps_utf8_bytes() {
    let mut events: Vec<NativeEvent> = Vec::new();
    let mut completed: Vec<(u64, ClipboardCompletedData)> = Vec::new();
    complete_wayland_read(7, Some("héllo".to_string()), 42, &mut events, &mut completed);
    assert_eq!(events, vec![NativeEvent::ClipboardDataReady { callback_id: 7, data_size: 6 }]);
    assert_eq!(completed.len(), 1);
    assert_eq!(completed[0].0, 7);
    assert_eq!(completed[0].1.data, "héllo".as_bytes().to_vec());
    assert_eq!(completed[0].1.formats, None);
    assert_eq!(completed[0].1.completed_at, 42);
}

#[test]
fn wayland_read_replaces_earlier_record() {
    let mut events: Vec<NativeEvent> = Vec::new();
    let mut completed: Vec<(u64, ClipboardCompletedData)> = Vec::new();
    complete_wayland_read(3, Some("first".to_string()), 1, &mut events, &mut completed);
    complete_wayland_read(3, Some("second".to_string()), 2, &mut events, &mut completed);
    assert_eq!(completed.len(), 1);
    assert_eq!(completed[0].1.data, b"second".to_vec());
    assert_eq!(events.len(), 2);
}

#[test]
fn wayland_read_of_empty_text_is_an_empty_error() {
    let mut events: Vec<NativeEvent> = Vec::new();
    let mut completed: Vec<(u64, ClipboardCompletedData)> = Vec::new();
    complete_wayland_read(9, Some(String::new()), 0, &mut events, &mut completed);
    assert_eq!(events, vec![NativeEvent::ClipboardError { callback_id: 9, error_code: CLIPBOARD_ERR_EMPTY }]);
    assert!(completed.is_empty());
}

#[test]
fn wayland_failed_read_is_an_internal_error() {
    let mut events: Vec<NativeEvent> = Vec::new();
    let mut completed: Vec<(u64, ClipboardCompletedData)> = Vec::new();
    complete_wayland_read(11, None, 0, &mut events, &mut completed);
    assert_eq!(events, vec![NativeEvent::ClipboardError { callback_id: 11, error_code: CLIPBOARD_ERR_INTERNAL }]);
    assert!(completed.is_empty());
}

#[test]
fn wayland_formats_probe_reports_plain_text_types() {
    let mut events: Vec<NativeEvent> = Vec::new();
    let mut completed: Vec<(u64, ClipboardCompletedData)> = Vec::new();
    complete_wayland_formats(5, Some("x".to_string()), 8, &mut events, &mut completed);
    assert_eq!(events, vec![NativeEvent::ClipboardFormatsAvailable { callback_id: 5, format_count: 2 }]);
    assert_eq!(
        completed[0].1.formats,
        Some(vec!["text/plain".to_string(), "text/plain;charset=utf-8".to_string()])
    );
    assert!(completed[0].1.data.is_empty());
}

#[test]
fn wayland_formats_probe_of_empty_or_failed_reports_none() {
    let mut events: Vec<NativeEvent> = Vec::new();
    let mut completed: Vec<(u64, ClipboardCompletedData)> = Vec::new();
    complete_wayland_formats(5, Some(String::new()), 0, &mut events, &mut completed);
    complete_wayland_formats(6, None, 0, &mut events, &mut completed);
    assert_eq!(
        events,
        vec![
            NativeEvent::ClipboardFormatsAvailable { callback_id: 5, format_count: 0 },
            NativeEvent::ClipboardFormatsAvailable { callback_id: 6, format_count: 0 },
        ]
    );
    assert_eq!(completed.len(), 2);
    assert_eq!(completed[1].1.formats, Some(Vec::new()));
}

#[test]
fn wayland_commit_prefers_text_then_html() {
    let both = WaylandWriteData {
        target: ClipboardTarget::Clipboard,
        text: Some("plain".to_string()),
        html: Some("<i>rich</i>".to_string()),
    };
    assert_eq!(commit_text(both), Some("plain".to_string()));
    let html_only = WaylandWriteData { target: ClipboardTarget::Clipboard, text: None, html: Some("<i>rich</i>".to_string()) };
    assert_eq!(commit_text(html_only), Some("<i>rich</i>".to_string()));
    let neither = WaylandWriteData { target: ClipboardTarget::PrimarySelection, text: None, html: None };
    assert_eq!(commit_text(neither), None);
}
