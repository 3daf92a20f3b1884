use qliphoth_native::clipboard::{
    target_code, ClipboardCompletedData, ClipboardTarget, CLIPBOARD_CAP_READ, CLIPBOARD_CAP_WRITE,
    CLIPBOARD_ERR_INVALID_HANDLE,
};
use qliphoth_native::clipboard_ops::{
    native_clipboard_api_version, native_clipboard_cancel, native_clipboard_capabilities,
    native_clipboard_get_data, native_clipboard_get_data_size, native_clipboard_get_formats_data,
    native_clipboard_release, native_clipboard_write_add_format, native_clipboard_write_add_sensitive,
    native_clipboard_write_begin, native_clipboard_write_cancel, native_clipboard_write_commit,
};
use qliphoth_native::event::EVENT_CLIPBOARD_ERROR;
use qliphoth_native::runtime::AppState;
use qliphoth_native::timing::native_poll_event;

fn completed(data: &[u8], formats: Option<Vec<String>>) -> ClipboardCompletedData {
    ClipboardCompletedData { data: data.to_vec(), formats, format_cstrings: Vec::new(), completed_at: 0 }
}

fn keep(st: &mut AppState, callback_id: u64, c: ClipboardCompletedData) {
    st.clipboard.completed.push((callback_id, c));
}

fn clipboard_target() -> i32 {
    target_code(ClipboardTarget::Clipboard)
}

fn add(st: &mut AppState, handle: u64, mime: &str, data: &[u8]) -> i32 {
    native_clipboard_write_add_format(st, handle, Some(mime.to_string()), Some(data.to_vec()), data.len())
}

#[test]
fn test_clipboard_api_version() {
    let version = native_clipboard_api_version();
    assert_eq!(version, 0x000200, "API version should be 0x000200 (v0.2.0)");
}

#[test]
fn test_clipboard_capabilities() {
    for primary in [false, true] {
        let caps = native_clipboard_capabilities(primary);
        assert!(caps & CLIPBOARD_CAP_READ != 0, "Should have read capability");
        assert!(caps & CLIPBOARD_CAP_WRITE != 0, "Should have write capability");
    }
}

#[test]
fn test_write_begin_returns_nonzero_handle() {
    let mut st = AppState::new();
    let handle = native_clipboard_write_begin(&mut st, clipboard_target());
    assert!(handle > 0, "Write handle should be non-zero");
}

#[test]
fn test_write_begin_increments_handle() {
    let mut st = AppState::new();
    let handle1 = native_clipboard_write_begin(&mut st, clipboard_target());
    let handle2 = native_clipboard_write_begin(&mut st, clipboard_target());
    assert!(handle2 > handle1, "Second handle should be greater than first");
}

#[test]
fn test_write_add_format_with_valid_handle() {
    let mut st = AppState::new();
    let handle = native_clipboard_write_begin(&mut st, clipboard_target());
    let result = add(&mut st, handle, "text/plain", b"Hello, clipboard!");
    assert_eq!(result, 1, "Adding format with valid handle should return 1 (success)");
}

#[test]
fn test_write_add_format_with_invalid_handle() {
    let mut st = AppState::new();
    let result = add(&mut st, 99999, "text/plain", b"Hello!");
    assert_eq!(result, 0, "Invalid handle should return 0 (failure)");
}

#[test]
fn test_write_add_sensitive_with_valid_handle() {
    let mut st = AppState::new();
    let handle = native_clipboard_write_begin(&mut st, clipboard_target());
    let data = b"secret password";
    let result = native_clipboard_write_add_sensitive(
        &mut st,
        handle,
        Some("text/plain".to_string()),
        Some(data.to_vec()),
        data.len(),
    );
    assert_eq!(result, 1, "Adding sensitive format should return 1 (success)");
}

#[test]
fn test_write_add_sensitive_with_invalid_handle() {
    let mut st = AppState::new();
    let data = b"secret";
    let result = native_clipboard_write_add_sensitive(
        &mut st,
        99999,
        Some("text/plain".to_string()),
        Some(data.to_vec()),
        data.len(),
    );
    assert_eq!(result, 0, "Invalid handle should return 0 (failure)");
}

#[test]
fn test_write_cancel_removes_handle() {
    let mut st = AppState::new();
    let handle = native_clipboard_write_begin(&mut st, clipboard_target());
    native_clipboard_write_cancel(&mut st, handle);
    let result = add(&mut st, handle, "text/plain", b"test");
    assert_eq!(result, 0, "Cancelled handle should return 0 (failure)");
}

#[test]
fn test_write_commit_invalid_handle_fires_error() {
    let mut st = AppState::new();
    let callback_id: u64 = 12345;
    native_clipboard_write_commit(&mut st, 99999, callback_id);
    let (event_type, event_data) = native_poll_event(&mut st);
    assert_eq!(event_type, EVENT_CLIPBOARD_ERROR, "Should get clipboard error event");
    assert_eq!(event_data.callback_id, callback_id, "Callback ID should match");
    assert_eq!(event_data.button, CLIPBOARD_ERR_INVALID_HANDLE, "Should be invalid handle error");
}

#[test]
fn test_clipboard_release_removes_completed_data() {
    let mut st = AppState::new();
    let callback_id: u64 = 54321;
    keep(&mut st, callback_id, completed(b"test data", None));
    assert_eq!(native_clipboard_get_data_size(&st, callback_id), 9);
    native_clipboard_release(&mut st, callback_id);
    assert_eq!(native_clipboard_get_data_size(&st, callback_id), 0);
}

#[test]
fn test_clipboard_cancel_removes_pending() {
    let mut st = AppState::new();
    let callback_id: u64 = 11111;
    keep(&mut st, callback_id, completed(b"pending data", None));
    native_clipboard_cancel(&mut st, callback_id);
    assert_eq!(native_clipboard_get_data_size(&st, callback_id), 0);
}

#[test]
fn test_clipboard_get_data() {
    let mut st = AppState::new();
    let callback_id: u64 = 22222;
    let test_data = b"Hello from clipboard!";
    keep(&mut st, callback_id, completed(test_data, None));
    let buf = native_clipboard_get_data(&st, callback_id, 64);
    assert_eq!(buf.len(), test_data.len(), "Length should match");
    assert_eq!(&buf[..], &test_data[..], "Data should match");
}

#[test]
fn test_clipboard_get_data_truncates() {
    let mut st = AppState::new();
    let callback_id: u64 = 33333;
    let test_data = b"This is a longer string";
    keep(&mut st, callback_id, completed(test_data, None));
    let buf = native_clipboard_get_data(&st, callback_id, 10);
    assert_eq!(buf.len(), 10, "Should truncate to buffer size");
    assert_eq!(&buf[..], &test_data[..10], "Should get first 10 bytes");
}

fn handed_out(st: &AppState, callback_id: u64) -> Vec<String> {
    let entry = st.clipboard.completed.iter().find(|(id, _)| *id == callback_id).unwrap();
    entry
        .1
        .format_cstrings
        .iter()
        .map(|b| String::from_utf8(b[..b.len() - 1].to_vec()).unwrap())
        .collect()
}

#[test]
fn test_get_formats_data_retrieves_formats() {
    let mut st = AppState::new();
    let callback_id: u64 = 44444;
    keep(&mut st, callback_id, completed(b"", Some(vec!["text/plain".to_string(), "text/html".to_string()])));
    let count = native_clipboard_get_formats_data(&mut st, callback_id, true, 4);
    assert_eq!(count, 2, "Should return 2 formats");
    let formats = handed_out(&st, callback_id);
    assert_eq!(formats[0], "text/plain");
    assert_eq!(formats[1], "text/html");
    native_clipboard_release(&mut st, callback_id);
}

#[test]
fn test_get_formats_data_with_max_limit() {
    let mut st = AppState::new();
    let callback_id: u64 = 55555;
    keep(
        &mut st,
        callback_id,
        completed(
            b"",
            Some(vec!["text/plain".to_string(), "text/html".to_string(), "text/uri-list".to_string()]),
        ),
    );
    let count = native_clipboard_get_formats_data(&mut st, callback_id, true, 2);
    assert_eq!(count, 2, "Should return max 2 formats");
    native_clipboard_release(&mut st, callback_id);
}

#[test]
fn test_get_formats_data_null_pointer() {
    let mut st = AppState::new();
    let count = native_clipboard_get_formats_data(&mut st, 12345, false, 10);
    assert_eq!(count, 0, "Null pointer should return 0");
}

#[test]
fn test_get_formats_data_zero_max() {
    let mut st = AppState::new();
    let count = native_clipboard_get_formats_data(&mut st, 12345, true, 0);
    assert_eq!(count, 0, "Zero max_formats should return 0");
}

#[test]
fn test_get_formats_data_invalid_callback() {
    let mut st = AppState::new();
    let count = native_clipboard_get_formats_data(&mut st, 99999, true, 4);
    assert_eq!(count, 0, "Invalid callback should return 0");
}

#[test]
fn test_write_add_format_null_mime() {
    let mut st = AppState::new();
    let handle = native_clipboard_write_begin(&mut st, clipboard_target());
    let data = b"test";
    let result = native_clipboard_write_add_format(&mut st, handle, None, Some(data.to_vec()), data.len());
    assert_eq!(result, 0, "Null mime should return failure");
}

#[test]
fn test_write_add_format_null_data_with_len() {
    let mut st = AppState::new();
    let handle = native_clipboard_write_begin(&mut st, clipboard_target());
    let result = native_clipboard_write_add_format(&mut st, handle, Some("text/plain".to_string()), None, 10);
    assert_eq!(result, 0, "Null data with non-zero len should return failure");
}

#[test]
fn test_write_add_format_empty_data() {
    let mut st = AppState::new();
    let handle = native_clipboard_write_begin(&mut st, clipboard_target());
    let result = native_clipboard_write_add_format(&mut st, handle, Some("text/plain".to_string()), None, 0);
    assert_eq!(result, 1, "Empty data should succeed");
}

#[test]
fn test_write_multiple_formats() {
    let mut st = AppState::new();
    let handle = native_clipboard_write_begin(&mut st, clipboard_target());
    let r1 = add(&mut st, handle, "text/plain", b"plain text");
    let r2 = add(&mut st, handle, "text/html", b"<p>html</p>");
    assert_eq!(r1, 1, "First format should succeed");
    assert_eq!(r2, 1, "Second format should succeed");
    native_clipboard_write_cancel(&mut st, handle);
}

#[test]
fn test_cancel_unknown_callback_no_event() {
    let mut st = AppState::new();
    native_clipboard_cancel(&mut st, 99999);
    let (event_type, _) = native_poll_event(&mut st);
    assert_eq!(event_type, -1, "Should not fire event for unknown callback");
}

#[test]
fn test_write_handle_overflow_protection() {
    let mut st = AppState::new();
    st.clipboard.next_write_handle = 0;
    let handle = native_clipboard_write_begin(&mut st, clipboard_target());
    assert_eq!(handle, 0, "Should return 0 when handle would overflow to 0");
}

#[test]
fn commit_consumes_the_write_handle() {
    let mut st = AppState::new();
    let handle = native_clipboard_write_begin(&mut st, clipboard_target());
    assert_eq!(add(&mut st, handle, "image/png", &[137, 80, 78, 71]), 1);
    assert_eq!(native_clipboard_write_commit(&mut st, handle, 1), 0, "No text format: the commit fails");
    let (event_type, event_data) = native_poll_event(&mut st);
    assert_eq!(event_type, EVENT_CLIPBOARD_ERROR);
    assert_eq!(event_data.callback_id, 1);
    assert_ne!(event_data.button, CLIPBOARD_ERR_INVALID_HANDLE);
    native_clipboard_write_commit(&mut st, handle, 2);
    let (event_type, event_data) = native_poll_event(&mut st);
    assert_eq!(event_type, EVENT_CLIPBOARD_ERROR);
    assert_eq!(event_data.callback_id, 2);
    assert_eq!(event_data.button, CLIPBOARD_ERR_INVALID_HANDLE, "A committed handle is gone");
}

#[test]
fn read_format_without_mime_is_format_not_found() {
    let mut st = AppState::new();
    assert_eq!(qliphoth_native::clipboard_ops::native_clipboard_read_format(&mut st, clipboard_target(), None, 31), 0);
    let (event_type, event_data) = native_poll_event(&mut st);
    assert_eq!(event_type, EVENT_CLIPBOARD_ERROR);
    assert_eq!(event_data.callback_id, 31);
    assert_eq!(event_data.button, qliphoth_native::clipboard::CLIPBOARD_ERR_FORMAT_NOT_FOUND);
}
