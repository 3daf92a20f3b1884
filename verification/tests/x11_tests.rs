use qliphoth_native::clipboard::{
    ClipboardCompletedData, ClipboardTarget, CLIPBOARD_ERR_EMPTY, CLIPBOARD_ERR_TIMEOUT,
};
use qliphoth_native::event::NativeEvent;
use qliphoth_native::x11::{
    ClipboardAtoms, NotifyAction, PendingOpState, PendingOperation, PropertyReply, SelectionReply,
    X11ClipboardState, X11RequestType, ATOM_NONE, X11_ERR_PROPERTY,
};

const WINDOW: u32 = 0x0040_0001;

fn atoms() -> ClipboardAtoms {
    ClipboardAtoms {
        clipboard: 301,
        primary: 1,
        targets: 302,
        utf8_string: 303,
        incr: 304,
        text_plain: 305,
        text_plain_utf8: 306,
        text_html: 307,
        text_uri_list: 308,
        image_png: 309,
        transfer_property: 310,
    }
}

fn state() -> X11ClipboardState {
    X11ClipboardState::new(atoms(), WINDOW)
}

fn pending_op(cb: u64, started_at_ms: u64) -> (u64, PendingOperation) {
    (cb, PendingOperation { state: PendingOpState::Pending, started_at_ms })
}

fn atom_bytes(ids: &[u32]) -> Vec<u8> {
    ids.iter().flat_map(|a| a.to_ne_bytes()).collect()
}

#[test]
fn x11_mime_types_map_to_atoms() {
    let a = atoms();
    assert_eq!(a.mime_to_atom("text/plain"), 305);
    assert_eq!(a.mime_to_atom("text/plain;charset=utf-8"), 306);
    assert_eq!(a.mime_to_atom("text/html"), 307);
    assert_eq!(a.mime_to_atom("text/uri-list"), 308);
    assert_eq!(a.mime_to_atom("image/png"), 309);
    assert_eq!(a.mime_to_atom("application/json"), 303);
    assert_eq!(a.mime_to_atom("text/plainx"), 303);
}

#[test]
fn x11_atoms_map_to_mime_types() {
    let a = atoms();
    assert_eq!(a.atom_to_mime(305), "text/plain");
    assert_eq!(a.atom_to_mime(306), "text/plain");
    assert_eq!(a.atom_to_mime(303), "text/plain");
    assert_eq!(a.atom_to_mime(307), "text/html");
    assert_eq!(a.atom_to_mime(308), "text/uri-list");
    assert_eq!(a.atom_to_mime(309), "image/png");
    assert_eq!(a.atom_to_mime(9999), "application/octet-stream");
}

#[test]
fn x11_targets_reply_lists_known_types() {
    let a = atoms();
    let mut value = atom_bytes(&[303, 307, 4242, 309, 305, 308]);
    value.extend_from_slice(&[1, 2]);
    assert_eq!(
        a.parse_targets(32, &value),
        vec!["text/plain", "text/html", "image/png", "text/plain", "text/uri-list"]
    );
    assert!(a.parse_targets(8, &value).is_empty());
}

#[test]
fn x11_selection_request_without_data_is_refused() {
    let s = state();
    assert!(matches!(s.selection_reply(302), SelectionReply::Refuse));
    assert!(matches!(s.selection_reply(303), SelectionReply::Refuse));
}

#[test]
fn x11_staged_text_is_served() {
    let mut s = state();
    s.stage_text("héllo");
    match s.selection_reply(302) {
        SelectionReply::Targets(t) => assert_eq!(t, vec![302, 303, 305]),
        _ => panic!("expected targets"),
    }
    match s.selection_reply(305) {
        SelectionReply::Data(bytes, type_atom) => {
            assert_eq!(bytes, "héllo".as_bytes().to_vec());
            assert_eq!(type_atom, 303);
        }
        _ => panic!("expected data"),
    }
    assert!(matches!(s.selection_reply(307), SelectionReply::Refuse));
    assert!(matches!(s.selection_reply(4242), SelectionReply::Refuse));
}

#[test]
fn x11_all_staged_kinds_are_offered() {
    let mut s = state();
    s.stage_html("<b>x</b>");
    s.stage_image(&[137, 80, 78, 71]);
    s.stage_text("x");
    match s.selection_reply(302) {
        SelectionReply::Targets(t) => assert_eq!(t, vec![302, 303, 305, 307, 309]),
        _ => panic!("expected targets"),
    }
    match s.selection_reply(309) {
        SelectionReply::Data(bytes, type_atom) => {
            assert_eq!(bytes, vec![137, 80, 78, 71]);
            assert_eq!(type_atom, 309);
        }
        _ => panic!("expected data"),
    }
    match s.selection_reply(307) {
        SelectionReply::Data(bytes, type_atom) => {
            assert_eq!(bytes, b"<b>x</b>".to_vec());
            assert_eq!(type_atom, 307);
        }
        _ => panic!("expected data"),
    }
    s.selection_cleared();
    assert!(matches!(s.selection_reply(302), SelectionReply::Refuse));
}

#[test]
fn x11_refused_conversion_ends_the_read() {
    let mut s = state();
    let mut events: Vec<NativeEvent> = Vec::new();
    let mut ops = vec![pending_op(1, 0)];
    s.track_read(1, X11RequestType::Data(ClipboardTarget::Clipboard), 305, 0);
    assert_eq!(s.selection_notify(999, 310, &mut events, &mut ops), NotifyAction::Ignore);
    assert_eq!(s.selection_notify(305, ATOM_NONE, &mut events, &mut ops), NotifyAction::Finished);
    assert_eq!(events, vec![NativeEvent::ClipboardError { callback_id: 1, error_code: CLIPBOARD_ERR_EMPTY }]);
    assert_eq!(ops[0].1.state, PendingOpState::Completed);
    assert!(s.pending_reads.is_empty());
}

#[test]
fn x11_converted_data_is_kept_and_announced() {
    let mut s = state();
    let mut events: Vec<NativeEvent> = Vec::new();
    let mut completed: Vec<(u64, ClipboardCompletedData)> = Vec::new();
    let mut ops = vec![pending_op(4, 0)];
    s.track_read(4, X11RequestType::Data(ClipboardTarget::Clipboard), 303, 0);
    let act = s.selection_notify(303, 310, &mut events, &mut ops);
    assert_eq!(act, NotifyAction::FetchProperty { callback_id: 4, property: 310 });
    let reply = PropertyReply { type_atom: 303, format: 8, value: b"abc".to_vec() };
    s.complete_selection_notify(4, Some(reply), 77, &mut events, &mut completed, &mut ops);
    assert_eq!(events, vec![NativeEvent::ClipboardDataReady { callback_id: 4, data_size: 3 }]);
    assert_eq!(completed[0].0, 4);
    assert_eq!(completed[0].1.data, b"abc".to_vec());
    assert_eq!(completed[0].1.completed_at, 77);
    assert_eq!(ops[0].1.state, PendingOpState::Completed);
    assert!(s.pending_reads.is_empty());
}

#[test]
fn x11_formats_reply_is_kept_and_announced() {
    let mut s = state();
    let mut events: Vec<NativeEvent> = Vec::new();
    let mut completed: Vec<(u64, ClipboardCompletedData)> = Vec::new();
    let mut ops: Vec<(u64, PendingOperation)> = Vec::new();
    s.track_read(5, X11RequestType::Formats, 302, 0);
    let reply = PropertyReply { type_atom: 4, format: 32, value: atom_bytes(&[302, 303, 307]) };
    s.complete_selection_notify(5, Some(reply), 0, &mut events, &mut completed, &mut ops);
    assert_eq!(events, vec![NativeEvent::ClipboardFormatsAvailable { callback_id: 5, format_count: 2 }]);
    assert_eq!(completed[0].1.formats, Some(vec!["text/plain".to_string(), "text/html".to_string()]));
}

#[test]
fn x11_failed_fetch_is_an_error() {
    let mut s = state();
    let mut events: Vec<NativeEvent> = Vec::new();
    let mut completed: Vec<(u64, ClipboardCompletedData)> = Vec::new();
    let mut ops = vec![pending_op(6, 0)];
    s.track_read(6, X11RequestType::Data(ClipboardTarget::Clipboard), 303, 0);
    s.complete_selection_notify(6, None, 0, &mut events, &mut completed, &mut ops);
    assert_eq!(events, vec![NativeEvent::ClipboardError { callback_id: 6, error_code: X11_ERR_PROPERTY }]);
    assert!(completed.is_empty());
    assert_eq!(ops[0].1.state, PendingOpState::Pending);
    assert!(s.pending_reads.is_empty());
}

#[test]
fn x11_incremental_transfer_joins_its_chunks() {
    let mut s = state();
    let mut events: Vec<NativeEvent> = Vec::new();
    let mut completed: Vec<(u64, ClipboardCompletedData)> = Vec::new();
    let mut ops = vec![pending_op(8, 0)];
    s.track_read(8, X11RequestType::Data(ClipboardTarget::Clipboard), 303, 0);
    let announce = PropertyReply { type_atom: 304, format: 32, value: vec![0, 0, 16, 0] };
    s.complete_selection_notify(8, Some(announce), 0, &mut events, &mut completed, &mut ops);
    assert!(events.is_empty());
    assert_eq!(s.incr_transfers.len(), 1);
    assert_eq!(s.incr_transfers[0].0, WINDOW);
    assert!(s.property_notify(WINDOW, true));
    assert!(!s.property_notify(WINDOW, false));
    assert!(!s.property_notify(WINDOW + 1, true));
    for chunk in [b"ab".to_vec(), b"cd".to_vec()] {
        let r = PropertyReply { type_atom: 303, format: 8, value: chunk };
        s.complete_property_notify(WINDOW, Some(r), 0, &mut events, &mut completed, &mut ops);
    }
    assert!(events.is_empty());
    let end = PropertyReply { type_atom: 303, format: 8, value: Vec::new() };
    s.complete_property_notify(WINDOW, Some(end), 9, &mut events, &mut completed, &mut ops);
    assert_eq!(events, vec![NativeEvent::ClipboardDataReady { callback_id: 8, data_size: 4 }]);
    assert_eq!(completed[0].1.data, b"abcd".to_vec());
    assert_eq!(completed[0].1.completed_at, 9);
    assert_eq!(ops[0].1.state, PendingOpState::Completed);
    assert!(s.incr_transfers.is_empty());
}

#[test]
fn x11_expired_reads_and_transfers_time_out() {
    let mut s = state();
    let mut events: Vec<NativeEvent> = Vec::new();
    let mut completed: Vec<(u64, ClipboardCompletedData)> = Vec::new();
    let mut ops = vec![pending_op(1, 0), pending_op(2, 500), pending_op(3, 100)];
    s.track_read(1, X11RequestType::Data(ClipboardTarget::Clipboard), 303, 0);
    s.track_read(2, X11RequestType::Formats, 302, 500);
    s.track_read(3, X11RequestType::Data(ClipboardTarget::Clipboard), 307, 100);
    let announce = PropertyReply { type_atom: 304, format: 8, value: Vec::new() };
    s.complete_selection_notify(3, Some(announce), 0, &mut events, &mut completed, &mut ops);
    s.check_timeouts(1000, 600, &mut events, &mut ops);
    assert_eq!(
        events,
        vec![
            NativeEvent::ClipboardError { callback_id: 1, error_code: CLIPBOARD_ERR_TIMEOUT },
            NativeEvent::ClipboardError { callback_id: 3, error_code: CLIPBOARD_ERR_TIMEOUT },
        ]
    );
    assert_eq!(ops[0].1.state, PendingOpState::TimedOut);
    assert_eq!(ops[1].1.state, PendingOpState::Pending);
    assert_eq!(ops[2].1.state, PendingOpState::TimedOut);
    assert_eq!(s.pending_reads.len(), 1);
    assert_eq!(s.pending_reads[0].0, 2);
    assert!(s.incr_transfers.is_empty());
}

#[test]
fn x11_cancel_stops_waiting() {
    let mut s = state();
    s.track_read(1, X11RequestType::Formats, 302, 0);
    assert!(s.cancel(1));
    assert!(!s.cancel(1));
    let mut events: Vec<NativeEvent> = Vec::new();
    let mut ops: Vec<(u64, PendingOperation)> = Vec::new();
    assert_eq!(s.selection_notify(302, 310, &mut events, &mut ops), NotifyAction::Ignore);
}
