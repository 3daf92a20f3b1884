//! Clipboard operations: reads that complete into records kept until
//! released, writes assembled format by format and committed at once, and
//! the system clipboard reached through `arboard`.
use vstd::prelude::*;
use vstd::string::*;

use crate::clipboard::{
    builders_view, completed_view, keep_record, target_of, SystemClipboard, BuilderView, ClipboardCompletedData, ClipboardModel,
    ClipboardState, ClipboardWriteBuilder, CompletedView, CLIPBOARD_CAP_PRIMARY, CLIPBOARD_CAP_READ,
    CLIPBOARD_CAP_WRITE, CLIPBOARD_ERR_EMPTY, CLIPBOARD_ERR_FORMAT_NOT_FOUND, CLIPBOARD_ERR_INTERNAL,
    CLIPBOARD_ERR_INVALID_HANDLE, CLIPBOARD_ERR_UNAVAILABLE,
};
use crate::event::NativeEvent;
use crate::runtime::{handles_below, AppModel, AppState};
use crate::table::{
    drop_key, find_key_u64, first_with_key, has_key, lemma_map_drop_key, lemma_map_first, lemma_map_register,
    lookup, map_vals, register, remove_key_u64,
};

verus! {

/// Opens a connection to the system clipboard with `arboard::Clipboard::new`;
/// `None` where that fails.  Whether it succeeds depends on the system.
#[verifier::external_body]
fn open_clipboard() -> Option<arboard::Clipboard> {
    arboard::Clipboard::new().ok()
}

/// What reading text from the system clipboard gave.
pub enum ClipboardRead {
    /// No connection to the system clipboard could be opened.
    Unavailable,
    /// The clipboard held this text.
    Text(String),
    /// The clipboard held no text.
    NoContent,
    /// The read failed for another reason.
    Failed,
}

/// Reads text with `arboard::Clipboard::get_text`: its text, `NoContent` for
/// `arboard::Error::ContentNotAvailable`, `Failed` for any other error.  What
/// comes back depends on the clipboard's contents; it is never `Unavailable`.
#[verifier::external_body]
fn read_text(c: &mut arboard::Clipboard) -> (r: ClipboardRead)
    ensures
        !(r is Unavailable),
{
    match c.get_text() {
        Ok(t) => ClipboardRead::Text(t),
        Err(arboard::Error::ContentNotAvailable) => ClipboardRead::NoContent,
        Err(_) => ClipboardRead::Failed,
    }
}

/// Places `text` on the clipboard with `arboard::Clipboard::set_text`;
/// `true` when it reported success, which depends on the system.  The
/// text is handed to the clipboard whatever the outcome: it is appended to
/// the connection's record of handed texts.
#[verifier::external_body]
fn write_text(c: &mut SystemClipboard, text: String) -> (ok: bool)
    ensures
        final(c).handed@ == old(c).handed@.push(text@),
{
    c.conn.set_text(text).is_ok()
}

/// `String::from_utf8`: the text that `bytes` encode when they are valid
/// UTF-8, else `None`.
#[verifier::external_body]
fn utf8_string(bytes: Vec<u8>) -> (r: Option<String>)
    ensures
        r is Some <==> vstd::utf8::valid_utf8(bytes@),
        r matches Some(s) ==> vstd::utf8::encode_utf8(s@) == bytes@,
{
    String::from_utf8(bytes).ok()
}

/// Opens the clipboard connection unless one is open.  Returns whether a
/// connection is open afterwards; nothing else changes.
pub fn ensure_connected(clip: &mut ClipboardState) -> (ok: bool)
    ensures
        final(clip)@ == (ClipboardModel { connected: ok, ..old(clip)@ }),
        old(clip)@.connected ==> ok,
{
    if clip.clipboard.is_none() {
        match open_clipboard() {
            Some(c) => {
                clip.clipboard = Some(SystemClipboard { conn: c, handed: Ghost(Seq::empty()) });
                true
            },
            None => false,
        }
    } else {
        true
    }
}

/// Reads the clipboard's text over the open connection.
fn read_connected(clip: &mut ClipboardState) -> (r: ClipboardRead)
    requires
        old(clip)@.connected,
    ensures
        final(clip)@ == old(clip)@,
        !(r is Unavailable),
{
    let mut conn: Option<SystemClipboard> = None;
    std::mem::swap(&mut conn, &mut clip.clipboard);
    match conn {
        Some(mut c) => {
            let r = read_text(&mut c.conn);
            clip.clipboard = Some(c);
            r
        },
        None => ClipboardRead::Failed,
    }
}

/// Writes `text` over the open connection; whether it worked.  The text
/// is handed to the system clipboard either way.
fn write_connected(clip: &mut ClipboardState, text: String) -> (ok: bool)
    requires
        old(clip)@.connected,
    ensures
        final(clip)@ == (ClipboardModel { handed: old(clip)@.handed.push(text@), ..old(clip)@ }),
{
    let mut conn: Option<SystemClipboard> = None;
    std::mem::swap(&mut conn, &mut clip.clipboard);
    match conn {
        Some(mut c) => {
            let ok = write_text(&mut c, text);
            clip.clipboard = Some(c);
            ok
        },
        None => false,
    }
}

/// The version of the clipboard interface: 0.2.0 as `major << 16 | minor << 8 | patch`.
pub fn native_clipboard_api_version() -> (v: u32)
    ensures
        v == 0x000200,
{
    0x000200
}

/// The clipboard capabilities: reading and writing, and the primary
/// selection where the platform has one.
pub fn native_clipboard_capabilities(primary_selection: bool) -> (caps: u32)
    ensures
        caps == (if primary_selection {
            CLIPBOARD_CAP_READ + CLIPBOARD_CAP_WRITE + CLIPBOARD_CAP_PRIMARY
        } else {
            CLIPBOARD_CAP_READ + CLIPBOARD_CAP_WRITE
        }),
{
    let caps = CLIPBOARD_CAP_READ | CLIPBOARD_CAP_WRITE;
    assert(1u32 | 2u32 == 3u32) by (bit_vector);
    assert(3u32 | 4u32 == 7u32) by (bit_vector);
    if primary_selection {
        caps | CLIPBOARD_CAP_PRIMARY
    } else {
        caps
    }
}

/// The MIME type `text/plain`.
pub open spec fn plain_mime() -> Seq<char> {
    seq!['t', 'e', 'x', 't', '/', 'p', 'l', 'a', 'i', 'n']
}

/// The MIME type `text/plain;charset=utf-8`.
pub open spec fn plain_utf8_mime() -> Seq<char> {
    plain_mime() + seq![';', 'c', 'h', 'a', 'r', 's', 'e', 't', '=', 'u', 't', 'f', '-', '8']
}

/// The MIME types read and written as text.
pub open spec fn is_text_mime(m: Seq<char>) -> bool {
    m == plain_mime() || m == plain_utf8_mime()
}

pub(crate) fn plain_mime_string() -> (s: String)
    ensures
        s@ == plain_mime(),
{
    proof {
        reveal_strlit("text/plain");
    }
    String::from_str("text/plain")
}

pub(crate) fn plain_utf8_mime_string() -> (s: String)
    ensures
        s@ == plain_utf8_mime(),
{
    proof {
        reveal_strlit("text/plain;charset=utf-8");
    }
    let s = String::from_str("text/plain;charset=utf-8");
    assert(s@ =~= plain_utf8_mime());
    s
}

/// Whether `mime` is read and written as text.
pub fn text_mime(mime: &String) -> (b: bool)
    ensures
        b == is_text_mime(mime@),
{
    let a = plain_mime_string();
    let b = plain_utf8_mime_string();
    *mime == a || *mime == b
}

/// The model with `e` at the end of the event queue.
pub open spec fn with_event(m: AppModel, e: NativeEvent) -> AppModel {
    AppModel { event_queue: m.event_queue.push(e), ..m }
}

/// The model with a clipboard error event for `callback_id`.
pub open spec fn with_error(m: AppModel, callback_id: u64, code: i32) -> AppModel {
    with_event(m, NativeEvent::ClipboardError { callback_id, error_code: code })
}

/// The model with the connection flag set to `connected`.
pub open spec fn with_connection(m: AppModel, connected: bool) -> AppModel {
    AppModel { clipboard: ClipboardModel { connected, ..m.clipboard }, ..m }
}

/// The model with `v` kept as the completed record of `callback_id`,
/// replacing an earlier one.
pub open spec fn with_completed(m: AppModel, callback_id: u64, v: CompletedView) -> AppModel {
    AppModel {
        clipboard: ClipboardModel { completed: register(m.clipboard.completed, callback_id, v), ..m.clipboard },
        ..m
    }
}

/// Keeps `entry` as the completed record of `callback_id`.
fn keep_completed(state: &mut AppState, callback_id: u64, entry: ClipboardCompletedData)
    ensures
        final(state)@ == with_completed(old(state)@, callback_id, entry@),
{
    keep_record(&mut state.clipboard.completed, callback_id, entry);
    assert(state@ =~= with_completed(old(state)@, callback_id, entry@));
}

/// The formats offered for a read outcome: `text/plain` when there was text.
pub open spec fn offered_formats(read: ClipboardRead) -> Seq<Seq<char>> {
    match read {
        ClipboardRead::Text(_) => seq![plain_mime()],
        _ => Seq::empty(),
    }
}

/// The model after a format query for `callback_id` that found `read` at
/// time `now_ns`: an error event when there was no connection (unavailable)
/// or the read failed (internal); else a record of the offered formats and
/// an event with their number.
pub open spec fn formats_model(m: AppModel, callback_id: u64, read: ClipboardRead, now_ns: u64) -> AppModel {
    match read {
        ClipboardRead::Unavailable => with_error(m, callback_id, CLIPBOARD_ERR_UNAVAILABLE),
        ClipboardRead::Failed => with_error(m, callback_id, CLIPBOARD_ERR_INTERNAL),
        _ => with_event(
            with_completed(
                m,
                callback_id,
                CompletedView {
                    data: Seq::empty(),
                    formats: Some(offered_formats(read)),
                    format_cstrings: Seq::empty(),
                    completed_at: now_ns,
                },
            ),
            NativeEvent::ClipboardFormatsAvailable {
                callback_id,
                format_count: offered_formats(read).len() as usize,
            },
        ),
    }
}

/// 1 when an operation's outcome gives a success event, 0 when it gives an
/// error event.
pub open spec fn read_result(read: ClipboardRead) -> i32 {
    match read {
        ClipboardRead::Unavailable => 0,
        ClipboardRead::Failed => 0,
        _ => 1,
    }
}

/// Completes a format query with the outcome `read` of the clipboard read.
pub fn complete_get_formats(state: &mut AppState, callback_id: u64, read: ClipboardRead, now_ns: u64) -> (r: i32)
    ensures
        handles_below(old(state)@) ==> handles_below(final(state)@),
        final(state)@ == formats_model(old(state)@, callback_id, read, now_ns),
        r == read_result(read),
{
    match read {
        ClipboardRead::Unavailable => {
            state.event_queue.push(NativeEvent::ClipboardError { callback_id, error_code: CLIPBOARD_ERR_UNAVAILABLE });
            0
        },
        ClipboardRead::Failed => {
            state.event_queue.push(NativeEvent::ClipboardError { callback_id, error_code: CLIPBOARD_ERR_INTERNAL });
            0
        },
        ClipboardRead::Text(_) => {
            let formats = vec![plain_mime_string()];
            let entry = ClipboardCompletedData {
                data: Vec::new(),
                formats: Some(formats),
                format_cstrings: Vec::new(),
                completed_at: now_ns,
            };
            assert(entry@ == (CompletedView {
                data: Seq::empty(),
                formats: Some(offered_formats(read)),
                format_cstrings: Seq::empty(),
                completed_at: now_ns,
            })) by {
                assert(entry@.formats->0 =~= offered_formats(read));
                assert(entry@.data =~= Seq::<u8>::empty());
                assert(entry@.format_cstrings =~= Seq::<Seq<u8>>::empty());
            }
            keep_completed(state, callback_id, entry);
            state.event_queue.push(NativeEvent::ClipboardFormatsAvailable { callback_id, format_count: 1 });
            1
        },
        ClipboardRead::NoContent => {
            let entry = ClipboardCompletedData {
                data: Vec::new(),
                formats: Some(Vec::new()),
                format_cstrings: Vec::new(),
                completed_at: now_ns,
            };
            assert(entry@ == (CompletedView {
                data: Seq::empty(),
                formats: Some(offered_formats(read)),
                format_cstrings: Seq::empty(),
                completed_at: now_ns,
            })) by {
                assert(entry@.formats->0 =~= offered_formats(read));
                assert(entry@.data =~= Seq::<u8>::empty());
                assert(entry@.format_cstrings =~= Seq::<Seq<u8>>::empty());
            }
            keep_completed(state, callback_id, entry);
            state.event_queue.push(NativeEvent::ClipboardFormatsAvailable { callback_id, format_count: 0 });
            1
        },
    }
}

/// Asks which formats the clipboard offers, answering with an event for
/// `callback_id`.  Only text is looked for, so the list is `text/plain` or
/// empty.  The primary selection is served by the standard clipboard.
/// Returns 1 when the answer is a formats event, 0 when it is an error.
pub fn native_clipboard_get_formats(state: &mut AppState, target: i32, callback_id: u64) -> (r: i32)
    ensures
        handles_below(old(state)@) ==> handles_below(final(state)@),
        exists|connected: bool, read: ClipboardRead, now_ns: u64|
            (read is Unavailable <==> !connected) && r == read_result(read) && final(state)@ == formats_model(
                with_connection(old(state)@, connected),
                callback_id,
                read,
                now_ns,
            ),
{
    let ghost m0 = state@;
    let connected = ensure_connected(&mut state.clipboard);
    let read = if connected {
        read_connected(&mut state.clipboard)
    } else {
        ClipboardRead::Unavailable
    };
    assert(state@ == with_connection(m0, connected));
    let now_ns = crate::timing::clock_nanos();
    complete_get_formats(state, callback_id, read, now_ns)
}

/// The NUL-terminated copies handed out for the first `n` of `formats`,
/// leaving out any whose text holds a NUL byte.
pub open spec fn format_cstrings_of(formats: Seq<Seq<char>>, n: int) -> Seq<Seq<u8>>
    decreases n,
{
    if n <= 0 || formats.len() == 0 {
        Seq::empty()
    } else if n > formats.len() {
        format_cstrings_of(formats, formats.len() as int)
    } else {
        let r = format_cstrings_of(formats, n - 1);
        let b = vstd::utf8::encode_utf8(formats[n - 1]);
        if b.contains(0u8) {
            r
        } else {
            r.push(b.push(0u8))
        }
    }
}

/// The NUL-terminated copy of `s`, or `None` when its bytes hold a NUL.
fn c_copy(s: &String) -> (r: Option<Vec<u8>>)
    ensures
        r is None <==> vstd::utf8::encode_utf8(s@).contains(0u8),
        r matches Some(b) ==> b@ == vstd::utf8::encode_utf8(s@).push(0u8),
{
    let bytes = s.as_str().as_bytes();
    let mut out: Vec<u8> = Vec::new();
    let mut i: usize = 0;
    while i < bytes.len()
        invariant
            bytes@ == vstd::utf8::encode_utf8(s@),
            i <= bytes@.len(),
            out@ == bytes@.take(i as int),
            !out@.contains(0u8),
        decreases bytes.len() - i,
    {
        if bytes[i] == 0 {
            return None;
        }
        out.push(bytes[i]);
        i = i + 1;
        assert(out@ =~= bytes@.take(i as int));
    }
    assert(bytes@.take(bytes@.len() as int) == bytes@);
    out.push(0);
    Some(out)
}

/// The model with the copies `cs` stored in the completed record of `callback_id`.
pub open spec fn with_cstrings(m: AppModel, callback_id: u64, cs: Seq<Seq<u8>>) -> AppModel {
    let i = first_with_key(m.clipboard.completed, callback_id);
    let c = m.clipboard.completed[i].1;
    AppModel {
        clipboard: ClipboardModel {
            completed: m.clipboard.completed.update(i, (callback_id, CompletedView { format_cstrings: cs, ..c })),
            ..m.clipboard
        },
        ..m
    }
}

/// The copies the format list of `callback_id` gives for `max_formats`
/// slots, when there is a completed format query and at least one slot.
pub open spec fn formats_data(m: AppModel, callback_id: u64, max_formats: usize) -> Option<Seq<Seq<u8>>> {
    if max_formats == 0 {
        None
    } else {
        match lookup(m.clipboard.completed, callback_id) {
            Some(c) => match c.formats {
                Some(f) => Some(format_cstrings_of(f, max_formats as int)),
                None => None,
            },
            None => None,
        }
    }
}

/// Makes NUL-terminated copies of the first `max_formats` formats of the
/// completed query `callback_id` (leaving out any holding a NUL) and keeps
/// them in its record, replacing earlier copies, for an output array of
/// `max_formats` slots (`has_output` false: no array).  Returns their
/// number; 0 with nothing changed when there is no array, `max_formats` is
/// 0 or there is no such query.
pub fn native_clipboard_get_formats_data(
    state: &mut AppState,
    callback_id: u64,
    has_output: bool,
    max_formats: usize,
) -> (n: usize)
    ensures
        handles_below(old(state)@) ==> handles_below(final(state)@),
        !has_output ==> n == 0 && final(state)@ == old(state)@,
        has_output ==> match formats_data(old(state)@, callback_id, max_formats) {
            Some(cs) => n == cs.len() && final(state)@ == with_cstrings(old(state)@, callback_id, cs),
            None => n == 0 && final(state)@ == old(state)@,
        },
{
    if !has_output || max_formats == 0 {
        return 0;
    }
    let ghost f = |c: ClipboardCompletedData| c@;
    proof {
        lemma_map_first(state.clipboard.completed@, callback_id, f);
        assert(completed_view(state.clipboard.completed@) =~= map_vals(state.clipboard.completed@, f));
    }
    let i = match find_key_u64(&state.clipboard.completed, callback_id) {
        Some(i) => i,
        None => return 0,
    };
    let mut cs: Vec<Vec<u8>> = Vec::new();
    match &state.clipboard.completed[i].1.formats {
        Some(formats) => {
            let ghost fv = formats@.map_values(|s: String| s@);
            let count = if formats.len() < max_formats { formats.len() } else { max_formats };
            let mut k: usize = 0;
            while k < count
                invariant
                    count <= formats.len(),
                    count <= max_formats,
                    fv == formats@.map_values(|s: String| s@),
                    k <= count,
                    cs@.map_values(|b: Vec<u8>| b@) == format_cstrings_of(fv, k as int),
                decreases count - k,
            {
                let ghost c0 = cs@;
                match c_copy(&formats[k]) {
                    Some(b) => {
                        cs.push(b);
                        assert(cs@.map_values(|b: Vec<u8>| b@) =~= c0.map_values(|b: Vec<u8>| b@).push(
                            vstd::utf8::encode_utf8(fv[k as int]).push(0u8),
                        ));
                    },
                    None => {},
                }
                k = k + 1;
            }
            proof {
                if max_formats as int > fv.len() {
                    assert(format_cstrings_of(fv, max_formats as int) == format_cstrings_of(fv, fv.len() as int));
                }
            }
        },
        None => return 0,
    }
    let ghost csv = cs@.map_values(|b: Vec<u8>| b@);
    let n = cs.len();
    let ghost before = state.clipboard.completed@;
    state.clipboard.completed[i].1.format_cstrings = cs;
    assert(completed_view(state.clipboard.completed@) =~= completed_view(before).update(
        i as int,
        (callback_id, CompletedView { format_cstrings: csv, ..completed_view(before)[i as int].1 }),
    ));
    n
}

/// The model after a text read for `callback_id` found `read` at `now_ns`
/// (the MIME type asked for being a text type): the bytes kept with an
/// event giving their number, or an error event (unavailable, empty or
/// internal).
pub open spec fn read_model(m: AppModel, callback_id: u64, read: ClipboardRead, now_ns: u64) -> AppModel {
    match read {
        ClipboardRead::Unavailable => with_error(m, callback_id, CLIPBOARD_ERR_UNAVAILABLE),
        ClipboardRead::NoContent => with_error(m, callback_id, CLIPBOARD_ERR_EMPTY),
        ClipboardRead::Failed => with_error(m, callback_id, CLIPBOARD_ERR_INTERNAL),
        ClipboardRead::Text(t) => with_event(
            with_completed(
                m,
                callback_id,
                CompletedView {
                    data: vstd::utf8::encode_utf8(t@),
                    formats: None,
                    format_cstrings: Seq::empty(),
                    completed_at: now_ns,
                },
            ),
            NativeEvent::ClipboardDataReady { callback_id, data_size: vstd::utf8::encode_utf8(t@).len() as usize },
        ),
    }
}

/// Completes a text read with the outcome `read` of the clipboard read.
/// Returns 1 when the data is ready, 0 on an error.
pub fn complete_read_format(state: &mut AppState, callback_id: u64, read: ClipboardRead, now_ns: u64) -> (r: i32)
    ensures
        handles_below(old(state)@) ==> handles_below(final(state)@),
        final(state)@ == read_model(old(state)@, callback_id, read, now_ns),
        r == (if read is Text { 1i32 } else { 0i32 }),
{
    match read {
        ClipboardRead::Unavailable => {
            state.event_queue.push(NativeEvent::ClipboardError { callback_id, error_code: CLIPBOARD_ERR_UNAVAILABLE });
            0
        },
        ClipboardRead::NoContent => {
            state.event_queue.push(NativeEvent::ClipboardError { callback_id, error_code: CLIPBOARD_ERR_EMPTY });
            0
        },
        ClipboardRead::Failed => {
            state.event_queue.push(NativeEvent::ClipboardError { callback_id, error_code: CLIPBOARD_ERR_INTERNAL });
            0
        },
        ClipboardRead::Text(t) => {
            let data = t.as_str().as_bytes_vec();
            let size = data.len();
            let entry = ClipboardCompletedData { data, formats: None, format_cstrings: Vec::new(), completed_at: now_ns };
            assert(entry@.format_cstrings =~= Seq::<Seq<u8>>::empty());
            keep_completed(state, callback_id, entry);
            state.event_queue.push(NativeEvent::ClipboardDataReady { callback_id, data_size: size });
            1
        },
    }
}

/// The model after asking for the clipboard's data as `mime`: with no
/// connection an unavailable error; for a MIME type other than the text
/// types a format-not-found error; else as `read_model`.
pub open spec fn read_format_model(
    m: AppModel,
    callback_id: u64,
    mime: Seq<char>,
    read: ClipboardRead,
    now_ns: u64,
) -> AppModel {
    if read is Unavailable {
        with_error(m, callback_id, CLIPBOARD_ERR_UNAVAILABLE)
    } else if !is_text_mime(mime) {
        with_error(m, callback_id, CLIPBOARD_ERR_FORMAT_NOT_FOUND)
    } else {
        read_model(m, callback_id, read, now_ns)
    }
}

/// Asks for the clipboard's data as `mime`, answering with an event for
/// `callback_id`.  Only `text/plain` (with or without `;charset=utf-8`) is
/// served; with no MIME type at all the answer is a format-not-found error
/// and the clipboard is not touched.  Returns 1 when the data is ready, 0
/// on an error.
pub fn native_clipboard_read_format(state: &mut AppState, target: i32, mime: Option<&String>, callback_id: u64) -> (r: i32)
    ensures
        handles_below(old(state)@) ==> handles_below(final(state)@),
        mime is None ==> r == 0 && final(state)@ == with_error(old(state)@, callback_id, CLIPBOARD_ERR_FORMAT_NOT_FOUND),
        mime matches Some(m) ==> exists|connected: bool, read: ClipboardRead, now_ns: u64|
            (read is Unavailable <==> !connected) && (old(state)@.clipboard.connected ==> connected) && r == (
            if read is Text && is_text_mime(m@) {
                1i32
            } else {
                0i32
            }) && final(state)@ == read_format_model(with_connection(old(state)@, connected), callback_id, m@, read, now_ns),
{
    let mime = match mime {
        Some(m) => m,
        None => {
            state.event_queue.push(NativeEvent::ClipboardError { callback_id, error_code: CLIPBOARD_ERR_FORMAT_NOT_FOUND });
            return 0;
        },
    };
    let ghost m0 = state@;
    let connected = ensure_connected(&mut state.clipboard);
    assert(state@ == with_connection(m0, connected));
    if !connected {
        state.event_queue.push(NativeEvent::ClipboardError { callback_id, error_code: CLIPBOARD_ERR_UNAVAILABLE });
        assert(state@ == read_format_model(with_connection(m0, connected), callback_id, mime@, ClipboardRead::Unavailable, 0));
        return 0;
    }
    if !text_mime(mime) {
        state.event_queue.push(NativeEvent::ClipboardError { callback_id, error_code: CLIPBOARD_ERR_FORMAT_NOT_FOUND });
        assert(state@ == read_format_model(with_connection(m0, connected), callback_id, mime@, ClipboardRead::NoContent, 0));
        return 0;
    }
    let read = read_connected(&mut state.clipboard);
    let ghost rd = read;
    let now_ns = crate::timing::clock_nanos();
    let r = complete_read_format(state, callback_id, read, now_ns);
    assert(state@ == read_format_model(with_connection(m0, connected), callback_id, mime@, rd, now_ns));
    r
}

/// Size in bytes of the data kept for `callback_id`, 0 when there is none.
pub fn native_clipboard_get_data_size(state: &AppState, callback_id: u64) -> (n: usize)
    ensures
        n == (match lookup(state@.clipboard.completed, callback_id) {
            Some(c) => c.data.len(),
            None => 0,
        }),
{
    let ghost f = |c: ClipboardCompletedData| c@;
    proof {
        lemma_map_first(state.clipboard.completed@, callback_id, f);
        assert(completed_view(state.clipboard.completed@) =~= map_vals(state.clipboard.completed@, f));
    }
    match find_key_u64(&state.clipboard.completed, callback_id) {
        Some(i) => state.clipboard.completed[i].1.data.len(),
        None => 0,
    }
}

/// The first `min(size, max_len)` bytes of the data kept for `callback_id`;
/// empty when `max_len` is 0 or there is no such record.  The data stays.
pub fn native_clipboard_get_data(state: &AppState, callback_id: u64, max_len: usize) -> (out: Vec<u8>)
    ensures
        out@ == (match lookup(state@.clipboard.completed, callback_id) {
            Some(c) => c.data.take(if c.data.len() < max_len { c.data.len() as int } else { max_len as int }),
            None => Seq::empty(),
        }),
{
    let ghost f = |c: ClipboardCompletedData| c@;
    proof {
        lemma_map_first(state.clipboard.completed@, callback_id, f);
        assert(completed_view(state.clipboard.completed@) =~= map_vals(state.clipboard.completed@, f));
    }
    let mut out: Vec<u8> = Vec::new();
    match find_key_u64(&state.clipboard.completed, callback_id) {
        Some(i) => {
            let data = &state.clipboard.completed[i].1.data;
            let n = if data.len() < max_len { data.len() } else { max_len };
            let mut k: usize = 0;
            while k < n
                invariant
                    n <= data@.len(),
                    k <= n,
                    out@ == data@.take(k as int),
                decreases n - k,
            {
                out.push(data[k]);
                k = k + 1;
                assert(out@ =~= data@.take(k as int));
            }
        },
        None => {},
    }
    out
}

/// The model without the completed record of `callback_id`.
pub open spec fn without_completed(m: AppModel, callback_id: u64) -> AppModel {
    AppModel {
        clipboard: ClipboardModel { completed: drop_key(m.clipboard.completed, callback_id), ..m.clipboard },
        ..m
    }
}

fn drop_completed(state: &mut AppState, callback_id: u64)
    ensures
        final(state)@ == without_completed(old(state)@, callback_id),
{
    let ghost f = |c: ClipboardCompletedData| c@;
    let ghost s0 = state.clipboard.completed@;
    proof {
        lemma_map_drop_key(s0, callback_id, f);
        assert(completed_view(s0) =~= map_vals(s0, f));
    }
    remove_key_u64(&mut state.clipboard.completed, callback_id);
    assert(completed_view(state.clipboard.completed@) =~= map_vals(drop_key(s0, callback_id), f));
    assert(state@ =~= without_completed(old(state)@, callback_id));
}

/// Cancels the operation `callback_id`: its completed record, if any, is
/// dropped; no event is queued.
pub fn native_clipboard_cancel(state: &mut AppState, callback_id: u64)
    ensures
        handles_below(old(state)@) ==> handles_below(final(state)@),
        final(state)@ == without_completed(old(state)@, callback_id),
{
    drop_completed(state, callback_id)
}

/// Releases the completed record of `callback_id`.
pub fn native_clipboard_release(state: &mut AppState, callback_id: u64)
    ensures
        handles_below(old(state)@) ==> handles_below(final(state)@),
        final(state)@ == without_completed(old(state)@, callback_id),
{
    drop_completed(state, callback_id)
}

/// The model after beginning a write to `target` at `now_ns` under the next
/// write handle: a fresh builder and the counter advanced, wrapping.
pub open spec fn begun_model(m: AppModel, target: i32, now_ns: u64) -> AppModel {
    let h = m.clipboard.next_write_handle;
    AppModel {
        clipboard: ClipboardModel {
            write_handles: register(
                m.clipboard.write_handles,
                h,
                BuilderView { target: target_of(target), formats: Seq::empty(), created_at: now_ns },
            ),
            next_write_handle: if h == u64::MAX { 0 } else { (h + 1) as u64 },
            ..m.clipboard
        },
        ..m
    }
}

/// Begins a write to `target` at time `now_ns`.  Returns the write handle;
/// 0, with nothing changed, once the handle counter has wrapped to 0.
pub fn write_begin_at(state: &mut AppState, target: i32, now_ns: u64) -> (h: u64)
    ensures
        handles_below(old(state)@) ==> handles_below(final(state)@),
        old(state)@.clipboard.next_write_handle == 0 ==> h == 0 && final(state)@ == old(state)@,
        old(state)@.clipboard.next_write_handle != 0 ==> h == old(state)@.clipboard.next_write_handle
            && final(state)@ == begun_model(old(state)@, target, now_ns),
{
    if state.clipboard.next_write_handle == 0 {
        return 0;
    }
    let h = state.clipboard.next_write_handle;
    state.clipboard.next_write_handle = state.clipboard.next_write_handle.wrapping_add(1);
    let builder = ClipboardWriteBuilder {
        target: crate::clipboard::ClipboardTarget::from(target),
        formats: Vec::new(),
        created_at: now_ns,
    };
    assert(builder@.formats =~= Seq::<(Seq<char>, Seq<u8>, bool)>::empty());
    let ghost f = |b: ClipboardWriteBuilder| b@;
    let ghost s0 = state.clipboard.write_handles@;
    proof {
        lemma_map_register(s0, h, builder, f);
        assert(builders_view(s0) =~= map_vals(s0, f));
    }
    remove_key_u64(&mut state.clipboard.write_handles, h);
    state.clipboard.write_handles.push((h, builder));
    assert(builders_view(state.clipboard.write_handles@) =~= map_vals(register(s0, h, builder), f));
    assert(state@ =~= begun_model(old(state)@, target, now_ns));
    h
}

/// Begins a write to `target` now (see `write_begin_at`).
pub fn native_clipboard_write_begin(state: &mut AppState, target: i32) -> (h: u64)
    ensures
        handles_below(old(state)@) ==> handles_below(final(state)@),
        old(state)@.clipboard.next_write_handle == 0 ==> h == 0 && final(state)@ == old(state)@,
        old(state)@.clipboard.next_write_handle != 0 ==> h == old(state)@.clipboard.next_write_handle
            && exists|now_ns: u64| final(state)@ == #[trigger] begun_model(old(state)@, target, now_ns),
{
    let now_ns = crate::timing::clock_nanos();
    write_begin_at(state, target, now_ns)
}

/// The model with `(mime, data, sensitive)` appended to the formats of the
/// write `write_handle`.
pub open spec fn with_format(m: AppModel, write_handle: u64, mime: Seq<char>, data: Seq<u8>, sensitive: bool) -> AppModel {
    let i = first_with_key(m.clipboard.write_handles, write_handle);
    let b = m.clipboard.write_handles[i].1;
    AppModel {
        clipboard: ClipboardModel {
            write_handles: m.clipboard.write_handles.update(
                i,
                (write_handle, BuilderView { formats: b.formats.push((mime, data, sensitive)), ..b }),
            ),
            ..m.clipboard
        },
        ..m
    }
}

fn add_format(state: &mut AppState, write_handle: u64, mime: String, data: Vec<u8>, sensitive: bool) -> (r: i32)
    ensures
        has_key(old(state)@.clipboard.write_handles, write_handle) ==> r == 1 && final(state)@ == with_format(
            old(state)@,
            write_handle,
            mime@,
            data@,
            sensitive,
        ),
        !has_key(old(state)@.clipboard.write_handles, write_handle) ==> r == 0 && final(state)@ == old(state)@,
{
    let ghost f = |b: ClipboardWriteBuilder| b@;
    proof {
        lemma_map_first(state.clipboard.write_handles@, write_handle, f);
        assert(builders_view(state.clipboard.write_handles@) =~= map_vals(state.clipboard.write_handles@, f));
    }
    match find_key_u64(&state.clipboard.write_handles, write_handle) {
        Some(i) => {
            let ghost before = state.clipboard.write_handles@;
            let ghost b0 = before[i as int].1@;
            let ghost mv = mime@;
            let ghost dv = data@;
            state.clipboard.write_handles[i].1.formats.push((mime, data, sensitive));
            assert(state.clipboard.write_handles@[i as int].1@.formats =~= b0.formats.push((mv, dv, sensitive)));
            assert(builders_view(state.clipboard.write_handles@) =~= builders_view(before).update(
                i as int,
                (write_handle, BuilderView { formats: b0.formats.push((mv, dv, sensitive)), ..b0 }),
            ));
            1
        },
        None => 0,
    }
}

/// The arguments of an added format are usable: a MIME type is given, and
/// data is given unless its length is 0.
pub open spec fn format_args_ok(mime: Option<String>, data: Option<Vec<u8>>, data_len: usize) -> bool {
    mime is Some && (data is Some || data_len == 0)
}

/// The bytes of an added format: the data given, or none.
pub open spec fn format_bytes(data: Option<Vec<u8>>) -> Seq<u8> {
    match data {
        Some(d) => d@,
        None => Seq::empty(),
    }
}

fn add_format_checked(
    state: &mut AppState,
    write_handle: u64,
    mime: Option<String>,
    data: Option<Vec<u8>>,
    data_len: usize,
    sensitive: bool,
) -> (r: i32)
    ensures
        format_args_ok(mime, data, data_len) && has_key(old(state)@.clipboard.write_handles, write_handle) ==> r == 1
            && final(state)@ == with_format(old(state)@, write_handle, mime->0@, format_bytes(data), sensitive),
        !(format_args_ok(mime, data, data_len) && has_key(old(state)@.clipboard.write_handles, write_handle)) ==> r
            == 0 && final(state)@ == old(state)@,
{
    match mime {
        None => 0,
        Some(m) => match data {
            Some(d) => add_format(state, write_handle, m, d, sensitive),
            None => if data_len > 0 {
                0
            } else {
                let empty: Vec<u8> = Vec::new();
                assert(empty@ == format_bytes(data));
                add_format(state, write_handle, m, empty, sensitive)
            },
        },
    }
}

/// Adds the format `mime` with a copy of `data` (of `data_len` bytes) to the
/// write `write_handle`.  Returns 1; 0 with nothing changed when no MIME
/// type is given, no data is given for a non-zero length, or there is no
/// such write.
pub fn native_clipboard_write_add_format(
    state: &mut AppState,
    write_handle: u64,
    mime: Option<String>,
    data: Option<Vec<u8>>,
    data_len: usize,
) -> (r: i32)
    ensures
        handles_below(old(state)@) ==> handles_below(final(state)@),
        format_args_ok(mime, data, data_len) && has_key(old(state)@.clipboard.write_handles, write_handle) ==> r == 1
            && final(state)@ == with_format(old(state)@, write_handle, mime->0@, format_bytes(data), false),
        !(format_args_ok(mime, data, data_len) && has_key(old(state)@.clipboard.write_handles, write_handle)) ==> r
            == 0 && final(state)@ == old(state)@,
{
    add_format_checked(state, write_handle, mime, data, data_len, false)
}

/// Adds a sensitive format (one kept out of clipboard histories) to the
/// write `write_handle`; otherwise as `native_clipboard_write_add_format`.
pub fn native_clipboard_write_add_sensitive(
    state: &mut AppState,
    write_handle: u64,
    mime: Option<String>,
    data: Option<Vec<u8>>,
    data_len: usize,
) -> (r: i32)
    ensures
        handles_below(old(state)@) ==> handles_below(final(state)@),
        format_args_ok(mime, data, data_len) && has_key(old(state)@.clipboard.write_handles, write_handle) ==> r == 1
            && final(state)@ == with_format(old(state)@, write_handle, mime->0@, format_bytes(data), true),
        !(format_args_ok(mime, data, data_len) && has_key(old(state)@.clipboard.write_handles, write_handle)) ==> r
            == 0 && final(state)@ == old(state)@,
{
    add_format_checked(state, write_handle, mime, data, data_len, true)
}

/// The data of the first format of a text MIME type, if any.
pub open spec fn first_text_data(formats: Seq<(Seq<char>, Seq<u8>, bool)>) -> Option<Seq<u8>>
    decreases formats.len(),
{
    if formats.len() == 0 {
        None
    } else if is_text_mime(formats[0].0) {
        Some(formats[0].1)
    } else {
        first_text_data(formats.drop_first())
    }
}

/// The model without the write `write_handle`.
pub open spec fn without_write(m: AppModel, write_handle: u64) -> AppModel {
    AppModel {
        clipboard: ClipboardModel { write_handles: drop_key(m.clipboard.write_handles, write_handle), ..m.clipboard },
        ..m
    }
}

/// The event code a commit ends with, given the text data found, whether a
/// connection was open and whether the system took the text: 0 for the
/// completion event, else the error code.
pub open spec fn commit_code(text: Option<Seq<u8>>, connected: bool, written: bool) -> i32 {
    if !connected {
        CLIPBOARD_ERR_UNAVAILABLE
    } else {
        match text {
            None => CLIPBOARD_ERR_FORMAT_NOT_FOUND,
            Some(d) => if !vstd::utf8::valid_utf8(d) || !written {
                CLIPBOARD_ERR_INTERNAL
            } else {
                0
            },
        }
    }
}

/// The model with `text` handed to the system clipboard.
pub open spec fn with_handed(m: AppModel, text: Seq<char>) -> AppModel {
    AppModel { clipboard: ClipboardModel { handed: m.clipboard.handed.push(text), ..m.clipboard }, ..m }
}

/// The model after committing the write `write_handle` for `callback_id`
/// (which exists), given whether a connection was open and whether the
/// system took the text: the write is gone; with a connection and a first
/// text format holding valid UTF-8, the text it encodes is handed to the
/// system clipboard; and a completion event or an error event is queued.
pub open spec fn committed_model(m: AppModel, write_handle: u64, callback_id: u64, connected: bool, written: bool) -> AppModel {
    let text = first_text_data(lookup(m.clipboard.write_handles, write_handle)->0.formats);
    let m0 = with_connection(without_write(m, write_handle), connected);
    let m1 = match text {
        Some(d) => if connected && vstd::utf8::valid_utf8(d) {
            with_handed(m0, vstd::utf8::decode_utf8(d))
        } else {
            m0
        },
        None => m0,
    };
    let code = commit_code(text, connected, written);
    if code == 0 {
        with_event(m1, NativeEvent::ClipboardWriteComplete { callback_id })
    } else {
        with_error(m1, callback_id, code)
    }
}

/// The data of the first format of a text MIME type.
fn find_text_data(formats: &Vec<(String, Vec<u8>, bool)>) -> (r: Option<usize>)
    ensures
        r matches Some(i) ==> i < formats@.len() && first_text_data(
            formats@.map_values(|f: (String, Vec<u8>, bool)| (f.0@, f.1@, f.2)),
        ) == Some(formats@[i as int].1@),
        r is None ==> first_text_data(formats@.map_values(|f: (String, Vec<u8>, bool)| (f.0@, f.1@, f.2))) is None,
{
    let ghost fv = formats@.map_values(|f: (String, Vec<u8>, bool)| (f.0@, f.1@, f.2));
    assert(fv.subrange(0, fv.len() as int) =~= fv);
    let mut i: usize = 0;
    while i < formats.len()
        invariant
            i <= formats.len(),
            fv == formats@.map_values(|f: (String, Vec<u8>, bool)| (f.0@, f.1@, f.2)),
            first_text_data(fv) == first_text_data(fv.subrange(i as int, fv.len() as int)),
        decreases formats.len() - i,
    {
        let ghost sub = fv.subrange(i as int, fv.len() as int);
        assert(sub.drop_first() =~= fv.subrange(i + 1, fv.len() as int));
        assert(sub[0] == fv[i as int]);
        if text_mime(&formats[i].0) {
            return Some(i);
        }
        i = i + 1;
    }
    assert(fv.subrange(i as int, fv.len() as int) =~= Seq::<(Seq<char>, Seq<u8>, bool)>::empty());
    None
}

/// Commits the write `write_handle`, answering with an event for
/// `callback_id`: the first format of a text MIME type is placed on the
/// clipboard as text.  With no such write an invalid-handle error and
/// nothing else; otherwise the write is removed and the event is an
/// unavailable error (no connection), a format-not-found error (no text
/// format), an internal error (data not UTF-8, or the system refused), or
/// the completion event.  Returns 1 on completion, else 0.
pub fn native_clipboard_write_commit(state: &mut AppState, write_handle: u64, callback_id: u64) -> (r: i32)
    ensures
        handles_below(old(state)@) ==> handles_below(final(state)@),
        !has_key(old(state)@.clipboard.write_handles, write_handle) ==> r == 0 && final(state)@ == with_error(
            old(state)@,
            callback_id,
            CLIPBOARD_ERR_INVALID_HANDLE,
        ),
        has_key(old(state)@.clipboard.write_handles, write_handle) ==> exists|connected: bool, written: bool|
            final(state)@ == #[trigger] committed_model(old(state)@, write_handle, callback_id, connected, written)
                && (old(state)@.clipboard.connected ==> connected)
                && r == (if commit_code(
                first_text_data(lookup(old(state)@.clipboard.write_handles, write_handle)->0.formats),
                connected,
                written,
            ) == 0 {
                1i32
            } else {
                0i32
            }),
{
    let ghost m0 = state@;
    let ghost f = |b: ClipboardWriteBuilder| b@;
    proof {
        lemma_map_first(state.clipboard.write_handles@, write_handle, f);
        assert(builders_view(state.clipboard.write_handles@) =~= map_vals(state.clipboard.write_handles@, f));
    }
    let i = match find_key_u64(&state.clipboard.write_handles, write_handle) {
        Some(i) => i,
        None => {
            state.event_queue.push(NativeEvent::ClipboardError { callback_id, error_code: CLIPBOARD_ERR_INVALID_HANDLE });
            return 0;
        },
    };
    let found = find_text_data(&state.clipboard.write_handles[i].1.formats);
    let text: Option<Vec<u8>> = match found {
        Some(k) => Some(state.clipboard.write_handles[i].1.formats[k].1.clone()),
        None => None,
    };
    let ghost tv = first_text_data(lookup(m0.clipboard.write_handles, write_handle)->0.formats);
    assert(match text {
        Some(d) => tv == Some(d@),
        None => tv is None,
    });
    let ghost s0 = state.clipboard.write_handles@;
    proof {
        lemma_map_drop_key(s0, write_handle, f);
        assert(builders_view(s0) =~= map_vals(s0, f));
    }
    remove_key_u64(&mut state.clipboard.write_handles, write_handle);
    assert(builders_view(state.clipboard.write_handles@) =~= map_vals(drop_key(s0, write_handle), f));
    let connected = ensure_connected(&mut state.clipboard);
    assert(state@ =~= with_connection(without_write(m0, write_handle), connected));
    if !connected {
        state.event_queue.push(NativeEvent::ClipboardError { callback_id, error_code: CLIPBOARD_ERR_UNAVAILABLE });
        assert(state@ == committed_model(m0, write_handle, callback_id, connected, false));
        return 0;
    }
    match text {
        None => {
            state.event_queue.push(NativeEvent::ClipboardError { callback_id, error_code: CLIPBOARD_ERR_FORMAT_NOT_FOUND });
            assert(state@ == committed_model(m0, write_handle, callback_id, connected, false));
            0
        },
        Some(d) => match utf8_string(d) {
            None => {
                state.event_queue.push(NativeEvent::ClipboardError { callback_id, error_code: CLIPBOARD_ERR_INTERNAL });
                assert(state@ == committed_model(m0, write_handle, callback_id, connected, false));
                0
            },
            Some(s) => {
                proof {
                    vstd::utf8::encode_utf8_decode_utf8(s@);
                }
                if write_connected(&mut state.clipboard, s) {
                    state.event_queue.push(NativeEvent::ClipboardWriteComplete { callback_id });
                    assert(state@ == committed_model(m0, write_handle, callback_id, connected, true));
                    1
                } else {
                    state.event_queue.push(NativeEvent::ClipboardError { callback_id, error_code: CLIPBOARD_ERR_INTERNAL });
                    assert(state@ == committed_model(m0, write_handle, callback_id, connected, false));
                    0
                }
            },
        },
    }
}

/// Cancels the write `write_handle`; its builder is dropped.
pub fn native_clipboard_write_cancel(state: &mut AppState, write_handle: u64)
    ensures
        handles_below(old(state)@) ==> handles_below(final(state)@),
        final(state)@ == without_write(old(state)@, write_handle),
{
    let ghost f = |b: ClipboardWriteBuilder| b@;
    let ghost s0 = state.clipboard.write_handles@;
    proof {
        lemma_map_drop_key(s0, write_handle, f);
        assert(builders_view(s0) =~= map_vals(s0, f));
    }
    remove_key_u64(&mut state.clipboard.write_handles, write_handle);
    assert(builders_view(state.clipboard.write_handles@) =~= map_vals(drop_key(s0, write_handle), f));
    assert(state@ =~= without_write(old(state)@, write_handle));
}

/// The bytes a blocking text read hands out for a buffer of `max_len`
/// bytes (at least 1): the longest prefix of the text that leaves room for
/// the terminating NUL; none when the read found no text.
pub open spec fn blocking_read_bytes(read: ClipboardRead, max_len: usize) -> Option<Seq<u8>> {
    match read {
        ClipboardRead::Text(t) => {
            let b = vstd::utf8::encode_utf8(t@);
            Some(b.take(if b.len() < max_len - 1 { b.len() as int } else { max_len - 1 }))
        },
        _ => None,
    }
}

/// Reads the clipboard's text at once for a buffer of `max_len` bytes.
/// Returns the bytes to copy (the terminating NUL is the caller's); `None`
/// when `max_len` is 0, no connection can be opened or there is no text.
pub fn native_clipboard_read(state: &mut AppState, max_len: usize) -> (out: Option<Vec<u8>>)
    ensures
        handles_below(old(state)@) ==> handles_below(final(state)@),
        max_len == 0 ==> out is None && final(state)@ == old(state)@,
        max_len > 0 ==> exists|connected: bool, read: ClipboardRead|
            (read is Unavailable <==> !connected) && final(state)@ == #[trigger] with_connection(old(state)@, connected)
                && (match out {
                Some(b) => #[trigger] blocking_read_bytes(read, max_len) == Some(b@),
                None => blocking_read_bytes(read, max_len) is None,
            }),
{
    if max_len == 0 {
        return None;
    }
    let ghost m0 = state@;
    let connected = ensure_connected(&mut state.clipboard);
    if !connected {
        assert(blocking_read_bytes(ClipboardRead::Unavailable, max_len) is None);
        return None;
    }
    let read = read_connected(&mut state.clipboard);
    assert(state@ == with_connection(m0, connected));
    match read {
        ClipboardRead::Text(t) => {
            let bytes = t.as_str().as_bytes();
            let n = if bytes.len() < max_len - 1 { bytes.len() } else { max_len - 1 };
            let mut out: Vec<u8> = Vec::new();
            let mut k: usize = 0;
            while k < n
                invariant
                    n <= bytes@.len(),
                    k <= n,
                    out@ == bytes@.take(k as int),
                decreases n - k,
            {
                out.push(bytes[k]);
                k = k + 1;
                assert(out@ =~= bytes@.take(k as int));
            }
            assert(blocking_read_bytes(ClipboardRead::Text(t), max_len) == Some(out@));
            Some(out)
        },
        _ => {
            assert(blocking_read_bytes(read, max_len) is None);
            None
        },
    }
}

/// The model after a direct write of `text`, given whether a connection
/// was open: with one, the text is handed to the system clipboard.
pub open spec fn direct_write_model(m: AppModel, connected: bool, text: Seq<char>) -> AppModel {
    if connected {
        with_handed(with_connection(m, true), text)
    } else {
        with_connection(m, false)
    }
}

/// Places `text` on the clipboard at once; failures are ignored.
pub fn native_clipboard_write(state: &mut AppState, text: String)
    ensures
        handles_below(old(state)@) ==> handles_below(final(state)@),
        exists|connected: bool|
            (old(state)@.clipboard.connected ==> connected) && final(state)@ == #[trigger] direct_write_model(
                old(state)@,
                connected,
                text@,
            ),
{
    let ghost m0 = state@;
    let ghost t = text@;
    let connected = ensure_connected(&mut state.clipboard);
    if connected {
        let _ = write_connected(&mut state.clipboard, text);
    }
    assert(state@ == direct_write_model(m0, connected, t));
}

} // verus!
