//! The Wayland clipboard backend: text reads and writes through
//! `smithay-clipboard`, answered with the same events and completed records
//! as the portable clipboard.
use vstd::prelude::*;

use crate::clipboard::{
    completed_view, keep_record, ClipboardCompletedData, ClipboardTarget, CompletedView, CLIPBOARD_ERR_EMPTY,
    CLIPBOARD_ERR_FORMAT_NOT_FOUND, CLIPBOARD_ERR_INTERNAL,
};
use crate::clipboard_ops::{plain_mime, plain_utf8_mime};
use crate::css::{chars_of, starts_with, starts_with_exec};
use crate::event::NativeEvent;
use crate::x11::PendingOperation;
use crate::table::register;

verus! {

/// A Wayland clipboard connection of the `smithay-clipboard` crate.
#[verifier::external_type_specification]
#[verifier::external_body]
pub struct ExWaylandClipboard(smithay_clipboard::Clipboard);

/// `smithay_clipboard::Clipboard::load` on the backend's connection: the
/// clipboard selection's text, or `None` where it reported an error.  What
/// comes back depends on the clipboard; the backend's record of loads
/// notes the selection read and what came back, and nothing else changes.
#[verifier::external_body]
fn load_clipboard(b: &mut WaylandClipboardBackend) -> (r: Option<String>)
    ensures
        final(b).loads@ == old(b).loads@.push((ClipboardTarget::Clipboard, opt_view(r))),
        final(b).stored@ == old(b).stored@,
        staged(final(b)) == staged(old(b)),
{
    b.clipboard.load().ok()
}

/// `smithay_clipboard::Clipboard::load_primary` on the backend's
/// connection: the primary selection's text, or `None` where it reported an
/// error.  What comes back depends on the selection; the backend's record
/// of loads notes the selection read and what came back, and nothing else
/// changes.
#[verifier::external_body]
fn load_primary_selection(b: &mut WaylandClipboardBackend) -> (r: Option<String>)
    ensures
        final(b).loads@ == old(b).loads@.push((ClipboardTarget::PrimarySelection, opt_view(r))),
        final(b).stored@ == old(b).stored@,
        staged(final(b)) == staged(old(b)),
{
    b.clipboard.load_primary().ok()
}

/// `smithay_clipboard::Clipboard::store` on the backend's connection:
/// hands `text` to the clipboard thread for the clipboard selection, which
/// the backend's record of stores notes; nothing comes back, and the staged
/// write is untouched.
#[verifier::external_body]
fn store_clipboard(b: &mut WaylandClipboardBackend, text: String)
    ensures
        final(b).stored@ == old(b).stored@.push((ClipboardTarget::Clipboard, text@)),
        final(b).loads@ == old(b).loads@,
        staged(final(b)) == staged(old(b)),
{
    b.clipboard.store(text)
}

/// `smithay_clipboard::Clipboard::store_primary` on the backend's
/// connection: hands `text` to the clipboard thread for the primary
/// selection, which the backend's record of stores notes; nothing comes
/// back, and the staged write is untouched.
#[verifier::external_body]
fn store_primary_selection(b: &mut WaylandClipboardBackend, text: String)
    ensures
        final(b).stored@ == old(b).stored@.push((ClipboardTarget::PrimarySelection, text@)),
        final(b).loads@ == old(b).loads@,
        staged(final(b)) == staged(old(b)),
{
    b.clipboard.store_primary(text)
}

/// A write being staged: the selection it goes to and its text and HTML.
pub struct WaylandWriteData {
    pub target: ClipboardTarget,
    pub text: Option<String>,
    pub html: Option<String>,
}

pub struct WriteDataView {
    pub target: ClipboardTarget,
    pub text: Option<Seq<char>>,
    pub html: Option<Seq<char>>,
}

/// The view of an optional string.
pub open spec fn opt_view(s: Option<String>) -> Option<Seq<char>> {
    match s {
        Some(t) => Some(t@),
        None => None,
    }
}

impl View for WaylandWriteData {
    type V = WriteDataView;

    open spec fn view(&self) -> WriteDataView {
        WriteDataView { target: self.target, text: opt_view(self.text), html: opt_view(self.html) }
    }
}

/// The Wayland clipboard backend.
pub struct WaylandClipboardBackend {
    /// The connection, made by the host from its window's display.
    pub clipboard: smithay_clipboard::Clipboard,
    /// The write being staged, if any.
    pub write_data: Option<WaylandWriteData>,
    /// The texts handed to the compositor, with the selection each went to,
    /// in order.
    pub stored: Ghost<Seq<(ClipboardTarget, Seq<char>)>>,
    /// The selections read from the compositor, each with what came back
    /// (`None` for an error), in order.
    pub loads: Ghost<Seq<(ClipboardTarget, Option<Seq<char>>)>>,
}

/// What the latest load from the compositor gave.
pub open spec fn last_loaded(b: &WaylandClipboardBackend) -> Option<Seq<char>> {
    b.loads@.last().1
}

/// The view of the staged write.
pub open spec fn staged(b: &WaylandClipboardBackend) -> Option<WriteDataView> {
    match b.write_data {
        Some(d) => Some(d@),
        None => None,
    }
}

/// The MIME type names text: it starts with `text/`.
pub open spec fn is_text_type(mime: Seq<char>) -> bool {
    starts_with(mime, 0, mime.len() as int, "text/"@)
}

/// What one read gave: text, or nothing where the clipboard reported an error.
pub open spec fn loaded_view(loaded: Option<String>) -> Option<Seq<char>> {
    opt_view(loaded)
}

/// The completed records after a read for `callback_id` that loaded
/// `loaded` at `now_ns`: the text's bytes are kept when there is text.
pub open spec fn read_records(
    completed: Seq<(u64, CompletedView)>,
    callback_id: u64,
    loaded: Option<Seq<char>>,
    now_ns: u64,
) -> Seq<(u64, CompletedView)> {
    match loaded {
        Some(t) => if t.len() > 0 {
            register(
                completed,
                callback_id,
                CompletedView {
                    data: vstd::utf8::encode_utf8(t),
                    formats: None,
                    format_cstrings: Seq::empty(),
                    completed_at: now_ns,
                },
            )
        } else {
            completed
        },
        None => completed,
    }
}

/// The event a read for `callback_id` that loaded `loaded` ends with: data
/// ready with the byte count, an empty error for empty text, an internal
/// error where the clipboard reported one.
pub open spec fn read_event(callback_id: u64, loaded: Option<Seq<char>>) -> NativeEvent {
    match loaded {
        Some(t) => if t.len() > 0 {
            NativeEvent::ClipboardDataReady { callback_id, data_size: vstd::utf8::encode_utf8(t).len() as usize }
        } else {
            NativeEvent::ClipboardError { callback_id, error_code: CLIPBOARD_ERR_EMPTY }
        },
        None => NativeEvent::ClipboardError { callback_id, error_code: CLIPBOARD_ERR_INTERNAL },
    }
}

/// Text with a character encodes to at least one byte.
proof fn lemma_encoding_nonempty(t: Seq<char>)
    requires
        t.len() > 0,
    ensures
        vstd::utf8::encode_utf8(t).len() > 0,
{
    assert(vstd::utf8::encode_scalar(t[0] as u32).len() > 0);
}

/// Completes a read for `callback_id` with what the clipboard gave.
pub fn complete_wayland_read(
    callback_id: u64,
    loaded: Option<String>,
    now_ns: u64,
    event_queue: &mut Vec<NativeEvent>,
    completed: &mut Vec<(u64, ClipboardCompletedData)>,
)
    ensures
        final(event_queue)@ == old(event_queue)@.push(read_event(callback_id, loaded_view(loaded))),
        completed_view(final(completed)@) == read_records(
            completed_view(old(completed)@),
            callback_id,
            loaded_view(loaded),
            now_ns,
        ),
{
    match loaded {
        Some(text) => {
            if text.as_str().as_bytes().len() == 0 {
                proof {
                    if text@.len() > 0 {
                        lemma_encoding_nonempty(text@);
                    }
                }
                event_queue.push(NativeEvent::ClipboardError { callback_id, error_code: CLIPBOARD_ERR_EMPTY });
            } else {
                let data = text.as_str().as_bytes_vec();
                let data_size = data.len();
                let entry = ClipboardCompletedData { data, formats: None, format_cstrings: Vec::new(), completed_at: now_ns };
                assert(entry@.format_cstrings =~= Seq::<Seq<u8>>::empty());
                proof {
                    if text@.len() == 0 {
                        assert(text@ =~= Seq::<char>::empty());
                        assert(vstd::utf8::encode_utf8(text@) =~= Seq::<u8>::empty());
                    }
                }
                keep_record(completed, callback_id, entry);
                event_queue.push(NativeEvent::ClipboardDataReady { callback_id, data_size });
            }
        },
        None => {
            event_queue.push(NativeEvent::ClipboardError { callback_id, error_code: CLIPBOARD_ERR_INTERNAL });
        },
    }
}

/// The formats a probe that loaded `loaded` reports: both plain-text types
/// when there was non-empty text, else none.
pub open spec fn probed_formats(loaded: Option<Seq<char>>) -> Seq<Seq<char>> {
    match loaded {
        Some(t) => if t.len() > 0 {
            seq![plain_mime(), plain_utf8_mime()]
        } else {
            Seq::empty()
        },
        None => Seq::empty(),
    }
}

/// The record a format probe that loaded `loaded` at `now_ns` keeps: no
/// data, the probed formats.
pub open spec fn formats_record(loaded: Option<Seq<char>>, now_ns: u64) -> CompletedView {
    CompletedView {
        data: Seq::empty(),
        formats: Some(probed_formats(loaded)),
        format_cstrings: Seq::empty(),
        completed_at: now_ns,
    }
}

/// Completes a format query for `callback_id` with what the probe loaded:
/// the formats are kept and announced by their number.
pub fn complete_wayland_formats(
    callback_id: u64,
    loaded: Option<String>,
    now_ns: u64,
    event_queue: &mut Vec<NativeEvent>,
    completed: &mut Vec<(u64, ClipboardCompletedData)>,
)
    ensures
        final(event_queue)@ == old(event_queue)@.push(
            NativeEvent::ClipboardFormatsAvailable {
                callback_id,
                format_count: probed_formats(loaded_view(loaded)).len() as usize,
            },
        ),
        completed_view(final(completed)@) == register(
            completed_view(old(completed)@),
            callback_id,
            formats_record(loaded_view(loaded), now_ns),
        ),
{
    let nonempty = match &loaded {
        Some(t) => t.as_str().as_bytes().len() > 0,
        None => false,
    };
    proof {
        match loaded {
            Some(t) => {
                if t@.len() > 0 {
                    lemma_encoding_nonempty(t@);
                } else {
                    assert(t@ =~= Seq::<char>::empty());
                    assert(vstd::utf8::encode_utf8(t@) =~= Seq::<u8>::empty());
                }
            },
            None => {},
        }
    }
    let formats: Vec<String> = if nonempty {
        vec![crate::clipboard_ops::plain_mime_string(), crate::clipboard_ops::plain_utf8_mime_string()]
    } else {
        Vec::new()
    };
    let count = formats.len();
    let entry = ClipboardCompletedData { data: Vec::new(), formats: Some(formats), format_cstrings: Vec::new(), completed_at: now_ns };
    assert(entry@ == formats_record(loaded_view(loaded), now_ns)) by {
        assert(entry@.formats->0 =~= probed_formats(loaded_view(loaded)));
        assert(entry@.data =~= Seq::<u8>::empty());
        assert(entry@.format_cstrings =~= Seq::<Seq<u8>>::empty());
    }
    keep_record(completed, callback_id, entry);
    event_queue.push(NativeEvent::ClipboardFormatsAvailable { callback_id, format_count: count });
}

/// The text a commit of the staged write `d` hands to the clipboard: its
/// text, else its HTML as it stands (the clipboard takes text only).
pub open spec fn commit_payload(d: WriteDataView) -> Option<Seq<char>> {
    match d.text {
        Some(t) => Some(t),
        None => d.html,
    }
}

/// Picks the text a commit of `data` hands to the clipboard (see
/// `commit_payload`).
pub fn commit_text(data: WaylandWriteData) -> (r: Option<String>)
    ensures
        opt_view(r) == commit_payload(data@),
{
    match (data.text, data.html) {
        (Some(t), _) => Some(t),
        (None, Some(h)) => Some(h),
        (None, None) => None,
    }
}

impl WaylandClipboardBackend {
    /// A backend over `clipboard` with nothing staged and nothing stored.
    pub fn new(clipboard: smithay_clipboard::Clipboard) -> (b: Self)
        ensures
            staged(&b) is None,
            b.stored@ == Seq::<(ClipboardTarget, Seq<char>)>::empty(),
            b.loads@ == Seq::<(ClipboardTarget, Option<Seq<char>>)>::empty(),
    {
        WaylandClipboardBackend { clipboard, write_data: None, stored: Ghost(Seq::empty()), loads: Ghost(Seq::empty()) }
    }

    /// Reads the selection `target` from the compositor.
    fn load(&mut self, target: ClipboardTarget) -> (r: Option<String>)
        ensures
            final(self).loads@ == old(self).loads@.push((target, opt_view(r))),
            final(self).stored@ == old(self).stored@,
            staged(final(self)) == staged(old(self)),
    {
        match target {
            ClipboardTarget::Clipboard => load_clipboard(self),
            ClipboardTarget::PrimarySelection => load_primary_selection(self),
        }
    }

    /// Reads the selection `target` as `mime` for `callback_id`.  Only
    /// `text/` types are served: others give `Err(format not found)` and no
    /// event.  Otherwise the selection `target` is loaded, the read
    /// completes with what came back (see `complete_wayland_read`) and the
    /// result is `Ok`.
    pub fn read_format(
        &mut self,
        target: ClipboardTarget,
        mime: &str,
        callback_id: u64,
        event_queue: &mut Vec<NativeEvent>,
        completed: &mut Vec<(u64, ClipboardCompletedData)>,
    ) -> (r: Result<(), i32>)
        ensures
            staged(final(self)) == staged(old(self)),
            final(self).stored@ == old(self).stored@,
            !is_text_type(mime@) ==> r == Err::<(), i32>(CLIPBOARD_ERR_FORMAT_NOT_FOUND)
                && final(event_queue)@ == old(event_queue)@ && final(completed)@ == old(completed)@
                && final(self).loads@ == old(self).loads@,
            is_text_type(mime@) ==> r is Ok && final(self).loads@ == old(self).loads@.push(
                (target, last_loaded(final(self))),
            ) && final(event_queue)@ == old(event_queue)@.push(read_event(callback_id, last_loaded(final(self))))
                && exists|now_ns: u64|
                completed_view(final(completed)@) == #[trigger] read_records(
                    completed_view(old(completed)@),
                    callback_id,
                    last_loaded(final(self)),
                    now_ns,
                ),
    {
        let m = chars_of(mime);
        if !starts_with_exec(&m, 0, m.len(), &chars_of("text/")) {
            return Err(CLIPBOARD_ERR_FORMAT_NOT_FOUND);
        }
        let loaded = self.load(target);
        let now_ns = crate::timing::clock_nanos();
        complete_wayland_read(callback_id, loaded, now_ns, event_queue, completed);
        Ok(())
    }

    /// Asks which formats the selection `target` offers, for `callback_id`:
    /// the selection is loaded and the probe completes with what came back
    /// (see `complete_wayland_formats`); always `Ok`.
    pub fn get_formats(
        &mut self,
        target: ClipboardTarget,
        callback_id: u64,
        event_queue: &mut Vec<NativeEvent>,
        completed: &mut Vec<(u64, ClipboardCompletedData)>,
    ) -> (r: Result<(), i32>)
        ensures
            staged(final(self)) == staged(old(self)),
            final(self).stored@ == old(self).stored@,
            r is Ok,
            final(self).loads@ == old(self).loads@.push((target, last_loaded(final(self)))),
            final(event_queue)@ == old(event_queue)@.push(
                NativeEvent::ClipboardFormatsAvailable {
                    callback_id,
                    format_count: probed_formats(last_loaded(final(self))).len() as usize,
                },
            ),
            exists|now_ns: u64|
                completed_view(final(completed)@) == register(
                    completed_view(old(completed)@),
                    callback_id,
                    #[trigger] formats_record(last_loaded(final(self)), now_ns),
                ),
    {
        let loaded = self.load(target);
        let now_ns = crate::timing::clock_nanos();
        complete_wayland_formats(callback_id, loaded, now_ns, event_queue, completed);
        Ok(())
    }

    /// Stages `text` for the next commit to `target`; HTML staged earlier stays.
    pub fn write_text(&mut self, target: ClipboardTarget, text: String)
        ensures
            staged(final(self)) == Some(
                WriteDataView {
                    target,
                    text: Some(text@),
                    html: match staged(old(self)) {
                        Some(d) => d.html,
                        None => None,
                    },
                },
            ),
    {
        let html = match &mut self.write_data {
            Some(d) => {
                let mut h: Option<String> = None;
                std::mem::swap(&mut h, &mut d.html);
                h
            },
            None => None,
        };
        self.write_data = Some(WaylandWriteData { target, text: Some(text), html });
    }

    /// Stages `html` for the next commit to `target`; text staged earlier stays.
    pub fn write_html(&mut self, target: ClipboardTarget, html: String)
        ensures
            staged(final(self)) == Some(
                WriteDataView {
                    target,
                    text: match staged(old(self)) {
                        Some(d) => d.text,
                        None => None,
                    },
                    html: Some(html@),
                },
            ),
    {
        let text = match &mut self.write_data {
            Some(d) => {
                let mut t: Option<String> = None;
                std::mem::swap(&mut t, &mut d.text);
                t
            },
            None => None,
        };
        self.write_data = Some(WaylandWriteData { target, text, html: Some(html) });
    }

    /// Commits the staged write for `callback_id`: the text that
    /// `commit_text` picks is stored into the staged selection and a completion
    /// event is queued.  With nothing staged, or neither text nor HTML, an
    /// internal error is queued and returned.  The staged write is gone
    /// afterwards.
    pub fn write_commit(&mut self, callback_id: u64, event_queue: &mut Vec<NativeEvent>) -> (r: Result<(), i32>)
        ensures
            staged(final(self)) is None,
            (match staged(old(self)) {
                Some(d) => commit_payload(d) is Some,
                None => false,
            }) ==> r is Ok && final(event_queue)@ == old(event_queue)@.push(
                NativeEvent::ClipboardWriteComplete { callback_id },
            ),
            !(match staged(old(self)) {
                Some(d) => commit_payload(d) is Some,
                None => false,
            }) ==> r == Err::<(), i32>(CLIPBOARD_ERR_INTERNAL) && final(event_queue)@ == old(event_queue)@.push(
                NativeEvent::ClipboardError { callback_id, error_code: CLIPBOARD_ERR_INTERNAL },
            ),
            final(self).stored@ == (match staged(old(self)) {
                Some(d) => match commit_payload(d) {
                    Some(t) => old(self).stored@.push((d.target, t)),
                    None => old(self).stored@,
                },
                None => old(self).stored@,
            }),
    {
        let mut data: Option<WaylandWriteData> = None;
        std::mem::swap(&mut data, &mut self.write_data);
        let d = match data {
            Some(d) => d,
            None => {
                event_queue.push(NativeEvent::ClipboardError { callback_id, error_code: CLIPBOARD_ERR_INTERNAL });
                return Err(CLIPBOARD_ERR_INTERNAL);
            },
        };
        let target = d.target;
        let text = match commit_text(d) {
            Some(t) => t,
            None => {
                event_queue.push(NativeEvent::ClipboardError { callback_id, error_code: CLIPBOARD_ERR_INTERNAL });
                return Err(CLIPBOARD_ERR_INTERNAL);
            },
        };
        match target {
            ClipboardTarget::Clipboard => store_clipboard(self, text),
            ClipboardTarget::PrimarySelection => store_primary_selection(self, text),
        }
        event_queue.push(NativeEvent::ClipboardWriteComplete { callback_id });
        Ok(())
    }

    /// Drops the staged write.
    pub fn write_cancel(&mut self)
        ensures
            staged(final(self)) is None,
    {
        self.write_data = None;
    }

    /// Reads complete at once, so there is never anything to cancel: false.
    pub fn cancel(&mut self, callback_id: u64) -> (cancelled: bool)
        ensures
            !cancelled,
            staged(final(self)) == staged(old(self)),
    {
        false
    }

    /// The clipboard connection runs its own event loop, so there are no
    /// events to take: nothing changes.
    pub fn process_events(
        &mut self,
        event_queue: &mut Vec<NativeEvent>,
        completed: &mut Vec<(u64, ClipboardCompletedData)>,
        pending_ops: &mut Vec<(u64, PendingOperation)>,
    )
        ensures
            staged(final(self)) == staged(old(self)),
            final(event_queue)@ == old(event_queue)@,
            final(completed)@ == old(completed)@,
            final(pending_ops)@ == old(pending_ops)@,
    {
    }

    /// Reads complete at once, so nothing can time out: nothing changes.
    pub fn check_timeouts(&mut self, event_queue: &mut Vec<NativeEvent>, pending_ops: &mut Vec<(u64, PendingOperation)>)
        ensures
            staged(final(self)) == staged(old(self)),
            final(event_queue)@ == old(event_queue)@,
            final(pending_ops)@ == old(pending_ops)@,
    {
    }

    /// Drops the staged write (between tests).
    pub fn reset(&mut self)
        ensures
            staged(final(self)) is None,
    {
        self.write_data = None;
    }
}

} // verus!
