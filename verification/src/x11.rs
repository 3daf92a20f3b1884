//! The X11 clipboard backend's bookkeeping.
//!
//! X11 hands the clipboard around through selections: a read sends
//! `ConvertSelection` and waits for `SelectionNotify`, then reads a property
//! of the selection window, which may announce an incremental (`INCR`)
//! transfer that arrives in chunks through `PropertyNotify`.  While this
//! program owns a selection it answers `SelectionRequest`s from the data it
//! staged.  The host talks to the X server; this module decides, from each
//! event and each reply, what is kept, what is answered and what event the
//! program sees.
use vstd::prelude::*;

use crate::clipboard::{
    completed_view, keep_record, ClipboardCompletedData, ClipboardTarget, CompletedView, CLIPBOARD_ERR_EMPTY,
    CLIPBOARD_ERR_TIMEOUT,
};
use crate::css::{chars_of, is_word, window_is};
use crate::event::NativeEvent;
use crate::table::{
    drop_key, find_key_u32, find_key_u64, first_with_key, has_key, lemma_map_drop_key, lemma_map_first,
    lemma_map_register, lookup, map_vals, register, remove_key_u32, remove_key_u64,
};

verus! {

/// The atom `None` of the X protocol: no property, a refused conversion.
pub const ATOM_NONE: u32 = 0;

/// Error code of a read whose property could not be fetched.
pub const X11_ERR_PROPERTY: i32 = -1;

/// The atoms the clipboard protocol uses, interned once per connection.
#[derive(Clone, Copy)]
pub struct ClipboardAtoms {
    pub clipboard: u32,
    pub primary: u32,
    pub targets: u32,
    pub utf8_string: u32,
    pub incr: u32,
    pub text_plain: u32,
    pub text_plain_utf8: u32,
    pub text_html: u32,
    pub text_uri_list: u32,
    pub image_png: u32,
    /// The property of the selection window that receives converted data.
    pub transfer_property: u32,
}

/// What a pending read asked for.
#[derive(Debug, Clone, Copy, PartialEq, Eq, Structural)]
pub enum X11RequestType {
    /// The data of a selection.
    Data(ClipboardTarget),
    /// The list of formats offered (`TARGETS`).
    Formats,
}

/// A read waiting for its `SelectionNotify`.
#[derive(Clone, Copy)]
pub struct X11ReadRequest {
    pub callback_id: u64,
    pub request_type: X11RequestType,
    /// The target atom the conversion asked for.
    pub target_atom: u32,
    /// When the request was sent, in milliseconds.
    pub started_at_ms: u64,
}

/// The state of an operation as the host tracks it.
#[derive(Debug, Clone, Copy, PartialEq, Eq, Structural)]
pub enum PendingOpState {
    Pending,
    Completed,
    TimedOut,
}

/// An operation the host tracks by callback id.
#[derive(Debug, Clone, Copy, PartialEq, Eq, Structural)]
pub struct PendingOperation {
    pub state: PendingOpState,
    /// When the operation started, in milliseconds.
    pub started_at_ms: u64,
}

/// An incremental transfer in progress.
pub struct IncrTransfer {
    pub callback_id: u64,
    pub request_type: X11RequestType,
    /// The chunks received so far, in order.
    pub partial_data: Vec<u8>,
    /// The property format the transfer was announced with.
    pub expected_format: u8,
}

pub struct IncrView {
    pub callback_id: u64,
    pub request_type: X11RequestType,
    pub partial_data: Seq<u8>,
    pub expected_format: u8,
}

impl View for IncrTransfer {
    type V = IncrView;

    open spec fn view(&self) -> IncrView {
        IncrView {
            callback_id: self.callback_id,
            request_type: self.request_type,
            partial_data: self.partial_data@,
            expected_format: self.expected_format,
        }
    }
}

/// The data this program offers while it owns the clipboard selection.
pub struct X11WriteData {
    pub text: Option<String>,
    pub html: Option<String>,
    pub image_png: Option<Vec<u8>>,
    pub uri_list: Option<String>,
}

pub struct X11WriteView {
    pub text: Option<Seq<char>>,
    pub html: Option<Seq<char>>,
    pub image_png: Option<Seq<u8>>,
    pub uri_list: Option<Seq<char>>,
}

/// The view of an optional string.
pub open spec fn opt_chars(s: Option<String>) -> Option<Seq<char>> {
    match s {
        Some(t) => Some(t@),
        None => None,
    }
}

impl View for X11WriteData {
    type V = X11WriteView;

    open spec fn view(&self) -> X11WriteView {
        X11WriteView {
            text: opt_chars(self.text),
            html: opt_chars(self.html),
            image_png: match self.image_png {
                Some(p) => Some(p@),
                None => None,
            },
            uri_list: opt_chars(self.uri_list),
        }
    }
}

/// A property as the X server returned it.
pub struct PropertyReply {
    /// The property's type atom.
    pub type_atom: u32,
    /// Bits per item: 8, 16 or 32.
    pub format: u8,
    pub value: Vec<u8>,
}

pub struct PropertyView {
    pub type_atom: u32,
    pub format: u8,
    pub value: Seq<u8>,
}

impl View for PropertyReply {
    type V = PropertyView;

    open spec fn view(&self) -> PropertyView {
        PropertyView { type_atom: self.type_atom, format: self.format, value: self.value@ }
    }
}

/// The view of an optional reply.
pub open spec fn reply_view(r: Option<PropertyReply>) -> Option<PropertyView> {
    match r {
        Some(p) => Some(p@),
        None => None,
    }
}

/// The MIME type a conversion to `mime` asks for: the atom of a known
/// type, else `UTF8_STRING`.
pub open spec fn mime_atom(atoms: ClipboardAtoms, mime: Seq<char>) -> u32 {
    if mime == "text/plain"@ {
        atoms.text_plain
    } else if mime == "text/plain;charset=utf-8"@ {
        atoms.text_plain_utf8
    } else if mime == "text/html"@ {
        atoms.text_html
    } else if mime == "text/uri-list"@ {
        atoms.text_uri_list
    } else if mime == "image/png"@ {
        atoms.image_png
    } else {
        atoms.utf8_string
    }
}

/// The MIME type data of type `atom` is handed out as.
pub open spec fn atom_mime(atoms: ClipboardAtoms, atom: u32) -> Seq<char> {
    if atom == atoms.text_plain || atom == atoms.text_plain_utf8 {
        "text/plain"@
    } else if atom == atoms.text_html {
        "text/html"@
    } else if atom == atoms.text_uri_list {
        "text/uri-list"@
    } else if atom == atoms.image_png {
        "image/png"@
    } else if atom == atoms.utf8_string {
        "text/plain"@
    } else {
        "application/octet-stream"@
    }
}

/// The MIME type a target atom offered by another program is reported as,
/// if it is one this program knows.
pub open spec fn target_mime(atoms: ClipboardAtoms, atom: u32) -> Option<Seq<char>> {
    if atom == atoms.utf8_string || atom == atoms.text_plain {
        Some("text/plain"@)
    } else if atom == atoms.text_html {
        Some("text/html"@)
    } else if atom == atoms.image_png {
        Some("image/png"@)
    } else if atom == atoms.text_uri_list {
        Some("text/uri-list"@)
    } else {
        None
    }
}

/// The known MIME types of the target atoms `ids`, in order.
pub open spec fn target_mimes(atoms: ClipboardAtoms, ids: Seq<u32>) -> Seq<Seq<char>>
    decreases ids.len(),
{
    if ids.len() == 0 {
        Seq::empty()
    } else {
        let r = target_mimes(atoms, ids.drop_last());
        match target_mime(atoms, ids.last()) {
            Some(m) => r.push(m),
            None => r,
        }
    }
}

/// The views of a list of strings.
pub open spec fn strings_view(v: Seq<String>) -> Seq<Seq<char>> {
    v.map_values(|s: String| s@)
}

/// Four bytes read little-endian.
pub open spec fn u32_le(b0: u8, b1: u8, b2: u8, b3: u8) -> int {
    b0 + 256 * b1 + 65536 * b2 + 16777216 * b3
}

/// Four bytes read big-endian.
pub open spec fn u32_be(b0: u8, b1: u8, b2: u8, b3: u8) -> int {
    u32_le(b3, b2, b1, b0)
}

/// `a` is the `k`-th four-byte item of `value` read in the machine's byte
/// order, which is little- or big-endian.
pub open spec fn is_item(value: Seq<u8>, k: int, a: u32) -> bool {
    a == u32_le(value[4 * k], value[4 * k + 1], value[4 * k + 2], value[4 * k + 3])
        || a == u32_be(value[4 * k], value[4 * k + 1], value[4 * k + 2], value[4 * k + 3])
}

/// `ids` are the whole four-byte items of `value`, a trailing partial item
/// left out.
pub open spec fn items_of(value: Seq<u8>, ids: Seq<u32>) -> bool {
    &&& ids.len() == value.len() / 4
    &&& forall|k: int| 0 <= k < ids.len() ==> is_item(value, k, #[trigger] ids[k])
}

/// `formats` are what a `TARGETS` reply of format `format` holding `value`
/// lists: nothing unless its items are 32-bit atoms, else the known MIME
/// types among them.
pub open spec fn parsed_targets(atoms: ClipboardAtoms, format: u8, value: Seq<u8>, formats: Seq<Seq<char>>) -> bool {
    if format != 32 {
        formats == Seq::<Seq<char>>::empty()
    } else {
        exists|ids: Seq<u32>| items_of(value, ids) && formats == #[trigger] target_mimes(atoms, ids)
    }
}

/// `u32::from_ne_bytes`: four bytes read in the machine's byte order, which
/// is little- or big-endian.
#[verifier::external_body]
fn u32_from_ne_bytes(b0: u8, b1: u8, b2: u8, b3: u8) -> (r: u32)
    ensures
        r == u32_le(b0, b1, b2, b3) || r == u32_be(b0, b1, b2, b3),
{
    u32::from_ne_bytes([b0, b1, b2, b3])
}

/// Whether the characters `m` spell `lit`.
fn chars_are(m: &Vec<char>, lit: &str) -> (b: bool)
    ensures
        b == (m@ == lit@),
{
    let b = window_is(m, 0, m.len(), lit);
    proof {
        if b {
            assert(m@ =~= lit@);
        } else if m@ == lit@ {
            assert(is_word(m@, 0, m@.len() as int, lit@));
        }
    }
    b
}

/// The four-byte items of `value`.
pub fn items_from_bytes(value: &Vec<u8>) -> (ids: Vec<u32>)
    ensures
        items_of(value@, ids@),
{
    let mut ids: Vec<u32> = Vec::new();
    let mut pos: usize = 0;
    while 4 <= value.len() - pos
        invariant
            pos <= value.len(),
            pos == 4 * ids.len(),
            forall|k: int| 0 <= k < ids.len() ==> is_item(value@, k, #[trigger] ids@[k]),
        decreases value.len() - pos,
    {
        let a = u32_from_ne_bytes(value[pos], value[pos + 1], value[pos + 2], value[pos + 3]);
        ids.push(a);
        pos = pos + 4;
    }
    ids
}

impl ClipboardAtoms {
    /// The target atom a read of `mime` converts to.
    pub fn mime_to_atom(&self, mime: &str) -> (a: u32)
        ensures
            a == mime_atom(*self, mime@),
    {
        let m = chars_of(mime);
        if chars_are(&m, "text/plain") {
            self.text_plain
        } else if chars_are(&m, "text/plain;charset=utf-8") {
            self.text_plain_utf8
        } else if chars_are(&m, "text/html") {
            self.text_html
        } else if chars_are(&m, "text/uri-list") {
            self.text_uri_list
        } else if chars_are(&m, "image/png") {
            self.image_png
        } else {
            self.utf8_string
        }
    }

    /// The MIME type data of type `atom` is handed out as.
    pub fn atom_to_mime(&self, atom: u32) -> (m: &'static str)
        ensures
            m@ == atom_mime(*self, atom),
    {
        if atom == self.text_plain || atom == self.text_plain_utf8 {
            "text/plain"
        } else if atom == self.text_html {
            "text/html"
        } else if atom == self.text_uri_list {
            "text/uri-list"
        } else if atom == self.image_png {
            "image/png"
        } else if atom == self.utf8_string {
            "text/plain"
        } else {
            "application/octet-stream"
        }
    }

    /// The MIME type a target atom is reported as, if known.
    fn target_mime_string(&self, atom: u32) -> (r: Option<String>)
        ensures
            opt_chars(r) == target_mime(*self, atom),
    {
        if atom == self.utf8_string || atom == self.text_plain {
            Some("text/plain".to_owned())
        } else if atom == self.text_html {
            Some("text/html".to_owned())
        } else if atom == self.image_png {
            Some("image/png".to_owned())
        } else if atom == self.text_uri_list {
            Some("text/uri-list".to_owned())
        } else {
            None
        }
    }

    /// The known MIME types among the target atoms `ids`, in order.
    pub fn target_mimes_of(&self, ids: &Vec<u32>) -> (r: Vec<String>)
        ensures
            strings_view(r@) == target_mimes(*self, ids@),
    {
        let mut r: Vec<String> = Vec::new();
        let mut i: usize = 0;
        while i < ids.len()
            invariant
                i <= ids.len(),
                strings_view(r@) == target_mimes(*self, ids@.take(i as int)),
            decreases ids.len() - i,
        {
            proof {
                assert(ids@.take(i + 1).drop_last() =~= ids@.take(i as int));
            }
            let ghost before = r@;
            match self.target_mime_string(ids[i]) {
                Some(s) => {
                    r.push(s);
                    assert(strings_view(r@) =~= strings_view(before).push(s@));
                },
                None => {},
            }
            i = i + 1;
        }
        assert(ids@.take(ids.len() as int) =~= ids@);
        r
    }

    /// The MIME types a `TARGETS` reply of format `format` holding `value`
    /// lists (see `parsed_targets`).
    pub fn parse_targets(&self, format: u8, value: &Vec<u8>) -> (r: Vec<String>)
        ensures
            parsed_targets(*self, format, value@, strings_view(r@)),
    {
        if format != 32 {
            let r: Vec<String> = Vec::new();
            assert(strings_view(r@) =~= Seq::<Seq<char>>::empty());
            return r;
        }
        let ids = items_from_bytes(value);
        let r = self.target_mimes_of(&ids);
        assert(items_of(value@, ids@) && strings_view(r@) == target_mimes(*self, ids@));
        r
    }
}

/// What answers a `SelectionRequest`.
pub enum SelectionReply {
    /// Refuse: the notify names no property.
    Refuse,
    /// Store these target atoms (format 32, type `ATOM`) and notify.
    Targets(Vec<u32>),
    /// Store these bytes (format 8) with this type atom and notify.
    Data(Vec<u8>, u32),
}

pub enum ReplyView {
    Refuse,
    Targets(Seq<u32>),
    Data(Seq<u8>, u32),
}

impl View for SelectionReply {
    type V = ReplyView;

    open spec fn view(&self) -> ReplyView {
        match self {
            SelectionReply::Refuse => ReplyView::Refuse,
            SelectionReply::Targets(t) => ReplyView::Targets(t@),
            SelectionReply::Data(d, a) => ReplyView::Data(d@, *a),
        }
    }
}

/// The targets offered for the staged data `w`: `TARGETS` itself, then
/// `UTF8_STRING` and `text/plain` for text, `text/html`, `image/png` and
/// `text/uri-list` for what is staged of them.
pub open spec fn offered_targets(atoms: ClipboardAtoms, w: X11WriteView) -> Seq<u32> {
    seq![atoms.targets]
        + (if w.text is Some { seq![atoms.utf8_string, atoms.text_plain] } else { Seq::empty() })
        + (if w.html is Some { seq![atoms.text_html] } else { Seq::empty() })
        + (if w.image_png is Some { seq![atoms.image_png] } else { Seq::empty() })
        + (if w.uri_list is Some { seq![atoms.text_uri_list] } else { Seq::empty() })
}

/// The UTF-8 bytes of optional text, with the type atom they go out as.
pub open spec fn text_reply(t: Option<Seq<char>>, type_atom: u32) -> ReplyView {
    match t {
        Some(c) => ReplyView::Data(vstd::utf8::encode_utf8(c), type_atom),
        None => ReplyView::Refuse,
    }
}

/// The answer to a request for `target` with `write` staged: refused with
/// nothing staged or for a target not staged; the offered targets for
/// `TARGETS`; else the staged data of that kind.
pub open spec fn reply_for(atoms: ClipboardAtoms, write: Option<X11WriteView>, target: u32) -> ReplyView {
    match write {
        None => ReplyView::Refuse,
        Some(w) => if target == atoms.targets {
            ReplyView::Targets(offered_targets(atoms, w))
        } else if target == atoms.utf8_string || target == atoms.text_plain {
            text_reply(w.text, atoms.utf8_string)
        } else if target == atoms.text_html {
            text_reply(w.html, atoms.text_html)
        } else if target == atoms.image_png {
            match w.image_png {
                Some(p) => ReplyView::Data(p, atoms.image_png),
                None => ReplyView::Refuse,
            }
        } else if target == atoms.text_uri_list {
            text_reply(w.uri_list, atoms.text_uri_list)
        } else {
            ReplyView::Refuse
        },
    }
}

/// The bytes of optional staged text, with the type atom they go out as.
fn text_reply_of(t: &Option<String>, type_atom: u32) -> (r: SelectionReply)
    ensures
        r@ == text_reply(opt_chars(*t), type_atom),
{
    match t {
        Some(s) => SelectionReply::Data(s.as_str().as_bytes_vec(), type_atom),
        None => SelectionReply::Refuse,
    }
}

/// The X11 clipboard backend's state, apart from its connection.
pub struct X11ClipboardState {
    pub atoms: ClipboardAtoms,
    /// The hidden window that converts selections and owns ours.
    pub selection_window: u32,
    /// Reads waiting for their `SelectionNotify`, by callback id.
    pub pending_reads: Vec<(u64, X11ReadRequest)>,
    /// Incremental transfers in progress, by window.
    pub incr_transfers: Vec<(u32, IncrTransfer)>,
    /// What we offer while we own the clipboard selection.
    pub write_data: Option<X11WriteData>,
}

#[verifier::ext_equal]
pub struct X11Model {
    pub atoms: ClipboardAtoms,
    pub selection_window: u32,
    pub reads: Seq<(u64, X11ReadRequest)>,
    pub incrs: Seq<(u32, IncrView)>,
    pub write: Option<X11WriteView>,
}

pub open spec fn incrs_view(s: Seq<(u32, IncrTransfer)>) -> Seq<(u32, IncrView)> {
    s.map_values(|p: (u32, IncrTransfer)| (p.0, p.1@))
}

pub open spec fn write_view(w: Option<X11WriteData>) -> Option<X11WriteView> {
    match w {
        Some(d) => Some(d@),
        None => None,
    }
}

impl View for X11ClipboardState {
    type V = X11Model;

    open spec fn view(&self) -> X11Model {
        X11Model {
            atoms: self.atoms,
            selection_window: self.selection_window,
            reads: self.pending_reads@,
            incrs: incrs_view(self.incr_transfers@),
            write: write_view(self.write_data),
        }
    }
}

/// The staged data, or nothing staged yet.
pub open spec fn staged_or_empty(w: Option<X11WriteView>) -> X11WriteView {
    match w {
        Some(d) => d,
        None => X11WriteView { text: None, html: None, image_png: None, uri_list: None },
    }
}

/// The callback id of the first pending read that converts to `target`.
pub open spec fn first_for_target(s: Seq<(u64, X11ReadRequest)>, target: u32) -> Option<u64>
    decreases s.len(),
{
    if s.len() == 0 {
        None
    } else if s[0].1.target_atom == target {
        Some(s[0].0)
    } else {
        first_for_target(s.drop_first(), target)
    }
}

/// The tracked operations with that of `callback_id`, if tracked, moved to
/// state `st`.
pub open spec fn marked(
    ops: Seq<(u64, PendingOperation)>,
    callback_id: u64,
    st: PendingOpState,
) -> Seq<(u64, PendingOperation)> {
    match lookup(ops, callback_id) {
        Some(op) => ops.update(
            first_with_key(ops, callback_id),
            (callback_id, PendingOperation { state: st, started_at_ms: op.started_at_ms }),
        ),
        None => ops,
    }
}

/// Moves the tracked operation of `callback_id`, if any, to state `st`.
pub fn mark_op(ops: &mut Vec<(u64, PendingOperation)>, callback_id: u64, st: PendingOpState)
    ensures
        final(ops)@ == marked(old(ops)@, callback_id, st),
{
    match find_key_u64(ops, callback_id) {
        Some(i) => {
            let started_at_ms = ops[i].1.started_at_ms;
            ops.set(i, (callback_id, PendingOperation { state: st, started_at_ms }));
        },
        None => {},
    }
}

/// What to do after a `SelectionNotify`.
#[derive(Debug, Clone, Copy, PartialEq, Eq, Structural)]
pub enum NotifyAction {
    /// No pending read asked for that target.
    Ignore,
    /// The read is answered already.
    Finished,
    /// Fetch (and delete) `property` of the selection window and hand the
    /// reply to `complete_selection_notify`.
    FetchProperty { callback_id: u64, property: u32 },
}

/// The record of finished data.
pub open spec fn data_record(data: Seq<u8>, now_ns: u64) -> CompletedView {
    CompletedView { data, formats: None, format_cstrings: Seq::empty(), completed_at: now_ns }
}

/// The record of a finished format query.
pub open spec fn formats_record(formats: Seq<Seq<char>>, now_ns: u64) -> CompletedView {
    CompletedView { data: Seq::empty(), formats: Some(formats), format_cstrings: Seq::empty(), completed_at: now_ns }
}

impl X11ClipboardState {
    /// A backend state with nothing pending and nothing staged.
    pub fn new(atoms: ClipboardAtoms, selection_window: u32) -> (s: Self)
        ensures
            s@ == (X11Model { atoms, selection_window, reads: Seq::empty(), incrs: Seq::empty(), write: None }),
    {
        let s = X11ClipboardState {
            atoms,
            selection_window,
            pending_reads: Vec::new(),
            incr_transfers: Vec::new(),
            write_data: None,
        };
        assert(s@.incrs =~= Seq::<(u32, IncrView)>::empty());
        s
    }

    /// Tracks a read sent for `callback_id` at `now_ms`, replacing an
    /// earlier one with that id.
    pub fn track_read(&mut self, callback_id: u64, request_type: X11RequestType, target_atom: u32, now_ms: u64)
        ensures
            final(self)@ == (X11Model {
                reads: register(
                    old(self)@.reads,
                    callback_id,
                    X11ReadRequest { callback_id, request_type, target_atom, started_at_ms: now_ms },
                ),
                ..old(self)@
            }),
    {
        remove_key_u64(&mut self.pending_reads, callback_id);
        self.pending_reads.push((callback_id, X11ReadRequest { callback_id, request_type, target_atom, started_at_ms: now_ms }));
    }

    /// Stages `text`, keeping what else is staged.
    pub fn stage_text(&mut self, text: &str)
        ensures
            final(self)@ == (X11Model {
                write: Some(X11WriteView { text: Some(text@), ..staged_or_empty(old(self)@.write) }),
                ..old(self)@
            }),
    {
        let mut d = self.take_staged();
        d.text = Some(text.to_owned());
        self.write_data = Some(d);
    }

    /// Stages `html`, keeping what else is staged.
    pub fn stage_html(&mut self, html: &str)
        ensures
            final(self)@ == (X11Model {
                write: Some(X11WriteView { html: Some(html@), ..staged_or_empty(old(self)@.write) }),
                ..old(self)@
            }),
    {
        let mut d = self.take_staged();
        d.html = Some(html.to_owned());
        self.write_data = Some(d);
    }

    /// Stages a PNG image, keeping what else is staged.
    pub fn stage_image(&mut self, png_data: &[u8])
        ensures
            final(self)@ == (X11Model {
                write: Some(X11WriteView { image_png: Some(png_data@), ..staged_or_empty(old(self)@.write) }),
                ..old(self)@
            }),
    {
        let mut d = self.take_staged();
        d.image_png = Some(vstd::slice::slice_to_vec(png_data));
        self.write_data = Some(d);
    }

    fn take_staged(&mut self) -> (d: X11WriteData)
        ensures
            d@ == staged_or_empty(old(self)@.write),
            final(self)@ == (X11Model { write: None, ..old(self)@ }),
    {
        let mut w: Option<X11WriteData> = None;
        std::mem::swap(&mut w, &mut self.write_data);
        match w {
            Some(d) => d,
            None => X11WriteData { text: None, html: None, image_png: None, uri_list: None },
        }
    }

    /// We lost the clipboard selection: nothing is offered any more.
    pub fn selection_cleared(&mut self)
        ensures
            final(self)@ == (X11Model { write: None, ..old(self)@ }),
    {
        self.write_data = None;
    }

    /// Stops waiting for the read of `callback_id`; true when one was pending.
    pub fn cancel(&mut self, callback_id: u64) -> (r: bool)
        ensures
            r == has_key(old(self)@.reads, callback_id),
            final(self)@ == (X11Model { reads: drop_key(old(self)@.reads, callback_id), ..old(self)@ }),
    {
        let r = find_key_u64(&self.pending_reads, callback_id).is_some();
        remove_key_u64(&mut self.pending_reads, callback_id);
        r
    }

    /// The callback id of the first pending read converting to `target`.
    pub fn pending_for_target(&self, target: u32) -> (r: Option<u64>)
        ensures
            r == first_for_target(self@.reads, target),
    {
        let s = &self.pending_reads;
        let mut i: usize = 0;
        assert(s@.subrange(0, s@.len() as int) =~= s@);
        while i < s.len()
            invariant
                i <= s.len(),
                s@ == self@.reads,
                first_for_target(s@, target) == first_for_target(s@.subrange(i as int, s@.len() as int), target),
            decreases s.len() - i,
        {
            let ghost sub = s@.subrange(i as int, s@.len() as int);
            assert(sub[0] == s@[i as int]);
            if s[i].1.target_atom == target {
                assert(sub.len() > 0);
                assert(first_for_target(sub, target) == Some(sub[0].0));
                return Some(s[i].0);
            }
            assert(sub.drop_first() =~= s@.subrange(i + 1, s@.len() as int));
            i = i + 1;
        }
        None
    }

    /// Takes the pending read of `callback_id` out of the table.
    fn take_read(&mut self, callback_id: u64) -> (r: Option<X11ReadRequest>)
        ensures
            r == lookup(old(self)@.reads, callback_id),
            final(self)@ == (X11Model { reads: drop_key(old(self)@.reads, callback_id), ..old(self)@ }),
    {
        let r = match find_key_u64(&self.pending_reads, callback_id) {
            Some(i) => Some(self.pending_reads[i].1),
            None => None,
        };
        remove_key_u64(&mut self.pending_reads, callback_id);
        r
    }

    /// The answer to a `SelectionRequest` for `target` (see `reply_for`).
    pub fn selection_reply(&self, target: u32) -> (r: SelectionReply)
        ensures
            r@ == reply_for(self.atoms, write_view(self.write_data), target),
    {
        let a = self.atoms;
        match &self.write_data {
            None => SelectionReply::Refuse,
            Some(w) => {
                if target == a.targets {
                    let mut t: Vec<u32> = vec![a.targets];
                    if w.text.is_some() {
                        t.push(a.utf8_string);
                        t.push(a.text_plain);
                    }
                    if w.html.is_some() {
                        t.push(a.text_html);
                    }
                    if w.image_png.is_some() {
                        t.push(a.image_png);
                    }
                    if w.uri_list.is_some() {
                        t.push(a.text_uri_list);
                    }
                    assert(t@ =~= offered_targets(a, w@));
                    SelectionReply::Targets(t)
                } else if target == a.utf8_string || target == a.text_plain {
                    text_reply_of(&w.text, a.utf8_string)
                } else if target == a.text_html {
                    text_reply_of(&w.html, a.text_html)
                } else if target == a.image_png {
                    match &w.image_png {
                        Some(p) => SelectionReply::Data(p.clone(), a.image_png),
                        None => SelectionReply::Refuse,
                    }
                } else if target == a.text_uri_list {
                    text_reply_of(&w.uri_list, a.text_uri_list)
                } else {
                    SelectionReply::Refuse
                }
            },
        }
    }
}

/// The model after the read `callback_id` was answered with the fetched
/// property `reply`: the read is no longer pending, and an `INCR` reply
/// starts an incremental transfer on the selection window.
pub open spec fn notified_model(m: X11Model, callback_id: u64, reply: Option<PropertyView>) -> X11Model {
    X11Model {
        reads: drop_key(m.reads, callback_id),
        incrs: match reply {
            Some(r) => if r.type_atom == m.atoms.incr {
                match lookup(m.reads, callback_id) {
                    Some(req) => register(
                        m.incrs,
                        m.selection_window,
                        IncrView {
                            callback_id,
                            request_type: req.request_type,
                            partial_data: Seq::empty(),
                            expected_format: r.format,
                        },
                    ),
                    None => m.incrs,
                }
            } else {
                m.incrs
            },
            None => m.incrs,
        },
        ..m
    }
}

/// The tracked operations after that answer: a complete property finishes
/// the operation.
pub open spec fn notified_ops(
    m: X11Model,
    ops: Seq<(u64, PendingOperation)>,
    callback_id: u64,
    reply: Option<PropertyView>,
) -> Seq<(u64, PendingOperation)> {
    match reply {
        Some(r) => if r.type_atom != m.atoms.incr {
            marked(ops, callback_id, PendingOpState::Completed)
        } else {
            ops
        },
        None => ops,
    }
}

/// The events and completed records after that answer: an error where the
/// property could not be fetched; nothing yet for an `INCR` reply; else the
/// formats listed, or the data, kept and announced.
pub open spec fn notify_outcome(
    m: X11Model,
    callback_id: u64,
    reply: Option<PropertyView>,
    now_ns: u64,
    events0: Seq<NativeEvent>,
    events: Seq<NativeEvent>,
    completed0: Seq<(u64, CompletedView)>,
    completed: Seq<(u64, CompletedView)>,
) -> bool {
    match reply {
        None => events == events0.push(NativeEvent::ClipboardError { callback_id, error_code: X11_ERR_PROPERTY })
            && completed == completed0,
        Some(r) => if r.type_atom == m.atoms.incr {
            events == events0 && completed == completed0
        } else {
            match lookup(m.reads, callback_id) {
                None => events == events0 && completed == completed0,
                Some(req) => if req.request_type == X11RequestType::Formats {
                    exists|fs: Seq<Seq<char>>|
                        #[trigger] parsed_targets(m.atoms, r.format, r.value, fs)
                            && completed == register(completed0, callback_id, formats_record(fs, now_ns))
                            && events == events0.push(
                            NativeEvent::ClipboardFormatsAvailable { callback_id, format_count: fs.len() as usize },
                        )
                } else {
                    completed == register(completed0, callback_id, data_record(r.value, now_ns))
                        && events == events0.push(
                        NativeEvent::ClipboardDataReady { callback_id, data_size: r.value.len() as usize },
                    )
                },
            }
        },
    }
}

/// Whether a `PropertyNotify` on `window` carries a chunk to fetch: a new
/// value on the window of an incremental transfer.
pub open spec fn wants_property(m: X11Model, window: u32, new_value: bool) -> bool {
    new_value && has_key(m.incrs, window)
}

/// The transfer on `window` that the fetched chunk `reply` finishes, if the
/// chunk is empty.
pub open spec fn chunk_finishes(m: X11Model, window: u32, reply: Option<PropertyView>) -> Option<IncrView> {
    match reply {
        Some(r) => match lookup(m.incrs, window) {
            Some(t) => if r.value.len() == 0 {
                Some(t)
            } else {
                None
            },
            None => None,
        },
        None => None,
    }
}

/// The model after the chunk `reply` of the transfer on `window` arrived:
/// an empty chunk ends the transfer, another is appended to its data.
pub open spec fn chunk_model(m: X11Model, window: u32, reply: Option<PropertyView>) -> X11Model {
    match reply {
        Some(r) => match lookup(m.incrs, window) {
            Some(t) => if r.value.len() == 0 {
                X11Model { incrs: drop_key(m.incrs, window), ..m }
            } else {
                X11Model {
                    incrs: m.incrs.update(
                        first_with_key(m.incrs, window),
                        (window, IncrView { partial_data: t.partial_data + r.value, ..t }),
                    ),
                    ..m
                }
            },
            None => m,
        },
        None => m,
    }
}

/// Removing one pair with key `k` and then every pair with it drops the key.
proof fn lemma_drop_key_after_remove<V>(s: Seq<(u32, V)>, k: u32, i: int)
    requires
        0 <= i < s.len(),
        s[i].0 == k,
    ensures
        drop_key(s.remove(i), k) == drop_key(s, k),
    decreases s.len(),
{
    if i == s.len() - 1 {
        assert(s.remove(i) =~= s.drop_last());
    } else {
        lemma_drop_key_after_remove(s.drop_last(), k, i);
        assert(s.remove(i).drop_last() =~= s.drop_last().remove(i));
        assert(s.remove(i).last() == s.last());
    }
}

impl X11ClipboardState {
    /// Decides what a `SelectionNotify` for `target` naming `property`
    /// calls for.  It answers the first pending read converting to
    /// `target`; with none it is ignored.  A notify naming no property
    /// means the owner refused (the selection is empty or has no such
    /// format): the read ends with an empty-clipboard error.
    /// Otherwise the property is to be fetched.
    pub fn selection_notify(
        &mut self,
        target: u32,
        property: u32,
        event_queue: &mut Vec<NativeEvent>,
        pending_ops: &mut Vec<(u64, PendingOperation)>,
    ) -> (act: NotifyAction)
        ensures
            (match first_for_target(old(self)@.reads, target) {
                None => act == NotifyAction::Ignore && final(self)@ == old(self)@ && final(event_queue)@ == old(
                    event_queue,
                )@ && final(pending_ops)@ == old(pending_ops)@,
                Some(cb) => if property == ATOM_NONE {
                    act == NotifyAction::Finished && final(self)@ == (X11Model {
                        reads: drop_key(old(self)@.reads, cb),
                        ..old(self)@
                    }) && final(pending_ops)@ == marked(old(pending_ops)@, cb, PendingOpState::Completed)
                        && final(event_queue)@ == old(event_queue)@.push(
                        NativeEvent::ClipboardError { callback_id: cb, error_code: CLIPBOARD_ERR_EMPTY },
                    )
                } else {
                    act == (NotifyAction::FetchProperty { callback_id: cb, property }) && final(self)@ == old(
                        self,
                    )@ && final(event_queue)@ == old(event_queue)@ && final(pending_ops)@ == old(pending_ops)@
                },
            }),
    {
        let callback_id = match self.pending_for_target(target) {
            Some(cb) => cb,
            None => return NotifyAction::Ignore,
        };
        if property == ATOM_NONE {
            let _ = self.take_read(callback_id);
            mark_op(pending_ops, callback_id, PendingOpState::Completed);
            event_queue.push(NativeEvent::ClipboardError { callback_id, error_code: CLIPBOARD_ERR_EMPTY });
            return NotifyAction::Finished;
        }
        NotifyAction::FetchProperty { callback_id, property }
    }

    fn start_transfer(&mut self, t: IncrTransfer)
        ensures
            final(self)@ == (X11Model {
                incrs: register(old(self)@.incrs, old(self)@.selection_window, t@),
                ..old(self)@
            }),
    {
        let ghost f = |x: IncrTransfer| x@;
        let ghost s0 = self.incr_transfers@;
        let w = self.selection_window;
        proof {
            lemma_map_register(s0, w, t, f);
            assert(incrs_view(s0) =~= map_vals(s0, f));
        }
        remove_key_u32(&mut self.incr_transfers, w);
        self.incr_transfers.push((w, t));
        assert(incrs_view(self.incr_transfers@) =~= map_vals(register(s0, w, t), f));
    }

    /// Completes the read `callback_id` with the property fetched for its
    /// `SelectionNotify` (`None` where the fetch failed): see
    /// `notified_model`, `notified_ops` and `notify_outcome`.
    pub fn complete_selection_notify(
        &mut self,
        callback_id: u64,
        reply: Option<PropertyReply>,
        now_ns: u64,
        event_queue: &mut Vec<NativeEvent>,
        completed: &mut Vec<(u64, ClipboardCompletedData)>,
        pending_ops: &mut Vec<(u64, PendingOperation)>,
    )
        ensures
            final(self)@ == notified_model(old(self)@, callback_id, reply_view(reply)),
            final(pending_ops)@ == notified_ops(old(self)@, old(pending_ops)@, callback_id, reply_view(reply)),
            notify_outcome(
                old(self)@,
                callback_id,
                reply_view(reply),
                now_ns,
                old(event_queue)@,
                final(event_queue)@,
                completed_view(old(completed)@),
                completed_view(final(completed)@),
            ),
    {
        let ghost m0 = self@;
        let request = self.take_read(callback_id);
        let r = match reply {
            None => {
                event_queue.push(NativeEvent::ClipboardError { callback_id, error_code: X11_ERR_PROPERTY });
                return;
            },
            Some(r) => r,
        };
        if r.type_atom == self.atoms.incr {
            match request {
                Some(req) => {
                    let t = IncrTransfer {
                        callback_id,
                        request_type: req.request_type,
                        partial_data: Vec::new(),
                        expected_format: r.format,
                    };
                    assert(t@.partial_data =~= Seq::<u8>::empty());
                    self.start_transfer(t);
                },
                None => {},
            }
            return;
        }
        mark_op(pending_ops, callback_id, PendingOpState::Completed);
        match request {
            Some(req) => {
                if req.request_type == X11RequestType::Formats {
                    let formats = self.atoms.parse_targets(r.format, &r.value);
                    let format_count = formats.len();
                    let ghost fs = strings_view(formats@);
                    let entry = ClipboardCompletedData {
                        data: Vec::new(),
                        formats: Some(formats),
                        format_cstrings: Vec::new(),
                        completed_at: now_ns,
                    };
                    assert(entry@ == formats_record(fs, now_ns)) by {
                        assert(entry@.data =~= Seq::<u8>::empty());
                        assert(entry@.format_cstrings =~= Seq::<Seq<u8>>::empty());
                        assert(entry@.formats->0 =~= fs);
                    }
                    keep_record(completed, callback_id, entry);
                    event_queue.push(NativeEvent::ClipboardFormatsAvailable { callback_id, format_count });
                    assert(parsed_targets(m0.atoms, r.format, r.value@, fs));
                } else {
                    let data = r.value;
                    let data_size = data.len();
                    let entry = ClipboardCompletedData { data, formats: None, format_cstrings: Vec::new(), completed_at: now_ns };
                    assert(entry@ == data_record(r.value@, now_ns)) by {
                        assert(entry@.format_cstrings =~= Seq::<Seq<u8>>::empty());
                    }
                    keep_record(completed, callback_id, entry);
                    event_queue.push(NativeEvent::ClipboardDataReady { callback_id, data_size });
                }
            },
            None => {},
        }
    }

    /// Whether a `PropertyNotify` on `window` carries a chunk to fetch.
    pub fn property_notify(&self, window: u32, new_value: bool) -> (r: bool)
        ensures
            r == wants_property(self@, window, new_value),
    {
        if !new_value {
            return false;
        }
        let r = find_key_u32(&self.incr_transfers, window).is_some();
        proof {
            lemma_map_first(self.incr_transfers@, window, |x: IncrTransfer| x@);
            assert(incrs_view(self.incr_transfers@) =~= map_vals(self.incr_transfers@, |x: IncrTransfer| x@));
        }
        r
    }

    /// Takes the fetched chunk `reply` (`None` where the fetch failed) of the
    /// transfer on `window`: see `chunk_model`.  An empty chunk finishes
    /// the transfer: its data is kept and announced and its operation
    /// completes.
    pub fn complete_property_notify(
        &mut self,
        window: u32,
        reply: Option<PropertyReply>,
        now_ns: u64,
        event_queue: &mut Vec<NativeEvent>,
        completed: &mut Vec<(u64, ClipboardCompletedData)>,
        pending_ops: &mut Vec<(u64, PendingOperation)>,
    )
        ensures
            final(self)@ == chunk_model(old(self)@, window, reply_view(reply)),
            (match chunk_finishes(old(self)@, window, reply_view(reply)) {
                Some(t) => final(pending_ops)@ == marked(old(pending_ops)@, t.callback_id, PendingOpState::Completed)
                    && completed_view(final(completed)@) == register(
                    completed_view(old(completed)@),
                    t.callback_id,
                    data_record(t.partial_data, now_ns),
                ) && final(event_queue)@ == old(event_queue)@.push(
                    NativeEvent::ClipboardDataReady { callback_id: t.callback_id, data_size: t.partial_data.len() as usize },
                ),
                None => final(pending_ops)@ == old(pending_ops)@ && final(completed)@ == old(completed)@
                    && final(event_queue)@ == old(event_queue)@,
            }),
    {
        let r = match reply {
            Some(r) => r,
            None => return,
        };
        let ghost f = |x: IncrTransfer| x@;
        let ghost s0 = self.incr_transfers@;
        proof {
            lemma_map_first(s0, window, f);
            assert(incrs_view(s0) =~= map_vals(s0, f));
        }
        let i = match find_key_u32(&self.incr_transfers, window) {
            Some(i) => i,
            None => return,
        };
        let mut e = self.incr_transfers.remove(i);
        if r.value.len() == 0 {
            proof {
                lemma_drop_key_after_remove(s0, window, i as int);
                lemma_map_drop_key(s0, window, f);
            }
            remove_key_u32(&mut self.incr_transfers, window);
            assert(incrs_view(self.incr_transfers@) =~= map_vals(drop_key(s0, window), f));
            let t = e.1;
            let cb = t.callback_id;
            let ghost tv = t@;
            mark_op(pending_ops, cb, PendingOpState::Completed);
            let data_size = t.partial_data.len();
            let entry = ClipboardCompletedData {
                data: t.partial_data,
                formats: None,
                format_cstrings: Vec::new(),
                completed_at: now_ns,
            };
            assert(entry@ == data_record(tv.partial_data, now_ns)) by {
                assert(entry@.format_cstrings =~= Seq::<Seq<u8>>::empty());
            }
            keep_record(completed, cb, entry);
            event_queue.push(NativeEvent::ClipboardDataReady { callback_id: cb, data_size });
        } else {
            let mut v = r.value;
            e.1.partial_data.append(&mut v);
            self.incr_transfers.insert(i, e);
            assert(self.incr_transfers@ =~= s0.update(i as int, e));
            assert(incrs_view(self.incr_transfers@) =~= incrs_view(s0).update(i as int, (window, e.1@)));
        }
    }
}

/// A read sent at `req.started_at_ms` has waited longer than `timeout_ms`
/// at `now_ms`.
pub open spec fn read_expired(req: X11ReadRequest, now_ms: u64, timeout_ms: u64) -> bool {
    now_ms - req.started_at_ms > timeout_ms
}

/// The callback ids of the pending reads that have expired, in table order.
pub open spec fn expired_reads(s: Seq<(u64, X11ReadRequest)>, now_ms: u64, timeout_ms: u64) -> Seq<u64>
    decreases s.len(),
{
    if s.len() == 0 {
        Seq::empty()
    } else {
        let r = expired_reads(s.drop_last(), now_ms, timeout_ms);
        if read_expired(s.last().1, now_ms, timeout_ms) {
            r.push(s.last().0)
        } else {
            r
        }
    }
}

/// The pending reads that have not expired, in table order.
pub open spec fn live_reads(s: Seq<(u64, X11ReadRequest)>, now_ms: u64, timeout_ms: u64) -> Seq<(u64, X11ReadRequest)>
    decreases s.len(),
{
    if s.len() == 0 {
        s
    } else {
        let r = live_reads(s.drop_last(), now_ms, timeout_ms);
        if read_expired(s.last().1, now_ms, timeout_ms) {
            r
        } else {
            r.push(s.last())
        }
    }
}

/// A transfer has expired when its tracked operation started longer than
/// `timeout_ms` before `now_ms`; an untracked one never expires.
pub open spec fn transfer_expired(
    t: IncrView,
    ops: Seq<(u64, PendingOperation)>,
    now_ms: u64,
    timeout_ms: u64,
) -> bool {
    match lookup(ops, t.callback_id) {
        Some(op) => now_ms - op.started_at_ms > timeout_ms,
        None => false,
    }
}

/// The callback ids of the expired transfers, in table order.
pub open spec fn expired_transfers(
    s: Seq<(u32, IncrView)>,
    ops: Seq<(u64, PendingOperation)>,
    now_ms: u64,
    timeout_ms: u64,
) -> Seq<u64>
    decreases s.len(),
{
    if s.len() == 0 {
        Seq::empty()
    } else {
        let r = expired_transfers(s.drop_last(), ops, now_ms, timeout_ms);
        if transfer_expired(s.last().1, ops, now_ms, timeout_ms) {
            r.push(s.last().1.callback_id)
        } else {
            r
        }
    }
}

/// The transfers that have not expired, in table order.
pub open spec fn live_transfers(
    s: Seq<(u32, IncrView)>,
    ops: Seq<(u64, PendingOperation)>,
    now_ms: u64,
    timeout_ms: u64,
) -> Seq<(u32, IncrView)>
    decreases s.len(),
{
    if s.len() == 0 {
        s
    } else {
        let r = live_transfers(s.drop_last(), ops, now_ms, timeout_ms);
        if transfer_expired(s.last().1, ops, now_ms, timeout_ms) {
            r
        } else {
            r.push(s.last())
        }
    }
}

/// The tracked operations with those of `ids` moved, one after the other,
/// to state `st`.
pub open spec fn marked_all(
    ops: Seq<(u64, PendingOperation)>,
    ids: Seq<u64>,
    st: PendingOpState,
) -> Seq<(u64, PendingOperation)>
    decreases ids.len(),
{
    if ids.len() == 0 {
        ops
    } else {
        marked(marked_all(ops, ids.drop_last(), st), ids.last(), st)
    }
}

/// A timeout error for each of `ids`, in order.
pub open spec fn timeout_errors(ids: Seq<u64>) -> Seq<NativeEvent> {
    ids.map_values(|cb: u64| NativeEvent::ClipboardError { callback_id: cb, error_code: CLIPBOARD_ERR_TIMEOUT })
}

/// The tracked operations once the expired reads have timed out.
pub open spec fn ops_after_reads(
    m: X11Model,
    ops: Seq<(u64, PendingOperation)>,
    now_ms: u64,
    timeout_ms: u64,
) -> Seq<(u64, PendingOperation)> {
    marked_all(ops, expired_reads(m.reads, now_ms, timeout_ms), PendingOpState::TimedOut)
}

/// `now_ms - start_ms > timeout_ms`, a start after `now_ms` counting as no
/// time elapsed.
fn waited_beyond(now_ms: u64, start_ms: u64, timeout_ms: u64) -> (b: bool)
    ensures
        b == (now_ms - start_ms > timeout_ms),
{
    now_ms >= start_ms && now_ms - start_ms > timeout_ms
}

/// Times out each of `ids` in order: its operation, if tracked, moves to
/// timed out and a timeout error is queued for it.
fn time_out_all(ids: &Vec<u64>, event_queue: &mut Vec<NativeEvent>, pending_ops: &mut Vec<(u64, PendingOperation)>)
    ensures
        final(pending_ops)@ == marked_all(old(pending_ops)@, ids@, PendingOpState::TimedOut),
        final(event_queue)@ == old(event_queue)@ + timeout_errors(ids@),
{
    let ghost ops0 = pending_ops@;
    let ghost q0 = event_queue@;
    let mut k: usize = 0;
    while k < ids.len()
        invariant
            k <= ids.len(),
            pending_ops@ == marked_all(ops0, ids@.take(k as int), PendingOpState::TimedOut),
            event_queue@ == q0 + timeout_errors(ids@.take(k as int)),
        decreases ids.len() - k,
    {
        let cb = ids[k];
        proof {
            assert(ids@.take(k + 1).drop_last() =~= ids@.take(k as int));
            assert(ids@.take(k + 1).last() == cb);
        }
        mark_op(pending_ops, cb, PendingOpState::TimedOut);
        event_queue.push(NativeEvent::ClipboardError { callback_id: cb, error_code: CLIPBOARD_ERR_TIMEOUT });
        assert(timeout_errors(ids@.take(k + 1)) =~= timeout_errors(ids@.take(k as int)).push(
            NativeEvent::ClipboardError { callback_id: cb, error_code: CLIPBOARD_ERR_TIMEOUT },
        ));
        k = k + 1;
    }
    assert(ids@.take(ids.len() as int) =~= ids@);
}

impl X11ClipboardState {
    /// Drops the expired reads, returning their callback ids in order.
    fn drop_expired_reads(&mut self, now_ms: u64, timeout_ms: u64) -> (ids: Vec<u64>)
        ensures
            ids@ == expired_reads(old(self)@.reads, now_ms, timeout_ms),
            final(self)@ == (X11Model { reads: live_reads(old(self)@.reads, now_ms, timeout_ms), ..old(self)@ }),
    {
        let mut taken: Vec<(u64, X11ReadRequest)> = Vec::new();
        std::mem::swap(&mut self.pending_reads, &mut taken);
        let ghost orig = taken@;
        let mut kept: Vec<(u64, X11ReadRequest)> = Vec::new();
        let mut ids: Vec<u64> = Vec::new();
        for e in it: taken.into_iter()
            invariant
                it.seq() == orig,
                kept@ == live_reads(orig.take(it.index() as int), now_ms, timeout_ms),
                ids@ == expired_reads(orig.take(it.index() as int), now_ms, timeout_ms),
        {
            proof {
                let n = it.index() as int;
                assert(orig.take(n + 1).drop_last() == orig.take(n));
                assert(orig.take(n + 1).last() == e);
            }
            if waited_beyond(now_ms, e.1.started_at_ms, timeout_ms) {
                ids.push(e.0);
            } else {
                kept.push(e);
            }
        }
        assert(orig.take(orig.len() as int) == orig);
        self.pending_reads = kept;
        ids
    }

    /// Drops the expired transfers, judged by the tracked operations
    /// `ops`, returning their callback ids in order.
    fn drop_expired_transfers(&mut self, ops: &Vec<(u64, PendingOperation)>, now_ms: u64, timeout_ms: u64) -> (ids: Vec<u64>)
        ensures
            ids@ == expired_transfers(old(self)@.incrs, ops@, now_ms, timeout_ms),
            final(self)@ == (X11Model { incrs: live_transfers(old(self)@.incrs, ops@, now_ms, timeout_ms), ..old(self)@ }),
    {
        let mut taken: Vec<(u32, IncrTransfer)> = Vec::new();
        std::mem::swap(&mut self.incr_transfers, &mut taken);
        let ghost orig = taken@;
        let ghost ov = incrs_view(orig);
        let mut kept: Vec<(u32, IncrTransfer)> = Vec::new();
        let mut ids: Vec<u64> = Vec::new();
        for e in it: taken.into_iter()
            invariant
                it.seq() == orig,
                ov == incrs_view(orig),
                incrs_view(kept@) == live_transfers(ov.take(it.index() as int), ops@, now_ms, timeout_ms),
                ids@ == expired_transfers(ov.take(it.index() as int), ops@, now_ms, timeout_ms),
        {
            let ghost n = it.index() as int;
            proof {
                assert(ov.take(n + 1).drop_last() =~= ov.take(n));
                assert(ov.take(n + 1).last() == (e.0, e.1@));
            }
            let expired = match find_key_u64(ops, e.1.callback_id) {
                Some(j) => waited_beyond(now_ms, ops[j].1.started_at_ms, timeout_ms),
                None => false,
            };
            assert(expired == transfer_expired(e.1@, ops@, now_ms, timeout_ms));
            if expired {
                ids.push(e.1.callback_id);
            } else {
                let ghost k0 = kept@;
                kept.push(e);
                assert(incrs_view(kept@) =~= incrs_view(k0).push((e.0, e.1@)));
            }
        }
        assert(ov.take(orig.len() as int) =~= ov);
        self.incr_transfers = kept;
        ids
    }

    /// Times out what waited longer than `timeout_ms` at `now_ms`: first the
    /// pending reads, then the transfers whose operation started that long
    /// ago.  Each is dropped, its operation moves to timed out and a timeout
    /// error is queued for it, reads first, each group in table order.
    pub fn check_timeouts(
        &mut self,
        now_ms: u64,
        timeout_ms: u64,
        event_queue: &mut Vec<NativeEvent>,
        pending_ops: &mut Vec<(u64, PendingOperation)>,
    )
        ensures
            final(self)@ == (X11Model {
                reads: live_reads(old(self)@.reads, now_ms, timeout_ms),
                incrs: live_transfers(
                    old(self)@.incrs,
                    ops_after_reads(old(self)@, old(pending_ops)@, now_ms, timeout_ms),
                    now_ms,
                    timeout_ms,
                ),
                ..old(self)@
            }),
            final(pending_ops)@ == marked_all(
                ops_after_reads(old(self)@, old(pending_ops)@, now_ms, timeout_ms),
                expired_transfers(
                    old(self)@.incrs,
                    ops_after_reads(old(self)@, old(pending_ops)@, now_ms, timeout_ms),
                    now_ms,
                    timeout_ms,
                ),
                PendingOpState::TimedOut,
            ),
            final(event_queue)@ == old(event_queue)@ + timeout_errors(
                expired_reads(old(self)@.reads, now_ms, timeout_ms),
            ) + timeout_errors(
                expired_transfers(
                    old(self)@.incrs,
                    ops_after_reads(old(self)@, old(pending_ops)@, now_ms, timeout_ms),
                    now_ms,
                    timeout_ms,
                ),
            ),
    {
        let read_ids = self.drop_expired_reads(now_ms, timeout_ms);
        time_out_all(&read_ids, event_queue, pending_ops);
        let transfer_ids = self.drop_expired_transfers(pending_ops, now_ms, timeout_ms);
        time_out_all(&transfer_ids, event_queue, pending_ops);
    }
}

} // verus!