//! Clipboard bookkeeping: completed reads awaiting retrieval, write handles
//! being filled, and the system clipboard connection.
use vstd::prelude::*;

use crate::table::{lemma_map_register, map_vals, register, remove_key_u64};

verus! {

/// The system clipboard connection of the `arboard` crate.
#[verifier::external_type_specification]
#[verifier::external_body]
pub struct ExArboardClipboard(arboard::Clipboard);

// Clipboard error codes.
pub const CLIPBOARD_OK: i32 = 0;
pub const CLIPBOARD_ERR_UNAVAILABLE: i32 = 1;
pub const CLIPBOARD_ERR_FORMAT_NOT_FOUND: i32 = 2;
pub const CLIPBOARD_ERR_ACCESS_DENIED: i32 = 3;
pub const CLIPBOARD_ERR_TIMEOUT: i32 = 4;
pub const CLIPBOARD_ERR_EMPTY: i32 = 5;
pub const CLIPBOARD_ERR_CANCELLED: i32 = 6;
pub const CLIPBOARD_ERR_INVALID_HANDLE: i32 = 7;
pub const CLIPBOARD_ERR_INTERNAL: i32 = 99;

// Clipboard capability flags.
pub const CLIPBOARD_CAP_READ: u32 = 1;
pub const CLIPBOARD_CAP_WRITE: u32 = 2;
pub const CLIPBOARD_CAP_PRIMARY: u32 = 4;
pub const CLIPBOARD_CAP_IMAGES: u32 = 8;
pub const CLIPBOARD_CAP_HTML: u32 = 16;
pub const CLIPBOARD_CAP_FILES: u32 = 32;
pub const CLIPBOARD_CAP_SENSITIVE: u32 = 64;
pub const CLIPBOARD_CAP_CHANGE_NOTIFY: u32 = 128;

// Lifetimes, in seconds.
pub const CLIPBOARD_DATA_LIFETIME_SECONDS: u64 = 30;
pub const CLIPBOARD_WRITE_HANDLE_TIMEOUT_SECONDS: u64 = 60;

/// Which selection an operation addresses.
#[derive(Debug, Clone, Copy, PartialEq, Eq, Structural)]
pub enum ClipboardTarget {
    /// The standard clipboard.
    Clipboard,
    /// The primary selection (select to copy, middle-click to paste).
    PrimarySelection,
}

/// The target that an integer code names: 1 is the primary selection,
/// every other code the standard clipboard.
pub open spec fn target_of(value: i32) -> ClipboardTarget {
    if value == 1 {
        ClipboardTarget::PrimarySelection
    } else {
        ClipboardTarget::Clipboard
    }
}

impl From<i32> for ClipboardTarget {
    fn from(value: i32) -> (t: ClipboardTarget)
        ensures
            t == target_of(value),
    {
        if value == 1 {
            ClipboardTarget::PrimarySelection
        } else {
            ClipboardTarget::Clipboard
        }
    }
}

impl vstd::std_specs::convert::FromSpecImpl<i32> for ClipboardTarget {
    open spec fn obeys_from_spec() -> bool {
        true
    }

    open spec fn from_spec(value: i32) -> ClipboardTarget {
        target_of(value)
    }
}

/// The integer code of a target.
pub fn target_code(t: ClipboardTarget) -> (c: i32)
    ensures
        target_of(c) == t,
        c == (if t == ClipboardTarget::PrimarySelection { 1i32 } else { 0i32 }),
{
    match t {
        ClipboardTarget::Clipboard => 0,
        ClipboardTarget::PrimarySelection => 1,
    }
}

/// Data of a finished clipboard operation, kept until released.
pub struct ClipboardCompletedData {
    /// The bytes read.
    pub data: Vec<u8>,
    /// For a format query: the formats offered.
    pub formats: Option<Vec<String>>,
    /// NUL-terminated copies of the formats last handed out.
    pub format_cstrings: Vec<Vec<u8>>,
    /// Monotonic time of completion, in nanoseconds.
    pub completed_at: u64,
}

pub struct CompletedView {
    pub data: Seq<u8>,
    pub formats: Option<Seq<Seq<char>>>,
    pub format_cstrings: Seq<Seq<u8>>,
    pub completed_at: u64,
}

impl View for ClipboardCompletedData {
    type V = CompletedView;

    open spec fn view(&self) -> CompletedView {
        CompletedView {
            data: self.data@,
            formats: match self.formats {
                Some(f) => Some(f@.map_values(|s: String| s@)),
                None => None,
            },
            format_cstrings: self.format_cstrings@.map_values(|b: Vec<u8>| b@),
            completed_at: self.completed_at,
        }
    }
}

/// A write operation being assembled.
pub struct ClipboardWriteBuilder {
    pub target: ClipboardTarget,
    /// Entries of (MIME type, data, sensitive).
    pub formats: Vec<(String, Vec<u8>, bool)>,
    /// Monotonic time of creation, in nanoseconds.
    pub created_at: u64,
}

pub struct BuilderView {
    pub target: ClipboardTarget,
    pub formats: Seq<(Seq<char>, Seq<u8>, bool)>,
    pub created_at: u64,
}

impl View for ClipboardWriteBuilder {
    type V = BuilderView;

    open spec fn view(&self) -> BuilderView {
        BuilderView {
            target: self.target,
            formats: self.formats@.map_values(|f: (String, Vec<u8>, bool)| (f.0@, f.1@, f.2)),
            created_at: self.created_at,
        }
    }
}

/// An open connection to the system clipboard.
pub struct SystemClipboard {
    pub conn: arboard::Clipboard,
    /// The texts handed to the clipboard over this connection, in order.
    pub handed: Ghost<Seq<Seq<char>>>,
}

/// State of all clipboard operations.
pub struct ClipboardState {
    /// Completed data awaiting retrieval, by callback id.
    pub completed: Vec<(u64, ClipboardCompletedData)>,
    /// Write operations being assembled, by write handle.
    pub write_handles: Vec<(u64, ClipboardWriteBuilder)>,
    /// The next write handle to give out.
    pub next_write_handle: u64,
    /// The system clipboard, opened on first use.
    pub clipboard: Option<SystemClipboard>,
}

pub struct ClipboardModel {
    pub completed: Seq<(u64, CompletedView)>,
    pub write_handles: Seq<(u64, BuilderView)>,
    pub next_write_handle: u64,
    pub connected: bool,
    /// The texts handed to the system clipboard, in order.
    pub handed: Seq<Seq<char>>,
}

impl View for ClipboardState {
    type V = ClipboardModel;

    open spec fn view(&self) -> ClipboardModel {
        ClipboardModel {
            completed: self.completed@.map_values(|p: (u64, ClipboardCompletedData)| (p.0, p.1@)),
            write_handles: self.write_handles@.map_values(|p: (u64, ClipboardWriteBuilder)| (p.0, p.1@)),
            next_write_handle: self.next_write_handle,
            connected: self.clipboard is Some,
            handed: match self.clipboard {
                Some(c) => c.handed@,
                None => Seq::empty(),
            },
        }
    }
}

impl Default for ClipboardState {
    fn default() -> (c: ClipboardState)
        ensures
            c@.completed.len() == 0,
            c@.write_handles.len() == 0,
            c@.next_write_handle == 1,
            !c@.connected,
            c@.handed.len() == 0,
    {
        ClipboardState { completed: Vec::new(), write_handles: Vec::new(), next_write_handle: 1, clipboard: None }
    }
}


/// Nanoseconds in a second.
pub const NANOS_PER_SECOND: u64 = 1_000_000_000;

/// More than `limit_secs` seconds passed from `then` to `now` (a clock
/// that reads earlier than `then` counts as no time passed).
pub open spec fn outlived(then: u64, now: u64, limit_secs: u64) -> bool {
    now > then && (now - then) as int > limit_secs as int * NANOS_PER_SECOND as int
}

pub open spec fn completed_view(s: Seq<(u64, ClipboardCompletedData)>) -> Seq<(u64, CompletedView)> {
    s.map_values(|p: (u64, ClipboardCompletedData)| (p.0, p.1@))
}

pub open spec fn builders_view(s: Seq<(u64, ClipboardWriteBuilder)>) -> Seq<(u64, BuilderView)> {
    s.map_values(|p: (u64, ClipboardWriteBuilder)| (p.0, p.1@))
}

/// Completed entries still within their lifetime at `now`, in order.
pub open spec fn live_completed(s: Seq<(u64, CompletedView)>, now: u64) -> Seq<(u64, CompletedView)>
    decreases s.len(),
{
    if s.len() == 0 {
        s
    } else {
        let r = live_completed(s.drop_last(), now);
        if outlived(s.last().1.completed_at, now, CLIPBOARD_DATA_LIFETIME_SECONDS) {
            r
        } else {
            r.push(s.last())
        }
    }
}

/// Write handles not yet timed out at `now`, in order.
pub open spec fn live_builders(s: Seq<(u64, BuilderView)>, now: u64) -> Seq<(u64, BuilderView)>
    decreases s.len(),
{
    if s.len() == 0 {
        s
    } else {
        let r = live_builders(s.drop_last(), now);
        if outlived(s.last().1.created_at, now, CLIPBOARD_WRITE_HANDLE_TIMEOUT_SECONDS) {
            r
        } else {
            r.push(s.last())
        }
    }
}

/// The clipboard model after dropping what outlived its time at `now`.
pub open spec fn after_timeouts(c: ClipboardModel, now: u64) -> ClipboardModel {
    ClipboardModel {
        completed: live_completed(c.completed, now),
        write_handles: live_builders(c.write_handles, now),
        ..c
    }
}

fn elapsed_beyond(then: u64, now: u64, limit_secs: u64) -> (r: bool)
    requires
        limit_secs <= 60,
    ensures
        r == outlived(then, now, limit_secs),
{
    now > then && now - then > limit_secs * NANOS_PER_SECOND
}

/// Drops completed data older than its lifetime and write handles older
/// than their timeout; no event is queued for either.
pub fn process_clipboard_timeouts(clip: &mut ClipboardState, now: u64)
    ensures
        final(clip)@ == after_timeouts(old(clip)@, now),
{
    let mut taken: Vec<(u64, ClipboardCompletedData)> = Vec::new();
    std::mem::swap(&mut taken, &mut clip.completed);
    let ghost orig = taken@;
    let mut kept: Vec<(u64, ClipboardCompletedData)> = Vec::new();
    for e in it: taken.into_iter()
        invariant
            it.seq() == orig,
            completed_view(kept@) == live_completed(completed_view(orig.take(it.index() as int)), now),
    {
        proof {
            let n = it.index() as int;
            assert(orig.take(n + 1).drop_last() == orig.take(n));
            assert(completed_view(orig.take(n + 1)).drop_last() =~= completed_view(orig.take(n)));
            assert(completed_view(orig.take(n + 1)).last() == (e.0, e.1@));
        }
        if !elapsed_beyond(e.1.completed_at, now, CLIPBOARD_DATA_LIFETIME_SECONDS) {
            let ghost k0 = kept@;
            kept.push(e);
            assert(completed_view(kept@) =~= completed_view(k0).push((e.0, e.1@)));
        }
    }
    assert(orig.take(orig.len() as int) == orig);
    clip.completed = kept;

    let mut taken_w: Vec<(u64, ClipboardWriteBuilder)> = Vec::new();
    std::mem::swap(&mut taken_w, &mut clip.write_handles);
    let ghost orig_w = taken_w@;
    let mut kept_w: Vec<(u64, ClipboardWriteBuilder)> = Vec::new();
    for e in it: taken_w.into_iter()
        invariant
            it.seq() == orig_w,
            builders_view(kept_w@) == live_builders(builders_view(orig_w.take(it.index() as int)), now),
    {
        proof {
            let n = it.index() as int;
            assert(orig_w.take(n + 1).drop_last() == orig_w.take(n));
            assert(builders_view(orig_w.take(n + 1)).drop_last() =~= builders_view(orig_w.take(n)));
            assert(builders_view(orig_w.take(n + 1)).last() == (e.0, e.1@));
        }
        if !elapsed_beyond(e.1.created_at, now, CLIPBOARD_WRITE_HANDLE_TIMEOUT_SECONDS) {
            let ghost k0 = kept_w@;
            kept_w.push(e);
            assert(builders_view(kept_w@) =~= builders_view(k0).push((e.0, e.1@)));
        }
    }
    assert(orig_w.take(orig_w.len() as int) == orig_w);
    clip.write_handles = kept_w;
}

/// Keeps `entry` as the completed record of `callback_id`, replacing an
/// earlier one.
pub(crate) fn keep_record(completed: &mut Vec<(u64, ClipboardCompletedData)>, callback_id: u64, entry: ClipboardCompletedData)
    ensures
        completed_view(final(completed)@) == register(completed_view(old(completed)@), callback_id, entry@),
{
    let ghost f = |c: ClipboardCompletedData| c@;
    let ghost s0 = completed@;
    proof {
        lemma_map_register(s0, callback_id, entry, f);
        assert(completed_view(s0) =~= map_vals(s0, f));
    }
    remove_key_u64(completed, callback_id);
    completed.push((callback_id, entry));
    assert(completed_view(completed@) =~= map_vals(register(s0, callback_id, entry), f));
}

} // verus!
