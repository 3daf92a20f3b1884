//! Events that the runtime queues for the host program, and their flat
//! record form handed across the foreign-function boundary.
//!
//! Coordinates and scroll deltas are `f32` values in the host program; the
//! library carries them as their IEEE-754 bit patterns (`f32::to_bits`), so
//! every field here is a plain integer.
use vstd::prelude::*;

verus! {

// Event type codes.
pub const EVENT_CLICK: i32 = 0;
pub const EVENT_DBLCLICK: i32 = 1;
pub const EVENT_MOUSEDOWN: i32 = 2;
pub const EVENT_MOUSEUP: i32 = 3;
pub const EVENT_MOUSEMOVE: i32 = 4;
pub const EVENT_MOUSEENTER: i32 = 5;
pub const EVENT_MOUSELEAVE: i32 = 6;
pub const EVENT_KEYDOWN: i32 = 10;
pub const EVENT_KEYUP: i32 = 11;
pub const EVENT_TEXTINPUT: i32 = 12;
pub const EVENT_FOCUS: i32 = 20;
pub const EVENT_BLUR: i32 = 21;
pub const EVENT_SCROLL: i32 = 30;
pub const EVENT_RESIZE: i32 = 40;
pub const EVENT_CLOSE: i32 = 50;
pub const EVENT_ANIMATION_FRAME: i32 = 60;
pub const EVENT_TIMEOUT: i32 = 61;

// Mouse buttons.
pub const MOUSE_LEFT: i32 = 0;
pub const MOUSE_RIGHT: i32 = 1;
pub const MOUSE_MIDDLE: i32 = 2;

// Modifier flags.
pub const MODIFIER_NONE: i32 = 0;
pub const MODIFIER_SHIFT: i32 = 1;
pub const MODIFIER_CTRL: i32 = 2;
pub const MODIFIER_ALT: i32 = 4;
pub const MODIFIER_META: i32 = 8;

// Clipboard events.
pub const EVENT_CLIPBOARD_FORMATS_AVAILABLE: i32 = 200;
pub const EVENT_CLIPBOARD_DATA_READY: i32 = 201;
pub const EVENT_CLIPBOARD_WRITE_COMPLETE: i32 = 202;
pub const EVENT_CLIPBOARD_ERROR: i32 = 203;

/// The "no event" code returned by the polling functions.
pub const EVENT_NONE: i32 = -1;

/// An event waiting in the runtime's queue.
///
/// `x`, `y`, `delta_x` and `delta_y` hold `f32` bit patterns.
#[derive(Debug, Clone, PartialEq, Eq)]
pub enum NativeEvent {
    Click { x: u32, y: u32, button: i32, callback_id: u64 },
    DblClick { x: u32, y: u32, button: i32, callback_id: u64 },
    MouseDown { x: u32, y: u32, button: i32, callback_id: u64 },
    MouseUp { x: u32, y: u32, button: i32, callback_id: u64 },
    MouseMove { x: u32, y: u32, callback_id: u64 },
    MouseEnter { x: u32, y: u32, callback_id: u64 },
    MouseLeave { x: u32, y: u32, callback_id: u64 },
    KeyDown { key: i32, modifiers: i32, callback_id: u64 },
    KeyUp { key: i32, modifiers: i32, callback_id: u64 },
    TextInput { text: String, callback_id: u64 },
    Focus { callback_id: u64 },
    Blur { callback_id: u64 },
    Scroll { delta_x: u32, delta_y: u32, callback_id: u64 },
    Resize { width: u32, height: u32 },
    Close,
    AnimationFrame { callback_id: u64 },
    Timeout { callback_id: u64 },
    ClipboardFormatsAvailable { callback_id: u64, format_count: usize },
    ClipboardDataReady { callback_id: u64, data_size: usize },
    ClipboardWriteComplete { callback_id: u64 },
    ClipboardError { callback_id: u64, error_code: i32 },
}

/// The flat event record: one event in the shape the host reads it.
///
/// The host-side record also carries a pointer to the text of a text-input
/// event; that pointer belongs to the host and is not part of this record.
#[derive(Debug, Clone, Copy, PartialEq, Eq, Structural)]
pub struct NativeEventData {
    pub event_type: i32,
    pub callback_id: u64,
    pub x: u32,
    pub y: u32,
    pub button: i32,
    pub key: i32,
    pub modifiers: i32,
    pub text_len: usize,
    pub width: u32,
    pub height: u32,
    pub delta_x: u32,
    pub delta_y: u32,
}

/// The empty record: event type -1 and every other field zero.
pub open spec fn empty_event_data() -> NativeEventData {
    NativeEventData {
        event_type: EVENT_NONE,
        callback_id: 0,
        x: 0,
        y: 0,
        button: 0,
        key: 0,
        modifiers: 0,
        text_len: 0,
        width: 0,
        height: 0,
        delta_x: 0,
        delta_y: 0,
    }
}

impl NativeEventData {
    /// The record for "no event".
    pub fn empty() -> (r: NativeEventData)
        ensures
            r == empty_event_data(),
    {
        NativeEventData {
            event_type: EVENT_NONE,
            callback_id: 0,
            x: 0,
            y: 0,
            button: 0,
            key: 0,
            modifiers: 0,
            text_len: 0,
            width: 0,
            height: 0,
            delta_x: 0,
            delta_y: 0,
        }
    }
}

impl Default for NativeEventData {
    fn default() -> (r: NativeEventData)
        ensures
            r == empty_event_data(),
    {
        NativeEventData::empty()
    }
}

/// Length in bytes of the NUL-terminated copy of `text` handed to the host:
/// text holding a NUL character cannot be copied and becomes the empty string.
pub open spec fn c_text_len(text: Seq<char>) -> nat {
    if text.contains('\0') {
        0
    } else {
        vstd::utf8::encode_utf8(text).len()
    }
}

/// A pointer-position record: only type, callback, position and button set.
pub open spec fn pointer_data(event_type: i32, callback_id: u64, x: u32, y: u32, button: i32) -> NativeEventData {
    NativeEventData { event_type, callback_id, x, y, button, ..empty_event_data() }
}

/// The record of `e`, field by field.
///
/// Clipboard events reuse fields: the format count is stored in `key` (as a
/// 32-bit integer), the data size is split into its low 32 bits in `width` and
/// its high 32 bits in `height`, and the error code is stored in `button`.
pub open spec fn event_data_of(e: NativeEvent) -> NativeEventData {
    match e {
        NativeEvent::Click { x, y, button, callback_id } => pointer_data(EVENT_CLICK, callback_id, x, y, button),
        NativeEvent::DblClick { x, y, button, callback_id } => pointer_data(EVENT_DBLCLICK, callback_id, x, y, button),
        NativeEvent::MouseDown { x, y, button, callback_id } => pointer_data(EVENT_MOUSEDOWN, callback_id, x, y, button),
        NativeEvent::MouseUp { x, y, button, callback_id } => pointer_data(EVENT_MOUSEUP, callback_id, x, y, button),
        NativeEvent::MouseMove { x, y, callback_id } => pointer_data(EVENT_MOUSEMOVE, callback_id, x, y, 0),
        NativeEvent::MouseEnter { x, y, callback_id } => pointer_data(EVENT_MOUSEENTER, callback_id, x, y, 0),
        NativeEvent::MouseLeave { x, y, callback_id } => pointer_data(EVENT_MOUSELEAVE, callback_id, x, y, 0),
        NativeEvent::KeyDown { key, modifiers, callback_id } =>
            NativeEventData { event_type: EVENT_KEYDOWN, callback_id, key, modifiers, ..empty_event_data() },
        NativeEvent::KeyUp { key, modifiers, callback_id } =>
            NativeEventData { event_type: EVENT_KEYUP, callback_id, key, modifiers, ..empty_event_data() },
        NativeEvent::TextInput { text, callback_id } =>
            NativeEventData {
                event_type: EVENT_TEXTINPUT,
                callback_id,
                text_len: c_text_len(text@) as usize,
                ..empty_event_data()
            },
        NativeEvent::Focus { callback_id } => NativeEventData { event_type: EVENT_FOCUS, callback_id, ..empty_event_data() },
        NativeEvent::Blur { callback_id } => NativeEventData { event_type: EVENT_BLUR, callback_id, ..empty_event_data() },
        NativeEvent::Scroll { delta_x, delta_y, callback_id } =>
            NativeEventData { event_type: EVENT_SCROLL, callback_id, delta_x, delta_y, ..empty_event_data() },
        NativeEvent::Resize { width, height } =>
            NativeEventData { event_type: EVENT_RESIZE, width, height, ..empty_event_data() },
        NativeEvent::Close => NativeEventData { event_type: EVENT_CLOSE, ..empty_event_data() },
        NativeEvent::AnimationFrame { callback_id } =>
            NativeEventData { event_type: EVENT_ANIMATION_FRAME, callback_id, ..empty_event_data() },
        NativeEvent::Timeout { callback_id } =>
            NativeEventData { event_type: EVENT_TIMEOUT, callback_id, ..empty_event_data() },
        NativeEvent::ClipboardFormatsAvailable { callback_id, format_count } =>
            NativeEventData {
                event_type: EVENT_CLIPBOARD_FORMATS_AVAILABLE,
                callback_id,
                key: format_count as i32,
                ..empty_event_data()
            },
        NativeEvent::ClipboardDataReady { callback_id, data_size } =>
            NativeEventData {
                event_type: EVENT_CLIPBOARD_DATA_READY,
                callback_id,
                width: (data_size as u64 % 0x1_0000_0000) as u32,
                height: (data_size as u64 / 0x1_0000_0000) as u32,
                ..empty_event_data()
            },
        NativeEvent::ClipboardWriteComplete { callback_id } =>
            NativeEventData { event_type: EVENT_CLIPBOARD_WRITE_COMPLETE, callback_id, ..empty_event_data() },
        NativeEvent::ClipboardError { callback_id, error_code } =>
            NativeEventData { event_type: EVENT_CLIPBOARD_ERROR, callback_id, button: error_code, ..empty_event_data() },
    }
}

/// Length of the C copy of `text`, as `c_text_len` defines it.
pub fn c_text_length(text: &String) -> (n: usize)
    ensures
        n == c_text_len(text@) as usize,
{
    let s = text.as_str();
    let mut has_nul = false;
    for c in it: s.chars()
        invariant
            it.seq() == s@,
            has_nul == it.seq().take(it.index() as int).contains('\0'),
    {
        proof {
            let k = it.index() as int;
            assert(it.seq().take(k + 1) == it.seq().take(k).push(c));
            if it.seq().take(k).contains('\0') {
                let j = choose|j: int| 0 <= j < k && it.seq().take(k)[j] == '\0';
                assert(it.seq().take(k + 1)[j] == '\0');
            }
            if c == '\0' {
                assert(it.seq().take(k + 1)[k] == '\0');
            }
        }
        if c == '\0' {
            has_nul = true;
        }
    }
    assert(s@.take(s@.len() as int) == s@);
    if has_nul {
        0
    } else {
        s.len()
    }
}

impl NativeEvent {
    /// The flat record of this event.
    pub fn to_event_data(&self) -> (d: NativeEventData)
        ensures
            d == event_data_of(*self),
    {
        let base = NativeEventData::empty();
        match self {
            NativeEvent::Click { x, y, button, callback_id } => NativeEventData {
                event_type: EVENT_CLICK, callback_id: *callback_id, x: *x, y: *y, button: *button, ..base
            },
            NativeEvent::DblClick { x, y, button, callback_id } => NativeEventData {
                event_type: EVENT_DBLCLICK, callback_id: *callback_id, x: *x, y: *y, button: *button, ..base
            },
            NativeEvent::MouseDown { x, y, button, callback_id } => NativeEventData {
                event_type: EVENT_MOUSEDOWN, callback_id: *callback_id, x: *x, y: *y, button: *button, ..base
            },
            NativeEvent::MouseUp { x, y, button, callback_id } => NativeEventData {
                event_type: EVENT_MOUSEUP, callback_id: *callback_id, x: *x, y: *y, button: *button, ..base
            },
            NativeEvent::MouseMove { x, y, callback_id } => NativeEventData {
                event_type: EVENT_MOUSEMOVE, callback_id: *callback_id, x: *x, y: *y, ..base
            },
            NativeEvent::MouseEnter { x, y, callback_id } => NativeEventData {
                event_type: EVENT_MOUSEENTER, callback_id: *callback_id, x: *x, y: *y, ..base
            },
            NativeEvent::MouseLeave { x, y, callback_id } => NativeEventData {
                event_type: EVENT_MOUSELEAVE, callback_id: *callback_id, x: *x, y: *y, ..base
            },
            NativeEvent::KeyDown { key, modifiers, callback_id } => NativeEventData {
                event_type: EVENT_KEYDOWN, callback_id: *callback_id, key: *key, modifiers: *modifiers, ..base
            },
            NativeEvent::KeyUp { key, modifiers, callback_id } => NativeEventData {
                event_type: EVENT_KEYUP, callback_id: *callback_id, key: *key, modifiers: *modifiers, ..base
            },
            NativeEvent::TextInput { text, callback_id } => {
                let len = c_text_length(text);
                NativeEventData { event_type: EVENT_TEXTINPUT, callback_id: *callback_id, text_len: len, ..base }
            },
            NativeEvent::Focus { callback_id } => NativeEventData {
                event_type: EVENT_FOCUS, callback_id: *callback_id, ..base
            },
            NativeEvent::Blur { callback_id } => NativeEventData {
                event_type: EVENT_BLUR, callback_id: *callback_id, ..base
            },
            NativeEvent::Scroll { delta_x, delta_y, callback_id } => NativeEventData {
                event_type: EVENT_SCROLL, callback_id: *callback_id, delta_x: *delta_x, delta_y: *delta_y, ..base
            },
            NativeEvent::Resize { width, height } => NativeEventData {
                event_type: EVENT_RESIZE, width: *width, height: *height, ..base
            },
            NativeEvent::Close => NativeEventData { event_type: EVENT_CLOSE, ..base },
            NativeEvent::AnimationFrame { callback_id } => NativeEventData {
                event_type: EVENT_ANIMATION_FRAME, callback_id: *callback_id, ..base
            },
            NativeEvent::Timeout { callback_id } => NativeEventData {
                event_type: EVENT_TIMEOUT, callback_id: *callback_id, ..base
            },
            NativeEvent::ClipboardFormatsAvailable { callback_id, format_count } => NativeEventData {
                event_type: EVENT_CLIPBOARD_FORMATS_AVAILABLE,
                callback_id: *callback_id,
                key: *format_count as i32,
                ..base
            },
            NativeEvent::ClipboardDataReady { callback_id, data_size } => {
                let size = *data_size as u64;
                NativeEventData {
                    event_type: EVENT_CLIPBOARD_DATA_READY,
                    callback_id: *callback_id,
                    width: (size % 0x1_0000_0000) as u32,
                    height: (size / 0x1_0000_0000) as u32,
                    ..base
                }
            },
            NativeEvent::ClipboardWriteComplete { callback_id } => NativeEventData {
                event_type: EVENT_CLIPBOARD_WRITE_COMPLETE, callback_id: *callback_id, ..base
            },
            NativeEvent::ClipboardError { callback_id, error_code } => NativeEventData {
                event_type: EVENT_CLIPBOARD_ERROR, callback_id: *callback_id, button: *error_code, ..base
            },
        }
    }
}

/// The record kept for the event most recently returned by
/// `native_poll_events`, for later retrieval.
#[derive(Debug, Clone, Copy, PartialEq, Eq, Structural)]
pub struct CachedEventData {
    pub event_type: i32,
    pub callback_id: u64,
    pub x: u32,
    pub y: u32,
    pub button: i32,
    pub key: i32,
    pub modifiers: i32,
    pub text_len: usize,
    pub width: u32,
    pub height: u32,
    pub delta_x: u32,
    pub delta_y: u32,
}

/// The cached form of a record: every field kept.
pub open spec fn cached_of(d: NativeEventData) -> CachedEventData {
    CachedEventData {
        event_type: d.event_type,
        callback_id: d.callback_id,
        x: d.x,
        y: d.y,
        button: d.button,
        key: d.key,
        modifiers: d.modifiers,
        text_len: d.text_len,
        width: d.width,
        height: d.height,
        delta_x: d.delta_x,
        delta_y: d.delta_y,
    }
}

/// The record rebuilt from its cached form.
pub open spec fn uncached_of(c: CachedEventData) -> NativeEventData {
    NativeEventData {
        event_type: c.event_type,
        callback_id: c.callback_id,
        x: c.x,
        y: c.y,
        button: c.button,
        key: c.key,
        modifiers: c.modifiers,
        text_len: c.text_len,
        width: c.width,
        height: c.height,
        delta_x: c.delta_x,
        delta_y: c.delta_y,
    }
}

impl From<NativeEventData> for CachedEventData {
    fn from(data: NativeEventData) -> (c: CachedEventData)
        ensures
            c == cached_of(data),
    {
        CachedEventData {
            event_type: data.event_type,
            callback_id: data.callback_id,
            x: data.x,
            y: data.y,
            button: data.button,
            key: data.key,
            modifiers: data.modifiers,
            text_len: data.text_len,
            width: data.width,
            height: data.height,
            delta_x: data.delta_x,
            delta_y: data.delta_y,
        }
    }
}

impl vstd::std_specs::convert::FromSpecImpl<NativeEventData> for CachedEventData {
    open spec fn obeys_from_spec() -> bool {
        true
    }

    open spec fn from_spec(data: NativeEventData) -> CachedEventData {
        cached_of(data)
    }
}

impl CachedEventData {
    /// The record that this cache entry stands for.
    pub fn to_native_event_data(self) -> (d: NativeEventData)
        ensures
            d == uncached_of(self),
    {
        NativeEventData {
            event_type: self.event_type,
            callback_id: self.callback_id,
            x: self.x,
            y: self.y,
            button: self.button,
            key: self.key,
            modifiers: self.modifiers,
            text_len: self.text_len,
            width: self.width,
            height: self.height,
            delta_x: self.delta_x,
            delta_y: self.delta_y,
        }
    }
}

/// Caching a record and reading it back gives the same record.
pub proof fn lemma_cache_round_trip(d: NativeEventData)
    ensures
        uncached_of(cached_of(d)) == d,
{
}

/// The two halves stored for a clipboard data size give the size back.
pub proof fn lemma_data_size_split(callback_id: u64, data_size: usize)
    ensures
        ({
            let d = event_data_of(NativeEvent::ClipboardDataReady { callback_id, data_size });
            d.width as int + d.height as int * 0x1_0000_0000 == data_size as int
        }),
{
    let s = data_size as u64;
    assert(s as int == data_size as int);
    assert(s / 0x1_0000_0000 < 0x1_0000_0000) by (nonlinear_arith) requires s < 0x1_0000_0000_0000_0000;
}

} // verus!
