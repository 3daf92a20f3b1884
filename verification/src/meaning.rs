//! What the parsers, conversions and lookups mean, stated over all
//! inputs: colour names, event records, widget kinds, window resizes and
//! the text format a clipboard commit uses.
use vstd::prelude::*;

use crate::clipboard_ops::{first_text_data, is_text_mime, plain_mime, plain_utf8_mime};
use crate::css::{update_of, StyleUpdate, color_of, drop_ws_end, is_word, is_ws, skip_ws, trimmed, ColorSpec};
use crate::event::{
    event_data_of, NativeEvent, EVENT_ANIMATION_FRAME, EVENT_BLUR, EVENT_CLICK, EVENT_CLIPBOARD_DATA_READY,
    EVENT_CLIPBOARD_ERROR, EVENT_CLIPBOARD_FORMATS_AVAILABLE, EVENT_CLIPBOARD_WRITE_COMPLETE, EVENT_CLOSE, EVENT_DBLCLICK,
    EVENT_FOCUS, EVENT_KEYDOWN, EVENT_KEYUP, EVENT_MOUSEDOWN, EVENT_MOUSEENTER, EVENT_MOUSELEAVE, EVENT_MOUSEMOVE,
    EVENT_MOUSEUP, EVENT_RESIZE, EVENT_SCROLL, EVENT_TEXTINPUT, EVENT_TIMEOUT,
};
use crate::input::{action_for, after_window_input, resized_window, LoopAction, WindowInput};
use crate::runtime::{window_of, AppModel};
use crate::table::lemma_lookup_update_first;
use crate::widgets::{widget_of, WidgetKind};

verus! {

/// Leading and trailing white space are dropped inside the window.
pub proof fn lemma_trimmed_bounds(s: Seq<char>, lo: int, hi: int)
    requires
        lo <= hi,
    ensures
        lo <= trimmed(s, lo, hi).0 <= trimmed(s, lo, hi).1 <= hi,
{
    lemma_skip_ws_within(s, lo, hi);
    lemma_drop_ws_end_within(s, skip_ws(s, lo, hi), hi);
}

proof fn lemma_skip_ws_within(s: Seq<char>, lo: int, hi: int)
    requires
        lo <= hi,
    ensures
        lo <= skip_ws(s, lo, hi) <= hi,
    decreases hi - lo,
{
    if lo < hi && is_ws(s[lo]) {
        lemma_skip_ws_within(s, lo + 1, hi);
    }
}

proof fn lemma_drop_ws_end_within(s: Seq<char>, lo: int, hi: int)
    requires
        lo <= hi,
    ensures
        lo <= drop_ws_end(s, lo, hi) <= hi,
    decreases hi - lo,
{
    if lo < hi && is_ws(s[hi - 1]) {
        lemma_drop_ws_end_within(s, lo, hi - 1);
    }
}

/// A colour value that is one of the colour names, once white space around
/// it is dropped, is the colour of that name: `white` is opaque white,
/// `black` black, and so on; distinct names give distinct colours.
pub proof fn law_color_names(s: Seq<char>, lo: int, hi: int)
    requires
        0 <= lo <= hi <= s.len(),
    ensures
        s.subrange(trimmed(s, lo, hi).0, trimmed(s, lo, hi).1) == "transparent"@ ==> color_of(s, lo, hi) == Some(ColorSpec::Transparent),
        s.subrange(trimmed(s, lo, hi).0, trimmed(s, lo, hi).1) == "white"@ ==> color_of(s, lo, hi) == Some(ColorSpec::White),
        s.subrange(trimmed(s, lo, hi).0, trimmed(s, lo, hi).1) == "black"@ ==> color_of(s, lo, hi) == Some(ColorSpec::Black),
        s.subrange(trimmed(s, lo, hi).0, trimmed(s, lo, hi).1) == "red"@ ==> color_of(s, lo, hi) == Some(ColorSpec::Red),
        s.subrange(trimmed(s, lo, hi).0, trimmed(s, lo, hi).1) == "green"@ ==> color_of(s, lo, hi) == Some(ColorSpec::Green),
        s.subrange(trimmed(s, lo, hi).0, trimmed(s, lo, hi).1) == "blue"@ ==> color_of(s, lo, hi) == Some(ColorSpec::Blue),
{
    reveal_strlit("transparent");
    reveal_strlit("white");
    reveal_strlit("black");
    reveal_strlit("red");
    reveal_strlit("green");
    reveal_strlit("blue");
    lemma_trimmed_bounds(s, lo, hi);
    let (a, b) = trimmed(s, lo, hi);
    let sub = s.subrange(a, b);
    if sub == "transparent"@ {
        assert(sub.len() == "transparent"@.len());
        assert forall|k: int| 0 <= k < sub.len() implies s[a + k] == "transparent"@[k] by {
            assert(sub[k] == s[a + k]);
        }
        assert(s[a] == "transparent"@[0]);

        assert(is_word(s, a, b, "transparent"@));
    }
    if sub == "white"@ {
        assert(sub.len() == "white"@.len());
        assert forall|k: int| 0 <= k < sub.len() implies s[a + k] == "white"@[k] by {
            assert(sub[k] == s[a + k]);
        }
        assert(s[a] == "white"@[0]);
            assert("white"@.len() != "transparent"@.len());
        assert(is_word(s, a, b, "white"@));
    }
    if sub == "black"@ {
        assert(sub.len() == "black"@.len());
        assert forall|k: int| 0 <= k < sub.len() implies s[a + k] == "black"@[k] by {
            assert(sub[k] == s[a + k]);
        }
        assert(s[a] == "black"@[0]);
            assert("black"@.len() != "transparent"@.len());
            assert(s[a + 0] == "black"@[0] && "black"@[0] != "white"@[0]);
        assert(is_word(s, a, b, "black"@));
    }
    if sub == "red"@ {
        assert(sub.len() == "red"@.len());
        assert forall|k: int| 0 <= k < sub.len() implies s[a + k] == "red"@[k] by {
            assert(sub[k] == s[a + k]);
        }
        assert(s[a] == "red"@[0]);
            assert("red"@.len() != "transparent"@.len());
            assert("red"@.len() != "white"@.len());
            assert("red"@.len() != "black"@.len());
        assert(is_word(s, a, b, "red"@));
    }
    if sub == "green"@ {
        assert(sub.len() == "green"@.len());
        assert forall|k: int| 0 <= k < sub.len() implies s[a + k] == "green"@[k] by {
            assert(sub[k] == s[a + k]);
        }
        assert(s[a] == "green"@[0]);
            assert("green"@.len() != "transparent"@.len());
            assert(s[a + 0] == "green"@[0] && "green"@[0] != "white"@[0]);
            assert(s[a + 0] == "green"@[0] && "green"@[0] != "black"@[0]);
            assert("green"@.len() != "red"@.len());
        assert(is_word(s, a, b, "green"@));
    }
    if sub == "blue"@ {
        assert(sub.len() == "blue"@.len());
        assert forall|k: int| 0 <= k < sub.len() implies s[a + k] == "blue"@[k] by {
            assert(sub[k] == s[a + k]);
        }
        assert(s[a] == "blue"@[0]);
            assert("blue"@.len() != "transparent"@.len());
            assert("blue"@.len() != "white"@.len());
            assert("blue"@.len() != "black"@.len());
            assert("blue"@.len() != "red"@.len());
            assert("blue"@.len() != "green"@.len());
        assert(is_word(s, a, b, "blue"@));
    }
}

/// The flat record of an event carries each of the event's values in the
/// field named for it: pointer position and button, key and modifiers,
/// scroll deltas, window size, clipboard error code and format count, and
/// the listener's callback id, under the event's own type code.
pub proof fn law_event_record_fields(e: NativeEvent)
    ensures
        ({
            let d = event_data_of(e);
            match e {
                NativeEvent::Click { x, y, button, callback_id } => d.event_type == EVENT_CLICK && d.x == x && d.y == y
                    && d.button == button && d.callback_id == callback_id,
                NativeEvent::DblClick { x, y, button, callback_id } => d.event_type == EVENT_DBLCLICK && d.x == x && d.y
                    == y && d.button == button && d.callback_id == callback_id,
                NativeEvent::MouseDown { x, y, button, callback_id } => d.event_type == EVENT_MOUSEDOWN && d.x == x && d.y
                    == y && d.button == button && d.callback_id == callback_id,
                NativeEvent::MouseUp { x, y, button, callback_id } => d.event_type == EVENT_MOUSEUP && d.x == x && d.y
                    == y && d.button == button && d.callback_id == callback_id,
                NativeEvent::MouseMove { x, y, callback_id } => d.event_type == EVENT_MOUSEMOVE && d.x == x && d.y == y
                    && d.callback_id == callback_id,
                NativeEvent::MouseEnter { x, y, callback_id } => d.event_type == EVENT_MOUSEENTER && d.x == x && d.y == y
                    && d.callback_id == callback_id,
                NativeEvent::MouseLeave { x, y, callback_id } => d.event_type == EVENT_MOUSELEAVE && d.x == x && d.y == y
                    && d.callback_id == callback_id,
                NativeEvent::KeyDown { key, modifiers, callback_id } => d.event_type == EVENT_KEYDOWN && d.key == key
                    && d.modifiers == modifiers && d.callback_id == callback_id,
                NativeEvent::KeyUp { key, modifiers, callback_id } => d.event_type == EVENT_KEYUP && d.key == key
                    && d.modifiers == modifiers && d.callback_id == callback_id,
                NativeEvent::TextInput { callback_id, .. } => d.event_type == EVENT_TEXTINPUT && d.callback_id
                    == callback_id,
                NativeEvent::Focus { callback_id } => d.event_type == EVENT_FOCUS && d.callback_id == callback_id,
                NativeEvent::Blur { callback_id } => d.event_type == EVENT_BLUR && d.callback_id == callback_id,
                NativeEvent::Scroll { delta_x, delta_y, callback_id } => d.event_type == EVENT_SCROLL && d.delta_x
                    == delta_x && d.delta_y == delta_y && d.callback_id == callback_id,
                NativeEvent::Resize { width, height } => d.event_type == EVENT_RESIZE && d.width == width && d.height
                    == height,
                NativeEvent::Close => d.event_type == EVENT_CLOSE,
                NativeEvent::AnimationFrame { callback_id } => d.event_type == EVENT_ANIMATION_FRAME && d.callback_id
                    == callback_id,
                NativeEvent::Timeout { callback_id } => d.event_type == EVENT_TIMEOUT && d.callback_id == callback_id,
                NativeEvent::ClipboardFormatsAvailable { callback_id, format_count } => d.event_type
                    == EVENT_CLIPBOARD_FORMATS_AVAILABLE && d.callback_id == callback_id && d.key == format_count as i32,
                NativeEvent::ClipboardDataReady { callback_id, .. } => d.event_type == EVENT_CLIPBOARD_DATA_READY
                    && d.callback_id == callback_id,
                NativeEvent::ClipboardWriteComplete { callback_id } => d.event_type == EVENT_CLIPBOARD_WRITE_COMPLETE
                    && d.callback_id == callback_id,
                NativeEvent::ClipboardError { callback_id, error_code } => d.event_type == EVENT_CLIPBOARD_ERROR
                    && d.callback_id == callback_id && d.button == error_code,
            }
        }),
{
}

/// Text tags (`span`, `p`, `h1` to `h6`, `label`) become labels, and only
/// they; `button`, `input`, `textarea` and `img` become a button, a text
/// entry, a text view and a picture; every other tag becomes a vertical
/// box.
pub proof fn law_widget_kinds(t: Seq<char>)
    ensures
        (widget_of(t) == WidgetKind::Label) <==> (t == "span"@ || t == "p"@ || t == "h1"@ || t == "h2"@ || t == "h3"@
            || t == "h4"@ || t == "h5"@ || t == "h6"@ || t == "label"@),
        t == "button"@ ==> widget_of(t) == WidgetKind::Button,
        t == "input"@ ==> widget_of(t) == WidgetKind::Entry,
        t == "textarea"@ ==> widget_of(t) == WidgetKind::TextView,
        t == "img"@ ==> widget_of(t) == WidgetKind::Picture,
        !(t == "span"@ || t == "p"@ || t == "h1"@ || t == "h2"@ || t == "h3"@ || t == "h4"@ || t == "h5"@ || t == "h6"@
            || t == "label"@ || t == "button"@ || t == "input"@ || t == "textarea"@ || t == "img"@) ==> widget_of(t)
            == WidgetKind::VerticalBox,
{
    reveal_strlit("span");
    reveal_strlit("p");
    reveal_strlit("h1");
    reveal_strlit("h2");
    reveal_strlit("h3");
    reveal_strlit("h4");
    reveal_strlit("h5");
    reveal_strlit("h6");
    reveal_strlit("label");
    reveal_strlit("button");
    reveal_strlit("input");
    reveal_strlit("textarea");
    reveal_strlit("img");
    if t == "button"@ {
        assert(t.len() == 6);
        assert(t[0] == 'b' && "label"@[0] == 'l');
    } else if t == "input"@ {
        assert(t.len() == 5);
        assert(t[0] == 'i' && "label"@[0] == 'l');
    } else if t == "img"@ {
        assert(t.len() == 3);
    }
}

/// A resize of an existing window gives it exactly the new width and
/// height, a framebuffer of `width * height` pixels and asks for a surface
/// of that size (each side at least 1); a resize of a window that does not
/// exist changes nothing.
pub proof fn law_resize_sets_size(m: AppModel, win: usize, width: u32, height: u32)
    ensures
        ({
            let m2 = after_window_input(m, win, WindowInput::Resized { width, height });
            &&& window_of(m, win) is Some ==> (window_of(m2, win) matches Some(w2) && w2.width == width && w2.height
                == height && w2.framebuffer.len() == width * height)
            &&& window_of(m, win) is Some ==> action_for(m, win, WindowInput::Resized { width, height })
                == (LoopAction::ResizeSurface {
                width: if width < 1 { 1 } else { width },
                height: if height < 1 { 1 } else { height },
            })
            &&& window_of(m, win) is None ==> m2 == m
        }),
{
    if let Some(w) = window_of(m, win) {
        lemma_lookup_update_first(m.windows, win, resized_window(w, width, height));
    }
}

/// The text a commit hands over is the data of the first format whose MIME
/// type is `text/plain` or `text/plain;charset=utf-8`: such a format exists,
/// holds that data, and no format before it has a text type.  Without any
/// text format nothing is found.
pub proof fn law_first_text_format(fs: Seq<(Seq<char>, Seq<u8>, bool)>)
    ensures
        first_text_data(fs) matches Some(d) ==> exists|i: int|
            0 <= i < fs.len() && (fs[i].0 == "text/plain"@ || fs[i].0 == "text/plain;charset=utf-8"@) && fs[i].1 == d
                && forall|j: int| 0 <= j < i ==> !(fs[j].0 == "text/plain"@ || fs[j].0 == "text/plain;charset=utf-8"@),
        first_text_data(fs) is None ==> forall|i: int|
            0 <= i < fs.len() ==> !(fs[i].0 == "text/plain"@ || fs[i].0 == "text/plain;charset=utf-8"@),
    decreases fs.len(),
{
    reveal_strlit("text/plain");
    reveal_strlit("text/plain;charset=utf-8");
    assert("text/plain"@ =~= plain_mime());
    assert("text/plain;charset=utf-8"@ =~= plain_utf8_mime());
    if fs.len() > 0 {
        let r = fs.drop_first();
        law_first_text_format(r);
        if !is_text_mime(fs[0].0) {
            if let Some(d) = first_text_data(fs) {
                let i = choose|i: int|
                    0 <= i < r.len() && (r[i].0 == "text/plain"@ || r[i].0 == "text/plain;charset=utf-8"@) && r[i].1 == d
                        && forall|j: int| 0 <= j < i ==> !(r[j].0 == "text/plain"@ || r[j].0 == "text/plain;charset=utf-8"@);
                assert(fs[i + 1] == r[i]);
                assert forall|j: int| 0 <= j < i + 1 implies !(fs[j].0 == "text/plain"@ || fs[j].0
                    == "text/plain;charset=utf-8"@) by {
                    if j > 0 {
                        assert(fs[j] == r[j - 1]);
                    }
                }
            } else {
                assert forall|i: int| 0 <= i < fs.len() implies !(fs[i].0 == "text/plain"@ || fs[i].0
                    == "text/plain;charset=utf-8"@) by {
                    if i > 0 {
                        assert(fs[i] == r[i - 1]);
                    }
                }
            }
        } else {
            assert(first_text_data(fs) == Some(fs[0].1));
        }
    }
}

/// A hexadecimal digit: `0`-`9`, `a`-`f` or `A`-`F`.
pub open spec fn is_hex_digit(c: char) -> bool {
    ('0' <= c <= '9') || ('a' <= c <= 'f') || ('A' <= c <= 'F')
}

/// The value of a hexadecimal digit, 0 to 15.
pub open spec fn digit_value(c: char) -> int {
    if '0' <= c <= '9' {
        c as int - 48
    } else if 'a' <= c <= 'f' {
        c as int - 87
    } else {
        c as int - 55
    }
}

/// A colour value `#rrggbb` of six hexadecimal digits (white space around
/// it dropped) is the colour whose red, green and blue are the three digit
/// pairs read in base 16, high digit first.
pub proof fn law_color_hex(s: Seq<char>, lo: int, hi: int)
    requires
        0 <= lo <= hi <= s.len(),
    ensures
        ({
            let (a, b) = trimmed(s, lo, hi);
            (b - a == 7 && s[a] == '#' && forall|k: int| 1 <= k <= 6 ==> #[trigger] is_hex_digit(s[a + k])) ==> color_of(
                s,
                lo,
                hi,
            ) == Some(
                ColorSpec::Rgb {
                    r: (16 * digit_value(s[a + 1]) + digit_value(s[a + 2])) as u8,
                    g: (16 * digit_value(s[a + 3]) + digit_value(s[a + 4])) as u8,
                    b: (16 * digit_value(s[a + 5]) + digit_value(s[a + 6])) as u8,
                },
            )
        }),
{
    lemma_trimmed_bounds(s, lo, hi);
    let (a, b) = trimmed(s, lo, hi);
    if b - a == 7 && s[a] == '#' && forall|k: int| 1 <= k <= 6 ==> #[trigger] is_hex_digit(s[a + k]) {
        assert(is_hex_digit(s[a + 1]) && is_hex_digit(s[a + 2]) && is_hex_digit(s[a + 3]));
        assert(is_hex_digit(s[a + 4]) && is_hex_digit(s[a + 5]) && is_hex_digit(s[a + 6]));
    }
}

/// The background properties set the background colour and `color` sets
/// the text colour, each to the colour read from the whole value.
pub proof fn law_color_properties(v: Seq<char>)
    ensures
        update_of("background-color"@, v) == StyleUpdate::BackgroundColor(color_of(v, 0, v.len() as int)),
        update_of("background"@, v) == StyleUpdate::BackgroundColor(color_of(v, 0, v.len() as int)),
        update_of("color"@, v) == StyleUpdate::TextColor(color_of(v, 0, v.len() as int)),
{
    reveal_strlit("display");
    reveal_strlit("flex-direction");
    reveal_strlit("justify-content");
    reveal_strlit("align-items");
    reveal_strlit("width");
    reveal_strlit("height");
    reveal_strlit("background-color");
    reveal_strlit("background");
    reveal_strlit("color");
    {
        assert("background-color"@.len() != "display"@.len());
        assert("background-color"@.len() != "flex-direction"@.len());
        assert("background-color"@.len() != "justify-content"@.len());
        assert("background-color"@.len() != "align-items"@.len());
        assert("background-color"@.len() != "width"@.len());
        assert("background-color"@.len() != "height"@.len());
    }
    {
        assert("background"@.len() != "display"@.len());
        assert("background"@.len() != "flex-direction"@.len());
        assert("background"@.len() != "justify-content"@.len());
        assert("background"@.len() != "align-items"@.len());
        assert("background"@.len() != "width"@.len());
        assert("background"@.len() != "height"@.len());
    }
    {
        assert("color"@.len() != "display"@.len());
        assert("color"@.len() != "flex-direction"@.len());
        assert("color"@.len() != "justify-content"@.len());
        assert("color"@.len() != "align-items"@.len());
        assert("color"@[0] != "width"@[0]);
        assert("color"@.len() != "height"@.len());
        assert("color"@.len() != "background-color"@.len());
        assert("color"@.len() != "background"@.len());
    }
}

} // verus!