//! Decisions of the toolkit-widget backend: which widget a tag becomes,
//! what an attribute or style does to a widget, listener bookkeeping and
//! the event codes handed to the host.  The toolkit calls themselves are
//! made by the host program.
use vstd::prelude::*;

use crate::css::{chars_of, parse_int, parsed_int, window_is};
use crate::table::{drop_key, register, remove_key_u64};

verus! {

/// The widget that a tag becomes.
#[derive(Debug, Clone, Copy, PartialEq, Eq, Structural)]
pub enum WidgetKind {
    /// A vertical box (also for unknown tags).
    VerticalBox,
    Label,
    Button,
    /// A one-line text entry.
    Entry,
    /// A multi-line text view.
    TextView,
    Picture,
}

/// The widget for `t`.
pub open spec fn widget_of(t: Seq<char>) -> WidgetKind {
    if t == "span"@ || t == "p"@ || t == "h1"@ || t == "h2"@ || t == "h3"@ || t == "h4"@ || t == "h5"@ || t == "h6"@
        || t == "label"@ {
        WidgetKind::Label
    } else if t == "button"@ {
        WidgetKind::Button
    } else if t == "input"@ {
        WidgetKind::Entry
    } else if t == "textarea"@ {
        WidgetKind::TextView
    } else if t == "img"@ {
        WidgetKind::Picture
    } else {
        WidgetKind::VerticalBox
    }
}

fn is(s: &str, lit: &str) -> (b: bool)
    ensures
        b == (s@ == lit@),
{
    let x = chars_of(s);
    let n = x.len();
    let b = window_is(&x, 0, n, lit);
    assert(b == (x@ == lit@)) by {
        if b {
            assert(x@ =~= lit@);
        }
    }
    b
}

/// The widget that an element with tag `tag` becomes.
pub fn tag_to_widget(tag: &str) -> (k: WidgetKind)
    ensures
        k == widget_of(tag@),
{
    if is(tag, "span") || is(tag, "p") || is(tag, "h1") || is(tag, "h2") || is(tag, "h3") || is(tag, "h4") || is(
        tag,
        "h5",
    ) || is(tag, "h6") || is(tag, "label") {
        WidgetKind::Label
    } else if is(tag, "button") {
        WidgetKind::Button
    } else if is(tag, "input") {
        WidgetKind::Entry
    } else if is(tag, "textarea") {
        WidgetKind::TextView
    } else if is(tag, "img") {
        WidgetKind::Picture
    } else {
        WidgetKind::VerticalBox
    }
}

/// What setting an attribute does to a widget.
#[derive(Debug, Clone, Copy, PartialEq, Eq, Structural)]
pub enum AttributeAction {
    /// The value becomes the label of a button or label.
    SetLabel,
    /// The value becomes the placeholder of an entry.
    SetPlaceholder,
    /// The value becomes the text of an entry.
    SetEntryText,
    /// The widget is shown or hidden.
    SetVisible(bool),
    /// The widget is enabled or disabled.
    SetSensitive(bool),
    /// Nothing.
    Ignore,
}

/// A value read as true: `true` or `1`.
pub open spec fn truthy(v: Seq<char>) -> bool {
    v == "true"@ || v == "1"@
}

/// What setting attribute `name` to `value` does.
pub open spec fn attribute_action_of(name: Seq<char>, value: Seq<char>) -> AttributeAction {
    if name == "title"@ || name == "label"@ {
        AttributeAction::SetLabel
    } else if name == "placeholder"@ {
        AttributeAction::SetPlaceholder
    } else if name == "value"@ {
        AttributeAction::SetEntryText
    } else if name == "visible"@ {
        AttributeAction::SetVisible(truthy(value))
    } else if name == "sensitive"@ || name == "enabled"@ {
        AttributeAction::SetSensitive(truthy(value))
    } else {
        AttributeAction::Ignore
    }
}

/// What setting attribute `name` to `value` does to a widget.
pub fn attribute_action(name: &str, value: &str) -> (a: AttributeAction)
    ensures
        a == attribute_action_of(name@, value@),
{
    if is(name, "title") || is(name, "label") {
        AttributeAction::SetLabel
    } else if is(name, "placeholder") {
        AttributeAction::SetPlaceholder
    } else if is(name, "value") {
        AttributeAction::SetEntryText
    } else if is(name, "visible") {
        AttributeAction::SetVisible(is(value, "true") || is(value, "1"))
    } else if is(name, "sensitive") || is(name, "enabled") {
        AttributeAction::SetSensitive(is(value, "true") || is(value, "1"))
    } else {
        AttributeAction::Ignore
    }
}

/// Removing an attribute: only `placeholder` does something (it clears the
/// placeholder of an entry).
pub fn removes_placeholder(name: &str) -> (b: bool)
    ensures
        b == (name@ == "placeholder"@),
{
    is(name, "placeholder")
}

/// What setting a style property does to a widget.
#[derive(Debug, Clone, Copy, PartialEq, Eq, Structural)]
pub enum WidgetStyleAction {
    /// The same margin on all four sides.
    Margin(i32),
    WidthRequest(i32),
    HeightRequest(i32),
    Ignore,
}

/// The `i32` that `value` is, if it is one.
pub open spec fn i32_of(v: Seq<char>) -> Option<i32> {
    match parsed_int(v, 0, v.len() as int, true, i32::MIN as int, i32::MAX as int) {
        Some(n) => Some(n as i32),
        None => None,
    }
}

/// What setting `property` to `value` does: `margin`, `width` and `height`
/// take an integer number of pixels; anything else, or a value that is no
/// `i32`, does nothing.
pub open spec fn widget_style_of(property: Seq<char>, value: Seq<char>) -> WidgetStyleAction {
    match i32_of(value) {
        Some(n) => if property == "margin"@ {
            WidgetStyleAction::Margin(n)
        } else if property == "width"@ {
            WidgetStyleAction::WidthRequest(n)
        } else if property == "height"@ {
            WidgetStyleAction::HeightRequest(n)
        } else {
            WidgetStyleAction::Ignore
        },
        None => WidgetStyleAction::Ignore,
    }
}

/// What setting style `property` to `value` does to a widget.
pub fn widget_style_action(property: &str, value: &str) -> (a: WidgetStyleAction)
    ensures
        a == widget_style_of(property@, value@),
{
    let v = chars_of(value);
    let n = match parse_int(&v, 0, v.len(), true, -0x8000_0000, 0x7fff_ffff) {
        Some(n) => n as i32,
        None => {
            return WidgetStyleAction::Ignore;
        },
    };
    if is(property, "margin") {
        WidgetStyleAction::Margin(n)
    } else if is(property, "width") {
        WidgetStyleAction::WidthRequest(n)
    } else if is(property, "height") {
        WidgetStyleAction::HeightRequest(n)
    } else {
        WidgetStyleAction::Ignore
    }
}

/// An event of the widget backend.
#[derive(Debug, Clone, Copy, PartialEq, Eq, Structural)]
pub enum WidgetEvent {
    Click { x: i32, y: i32, callback_id: u64 },
    KeyDown { key: u32, modifiers: u32, callback_id: u64 },
    KeyUp { key: u32, modifiers: u32, callback_id: u64 },
    MouseMove { x: i32, y: i32 },
    Resize { width: i32, height: i32 },
    Close,
    Redraw,
}

/// The code the host reads for an event: click 0, key press 1, resize 2,
/// close 3, redraw 4, key release 5, mouse move 6.  Every event has a code
/// of its own, so -1 is left to an empty queue.
pub open spec fn widget_event_code_of(e: WidgetEvent) -> i32 {
    match e {
        WidgetEvent::Click { .. } => 0,
        WidgetEvent::KeyDown { .. } => 1,
        WidgetEvent::Resize { .. } => 2,
        WidgetEvent::Close => 3,
        WidgetEvent::Redraw => 4,
        WidgetEvent::KeyUp { .. } => 5,
        WidgetEvent::MouseMove { .. } => 6,
    }
}

/// State of the widget backend kept apart from the toolkit's objects.
pub struct WidgetRegistry {
    /// The next handle to give out, for windows and widgets alike.
    pub next_handle: usize,
    /// Listeners: callback id to (widget, event type).
    pub callbacks: Vec<(u64, (usize, i32))>,
    /// Events waiting to be polled; the newest is taken first.
    pub events: Vec<WidgetEvent>,
}

impl WidgetRegistry {
    /// An empty registry; handles from 1.
    pub fn new() -> (r: WidgetRegistry)
        ensures
            r.next_handle == 1,
            r.callbacks@.len() == 0,
            r.events@.len() == 0,
    {
        WidgetRegistry { next_handle: 1, callbacks: Vec::new(), events: Vec::new() }
    }

    /// Takes the next handle.
    pub fn allocate_handle(&mut self) -> (h: usize)
        requires
            old(self).next_handle < usize::MAX,
        ensures
            h == old(self).next_handle,
            final(self).next_handle == h + 1,
            final(self).callbacks@ == old(self).callbacks@,
            final(self).events@ == old(self).events@,
    {
        let h = self.next_handle;
        self.next_handle = self.next_handle + 1;
        h
    }

    /// Registers listener `callback_id` for `event_type` on `widget`.  Returns
    /// whether the toolkit's click signal is to be connected (click events,
    /// type 0).
    pub fn add_event_listener(&mut self, widget: usize, event_type: i32, callback_id: u64) -> (connect_click: bool)
        ensures
            final(self).callbacks@ == register(old(self).callbacks@, callback_id, (widget, event_type)),
            final(self).next_handle == old(self).next_handle,
            final(self).events@ == old(self).events@,
            connect_click == (event_type == 0),
    {
        remove_key_u64(&mut self.callbacks, callback_id);
        self.callbacks.push((callback_id, (widget, event_type)));
        event_type == 0
    }

    /// Removes listener `callback_id`.
    pub fn remove_event_listener(&mut self, callback_id: u64)
        ensures
            final(self).callbacks@ == drop_key(old(self).callbacks@, callback_id),
            final(self).next_handle == old(self).next_handle,
            final(self).events@ == old(self).events@,
    {
        remove_key_u64(&mut self.callbacks, callback_id);
    }

    /// Queues a click for listener `callback_id` (the toolkit reports no
    /// position).
    pub fn push_click(&mut self, callback_id: u64)
        ensures
            final(self).events@ == old(self).events@.push(WidgetEvent::Click { x: 0, y: 0, callback_id }),
            final(self).callbacks@ == old(self).callbacks@,
            final(self).next_handle == old(self).next_handle,
    {
        self.events.push(WidgetEvent::Click { x: 0, y: 0, callback_id });
    }

    /// Takes the newest event and returns its code; -1 only when there is
    /// none.
    pub fn poll_events(&mut self) -> (code: i32)
        ensures
            old(self).events@.len() == 0 ==> code == -1 && final(self).events@ == old(self).events@,
            old(self).events@.len() > 0 ==> code == widget_event_code_of(old(self).events@.last()) && code != -1
                && final(self).events@ == old(self).events@.drop_last(),
            final(self).callbacks@ == old(self).callbacks@,
            final(self).next_handle == old(self).next_handle,
    {
        match self.events.pop() {
            Some(e) => match e {
                WidgetEvent::Click { .. } => 0,
                WidgetEvent::KeyDown { .. } => 1,
                WidgetEvent::Resize { .. } => 2,
                WidgetEvent::Close => 3,
                WidgetEvent::Redraw => 4,
                WidgetEvent::KeyUp { .. } => 5,
                WidgetEvent::MouseMove { .. } => 6,
            },
            None => -1,
        }
    }
}

} // verus!
