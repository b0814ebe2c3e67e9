//! Widget event types.
//!
//! Widgets push [`WidgetEvent`]s to tell the event loop which handler to run,
//! and answer each input event with an [`EventResult`].
use vstd::prelude::*;
use crate::input::{KeyCombo, Modifiers, ScrollDirection};

verus! {

/// Identifies which handler to call for a widget event.
#[derive(Debug, Clone, Copy, PartialEq, Eq, Structural)]
pub enum WidgetEventKind {
    /// Item/row/node activated (Enter, double-click)
    Activate,
    /// Cursor moved to new position
    CursorMove,
    /// Selection changed
    SelectionChange,
    /// Tree node expanded
    Expand,
    /// Tree node collapsed
    Collapse,
    /// Table column sorted
    Sort,
    /// Value changed (input text, checkbox state, radio selection)
    Change,
    /// An option was chosen from a dropdown
    Select,
}

/// A widget event to be dispatched.
#[derive(Debug, Clone)]
pub struct WidgetEvent {
    /// Which kind of event
    pub kind: WidgetEventKind,
    /// Widget ID that triggered the event
    pub widget_id: String,
}

impl WidgetEvent {
    /// Create a new widget event.
    pub fn new(kind: WidgetEventKind, widget_id: String) -> (r: Self)
        ensures
            r.kind == kind,
            r.widget_id@ == widget_id@,
    {
        WidgetEvent { kind, widget_id }
    }
}

/// Result of handling an event.
#[derive(Debug, Clone, Copy, PartialEq, Eq, Structural)]
pub enum EventResult {
    /// Event was ignored, try other handlers.
    Ignored,
    /// Event was consumed, stop propagation.
    Consumed,
    /// Event started a drag operation on this widget.
    StartDrag,
}

impl EventResult {
    /// Check if the event was handled (consumed or started drag).
    pub fn is_handled(&self) -> (r: bool)
        ensures
            r == !(*self is Ignored),
    {
        !matches!(self, EventResult::Ignored)
    }
}

/// `prefix` is a prefix of `s`.
pub open spec fn is_prefix(prefix: Seq<char>, s: Seq<char>) -> bool {
    prefix.len() <= s.len() && s.subrange(0, prefix.len() as int) == prefix
}

/// Whether `s` starts with `prefix`.
pub fn starts_with(s: &str, prefix: &str) -> (r: bool)
    ensures
        r == is_prefix(prefix@, s@),
{
    let n = prefix.unicode_len();
    let m = s.unicode_len();
    if n > m {
        return false;
    }
    let mut i: usize = 0;
    while i < n
        invariant
            n == prefix@.len(),
            m == s@.len(),
            n <= m,
            i <= n,
            forall|j: int| 0 <= j < i ==> s@[j] == prefix@[j],
        decreases n - i,
    {
        if s.get_char(i) != prefix.get_char(i) {
            assert(s@.subrange(0, n as int)[i as int] != prefix@[i as int]);
            return false;
        }
        i = i + 1;
    }
    assert(s@.subrange(0, n as int) =~= prefix@);
    true
}

/// Whether a widget's dropdown closes when focus leaves one of its
/// elements: it closes unless focus moves to an element whose id starts
/// with the widget's id (no new target, as on Escape, closes it).
pub open spec fn closes_on_blur(blur_target: Option<Seq<char>>, base_id: Seq<char>) -> bool {
    match blur_target {
        Some(t) => !is_prefix(base_id, t),
        None => true,
    }
}

/// Focus moving within the widget keeps its dropdown open: a target whose
/// id starts with the widget's id does not close it, the widget's own id
/// included; focus moving anywhere else, or nowhere, closes it.
pub proof fn law_blur_within_keeps_open(target: Seq<char>, base_id: Seq<char>)
    ensures
        !closes_on_blur(Some(base_id), base_id),
        !closes_on_blur(Some(base_id + target), base_id),
        target.len() < base_id.len() ==> closes_on_blur(Some(target), base_id),
        closes_on_blur(None, base_id),
{
    assert((base_id + target).subrange(0, base_id.len() as int) =~= base_id);
    assert(base_id.subrange(0, base_id.len() as int) =~= base_id);
}

/// See [`closes_on_blur`].
pub fn blur_should_close(blur_target: Option<&str>, base_id: &str) -> (r: bool)
    ensures
        r == closes_on_blur(
            match blur_target { Some(t) => Some(t@), None => None },
            base_id@,
        ),
{
    match blur_target {
        Some(new_target) => !starts_with(new_target, base_id),
        None => true,
    }
}

/// What a widget hands back to the event loop while it handles an event:
/// the widget events to dispatch and the context values the handlers read.
#[derive(Debug, Clone)]
pub struct EventSink {
    /// Widget events to dispatch, in order.
    pub events: Vec<WidgetEvent>,
    /// The element to focus next, if any.
    pub focus: Option<String>,
    /// Text of an input that changed or was submitted.
    pub input_text: Option<String>,
    /// Id and index of the item under the cursor.
    pub cursor: Option<(String, Option<usize>)>,
    /// Id and index of the activated item.
    pub activated: Option<(String, Option<usize>)>,
    /// Ids of the selected items.
    pub selected: Option<Vec<String>>,
}

/// `after` holds the events of `before` and one more, of kind `kind`.
pub open spec fn pushed_one(before: Seq<WidgetEvent>, after: Seq<WidgetEvent>, kind: WidgetEventKind) -> bool {
    &&& after.len() == before.len() + 1
    &&& after.drop_last() == before
    &&& after.last().kind == kind
}

impl EventSink {
    /// An empty sink.
    pub fn new() -> (r: Self)
        ensures
            r.events@.len() == 0,
            r.focus is None,
            r.input_text is None,
            r.cursor is None,
            r.activated is None,
            r.selected is None,
    {
        EventSink { events: Vec::new(), focus: None, input_text: None, cursor: None, activated: None, selected: None }
    }

    /// Queue a widget event.
    pub fn push_event(&mut self, event: WidgetEvent)
        ensures
            final(self).events@ == old(self).events@.push(event),
            final(self).focus == old(self).focus,
            final(self).input_text == old(self).input_text,
            final(self).cursor == old(self).cursor,
            final(self).activated == old(self).activated,
            final(self).selected == old(self).selected,
    {
        self.events.push(event);
    }

    /// Ask for `id` to be focused.
    pub fn focus(&mut self, id: String)
        ensures
            final(self).focus == Some(id),
            final(self).events == old(self).events,
            final(self).input_text == old(self).input_text,
            final(self).cursor == old(self).cursor,
            final(self).activated == old(self).activated,
            final(self).selected == old(self).selected,
    {
        self.focus = Some(id);
    }

    /// Record the text of an input.
    pub fn set_input_text(&mut self, text: String)
        ensures
            final(self).input_text == Some(text),
            final(self).events == old(self).events,
            final(self).focus == old(self).focus,
            final(self).cursor == old(self).cursor,
            final(self).activated == old(self).activated,
            final(self).selected == old(self).selected,
    {
        self.input_text = Some(text);
    }

    /// Record the item under the cursor.
    pub fn set_cursor(&mut self, id: String, index: Option<usize>)
        ensures
            final(self).cursor == Some((id, index)),
            final(self).events == old(self).events,
            final(self).focus == old(self).focus,
            final(self).input_text == old(self).input_text,
            final(self).activated == old(self).activated,
            final(self).selected == old(self).selected,
    {
        self.cursor = Some((id, index));
    }

    /// Record the activated item.
    pub fn set_activated(&mut self, id: String, index: Option<usize>)
        ensures
            final(self).activated == Some((id, index)),
            final(self).events == old(self).events,
            final(self).focus == old(self).focus,
            final(self).input_text == old(self).input_text,
            final(self).cursor == old(self).cursor,
            final(self).selected == old(self).selected,
    {
        self.activated = Some((id, index));
    }

    /// Record the selected items.
    pub fn set_selected(&mut self, ids: Vec<String>)
        ensures
            final(self).selected == Some(ids),
            final(self).events == old(self).events,
            final(self).focus == old(self).focus,
            final(self).input_text == old(self).input_text,
            final(self).cursor == old(self).cursor,
            final(self).activated == old(self).activated,
    {
        self.selected = Some(ids);
    }
}

/// Trait for widgets that can handle events.
///
/// The event loop dispatches mouse and keyboard events to widgets through
/// these methods. Every method ignores its event unless a widget overrides
/// it.
pub trait WidgetEvents {
    /// Handle a click event at the given position.
    fn on_click(&mut self, x: u16, y: u16, cx: &mut EventSink) -> EventResult {
        EventResult::Ignored
    }

    /// Handle a hover event at the given position.
    fn on_hover(&mut self, x: u16, y: u16, cx: &mut EventSink) -> EventResult {
        EventResult::Ignored
    }

    /// Handle a scroll event.
    fn on_scroll(&mut self, direction: ScrollDirection, amount: u16, cx: &mut EventSink) -> EventResult {
        EventResult::Ignored
    }

    /// Handle ongoing drag movement.
    fn on_drag(&mut self, x: u16, y: u16, modifiers: Modifiers, cx: &mut EventSink) -> EventResult {
        EventResult::Ignored
    }

    /// Handle drag release.
    fn on_release(&mut self, cx: &mut EventSink) -> EventResult {
        EventResult::Ignored
    }

    /// Handle a key event when this widget is focused.
    fn on_key(&mut self, key: &KeyCombo, cx: &mut EventSink) -> EventResult {
        EventResult::Ignored
    }
}

} // verus!
