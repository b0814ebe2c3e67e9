//! Collapsible widget: a header that shows or hides its content.
use vstd::prelude::*;
use crate::checkbox::{is_toggle_key, toggle_key};
use crate::events::{EventResult, EventSink, WidgetEvent, WidgetEventKind, WidgetEvents};
use crate::input::KeyCombo;
use crate::measure::{label_width, label_width_spec};
use crate::widget_ids::CollapsibleId;

verus! {

/// Typestate marker: a collapsible builder that still needs its state.
pub struct NeedsState;

/// Height of the header row.
pub const HEADER_HEIGHT: u16 = 1;

/// A collapsible section with its expanded state and title.
#[derive(Debug, Clone)]
pub struct Collapsible {
    /// The instance identifier.
    pub id: CollapsibleId,
    /// Whether the content is shown.
    pub expanded: bool,
    /// Header title.
    pub title: String,
    /// Indicator when expanded.
    pub expanded_char: char,
    /// Indicator when collapsed.
    pub collapsed_char: char,
    /// The state changed since the last render.
    pub dirty: bool,
    /// Focus was requested and not yet taken.
    pub focus_requested: bool,
}

/// The event that reports a toggle: `Expand` when the section is now
/// expanded, else `Collapse`.
pub open spec fn toggle_event_kind(expanded: bool) -> WidgetEventKind {
    if expanded { WidgetEventKind::Expand } else { WidgetEventKind::Collapse }
}

/// A toggle that leaves the section expanded reports an expansion, one
/// that leaves it collapsed reports a collapse.
pub proof fn law_toggle_reports_new_state(expanded: bool)
    ensures
        toggle_event_kind(expanded) == WidgetEventKind::Expand <==> expanded,
        toggle_event_kind(expanded) == WidgetEventKind::Collapse <==> !expanded,
{
}

impl Collapsible {
    /// Create a collapsed section without title.
    pub fn new(id: CollapsibleId) -> (r: Self)
        ensures
            r.id == id,
            !r.expanded,
            r.title@.len() == 0,
            r.expanded_char == '▼' && r.collapsed_char == '▶',
            !r.dirty && !r.focus_requested,
    {
        Collapsible {
            id,
            expanded: false,
            title: String::new(),
            expanded_char: '▼',
            collapsed_char: '▶',
            dirty: false,
            focus_requested: false,
        }
    }

    /// Create a collapsed section with a title.
    pub fn with_title(id: CollapsibleId, title: String) -> (r: Self)
        ensures
            r.id == id,
            !r.expanded,
            r.title == title,
            r.expanded_char == '▼' && r.collapsed_char == '▶',
            !r.dirty && !r.focus_requested,
    {
        let mut c = Collapsible::new(id);
        c.title = title;
        c
    }

    /// Create an expanded section.
    pub fn expanded(id: CollapsibleId) -> (r: Self)
        ensures
            r.id == id,
            r.expanded,
            r.title@.len() == 0,
            r.expanded_char == '▼' && r.collapsed_char == '▶',
            !r.dirty && !r.focus_requested,
    {
        let mut c = Collapsible::new(id);
        c.expanded = true;
        c
    }

    /// Set custom indicator characters (builder form).
    pub fn with_indicators(self, expanded: char, collapsed: char) -> (r: Self)
        ensures
            r.expanded_char == expanded && r.collapsed_char == collapsed,
            r.id == self.id && r.expanded == self.expanded && r.title == self.title,
            r.dirty == self.dirty && r.focus_requested == self.focus_requested,
    {
        let mut c = self;
        c.expanded_char = expanded;
        c.collapsed_char = collapsed;
        c
    }

    /// The id string.
    pub fn id_string(&self) -> (r: String)
        ensures
            r@ == "__collapsible_"@ + crate::numfmt::decimal(self.id.value() as nat),
    {
        self.id.to_string()
    }

    /// Whether the content is shown.
    pub fn is_expanded(&self) -> (r: bool)
        ensures
            r == self.expanded,
    {
        self.expanded
    }

    /// The indicator character of the expanded state.
    pub fn expanded_char(&self) -> (r: char)
        ensures
            r == self.expanded_char,
    {
        self.expanded_char
    }

    /// The indicator character of the collapsed state.
    pub fn collapsed_char(&self) -> (r: char)
        ensures
            r == self.collapsed_char,
    {
        self.collapsed_char
    }

    /// Show or hide the content; the section turns dirty only if it changed.
    pub fn set_expanded(&mut self, expanded: bool)
        ensures
            final(self).expanded == expanded,
            final(self).dirty == (old(self).dirty || old(self).expanded != expanded),
            final(self).title == old(self).title,
            final(self).id == old(self).id,
            final(self).focus_requested == old(self).focus_requested,
    {
        if self.expanded != expanded {
            self.expanded = expanded;
            self.dirty = true;
        }
    }

    /// Show the content.
    pub fn expand(&mut self)
        ensures
            final(self).expanded,
            final(self).dirty == (old(self).dirty || !old(self).expanded),
            final(self).title == old(self).title,
            final(self).id == old(self).id,
    {
        self.set_expanded(true);
    }

    /// Hide the content.
    pub fn collapse(&mut self)
        ensures
            !final(self).expanded,
            final(self).dirty == (old(self).dirty || old(self).expanded),
            final(self).title == old(self).title,
            final(self).id == old(self).id,
    {
        self.set_expanded(false);
    }

    /// Toggle the expanded state.
    pub fn toggle(&mut self)
        ensures
            final(self).expanded == !old(self).expanded,
            final(self).dirty,
            final(self).title == old(self).title,
            final(self).id == old(self).id,
            final(self).focus_requested == old(self).focus_requested,
    {
        self.expanded = !self.expanded;
        self.dirty = true;
    }

    /// Set the title.
    pub fn set_title(&mut self, title: String)
        ensures
            final(self).title == title,
            final(self).dirty,
            final(self).expanded == old(self).expanded,
            final(self).id == old(self).id,
    {
        self.title = title;
        self.dirty = true;
    }

    /// Set the indicator characters.
    pub fn set_indicators(&mut self, expanded: char, collapsed: char)
        ensures
            final(self).expanded_char == expanded && final(self).collapsed_char == collapsed,
            final(self).dirty,
            final(self).expanded == old(self).expanded,
            final(self).title == old(self).title,
    {
        self.expanded_char = expanded;
        self.collapsed_char = collapsed;
        self.dirty = true;
    }

    /// Request focus for this section.
    pub fn focus(&mut self)
        ensures
            final(self).focus_requested,
            final(self).expanded == old(self).expanded,
            final(self).dirty == old(self).dirty,
    {
        self.focus_requested = true;
    }

    /// Take the pending focus request, if any.
    pub fn take_focus_request(&mut self) -> (r: bool)
        ensures
            r == old(self).focus_requested,
            !final(self).focus_requested,
            final(self).expanded == old(self).expanded,
            final(self).dirty == old(self).dirty,
    {
        let r = self.focus_requested;
        self.focus_requested = false;
        r
    }

    /// Whether the state changed since the last render.
    pub fn is_dirty(&self) -> (r: bool)
        ensures
            r == self.dirty,
    {
        self.dirty
    }

    /// Clear the dirty flag after rendering.
    pub fn clear_dirty(&mut self)
        ensures
            !final(self).dirty,
            final(self).expanded == old(self).expanded,
            final(self).title == old(self).title,
    {
        self.dirty = false;
    }

    /// Width of the header: indicator and space alone, or with the title.
    pub fn intrinsic_width(&self) -> (r: u16)
        ensures
            r == (if self.title@.len() == 0 { 2 } else { label_width_spec(self.title@) }),
    {
        if self.title.as_str().is_empty() {
            2
        } else {
            label_width(&self.title)
        }
    }

    /// Toggle and report whether the section is now expanded or collapsed.
    fn toggle_and_report(&mut self, cx: &mut EventSink) -> (r: EventResult)
        ensures
            r == EventResult::Consumed,
            final(self).expanded == !old(self).expanded,
            final(self).dirty,
            final(self).title == old(self).title,
            final(cx).events@.len() == old(cx).events@.len() + 1,
            final(cx).events@.last().kind == toggle_event_kind(final(self).expanded),
            final(cx).events@.last().widget_id@ == "__collapsible_"@ + crate::numfmt::decimal(old(self).id.value() as nat),
            final(cx).events@.drop_last() == old(cx).events@,
    {
        self.toggle();
        let kind = if self.expanded { WidgetEventKind::Expand } else { WidgetEventKind::Collapse };
        cx.push_event(WidgetEvent::new(kind, self.id_string()));
        EventResult::Consumed
    }

    /// A click on the header row toggles the section; clicks below it are
    /// left to the content.
    pub fn dispatch_click(&mut self, y: u16, cx: &mut EventSink) -> (r: EventResult)
        ensures
            y == 0 ==> {
                &&& r == EventResult::Consumed
                &&& final(self).expanded == !old(self).expanded
                &&& final(cx).events@.len() == old(cx).events@.len() + 1
                &&& final(cx).events@.last().kind == toggle_event_kind(final(self).expanded)
                &&& final(cx).events@.last().widget_id@ == "__collapsible_"@ + crate::numfmt::decimal(old(self).id.value() as nat)
                &&& final(cx).events@.drop_last() == old(cx).events@
            },
            y != 0 ==> r == EventResult::Ignored && final(self).expanded == old(self).expanded
                && final(cx).events == old(cx).events,
    {
        if y == 0 {
            self.toggle_and_report(cx)
        } else {
            EventResult::Ignored
        }
    }
}

impl WidgetEvents for Collapsible {
    /// Space or Enter (without modifiers) toggles the section and reports
    /// whether it expanded or collapsed; other keys are ignored.
    fn on_key(&mut self, key: &KeyCombo, cx: &mut EventSink) -> (r: EventResult)
        ensures
            is_toggle_key(*key) ==> {
                &&& r == EventResult::Consumed
                &&& final(self).expanded == !old(self).expanded
                &&& final(cx).events@.len() == old(cx).events@.len() + 1
                &&& final(cx).events@.last().kind == toggle_event_kind(final(self).expanded)
                &&& final(cx).events@.last().widget_id@ == "__collapsible_"@ + crate::numfmt::decimal(old(self).id.value() as nat)
                &&& final(cx).events@.drop_last() == old(cx).events@
            },
            !is_toggle_key(*key) ==> r == EventResult::Ignored && final(self).expanded == old(self).expanded
                && final(cx).events == old(cx).events,
    {
        if toggle_key(key) {
            self.toggle_and_report(cx)
        } else {
            EventResult::Ignored
        }
    }
}

/// The arrow a collapsible header shows: `▼` when expanded, `▶` when not.
pub fn collapse_arrow(expanded: bool) -> (r: &'static str)
    ensures
        expanded ==> r@ == "▼"@,
        !expanded ==> r@ == "▶"@,
{
    if expanded { "▼" } else { "▶" }
}

} // verus!
