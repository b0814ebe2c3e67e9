//! Button widget: a labelled button that reports activation.
use vstd::prelude::*;
use crate::checkbox::{is_toggle_key, toggle_key};
use crate::events::{EventResult, EventSink, WidgetEvent, WidgetEventKind};
use crate::input::KeyCombo;
use crate::measure::{label_width, label_width_spec};
use crate::widget_ids::generate_auto_id;

verus! {

/// A button with its id and label.
#[derive(Debug, Clone)]
pub struct Button {
    /// The button's id.
    pub id: String,
    /// The label text.
    pub label: String,
    /// The state changed since the last render.
    pub dirty: bool,
}

impl Button {
    /// Create the `n`-th button without an explicit id.
    pub fn new(n: usize, label: String) -> (r: Self)
        ensures
            r.id@ == "__button_"@ + crate::numfmt::decimal(n as nat),
            r.label == label,
            !r.dirty,
    {
        Button { id: generate_auto_id(n), label, dirty: false }
    }

    /// Create a button with an explicit id.
    pub fn with_id(id: String, label: String) -> (r: Self)
        ensures
            r.id == id,
            r.label == label,
            !r.dirty,
    {
        Button { id, label, dirty: false }
    }

    /// The id string.
    pub fn id_string(&self) -> (r: String)
        ensures
            r@ == self.id@,
    {
        self.id.clone()
    }

    /// The label text.
    pub fn label(&self) -> (r: String)
        ensures
            r@ == self.label@,
    {
        self.label.clone()
    }

    /// Set the label text.
    pub fn set_label(&mut self, label: String)
        ensures
            final(self).label == label,
            final(self).dirty,
            final(self).id == old(self).id,
    {
        self.label = label;
        self.dirty = true;
    }

    /// Whether the state changed since the last render.
    pub fn is_dirty(&self) -> (r: bool)
        ensures
            r == self.dirty,
    {
        self.dirty
    }

    /// Clear the dirty flag after rendering.
    pub fn clear_dirty(&mut self)
        ensures
            !final(self).dirty,
            final(self).id == old(self).id,
            final(self).label == old(self).label,
    {
        self.dirty = false;
    }

    /// Width: the label inside a one-cell margin on each side.
    pub fn intrinsic_width(&self) -> (r: u16)
        ensures
            r == label_width_spec(self.label@),
    {
        label_width(&self.label)
    }

    /// A click activates the button.
    pub fn dispatch_click(&self, cx: &mut EventSink) -> (r: EventResult)
        ensures
            r == EventResult::Consumed,
            final(cx).events@.len() == old(cx).events@.len() + 1,
            final(cx).events@.last().kind == WidgetEventKind::Activate,
            final(cx).events@.last().widget_id@ == self.id@,
            final(cx).events@.drop_last() == old(cx).events@,
    {
        cx.push_event(WidgetEvent::new(WidgetEventKind::Activate, self.id_string()));
        EventResult::Consumed
    }

    /// Enter or Space (without modifiers) activates the button; other keys
    /// are ignored.
    pub fn dispatch_key(&self, key: &KeyCombo, cx: &mut EventSink) -> (r: EventResult)
        ensures
            is_toggle_key(*key) ==> {
                &&& r == EventResult::Consumed
                &&& final(cx).events@.len() == old(cx).events@.len() + 1
                &&& final(cx).events@.last().kind == WidgetEventKind::Activate
                &&& final(cx).events@.drop_last() == old(cx).events@
            },
            !is_toggle_key(*key) ==> r == EventResult::Ignored && final(cx).events == old(cx).events,
    {
        if toggle_key(key) {
            self.dispatch_click(cx)
        } else {
            EventResult::Ignored
        }
    }
}

} // verus!
