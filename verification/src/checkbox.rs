//! Checkbox widget: a toggleable checkbox with an optional label.
use vstd::prelude::*;
use crate::events::{EventResult, EventSink, WidgetEvent, WidgetEventKind, WidgetEvents};
use crate::input::{Key, KeyCombo};
use crate::measure::{label_width, label_width_spec};
use crate::widget_ids::CheckboxId;

verus! {

/// Checkbox display variant.
#[derive(Clone, Copy, Debug, PartialEq, Eq, Structural)]
pub enum CheckboxVariant {
    /// Large checkbox: [x] or [ ]
    Big,
    /// Small checkbox: ▣ or □
    Small,
}

impl Default for CheckboxVariant {
    fn default() -> (r: Self)
        ensures
            r == CheckboxVariant::Big,
    {
        CheckboxVariant::Big
    }
}

/// Typestate marker: a checkbox builder that still needs its state.
pub struct NeedsState;

/// A checkbox with its checked state, label and indicator characters.
#[derive(Debug, Clone)]
pub struct Checkbox {
    /// The instance identifier.
    pub id: CheckboxId,
    /// Whether the checkbox is checked.
    pub checked: bool,
    /// Label text.
    pub label: String,
    /// Character to display when checked.
    pub checked_char: char,
    /// Character to display when unchecked.
    pub unchecked_char: char,
    /// The state changed since the last render.
    pub dirty: bool,
    /// Focus was requested and not yet taken.
    pub focus_requested: bool,
}

/// A key that toggles a checkbox or a collapsible: Space or Enter, without
/// modifiers.
pub open spec fn is_toggle_key(key: KeyCombo) -> bool {
    !key.modifiers.ctrl && !key.modifiers.alt && !key.modifiers.shift
        && (key.key == Key::Char(' ') || key.key == Key::Enter)
}

/// Exactly Space and Enter toggle, and only without modifiers.
pub proof fn law_toggle_keys(key: KeyCombo)
    ensures
        is_toggle_key(key) ==> !key.modifiers.ctrl && !key.modifiers.alt && !key.modifiers.shift,
        !key.modifiers.ctrl && !key.modifiers.alt && !key.modifiers.shift
            ==> (is_toggle_key(key) <==> (key.key == Key::Char(' ') || key.key == Key::Enter)),
{
}

/// See [`is_toggle_key`].
pub fn toggle_key(key: &KeyCombo) -> (r: bool)
    ensures
        r == is_toggle_key(*key),
{
    if key.modifiers.any() {
        return false;
    }
    match key.key {
        Key::Char(c) => c == ' ',
        Key::Enter => true,
        _ => false,
    }
}

impl Checkbox {
    /// Create an unchecked checkbox without label.
    pub fn new(id: CheckboxId) -> (r: Self)
        ensures
            r.id == id,
            !r.checked,
            r.label@.len() == 0,
            r.checked_char == '■' && r.unchecked_char == '□',
            !r.dirty && !r.focus_requested,
    {
        Checkbox {
            id,
            checked: false,
            label: String::new(),
            checked_char: '■',
            unchecked_char: '□',
            dirty: false,
            focus_requested: false,
        }
    }

    /// Create an unchecked checkbox with a label.
    pub fn with_label(id: CheckboxId, label: String) -> (r: Self)
        ensures
            r.id == id,
            !r.checked,
            r.label == label,
            r.checked_char == '■' && r.unchecked_char == '□',
            !r.dirty && !r.focus_requested,
    {
        let mut c = Checkbox::new(id);
        c.label = label;
        c
    }

    /// Create a checked checkbox.
    pub fn checked(id: CheckboxId) -> (r: Self)
        ensures
            r.id == id,
            r.checked,
            r.label@.len() == 0,
            r.checked_char == '■' && r.unchecked_char == '□',
            !r.dirty && !r.focus_requested,
    {
        let mut c = Checkbox::new(id);
        c.checked = true;
        c
    }

    /// Set custom indicator characters (builder form).
    pub fn with_indicators(self, checked: char, unchecked: char) -> (r: Self)
        ensures
            r.checked_char == checked && r.unchecked_char == unchecked,
            r.id == self.id && r.checked == self.checked && r.label == self.label,
            r.dirty == self.dirty && r.focus_requested == self.focus_requested,
    {
        let mut c = self;
        c.checked_char = checked;
        c.unchecked_char = unchecked;
        c
    }

    /// The id string.
    pub fn id_string(&self) -> (r: String)
        ensures
            r@ == "__checkbox_"@ + crate::numfmt::decimal(self.id.value() as nat),
    {
        self.id.to_string()
    }

    /// Whether the checkbox is checked.
    pub fn is_checked(&self) -> (r: bool)
        ensures
            r == self.checked,
    {
        self.checked
    }

    /// The indicator character of the checked state.
    pub fn checked_char(&self) -> (r: char)
        ensures
            r == self.checked_char,
    {
        self.checked_char
    }

    /// The indicator character of the unchecked state.
    pub fn unchecked_char(&self) -> (r: char)
        ensures
            r == self.unchecked_char,
    {
        self.unchecked_char
    }

    /// Set the checked state; the checkbox turns dirty only if it changed.
    pub fn set_checked(&mut self, checked: bool)
        ensures
            final(self).checked == checked,
            final(self).dirty == (old(self).dirty || old(self).checked != checked),
            final(self).label == old(self).label,
            final(self).id == old(self).id,
            final(self).focus_requested == old(self).focus_requested,
    {
        if self.checked != checked {
            self.checked = checked;
            self.dirty = true;
        }
    }

    /// Toggle the checked state.
    pub fn toggle(&mut self)
        ensures
            final(self).checked == !old(self).checked,
            final(self).dirty,
            final(self).label == old(self).label,
            final(self).id == old(self).id,
            final(self).focus_requested == old(self).focus_requested,
    {
        self.checked = !self.checked;
        self.dirty = true;
    }

    /// Set the label text.
    pub fn set_label(&mut self, label: String)
        ensures
            final(self).label == label,
            final(self).dirty,
            final(self).checked == old(self).checked,
            final(self).id == old(self).id,
    {
        self.label = label;
        self.dirty = true;
    }

    /// Set the indicator characters.
    pub fn set_indicators(&mut self, checked: char, unchecked: char)
        ensures
            final(self).checked_char == checked && final(self).unchecked_char == unchecked,
            final(self).dirty,
            final(self).checked == old(self).checked,
            final(self).label == old(self).label,
    {
        self.checked_char = checked;
        self.unchecked_char = unchecked;
        self.dirty = true;
    }

    /// Request focus for this checkbox.
    pub fn focus(&mut self)
        ensures
            final(self).focus_requested,
            final(self).checked == old(self).checked,
            final(self).dirty == old(self).dirty,
    {
        self.focus_requested = true;
    }

    /// Take the pending focus request, if any.
    pub fn take_focus_request(&mut self) -> (r: bool)
        ensures
            r == old(self).focus_requested,
            !final(self).focus_requested,
            final(self).checked == old(self).checked,
            final(self).dirty == old(self).dirty,
    {
        let r = self.focus_requested;
        self.focus_requested = false;
        r
    }

    /// Whether the state changed since the last render.
    pub fn is_dirty(&self) -> (r: bool)
        ensures
            r == self.dirty,
    {
        self.dirty
    }

    /// Clear the dirty flag after rendering.
    pub fn clear_dirty(&mut self)
        ensures
            !final(self).dirty,
            final(self).checked == old(self).checked,
            final(self).label == old(self).label,
    {
        self.dirty = false;
    }

    /// Width: the indicator alone, or the indicator, a space and the label.
    pub fn intrinsic_width(&self) -> (r: u16)
        ensures
            r == (if self.label@.len() == 0 { 1 } else { label_width_spec(self.label@) }),
    {
        if self.label.as_str().is_empty() {
            1
        } else {
            label_width(&self.label)
        }
    }

    /// A click toggles the checkbox and reports the change.
    pub fn dispatch_click(&mut self, cx: &mut EventSink) -> (r: EventResult)
        ensures
            r == EventResult::Consumed,
            final(self).checked == !old(self).checked,
            final(self).dirty,
            final(cx).events@.len() == old(cx).events@.len() + 1,
            final(cx).events@.last().kind == WidgetEventKind::Change,
            final(cx).events@.last().widget_id@ == "__checkbox_"@ + crate::numfmt::decimal(old(self).id.value() as nat),
            final(cx).events@.drop_last() == old(cx).events@,
    {
        self.toggle();
        cx.push_event(WidgetEvent::new(WidgetEventKind::Change, self.id_string()));
        EventResult::Consumed
    }
}

impl WidgetEvents for Checkbox {
    /// Space or Enter (without modifiers) toggles the checkbox and reports
    /// the change; other keys are ignored.
    fn on_key(&mut self, key: &KeyCombo, cx: &mut EventSink) -> (r: EventResult)
        ensures
            is_toggle_key(*key) ==> {
                &&& r == EventResult::Consumed
                &&& final(self).checked == !old(self).checked
                &&& final(cx).events@.len() == old(cx).events@.len() + 1
                &&& final(cx).events@.last().kind == WidgetEventKind::Change
                &&& final(cx).events@.last().widget_id@ == "__checkbox_"@ + crate::numfmt::decimal(old(self).id.value() as nat)
                &&& final(cx).events@.drop_last() == old(cx).events@
            },
            !is_toggle_key(*key) ==> r == EventResult::Ignored && final(self).checked == old(self).checked
                && final(cx).events == old(cx).events,
    {
        if toggle_key(key) {
            self.dispatch_click(cx)
        } else {
            EventResult::Ignored
        }
    }
}

/// The indicator a checkbox shows: `[x]`/`[ ]` for the big variant,
/// `◼`/`◻` for the small one.
pub fn checkbox_indicator(variant: CheckboxVariant, checked: bool) -> (r: &'static str)
    ensures
        variant == CheckboxVariant::Big && checked ==> r@ == "[x]"@,
        variant == CheckboxVariant::Big && !checked ==> r@ == "[ ]"@,
        variant == CheckboxVariant::Small && checked ==> r@ == "◼"@,
        variant == CheckboxVariant::Small && !checked ==> r@ == "◻"@,
{
    match variant {
        CheckboxVariant::Big => if checked { "[x]" } else { "[ ]" },
        CheckboxVariant::Small => if checked { "◼" } else { "◻" },
    }
}

} // verus!
