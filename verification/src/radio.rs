//! Radio group state: a group of mutually exclusive options.
use vstd::prelude::*;
use crate::events::{EventResult, EventSink, WidgetEvents};
use crate::input::{Key, KeyCombo};
use crate::widget_ids::RadioGroupId;

verus! {

/// State for a radio group widget: the selected value and the options as
/// (value, label) pairs.
#[derive(Clone, Debug)]
pub struct RadioState<T: Clone> {
    /// The currently selected value, if any.
    pub value: Option<T>,
    /// Available options as (value, label) pairs.
    pub options: Vec<(T, String)>,
}

impl<T: Clone> RadioState<T> {
    /// Create a new RadioState with the given options and nothing selected.
    pub fn new(options: Vec<(T, String)>) -> (r: Self)
        ensures
            r.value is None,
            r.options@ == options@,
    {
        RadioState { value: None, options }
    }

    /// Set the initial selected value.
    pub fn with_value(self, value: T) -> (r: Self)
        ensures
            r.value == Some(value),
            r.options == self.options,
    {
        RadioState { value: Some(value), options: self.options }
    }

    /// An option was activated: its value becomes the selected value.
    pub fn select_value(&mut self, value: T)
        ensures
            final(self).value == Some(value),
            final(self).options == old(self).options,
    {
        self.value = Some(value);
    }
}

/// Whether the option at `index` holds the selected value.
pub fn option_is_selected<T: Clone + PartialEq>(state: &RadioState<T>, index: usize) -> (r: bool)
    requires
        index < state.options@.len(),
    ensures
        crate::selection::keys_behave::<T>() ==> r == (state.value == Some(state.options@[index as int].0)),
{
    match &state.value {
        Some(v) => crate::selection::keys_equal(v, &state.options[index].0),
        None => false,
    }
}

/// The indicator drawn before an option: "●" when selected, "○" otherwise.
pub fn indicator(selected: bool) -> (r: &'static str)
    ensures
        selected ==> r@ == "●"@,
        !selected ==> r@ == "○"@,
{
    if selected { "●" } else { "○" }
}

/// Typestate marker: a radio builder that still needs its state.
pub struct NeedsState;

/// A radio group over labelled options, selected by index.
#[derive(Debug, Clone)]
pub struct RadioGroup {
    /// The instance identifier.
    pub id: RadioGroupId,
    /// Index of the selected option.
    pub selected: Option<usize>,
    /// Option labels.
    pub options: Vec<String>,
    /// Indicator of the selected option.
    pub selected_char: char,
    /// Indicator of the other options.
    pub unselected_char: char,
    /// Validation error, if any.
    pub error: Option<String>,
    /// The state changed since the last render.
    pub dirty: bool,
    /// Focus was requested and not yet taken.
    pub focus_requested: bool,
}

/// The option above `current`, wrapping from the first to the last.
pub open spec fn prev_option(current: int, len: int) -> int {
    if current == 0 { len - 1 } else { current - 1 }
}

/// The option below `current`, wrapping from the last to the first.
pub open spec fn next_option(current: int, len: int) -> int {
    if current + 1 >= len { 0 } else { current + 1 }
}

/// The option that `key` moves to in a group of `len` options: Up/`k` and
/// Down/`j` step with wrap-around from the selected option (the first when
/// none is), Home and End go to the ends. `None` for any other key, a key
/// with modifiers, or an empty group.
pub open spec fn radio_key_target(key: KeyCombo, selected: Option<usize>, len: int) -> Option<int> {
    let current: int = match selected { Some(i) => i as int, None => 0 };
    if key.modifiers.ctrl || key.modifiers.alt || key.modifiers.shift || len == 0 {
        None
    } else if key.key == Key::Up || key.key == Key::Char('k') {
        Some(prev_option(current, len))
    } else if key.key == Key::Down || key.key == Key::Char('j') {
        Some(next_option(current, len))
    } else if key.key == Key::Home {
        Some(0)
    } else if key.key == Key::End {
        Some(len - 1)
    } else {
        None
    }
}

/// Whether `key` is consumed by a group of `len` options: the navigation
/// keys and Space/Enter, without modifiers, in a non-empty group.
pub open spec fn radio_key_consumed(key: KeyCombo, len: int) -> bool {
    !(key.modifiers.ctrl || key.modifiers.alt || key.modifiers.shift) && len > 0 && (
        key.key == Key::Up || key.key == Key::Char('k') || key.key == Key::Down || key.key == Key::Char('j')
        || key.key == Key::Home || key.key == Key::End || key.key == Key::Char(' ') || key.key == Key::Enter)
}

/// In a non-empty group without modifiers, Down (or `j`) moves to the
/// next option and Up (or `k`) to the previous one, wrapping around, so
/// that Up undoes Down; Home goes to the first option and End to the last;
/// every target is an option of the group; with a modifier, in an empty
/// group, or for other keys, nothing moves.
pub proof fn law_radio_keys(key: KeyCombo, selected: Option<usize>, len: int)
    requires
        0 <= len <= usize::MAX,
        selected matches Some(i) ==> i < len,
    ensures
        ({
            let r = radio_key_target(key, selected, len);
            let current: int = match selected { Some(i) => i as int, None => 0 };
            let plain = !key.modifiers.ctrl && !key.modifiers.alt && !key.modifiers.shift && len > 0;
            let up = KeyCombo { key: Key::Up, modifiers: key.modifiers };
            &&& r matches Some(t) ==> 0 <= t < len
            &&& !plain ==> r is None
            &&& plain && (key.key == Key::Down || key.key == Key::Char('j'))
                ==> r == Some(if current + 1 < len { current + 1 } else { 0 })
            &&& plain && (key.key == Key::Up || key.key == Key::Char('k'))
                ==> r == Some(if current > 0 { current - 1 } else { len - 1 })
            &&& plain && (key.key == Key::Down || key.key == Key::Char('j')) ==> (r matches Some(t)
                && radio_key_target(up, Some(t as usize), len) == Some(current))
            &&& plain && key.key == Key::Home ==> r == Some(0int)
            &&& plain && key.key == Key::End ==> r == Some(len - 1)
            &&& !(key.key == Key::Up || key.key == Key::Char('k') || key.key == Key::Down || key.key == Key::Char('j')
                || key.key == Key::Home || key.key == Key::End) ==> r is None
        }),
{
}

impl RadioGroup {
    /// The selection points at an option.
    pub open spec fn wf(&self) -> bool {
        self.selected matches Some(i) ==> i < self.options@.len()
    }

    /// Create an empty group.
    pub fn new(id: RadioGroupId) -> (r: Self)
        ensures
            r.wf(),
            r.id == id,
            r.selected is None,
            r.options@.len() == 0,
            r.selected_char == '◉' && r.unselected_char == '◯',
            r.error is None,
            !r.dirty && !r.focus_requested,
    {
        RadioGroup {
            id,
            selected: None,
            options: Vec::new(),
            selected_char: '◉',
            unselected_char: '◯',
            error: None,
            dirty: false,
            focus_requested: false,
        }
    }

    /// Create a group with the given options and nothing selected.
    pub fn with_options(id: RadioGroupId, options: Vec<String>) -> (r: Self)
        ensures
            r.wf(),
            r.id == id,
            r.selected is None,
            r.options == options,
            r.selected_char == '◉' && r.unselected_char == '◯',
            r.error is None,
            !r.dirty && !r.focus_requested,
    {
        let mut g = RadioGroup::new(id);
        g.options = options;
        g
    }

    /// Set custom indicator characters (builder form).
    pub fn with_indicators(self, selected: char, unselected: char) -> (r: Self)
        ensures
            r.selected_char == selected && r.unselected_char == unselected,
            r.id == self.id && r.selected == self.selected && r.options == self.options,
            r.error == self.error && r.dirty == self.dirty,
    {
        let mut g = self;
        g.selected_char = selected;
        g.unselected_char = unselected;
        g
    }

    /// The id string.
    pub fn id_string(&self) -> (r: String)
        ensures
            r@ == "__radio_group_"@ + crate::numfmt::decimal(self.id.value() as nat),
    {
        self.id.to_string()
    }

    /// Index of the selected option.
    pub fn selected(&self) -> (r: Option<usize>)
        ensures
            r == self.selected,
    {
        self.selected
    }

    /// The indicator character of the selected option.
    pub fn selected_char(&self) -> (r: char)
        ensures
            r == self.selected_char,
    {
        self.selected_char
    }

    /// The indicator character of the other options.
    pub fn unselected_char(&self) -> (r: char)
        ensures
            r == self.unselected_char,
    {
        self.unselected_char
    }

    /// The option labels.
    pub fn options(&self) -> (r: Vec<String>)
        ensures
            r@ == self.options@,
    {
        let mut out: Vec<String> = Vec::new();
        let mut i: usize = 0;
        while i < self.options.len()
            invariant
                i <= self.options@.len(),
                out@ == self.options@.subrange(0, i as int),
            decreases self.options@.len() - i,
        {
            out.push(self.options[i].clone());
            i = i + 1;
        }
        out
    }

    /// Number of options.
    pub fn len(&self) -> (r: usize)
        ensures
            r == self.options@.len(),
    {
        self.options.len()
    }

    /// Whether the group has no options.
    pub fn is_empty(&self) -> (r: bool)
        ensures
            r == (self.options@.len() == 0),
    {
        self.options.len() == 0
    }

    /// Whether the option at `index` is selected.
    pub fn is_selected(&self, index: usize) -> (r: bool)
        ensures
            r == (self.selected == Some(index)),
    {
        match self.selected {
            Some(i) => i == index,
            None => false,
        }
    }

    /// The label of the option at `index`.
    pub fn label_at(&self, index: usize) -> (r: Option<String>)
        ensures
            r == (if index < self.options@.len() { Some(self.options@[index as int]) } else { None }),
    {
        if index < self.options.len() {
            Some(self.options[index].clone())
        } else {
            None
        }
    }

    /// The label of the selected option.
    pub fn selected_label(&self) -> (r: Option<String>)
        ensures
            r == (match self.selected {
                Some(i) => if i < self.options@.len() { Some(self.options@[i as int]) } else { None },
                None => None,
            }),
    {
        match self.selected {
            Some(i) => self.label_at(i),
            None => None,
        }
    }

    /// Select the option at `index`: an index past the options is ignored;
    /// a change clears the error and marks the group dirty.
    pub fn select(&mut self, index: usize)
        ensures
            final(self).selected == (if index < old(self).options@.len() { Some(index) } else { old(self).selected }),
            final(self).error == (if index < old(self).options@.len() && old(self).selected != Some(index) {
                None
            } else {
                old(self).error
            }),
            final(self).dirty == (old(self).dirty || (index < old(self).options@.len() && old(self).selected != Some(index))),
            final(self).options == old(self).options,
            final(self).id == old(self).id,
            old(self).wf() ==> final(self).wf(),
    {
        if index < self.options.len() && !self.is_selected(index) {
            self.selected = Some(index);
            self.error = None;
            self.dirty = true;
        }
    }

    /// Clear the selection.
    pub fn clear(&mut self)
        ensures
            final(self).selected is None,
            final(self).error == (if old(self).selected is Some { None } else { old(self).error }),
            final(self).dirty == (old(self).dirty || old(self).selected is Some),
            final(self).options == old(self).options,
            final(self).wf(),
    {
        if self.selected.is_some() {
            self.selected = None;
            self.error = None;
            self.dirty = true;
        }
    }

    /// Replace the options; a selection past the new options is cleared.
    pub fn set_options(&mut self, options: Vec<String>)
        ensures
            final(self).options == options,
            final(self).selected == (match old(self).selected {
                Some(i) => if i < options@.len() { Some(i) } else { None },
                None => None,
            }),
            final(self).dirty,
            final(self).error == old(self).error,
            final(self).wf(),
    {
        self.options = options;
        if let Some(i) = self.selected {
            if i >= self.options.len() {
                self.selected = None;
            }
        }
        self.dirty = true;
    }

    /// Set the indicator characters.
    pub fn set_indicators(&mut self, selected: char, unselected: char)
        ensures
            final(self).selected_char == selected && final(self).unselected_char == unselected,
            final(self).dirty,
            final(self).selected == old(self).selected,
            final(self).options == old(self).options,
    {
        self.selected_char = selected;
        self.unselected_char = unselected;
        self.dirty = true;
    }

    /// Request focus for this group.
    pub fn focus(&mut self)
        ensures
            final(self).focus_requested,
            final(self).selected == old(self).selected,
            final(self).dirty == old(self).dirty,
    {
        self.focus_requested = true;
    }

    /// Take the pending focus request, if any.
    pub fn take_focus_request(&mut self) -> (r: bool)
        ensures
            r == old(self).focus_requested,
            !final(self).focus_requested,
            final(self).selected == old(self).selected,
            final(self).dirty == old(self).dirty,
    {
        let r = self.focus_requested;
        self.focus_requested = false;
        r
    }

    /// Whether the state changed since the last render.
    pub fn is_dirty(&self) -> (r: bool)
        ensures
            r == self.dirty,
    {
        self.dirty
    }

    /// Clear the dirty flag after rendering.
    pub fn clear_dirty(&mut self)
        ensures
            !final(self).dirty,
            final(self).selected == old(self).selected,
            final(self).options == old(self).options,
    {
        self.dirty = false;
    }

    /// Set a validation error.
    pub fn set_error(&mut self, msg: String)
        ensures
            final(self).error == Some(msg),
            final(self).dirty,
            final(self).selected == old(self).selected,
            final(self).options == old(self).options,
    {
        self.error = Some(msg);
        self.dirty = true;
    }

    /// Clear the validation error.
    pub fn clear_error(&mut self)
        ensures
            final(self).error is None,
            final(self).dirty == (old(self).dirty || old(self).error is Some),
            final(self).selected == old(self).selected,
            final(self).options == old(self).options,
    {
        if self.error.is_some() {
            self.error = None;
            self.dirty = true;
        }
    }

    /// Whether there is a validation error.
    pub fn has_error(&self) -> (r: bool)
        ensures
            r == self.error is Some,
    {
        self.error.is_some()
    }

    /// The validation error.
    pub fn error(&self) -> (r: Option<String>)
        ensures
            r == self.error,
    {
        self.error.clone()
    }

    /// A click on row `y` selects that option, if there is one.
    pub fn dispatch_click(&mut self, y: u16) -> (r: EventResult)
        ensures
            r == EventResult::Consumed,
            final(self).selected == (if (y as int) < old(self).options@.len() { Some(y as usize) } else { old(self).selected }),
            final(self).options == old(self).options,
            old(self).wf() ==> final(self).wf(),
    {
        let index = y as usize;
        if index < self.options.len() {
            self.select(index);
        }
        EventResult::Consumed
    }
}

impl WidgetEvents for RadioGroup {
    /// Keyboard navigation: see [`radio_key_target`] for the option that
    /// gets selected and [`radio_key_consumed`] for the keys that are
    /// consumed.
    fn on_key(&mut self, key: &KeyCombo, cx: &mut EventSink) -> (r: EventResult)
        ensures
            old(self).wf() ==> final(self).wf(),
            old(self).wf() ==> final(self).selected == (match radio_key_target(*key, old(self).selected, old(self).options@.len() as int) {
                Some(t) => Some(t as usize),
                None => old(self).selected,
            }),
            old(self).wf() ==> r == (if radio_key_consumed(*key, old(self).options@.len() as int) {
                EventResult::Consumed
            } else {
                EventResult::Ignored
            }),
            final(self).options == old(self).options,
            *final(cx) == *old(cx),
    {
        if key.modifiers.any() {
            return EventResult::Ignored;
        }
        let len = self.options.len();
        if len == 0 {
            return EventResult::Ignored;
        }
        let current: usize = match self.selected {
            Some(i) => if i < len { i } else { 0 },
            None => 0,
        };
        match key.key {
            Key::Char(c) => {
                if c == ' ' {
                    EventResult::Consumed
                } else if c == 'k' {
                    let new_index = if current == 0 { len - 1 } else { current - 1 };
                    self.select(new_index);
                    EventResult::Consumed
                } else if c == 'j' {
                    let new_index = if current + 1 >= len { 0 } else { current + 1 };
                    self.select(new_index);
                    EventResult::Consumed
                } else {
                    EventResult::Ignored
                }
            },
            Key::Enter => EventResult::Consumed,
            Key::Up => {
                let new_index = if current == 0 { len - 1 } else { current - 1 };
                self.select(new_index);
                EventResult::Consumed
            },
            Key::Down => {
                let new_index = if current + 1 >= len { 0 } else { current + 1 };
                self.select(new_index);
                EventResult::Consumed
            },
            Key::Home => {
                self.select(0);
                EventResult::Consumed
            },
            Key::End => {
                self.select(len - 1);
                EventResult::Consumed
            },
            _ => EventResult::Ignored,
        }
    }
}

/// Moving down and then up, or up and then down, comes back to the option
/// where it started, wrap-around included.
pub proof fn law_radio_down_up(current: int, len: int)
    requires
        0 <= current < len,
    ensures
        prev_option(next_option(current, len), len) == current,
        next_option(prev_option(current, len), len) == current,
{
}

} // verus!
