//! Autocomplete field: a text input whose value filters a dropdown of
//! option labels, with keyboard and mouse handling.
use vstd::prelude::*;
use super::filter::{fuzzy_filter, is_filter_result, FilterMatch};
use super::item::AutocompleteItem;
use crate::events::{EventResult, EventSink, WidgetEvent, WidgetEventKind, WidgetEvents};
use crate::input::{Key, KeyCombo, ScrollDirection};
use crate::measure::utf8_len;
use crate::text_input::{input_after_key, input_key_consumed, insert_char_at, remove_char_at};
use crate::widget_ids::AutocompleteId;

verus! {

/// An autocomplete field.
#[derive(Debug, Clone)]
pub struct Autocomplete {
    /// The instance identifier.
    pub id: AutocompleteId,
    /// Current text value.
    pub value: String,
    /// Text cursor, in characters from the start.
    pub text_cursor: usize,
    /// Placeholder shown while the value is empty.
    pub placeholder: String,
    /// The labels that match the value, best first.
    pub filtered: Vec<FilterMatch>,
    /// Where the field was last drawn (x, y, width, height).
    pub anchor_rect: Option<(u16, u16, u16, u16)>,
    /// The option labels.
    pub option_labels: Vec<String>,
    /// Validation error, if any.
    pub error: Option<String>,
    /// The state changed since the last render.
    pub dirty: bool,
    /// Whether the dropdown is open.
    pub is_open: bool,
    /// Dropdown cursor (index into the filtered options).
    pub cursor: usize,
    /// Focus was requested and not yet taken.
    pub focus_requested: bool,
}

/// The dropdown cursor after a refilter that left `count` results: it goes
/// back to the first result when it lies past the last.
pub open spec fn cursor_after_refilter(cursor: usize, count: int) -> usize {
    let max: int = if count > 0 { count - 1 } else { 0 };
    if cursor > max { 0 } else { cursor }
}

/// `index`, at most the last of `count` options (0 without options).
pub open spec fn clamp_cursor(index: usize, count: int) -> usize {
    let max: int = if count > 0 { count - 1 } else { 0 };
    if index < max { index } else { max as usize }
}

/// Whether `key` opens a closed dropdown: Enter, Space or Down.
pub open spec fn opens_dropdown(key: KeyCombo) -> bool {
    key.key == Key::Enter || key.key == Key::Char(' ') || key.key == Key::Down
}

/// The text and text cursor after `key` (see [`input_after_key`]), except
/// that the keys that open a closed dropdown leave the text alone.
pub open spec fn autocomplete_text_after(key: KeyCombo, open: bool, value: Seq<char>, cursor: int) -> (Seq<char>, int) {
    if !open && opens_dropdown(key) && !key.modifiers.ctrl && !key.modifiers.alt {
        (value, cursor)
    } else {
        input_after_key(key, value, cursor)
    }
}

/// Whether the field consumes `key`: without Ctrl or Alt, the editing
/// keys, and the keys that open a closed dropdown or act on an open one.
pub open spec fn autocomplete_consumes(key: KeyCombo, open: bool) -> bool {
    !key.modifiers.ctrl && !key.modifiers.alt && (
        input_key_consumed(key)
        || (!open && opens_dropdown(key))
        || (open && (key.key == Key::Up || key.key == Key::Down || key.key == Key::Enter || key.key == Key::Escape)))
}

/// The dropdown cursor after `key`, for a field whose dropdown was `open`
/// with the cursor at `cursor` over `before` results, which holds `after`
/// results once the key is handled; `edited` tells whether the key changed
/// the text and `chose` whether Enter chose the option under the cursor.
/// Opening the dropdown puts the cursor on the first result, Up and Down
/// move it within the results, and a new filter sends it back to the first
/// result when it lies past the last.
pub open spec fn dropdown_cursor_after(key: KeyCombo, open: bool, cursor: usize, before: int, after: int, edited: bool, chose: bool) -> usize {
    if key.modifiers.ctrl || key.modifiers.alt {
        cursor
    } else if !open {
        if opens_dropdown(key) || key.key is Char {
            0
        } else if edited {
            cursor_after_refilter(cursor, after)
        } else {
            cursor
        }
    } else {
        match key.key {
            Key::Up => if cursor > 0 { clamp_cursor((cursor - 1) as usize, before) } else { cursor },
            Key::Down => if cursor + 1 < before { (cursor + 1) as usize } else { cursor },
            Key::Enter => if chose { cursor_after_refilter(cursor, after) } else { cursor },
            _ => if edited { cursor_after_refilter(cursor, after) } else { cursor },
        }
    }
}

/// Whether `key` edits the text of the field: without Ctrl or Alt,
/// Backspace, Delete, and any character but a space that opens a closed
/// dropdown.
pub open spec fn autocomplete_edits(key: KeyCombo, open: bool) -> bool {
    &&& !key.modifiers.ctrl && !key.modifiers.alt
    &&& (key.key is Backspace || key.key is Delete || (key.key is Char && (open || key.key != Key::Char(' '))))
}

/// The keys of an autocomplete field: with the dropdown closed, Enter,
/// Space and Down open it and leave the text as it is; with it open, Up,
/// Down, Enter and Escape act on the dropdown and never change the text,
/// Down moving the cursor to the next result and Up to the previous one
/// (when there is one); typing a character (other than a Space that opens
/// the dropdown) inserts it at the text cursor; with Ctrl or Alt held the
/// field ignores the key.
pub proof fn law_autocomplete_keys(key: KeyCombo, open: bool, value: Seq<char>, cursor: int,
    dcursor: usize, before: int, after: int, edited: bool, chose: bool)
    requires
        0 <= cursor <= value.len(),
        dcursor < before <= usize::MAX,
    ensures
        ({
            let plain = !key.modifiers.ctrl && !key.modifiers.alt;
            let text = autocomplete_text_after(key, open, value, cursor);
            let dc = dropdown_cursor_after(key, open, dcursor, before, after, edited, chose);
            &&& !plain ==> !autocomplete_consumes(key, open) && text == (value, cursor) && dc == dcursor
            &&& plain && !open && opens_dropdown(key) ==> autocomplete_consumes(key, open) && text == (value, cursor) && dc == 0
            &&& plain && open && (key.key == Key::Up || key.key == Key::Down || key.key == Key::Enter || key.key == Key::Escape)
                ==> autocomplete_consumes(key, open) && text == (value, cursor)
            &&& plain && open && key.key == Key::Down ==> dc == (if dcursor + 1 < before { dcursor + 1 } else { dcursor as int })
            &&& plain && open && key.key == Key::Up ==> dc == (if dcursor > 0 { dcursor - 1 } else { 0 })
            &&& plain && key.key is Char && (open || key.key != Key::Char(' ')) ==> {
                &&& autocomplete_edits(key, open)
                &&& text.0.len() == value.len() + 1 && text.0[cursor] == key.key->Char_0 && text.1 == cursor + 1
            }
        }),
{
}

impl Autocomplete {
    /// The text cursor lies within the value and the filtered options are
    /// those of the value.
    pub open spec fn wf(&self) -> bool {
        &&& self.cursor_ok()
        &&& is_filter_result(self.value@, self.option_labels@, self.filtered@)
    }

    /// The text cursor lies within the value.
    pub open spec fn cursor_ok(&self) -> bool {
        self.text_cursor <= self.value@.len()
    }

    /// Create an empty field.
    pub fn new(id: AutocompleteId) -> (r: Self)
        ensures
            r.wf(),
            r.id == id,
            r.value@.len() == 0 && r.placeholder@.len() == 0,
            r.option_labels@.len() == 0 && r.filtered@.len() == 0,
            r.text_cursor == 0 && r.cursor == 0,
            !r.is_open && !r.dirty && !r.focus_requested,
            r.error is None && r.anchor_rect is None,
    {
        Autocomplete {
            id,
            value: String::new(),
            text_cursor: 0,
            placeholder: String::new(),
            filtered: Vec::new(),
            anchor_rect: None,
            option_labels: Vec::new(),
            error: None,
            dirty: false,
            is_open: false,
            cursor: 0,
            focus_requested: false,
        }
    }

    /// Create an empty field with a placeholder.
    pub fn with_placeholder(id: AutocompleteId, placeholder: String) -> (r: Self)
        ensures
            r.wf(),
            r.id == id,
            r.value@.len() == 0,
            r.placeholder == placeholder,
            r.option_labels@.len() == 0 && r.filtered@.len() == 0,
            !r.is_open && !r.dirty,
    {
        let mut a = Autocomplete::new(id);
        a.placeholder = placeholder;
        a
    }

    /// Create a field holding `value`, with the text cursor at its end.
    pub fn with_value(id: AutocompleteId, value: String) -> (r: Self)
        ensures
            r.wf(),
            r.id == id,
            r.value == value,
            r.text_cursor == value@.len(),
            r.option_labels@.len() == 0 && r.filtered@.len() == 0,
            !r.is_open && !r.dirty,
    {
        let n = value.as_str().unicode_len();
        let mut a = Autocomplete::new(id);
        a.value = value;
        a.text_cursor = n;
        a
    }

    /// The id string.
    pub fn id_string(&self) -> (r: String)
        ensures
            r@ == "__autocomplete_"@ + crate::numfmt::decimal(self.id.value() as nat),
    {
        self.id.to_string()
    }

    /// Re-run the filter on the value; the dropdown cursor goes back to the
    /// first result when it lies past the last.
    fn refilter(&mut self)
        ensures
            is_filter_result(final(self).value@, final(self).option_labels@, final(self).filtered@),
            final(self).cursor == cursor_after_refilter(old(self).cursor, final(self).filtered@.len() as int),
            final(self).value == old(self).value,
            final(self).text_cursor == old(self).text_cursor,
            final(self).option_labels == old(self).option_labels,
            final(self).is_open == old(self).is_open,
            final(self).dirty == old(self).dirty,
            final(self).error == old(self).error,
            final(self).id == old(self).id,
            final(self).placeholder == old(self).placeholder,
    {
        self.filtered = fuzzy_filter(self.value.as_str(), self.option_labels.as_slice());
        let max = self.filtered.len().saturating_sub(1);
        if self.cursor > max {
            self.cursor = 0;
        }
    }

    /// The current value.
    pub fn value(&self) -> (r: String)
        ensures
            r@ == self.value@,
    {
        self.value.clone()
    }

    /// Replace the value; the text cursor moves to its end, the error
    /// clears and the options are filtered again.
    pub fn set_value(&mut self, value: String)
        ensures
            final(self).wf(),
            final(self).value == value,
            final(self).text_cursor == value@.len(),
            final(self).error is None,
            final(self).dirty,
            final(self).cursor == cursor_after_refilter(old(self).cursor, final(self).filtered@.len() as int),
            final(self).option_labels == old(self).option_labels,
            final(self).is_open == old(self).is_open,
            final(self).id == old(self).id,
    {
        let n = value.as_str().unicode_len();
        self.value = value;
        self.text_cursor = n;
        self.error = None;
        self.refilter();
        self.dirty = true;
    }

    /// Clear the value.
    pub fn clear(&mut self)
        ensures
            final(self).wf(),
            final(self).value@.len() == 0,
            final(self).text_cursor == 0,
            final(self).error is None,
            final(self).dirty,
            final(self).option_labels == old(self).option_labels,
            final(self).is_open == old(self).is_open,
    {
        self.value = String::new();
        self.text_cursor = 0;
        self.error = None;
        self.refilter();
        self.dirty = true;
    }

    /// Whether the value is empty.
    pub fn is_empty(&self) -> (r: bool)
        ensures
            r == (self.value@.len() == 0),
    {
        self.value.as_str().is_empty()
    }

    /// The placeholder.
    pub fn placeholder(&self) -> (r: String)
        ensures
            r@ == self.placeholder@,
    {
        self.placeholder.clone()
    }

    /// Set the placeholder.
    pub fn set_placeholder(&mut self, placeholder: String)
        ensures
            final(self).placeholder == placeholder,
            final(self).dirty,
            final(self).value == old(self).value,
            final(self).filtered == old(self).filtered,
            final(self).option_labels == old(self).option_labels,
            final(self).text_cursor == old(self).text_cursor,
    {
        self.placeholder = placeholder;
        self.dirty = true;
    }

    /// The text cursor as a byte offset into the value.
    pub fn text_cursor(&self) -> (r: usize)
        requires
            self.text_cursor <= self.value@.len(),
        ensures
            r == utf8_len(self.value@.subrange(0, self.text_cursor as int)),
    {
        self.value.as_str().substring_char(0, self.text_cursor).len()
    }

    /// Insert a character at the text cursor and filter again.
    pub fn insert_char(&mut self, c: char)
        requires
            old(self).cursor_ok(),
        ensures
            final(self).wf(),
            final(self).value@ == old(self).value@.subrange(0, old(self).text_cursor as int).push(c)
                + old(self).value@.subrange(old(self).text_cursor as int, old(self).value@.len() as int),
            final(self).text_cursor == old(self).text_cursor + 1,
            final(self).error is None,
            final(self).dirty,
            final(self).cursor == cursor_after_refilter(old(self).cursor, final(self).filtered@.len() as int),
            final(self).option_labels == old(self).option_labels,
            final(self).is_open == old(self).is_open,
            final(self).id == old(self).id,
    {
        let k = self.text_cursor;
        let v = insert_char_at(self.value.as_str(), k, c);
        self.value = v;
        let m = self.value.as_str().unicode_len();
        assert(m == old(self).value@.len() + 1);
        self.text_cursor = k + 1;
        self.error = None;
        self.refilter();
        self.dirty = true;
    }

    /// Delete the character before the text cursor and filter again.
    pub fn delete_char_before(&mut self)
        requires
            old(self).cursor_ok(),
        ensures
            final(self).cursor_ok(),
            old(self).wf() ==> final(self).wf(),
            old(self).text_cursor > 0 ==> {
                &&& final(self).value@ == old(self).value@.subrange(0, old(self).text_cursor - 1)
                    + old(self).value@.subrange(old(self).text_cursor as int, old(self).value@.len() as int)
                &&& final(self).text_cursor == old(self).text_cursor - 1
                &&& final(self).error is None
                &&& final(self).dirty
                &&& final(self).wf()
                &&& final(self).cursor == cursor_after_refilter(old(self).cursor, final(self).filtered@.len() as int)
            },
            old(self).text_cursor == 0 ==> *final(self) == *old(self),
            final(self).option_labels == old(self).option_labels,
            final(self).is_open == old(self).is_open,
            final(self).id == old(self).id,
    {
        if self.text_cursor > 0 {
            let k = self.text_cursor;
            let v = remove_char_at(self.value.as_str(), k - 1);
            self.value = v;
            self.text_cursor = k - 1;
            self.error = None;
            self.refilter();
            self.dirty = true;
        }
    }

    /// Delete the character at the text cursor and filter again.
    pub fn delete_char_at(&mut self)
        requires
            old(self).cursor_ok(),
        ensures
            final(self).cursor_ok(),
            old(self).wf() ==> final(self).wf(),
            old(self).text_cursor < old(self).value@.len() ==> {
                &&& final(self).value@ == old(self).value@.subrange(0, old(self).text_cursor as int)
                    + old(self).value@.subrange(old(self).text_cursor + 1, old(self).value@.len() as int)
                &&& final(self).text_cursor == old(self).text_cursor
                &&& final(self).error is None
                &&& final(self).dirty
                &&& final(self).wf()
                &&& final(self).cursor == cursor_after_refilter(old(self).cursor, final(self).filtered@.len() as int)
            },
            old(self).text_cursor == old(self).value@.len() ==> *final(self) == *old(self),
            final(self).option_labels == old(self).option_labels,
            final(self).is_open == old(self).is_open,
            final(self).id == old(self).id,
    {
        let n = self.value.as_str().unicode_len();
        let k = self.text_cursor;
        if k < n {
            let v = remove_char_at(self.value.as_str(), k);
            self.value = v;
            self.error = None;
            self.refilter();
            self.dirty = true;
        }
    }

    /// Move the text cursor one character left.
    pub fn text_cursor_left(&mut self)
        requires
            old(self).cursor_ok(),
        ensures
            final(self).cursor_ok(),
            old(self).wf() ==> final(self).wf(),
            final(self).text_cursor == (if old(self).text_cursor > 0 { old(self).text_cursor - 1 } else { 0 }),
            final(self).dirty == (old(self).dirty || old(self).text_cursor > 0),
            final(self).value == old(self).value && final(self).filtered == old(self).filtered,
            final(self).cursor == old(self).cursor && final(self).is_open == old(self).is_open,
            final(self).option_labels == old(self).option_labels && final(self).error == old(self).error,
            final(self).id == old(self).id,
    {
        if self.text_cursor > 0 {
            self.text_cursor = self.text_cursor - 1;
            self.dirty = true;
        }
    }

    /// Move the text cursor one character right.
    pub fn text_cursor_right(&mut self)
        requires
            old(self).cursor_ok(),
        ensures
            final(self).cursor_ok(),
            old(self).wf() ==> final(self).wf(),
            final(self).text_cursor == (if old(self).text_cursor < old(self).value@.len() {
                old(self).text_cursor + 1
            } else {
                old(self).text_cursor as int
            }),
            final(self).dirty == (old(self).dirty || old(self).text_cursor < old(self).value@.len()),
            final(self).value == old(self).value && final(self).filtered == old(self).filtered,
            final(self).cursor == old(self).cursor && final(self).is_open == old(self).is_open,
            final(self).option_labels == old(self).option_labels && final(self).error == old(self).error,
            final(self).id == old(self).id,
    {
        if self.text_cursor < self.value.as_str().unicode_len() {
            self.text_cursor = self.text_cursor + 1;
            self.dirty = true;
        }
    }

    /// Move the text cursor to the start.
    pub fn text_cursor_home(&mut self)
        requires
            old(self).cursor_ok(),
        ensures
            final(self).cursor_ok(),
            old(self).wf() ==> final(self).wf(),
            final(self).text_cursor == 0,
            final(self).dirty == (old(self).dirty || old(self).text_cursor != 0),
            final(self).value == old(self).value && final(self).filtered == old(self).filtered,
            final(self).cursor == old(self).cursor && final(self).is_open == old(self).is_open,
            final(self).option_labels == old(self).option_labels && final(self).error == old(self).error,
            final(self).id == old(self).id,
    {
        if self.text_cursor != 0 {
            self.text_cursor = 0;
            self.dirty = true;
        }
    }

    /// Move the text cursor to the end.
    pub fn text_cursor_end(&mut self)
        requires
            old(self).cursor_ok(),
        ensures
            final(self).cursor_ok(),
            old(self).wf() ==> final(self).wf(),
            final(self).text_cursor == old(self).value@.len(),
            final(self).dirty == (old(self).dirty || old(self).text_cursor != old(self).value@.len()),
            final(self).value == old(self).value && final(self).filtered == old(self).filtered,
            final(self).cursor == old(self).cursor && final(self).is_open == old(self).is_open,
            final(self).option_labels == old(self).option_labels && final(self).error == old(self).error,
            final(self).id == old(self).id,
    {
        let end = self.value.as_str().unicode_len();
        if self.text_cursor != end {
            self.text_cursor = end;
            self.dirty = true;
        }
    }

    /// Whether the dropdown is open.
    pub fn is_open(&self) -> (r: bool)
        ensures
            r == self.is_open,
    {
        self.is_open
    }

    /// Open the dropdown; when it was closed, its cursor goes to the first
    /// option.
    pub fn open(&mut self)
        ensures
            final(self).is_open,
            final(self).cursor == (if old(self).is_open { old(self).cursor } else { 0 }),
            final(self).dirty == (old(self).dirty || !old(self).is_open),
            final(self).value == old(self).value && final(self).filtered == old(self).filtered,
            final(self).text_cursor == old(self).text_cursor,
            final(self).option_labels == old(self).option_labels && final(self).error == old(self).error,
            final(self).id == old(self).id,
    {
        if !self.is_open {
            self.is_open = true;
            self.cursor = 0;
            self.dirty = true;
        }
    }

    /// Close the dropdown.
    pub fn close(&mut self)
        ensures
            !final(self).is_open,
            final(self).cursor == old(self).cursor,
            final(self).dirty == (old(self).dirty || old(self).is_open),
            final(self).value == old(self).value && final(self).filtered == old(self).filtered,
            final(self).text_cursor == old(self).text_cursor,
            final(self).option_labels == old(self).option_labels && final(self).error == old(self).error,
            final(self).id == old(self).id,
    {
        if self.is_open {
            self.is_open = false;
            self.dirty = true;
        }
    }

    /// Open a closed dropdown, close an open one.
    pub fn toggle(&mut self)
        ensures
            final(self).is_open == !old(self).is_open,
            final(self).cursor == (if old(self).is_open { old(self).cursor } else { 0 }),
            final(self).dirty,
            final(self).value == old(self).value && final(self).filtered == old(self).filtered,
            final(self).text_cursor == old(self).text_cursor,
            final(self).option_labels == old(self).option_labels && final(self).error == old(self).error,
            final(self).id == old(self).id,
    {
        if self.is_open {
            self.close();
        } else {
            self.open();
        }
    }

    /// The dropdown cursor.
    pub fn cursor(&self) -> (r: usize)
        ensures
            r == self.cursor,
    {
        self.cursor
    }

    /// Move the dropdown cursor to `index`, at most the last option.
    pub fn set_cursor(&mut self, index: usize)
        ensures
            final(self).cursor == clamp_cursor(index, old(self).filtered@.len() as int),
            final(self).dirty,
            final(self).value == old(self).value && final(self).filtered == old(self).filtered,
            final(self).text_cursor == old(self).text_cursor && final(self).is_open == old(self).is_open,
            final(self).option_labels == old(self).option_labels && final(self).error == old(self).error,
            final(self).id == old(self).id,
    {
        let max = self.filtered.len().saturating_sub(1);
        self.cursor = if index < max { index } else { max };
        self.dirty = true;
    }

    /// Move the dropdown cursor one option up.
    pub fn cursor_up(&mut self)
        ensures
            old(self).cursor > 0 ==> final(self).cursor == clamp_cursor((old(self).cursor - 1) as usize, old(self).filtered@.len() as int),
            old(self).cursor == 0 ==> *final(self) == *old(self),
            final(self).value == old(self).value && final(self).filtered == old(self).filtered,
            final(self).text_cursor == old(self).text_cursor && final(self).is_open == old(self).is_open,
            final(self).option_labels == old(self).option_labels && final(self).error == old(self).error,
            final(self).id == old(self).id,
    {
        let current = self.cursor;
        if current > 0 {
            self.set_cursor(current - 1);
        }
    }

    /// Move the dropdown cursor one option down, up to the last option.
    pub fn cursor_down(&mut self)
        ensures
            old(self).cursor + 1 < old(self).filtered@.len() ==> final(self).cursor == old(self).cursor + 1,
            !(old(self).cursor + 1 < old(self).filtered@.len()) ==> *final(self) == *old(self),
            final(self).value == old(self).value && final(self).filtered == old(self).filtered,
            final(self).text_cursor == old(self).text_cursor && final(self).is_open == old(self).is_open,
            final(self).option_labels == old(self).option_labels && final(self).error == old(self).error,
            final(self).id == old(self).id,
    {
        let current = self.cursor;
        let max = self.filtered.len().saturating_sub(1);
        if current < max {
            self.set_cursor(current + 1);
        }
    }

    /// Choose the option under the dropdown cursor: its label becomes the
    /// value and the dropdown closes; nothing happens when the cursor
    /// points at no option.
    pub fn select_at_cursor(&mut self)
        ensures
            ({
                let ok = old(self).cursor < old(self).filtered@.len()
                    && old(self).filtered@[old(self).cursor as int].index < old(self).option_labels@.len();
                &&& ok ==> {
                    &&& final(self).wf()
                    &&& final(self).value@ == old(self).option_labels@[old(self).filtered@[old(self).cursor as int].index as int]@
                    &&& final(self).text_cursor == final(self).value@.len()
                    &&& !final(self).is_open
                    &&& final(self).error is None
                    &&& final(self).dirty
                    &&& final(self).cursor == cursor_after_refilter(old(self).cursor, final(self).filtered@.len() as int)
                }
                &&& !ok ==> *final(self) == *old(self)
            }),
            final(self).option_labels == old(self).option_labels,
            final(self).id == old(self).id,
    {
        let cursor = self.cursor;
        if cursor < self.filtered.len() && self.filtered[cursor].index < self.option_labels.len() {
            let label = self.option_labels[self.filtered[cursor].index].clone();
            self.set_value(label);
            self.close();
        }
    }

    /// Replace the options with the labels of `items` and filter again.
    pub fn set_items<I: AutocompleteItem>(&mut self, items: &[I])
        ensures
            final(self).option_labels@.len() == items@.len(),
            forall|i: int| 0 <= i < items@.len() ==> #[trigger] final(self).option_labels@[i]@ == items@[i].label_view(),
            is_filter_result(final(self).value@, final(self).option_labels@, final(self).filtered@),
            final(self).value == old(self).value,
            final(self).text_cursor == old(self).text_cursor,
            final(self).is_open == old(self).is_open,
            final(self).dirty,
            old(self).wf() ==> final(self).wf(),
    {
        let mut labels: Vec<String> = Vec::new();
        let mut i: usize = 0;
        while i < items.len()
            invariant
                i <= items@.len(),
                labels@.len() == i,
                forall|j: int| 0 <= j < i ==> #[trigger] labels@[j]@ == items@[j].label_view(),
            decreases items@.len() - i,
        {
            labels.push(items[i].autocomplete_label());
            i = i + 1;
        }
        self.option_labels = labels;
        self.refilter();
        self.dirty = true;
    }

    /// Replace the option labels and filter again.
    pub fn set_option_labels(&mut self, labels: Vec<String>)
        ensures
            final(self).option_labels == labels,
            is_filter_result(final(self).value@, final(self).option_labels@, final(self).filtered@),
            final(self).cursor == cursor_after_refilter(old(self).cursor, final(self).filtered@.len() as int),
            final(self).value == old(self).value,
            final(self).text_cursor == old(self).text_cursor,
            final(self).is_open == old(self).is_open,
            final(self).dirty == old(self).dirty,
            old(self).wf() ==> final(self).wf(),
    {
        self.option_labels = labels;
        self.refilter();
    }

    /// The number of filtered options.
    pub fn filtered_count(&self) -> (r: usize)
        ensures
            r == self.filtered@.len(),
    {
        self.filtered.len()
    }

    /// The filtered options.
    pub fn filtered(&self) -> (r: Vec<FilterMatch>)
        ensures
            r@ == self.filtered@,
    {
        let mut out: Vec<FilterMatch> = Vec::new();
        let mut i: usize = 0;
        while i < self.filtered.len()
            invariant
                i <= self.filtered@.len(),
                out@ == self.filtered@.subrange(0, i as int),
            decreases self.filtered@.len() - i,
        {
            out.push(self.filtered[i]);
            i = i + 1;
        }
        out
    }

    /// The label of the option at filtered position `filtered_index`.
    pub fn filtered_label(&self, filtered_index: usize) -> (r: Option<String>)
        ensures
            r == (if filtered_index < self.filtered@.len()
                && self.filtered@[filtered_index as int].index < self.option_labels@.len() {
                Some(self.option_labels@[self.filtered@[filtered_index as int].index as int])
            } else {
                None
            }),
    {
        if filtered_index < self.filtered.len() && self.filtered[filtered_index].index < self.option_labels.len() {
            Some(self.option_labels[self.filtered[filtered_index].index].clone())
        } else {
            None
        }
    }

    /// Where the field was last drawn.
    pub fn anchor_rect(&self) -> (r: Option<(u16, u16, u16, u16)>)
        ensures
            r == self.anchor_rect,
    {
        self.anchor_rect
    }

    /// Record where the field was drawn.
    pub fn set_anchor_rect(&mut self, rect: (u16, u16, u16, u16))
        ensures
            final(self).anchor_rect == Some(rect),
            final(self).value == old(self).value && final(self).filtered == old(self).filtered,
            final(self).option_labels == old(self).option_labels,
            final(self).text_cursor == old(self).text_cursor,
            final(self).is_open == old(self).is_open && final(self).dirty == old(self).dirty,
    {
        self.anchor_rect = Some(rect);
    }

    /// Request focus for this field.
    pub fn focus(&mut self)
        ensures
            final(self).focus_requested,
            final(self).value == old(self).value && final(self).dirty == old(self).dirty,
    {
        self.focus_requested = true;
    }

    /// Take the pending focus request, if any.
    pub fn take_focus_request(&mut self) -> (r: bool)
        ensures
            r == old(self).focus_requested,
            !final(self).focus_requested,
            final(self).value == old(self).value && final(self).dirty == old(self).dirty,
    {
        let r = self.focus_requested;
        self.focus_requested = false;
        r
    }

    /// Whether the state changed since the last render.
    pub fn is_dirty(&self) -> (r: bool)
        ensures
            r == self.dirty,
    {
        self.dirty
    }

    /// Clear the dirty flag after rendering.
    pub fn clear_dirty(&mut self)
        ensures
            !final(self).dirty,
            final(self).value == old(self).value && final(self).filtered == old(self).filtered,
    {
        self.dirty = false;
    }

    /// Set a validation error.
    pub fn set_error(&mut self, msg: String)
        ensures
            final(self).error == Some(msg),
            final(self).dirty,
            final(self).value == old(self).value && final(self).filtered == old(self).filtered,
    {
        self.error = Some(msg);
        self.dirty = true;
    }

    /// Clear the validation error.
    pub fn clear_error(&mut self)
        ensures
            final(self).error is None,
            final(self).dirty == (old(self).dirty || old(self).error is Some),
            final(self).value == old(self).value && final(self).filtered == old(self).filtered,
    {
        if self.error.is_some() {
            self.error = None;
            self.dirty = true;
        }
    }

    /// Whether there is a validation error.
    pub fn has_error(&self) -> (r: bool)
        ensures
            r == self.error is Some,
    {
        self.error.is_some()
    }

    /// The validation error.
    pub fn error(&self) -> (r: Option<String>)
        ensures
            r == self.error,
    {
        self.error.clone()
    }

    /// The width the field asks for: its content (the value, or the
    /// placeholder while the value is empty) in bytes plus 2, at least 15,
    /// kept to its low 16 bits.
    pub fn intrinsic_width(&self) -> (r: u16)
        requires
            utf8_len(self.value@) + 2 <= usize::MAX,
            utf8_len(self.placeholder@) + 2 <= usize::MAX,
        ensures
            r == ({
                let content: int = if self.value@.len() == 0 { utf8_len(self.placeholder@) as int } else { utf8_len(self.value@) as int };
                let w: int = if content + 2 < 15 { 15 } else { content + 2 };
                (w % 0x10000) as u16
            }),
    {
        let content_len = if self.value.as_str().is_empty() {
            self.placeholder.as_str().len()
        } else {
            self.value.as_str().len()
        };
        let w = if content_len + 2 < 15 { 15 } else { content_len + 2 };
        (w % 0x10000) as u16
    }

    /// A click on the field opens or closes the dropdown.
    pub fn dispatch_click(&mut self) -> (r: EventResult)
        ensures
            r == EventResult::Consumed,
            final(self).is_open == !old(self).is_open,
            final(self).value == old(self).value && final(self).filtered == old(self).filtered,
    {
        self.toggle();
        EventResult::Consumed
    }

    /// Focus left the field: the dropdown closes.
    pub fn dispatch_blur(&mut self)
        ensures
            !final(self).is_open,
            final(self).value == old(self).value && final(self).filtered == old(self).filtered,
            final(self).cursor == old(self).cursor,
    {
        self.close();
    }

    /// Report a choice from the dropdown.
    fn report_select(&self, cx: &mut EventSink)
        ensures
            final(cx).input_text matches Some(t) && t@ == self.value@,
            final(cx).events@.len() == old(cx).events@.len() + 1,
            final(cx).events@.drop_last() == old(cx).events@,
            final(cx).events@.last().kind == WidgetEventKind::Select,
            final(cx).events@.last().widget_id@ == "__autocomplete_"@ + crate::numfmt::decimal(self.id.value() as nat),
    {
        cx.set_input_text(self.value());
        cx.push_event(WidgetEvent::new(WidgetEventKind::Select, self.id_string()));
    }

    /// A click on row `y` of the open dropdown chooses that option.
    pub fn dispatch_overlay_click(&mut self, y: u16, cx: &mut EventSink) -> (r: EventResult)
        requires
            old(self).wf(),
        ensures
            r == (if old(self).is_open { EventResult::Consumed } else { EventResult::Ignored }),
            !(old(self).is_open && (y as int) < old(self).filtered@.len()) ==> *final(self) == *old(self) && *final(cx) == *old(cx),
            old(self).is_open && (y as int) < old(self).filtered@.len() ==> {
                &&& final(cx).events@.len() == old(cx).events@.len() + 1
                &&& final(cx).events@.last().kind == WidgetEventKind::Select
                &&& final(cx).events@.last().widget_id@ == "__autocomplete_"@ + crate::numfmt::decimal(old(self).id.value() as nat)
                &&& (old(self).filtered@[y as int].index < old(self).option_labels@.len() ==> {
                    &&& final(self).value@ == old(self).option_labels@[old(self).filtered@[y as int].index as int]@
                    &&& !final(self).is_open
                })
            },
    {
        if !self.is_open {
            return EventResult::Ignored;
        }
        let index = y as usize;
        if index < self.filtered.len() {
            self.set_cursor(index);
            self.select_at_cursor();
            self.report_select(cx);
        }
        EventResult::Consumed
    }

    /// Wheel over the open dropdown moves its cursor up or down.
    pub fn dispatch_overlay_scroll(&mut self, direction: ScrollDirection) -> (r: EventResult)
        ensures
            r == (if old(self).is_open && (direction is Up || direction is Down) {
                EventResult::Consumed
            } else {
                EventResult::Ignored
            }),
            final(self).value == old(self).value && final(self).filtered == old(self).filtered,
            final(self).is_open == old(self).is_open,
            old(self).is_open && direction is Down && old(self).cursor + 1 < old(self).filtered@.len()
                ==> final(self).cursor == old(self).cursor + 1,
    {
        if !self.is_open {
            return EventResult::Ignored;
        }
        match direction {
            ScrollDirection::Up => {
                self.cursor_up();
                EventResult::Consumed
            },
            ScrollDirection::Down => {
                self.cursor_down();
                EventResult::Consumed
            },
            _ => EventResult::Ignored,
        }
    }

    /// Hover over row `y` of the open dropdown moves its cursor there.
    pub fn dispatch_overlay_hover(&mut self, y: u16) -> (r: EventResult)
        ensures
            r == (if old(self).is_open && (y as int) < old(self).filtered@.len() {
                EventResult::Consumed
            } else {
                EventResult::Ignored
            }),
            old(self).is_open && (y as int) < old(self).filtered@.len() ==> final(self).cursor == y as usize,
            final(self).value == old(self).value && final(self).filtered == old(self).filtered,
            final(self).is_open == old(self).is_open,
    {
        if !self.is_open {
            return EventResult::Ignored;
        }
        let index = y as usize;
        if index < self.filtered.len() {
            self.set_cursor(index);
            EventResult::Consumed
        } else {
            EventResult::Ignored
        }
    }

    /// After a text edit: hand the value to the handlers and report a
    /// change when it changed.
    fn report_edit(&self, old_value: &String, cx: &mut EventSink)
        ensures
            final(cx).input_text matches Some(t) && t@ == self.value@,
            self.value@ != old_value@ ==> {
                &&& final(cx).events@.len() == old(cx).events@.len() + 1
                &&& final(cx).events@.drop_last() == old(cx).events@
                &&& final(cx).events@.last().kind == WidgetEventKind::Change
                &&& final(cx).events@.last().widget_id@ == "__autocomplete_"@ + crate::numfmt::decimal(self.id.value() as nat)
            },
            self.value@ == old_value@ ==> final(cx).events == old(cx).events,
    {
        let new_value = self.value();
        let changed = new_value != *old_value;
        cx.set_input_text(new_value);
        if changed {
            cx.push_event(WidgetEvent::new(WidgetEventKind::Change, self.id_string()));
        }
    }
}

impl WidgetEvents for Autocomplete {
    /// Keyboard handling. With the dropdown closed, Enter, Space and Down
    /// open it, and a typed character opens it too; with it open, Up and
    /// Down move its cursor, Enter chooses the option under it and Escape
    /// closes it. The editing keys edit the text and filter again; a
    /// changed text is reported as a change, a choice as a selection.
    fn on_key(&mut self, key: &KeyCombo, cx: &mut EventSink) -> (r: EventResult)
        ensures
            old(self).wf() ==> {
                let text = autocomplete_text_after(*key, old(self).is_open, old(self).value@, old(self).text_cursor as int);
                let chose = old(self).is_open && key.key == Key::Enter && !key.modifiers.ctrl && !key.modifiers.alt
                    && old(self).filtered@.len() > 0;
                let picked = chose && old(self).cursor < old(self).filtered@.len()
                    && old(self).filtered@[old(self).cursor as int].index < old(self).option_labels@.len();
                &&& final(self).wf()
                &&& r == (if autocomplete_consumes(*key, old(self).is_open) { EventResult::Consumed } else { EventResult::Ignored })
                &&& !chose ==> final(self).value@ == text.0 && final(self).text_cursor == text.1
                &&& picked ==> final(self).value@ == old(self).option_labels@[old(self).filtered@[old(self).cursor as int].index as int]@
                    && final(self).text_cursor == final(self).value@.len()
                &&& chose && !picked ==> final(self).value == old(self).value && final(self).text_cursor == old(self).text_cursor
                &&& final(self).is_open == (if key.modifiers.ctrl || key.modifiers.alt {
                    old(self).is_open
                } else if !old(self).is_open {
                    opens_dropdown(*key) || key.key is Char
                } else {
                    !(key.key == Key::Escape) && !picked
                })
                &&& chose ==> final(cx).events@.len() == old(cx).events@.len() + 1
                    && final(cx).events@.last().kind == WidgetEventKind::Select
                    && final(cx).events@.last().widget_id@ == "__autocomplete_"@ + crate::numfmt::decimal(old(self).id.value() as nat)
                &&& !chose && !autocomplete_edits(*key, old(self).is_open) ==> *final(cx) == *old(cx)
                &&& (chose || autocomplete_edits(*key, old(self).is_open))
                    ==> (final(cx).input_text matches Some(t) && t@ == final(self).value@)
                &&& !chose && text.0 != old(self).value@ ==> final(cx).events@.len() == old(cx).events@.len() + 1
                    && final(cx).events@.last().kind == WidgetEventKind::Change
                    && final(cx).events@.last().widget_id@ == "__autocomplete_"@ + crate::numfmt::decimal(old(self).id.value() as nat)
                &&& !chose && text.0 == old(self).value@ ==> final(cx).events == old(cx).events
                &&& final(self).cursor == dropdown_cursor_after(*key, old(self).is_open, old(self).cursor,
                    old(self).filtered@.len() as int, final(self).filtered@.len() as int, text.0 != old(self).value@,
                    picked)
            },
            key.modifiers.ctrl || key.modifiers.alt ==> r == EventResult::Ignored && *final(self) == *old(self)
                && *final(cx) == *old(cx),
            !old(self).cursor_ok() ==> r == EventResult::Ignored && *final(self) == *old(self) && *final(cx) == *old(cx),
            final(self).option_labels == old(self).option_labels,
            final(self).id == old(self).id,
    {
        if key.modifiers.ctrl || key.modifiers.alt || !self.wf_exec() {
            return EventResult::Ignored;
        }
        let old_value = self.value();
        if !self.is_open {
            match key.key {
                Key::Enter | Key::Down => {
                    self.open();
                    EventResult::Consumed
                },
                Key::Char(c) => {
                    if c == ' ' {
                        self.open();
                    } else {
                        self.insert_char(c);
                        self.open();
                        self.report_edit(&old_value, cx);
                    }
                    EventResult::Consumed
                },
                Key::Backspace => {
                    self.delete_char_before();
                    self.report_edit(&old_value, cx);
                    EventResult::Consumed
                },
                Key::Delete => {
                    self.delete_char_at();
                    self.report_edit(&old_value, cx);
                    EventResult::Consumed
                },
                Key::Left => {
                    self.text_cursor_left();
                    EventResult::Consumed
                },
                Key::Right => {
                    self.text_cursor_right();
                    EventResult::Consumed
                },
                Key::Home => {
                    self.text_cursor_home();
                    EventResult::Consumed
                },
                Key::End => {
                    self.text_cursor_end();
                    EventResult::Consumed
                },
                _ => EventResult::Ignored,
            }
        } else {
            match key.key {
                Key::Up => {
                    self.cursor_up();
                    EventResult::Consumed
                },
                Key::Down => {
                    self.cursor_down();
                    EventResult::Consumed
                },
                Key::Enter => {
                    if self.filtered.len() > 0 {
                        self.select_at_cursor();
                        self.report_select(cx);
                    }
                    EventResult::Consumed
                },
                Key::Escape => {
                    self.close();
                    EventResult::Consumed
                },
                Key::Char(c) => {
                    self.insert_char(c);
                    self.report_edit(&old_value, cx);
                    EventResult::Consumed
                },
                Key::Backspace => {
                    self.delete_char_before();
                    self.report_edit(&old_value, cx);
                    EventResult::Consumed
                },
                Key::Delete => {
                    self.delete_char_at();
                    self.report_edit(&old_value, cx);
                    EventResult::Consumed
                },
                Key::Left => {
                    self.text_cursor_left();
                    EventResult::Consumed
                },
                Key::Right => {
                    self.text_cursor_right();
                    EventResult::Consumed
                },
                Key::Home => {
                    self.text_cursor_home();
                    EventResult::Consumed
                },
                Key::End => {
                    self.text_cursor_end();
                    EventResult::Consumed
                },
                _ => EventResult::Ignored,
            }
        }
    }
}

impl Autocomplete {
    /// Whether the text cursor lies within the value (the filter is kept in
    /// step by every method).
    fn wf_exec(&self) -> (r: bool)
        ensures
            r == self.cursor_ok(),
    {
        self.text_cursor <= self.value.as_str().unicode_len()
    }
}

} // verus!
