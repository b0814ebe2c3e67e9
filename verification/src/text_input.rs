//! Input widget: a single-line text field with a cursor.
//!
//! The cursor is a position between characters, counted in characters;
//! [`Input::cursor`] reports it as a byte offset into the UTF-8 value.
use vstd::prelude::*;
use crate::events::{EventResult, EventSink, WidgetEvent, WidgetEventKind, WidgetEvents};
use crate::input::{Key, KeyCombo};
use crate::measure::utf8_len;
use crate::widget_ids::InputId;

verus! {

/// Typestate marker: an input builder that still needs its state.
pub struct NeedsState;

/// `c` as a one-character string: `char::to_string` of std, whose
/// `Display` writes the character itself.
#[verifier::external_body]
fn char_string(c: char) -> (s: String)
    ensures
        s@ == seq![c],
{
    c.to_string()
}

/// `a` followed by `b`.
fn joined2(a: &str, b: &str) -> (s: String)
    ensures
        s@ == a@ + b@,
{
    String::from_str(a).concat(b)
}

/// `s` with `c` inserted before character `k`.
pub fn insert_char_at(s: &str, k: usize, c: char) -> (r: String)
    requires
        k <= s@.len(),
    ensures
        r@ == s@.subrange(0, k as int).push(c) + s@.subrange(k as int, s@.len() as int),
{
    let n = s.unicode_len();
    let left = joined2(s.substring_char(0, k), char_string(c).as_str());
    let r = left.concat(s.substring_char(k, n));
    proof {
        assert(r@ =~= s@.subrange(0, k as int).push(c) + s@.subrange(k as int, n as int));
    }
    r
}

/// `s` without character `k`.
pub fn remove_char_at(s: &str, k: usize) -> (r: String)
    requires
        k < s@.len(),
    ensures
        r@ == s@.subrange(0, k as int) + s@.subrange(k + 1, s@.len() as int),
{
    let n = s.unicode_len();
    joined2(s.substring_char(0, k), s.substring_char(k + 1, n))
}

/// A text input with its value, placeholder, cursor and validation error.
#[derive(Debug, Clone)]
pub struct Input {
    /// The instance identifier.
    pub id: InputId,
    /// The current value.
    pub value: String,
    /// Placeholder shown while the value is empty.
    pub placeholder: String,
    /// Cursor position, in characters from the start.
    pub cursor_chars: usize,
    /// Validation error, if any.
    pub error: Option<String>,
    /// The state changed since the last render.
    pub dirty: bool,
    /// Focus was requested and not yet taken.
    pub focus_requested: bool,
}

/// The width an input asks for: its content (the value, or the placeholder
/// while the value is empty) in bytes plus 5, at least 15, kept to its low
/// 16 bits as a `u16` cast keeps it.
pub open spec fn input_width(value: Seq<char>, placeholder: Seq<char>) -> u16 {
    let content: int = if value.len() == 0 { utf8_len(placeholder) as int } else { utf8_len(value) as int };
    let w: int = if content + 5 < 15 { 15 } else { content + 5 };
    (w % 0x10000) as u16
}

/// An input is wide enough for its content and a margin: at least 15
/// columns, and at least 5 more than the content (the value, or the
/// placeholder while the value is empty, in bytes), and no wider than
/// both ask; the placeholder only counts while the value is empty.
pub proof fn law_input_width_fits_content(value: Seq<char>, placeholder: Seq<char>)
    ensures
        ({
            let content: int = if value.len() == 0 { utf8_len(placeholder) as int } else { utf8_len(value) as int };
            let r = input_width(value, placeholder);
            &&& content + 5 <= u16::MAX ==> r >= 15 && r >= content + 5 && (r == 15 || r == content + 5)
            &&& value.len() > 0 ==> r == input_width(value, Seq::empty())
        }),
{
}

/// Whether `key` is one that an input consumes: editing and cursor keys and
/// characters, without Ctrl or Alt.
pub open spec fn input_key_consumed(key: KeyCombo) -> bool {
    !key.modifiers.ctrl && !key.modifiers.alt && (
        key.key is Char || key.key == Key::Backspace || key.key == Key::Delete || key.key == Key::Left
        || key.key == Key::Right || key.key == Key::Home || key.key == Key::End)
}

/// The value and cursor after `key`, from `value` with the cursor at `cursor`.
pub open spec fn input_after_key(key: KeyCombo, value: Seq<char>, cursor: int) -> (Seq<char>, int) {
    if !input_key_consumed(key) {
        (value, cursor)
    } else {
        match key.key {
            Key::Char(c) => (value.subrange(0, cursor).push(c) + value.subrange(cursor, value.len() as int), cursor + 1),
            Key::Backspace => if cursor > 0 {
                (value.subrange(0, cursor - 1) + value.subrange(cursor, value.len() as int), cursor - 1)
            } else {
                (value, cursor)
            },
            Key::Delete => if cursor < value.len() {
                (value.subrange(0, cursor) + value.subrange(cursor + 1, value.len() as int), cursor)
            } else {
                (value, cursor)
            },
            Key::Left => (value, if cursor > 0 { cursor - 1 } else { cursor }),
            Key::Right => (value, if cursor < value.len() { cursor + 1 } else { cursor }),
            Key::Home => (value, 0),
            _ => (value, value.len() as int),
        }
    }
}

/// Editing keys do what they name, with the cursor between characters:
/// a typed character goes in at the cursor, which moves past it, and
/// Backspace right after takes it out again; Backspace removes the
/// character before the cursor and Delete the one after it; Left and Right
/// move one character within the text, Home to its start and End to its
/// end; with Ctrl or Alt held nothing changes.
pub proof fn law_input_editing(key: KeyCombo, value: Seq<char>, cursor: int)
    requires
        0 <= cursor <= value.len(),
    ensures
        ({
            let (v, k) = input_after_key(key, value, cursor);
            let plain = !key.modifiers.ctrl && !key.modifiers.alt;
            &&& !plain ==> v == value && k == cursor
            &&& 0 <= k <= v.len()
            &&& plain && key.key is Char ==> {
                &&& v.len() == value.len() + 1 && k == cursor + 1
                &&& v[cursor] == key.key->Char_0
                &&& v.take(cursor) == value.take(cursor)
                &&& v.skip(cursor + 1) == value.skip(cursor)
                &&& input_after_key(KeyCombo { key: Key::Backspace, modifiers: key.modifiers }, v, k) == (value, cursor)
            }
            &&& plain && key.key == Key::Backspace ==> (cursor > 0 ==> {
                &&& v.len() == value.len() - 1 && k == cursor - 1
                &&& v.take(cursor - 1) == value.take(cursor - 1)
                &&& v.skip(cursor - 1) == value.skip(cursor)
            }) && (cursor == 0 ==> v == value && k == 0)
            &&& plain && key.key == Key::Delete ==> (cursor < value.len() ==> {
                &&& v.len() == value.len() - 1 && k == cursor
                &&& v.take(cursor) == value.take(cursor)
                &&& v.skip(cursor) == value.skip(cursor + 1)
            }) && (cursor == value.len() ==> v == value && k == cursor)
            &&& plain && key.key == Key::Left ==> v == value && k == (if cursor > 0 { cursor - 1 } else { 0 })
            &&& plain && key.key == Key::Right ==> v == value && k == (if cursor < value.len() { cursor + 1 } else { cursor })
            &&& plain && key.key == Key::Home ==> v == value && k == 0
            &&& plain && key.key == Key::End ==> v == value && k == value.len()
            &&& !(key.key is Char || key.key == Key::Backspace || key.key == Key::Delete || key.key == Key::Left
                || key.key == Key::Right || key.key == Key::Home || key.key == Key::End) ==> v == value && k == cursor
        }),
{
    let (v, k) = input_after_key(key, value, cursor);
    if !key.modifiers.ctrl && !key.modifiers.alt {
        match key.key {
            Key::Char(c) => {
                assert(v.take(cursor) =~= value.take(cursor));
                assert(v.skip(cursor + 1) =~= value.skip(cursor));
                let back = KeyCombo { key: Key::Backspace, modifiers: key.modifiers };
                assert(input_after_key(back, v, k).0 =~= value);
            },
            Key::Backspace => {
                if cursor > 0 {
                    assert(v.take(cursor - 1) =~= value.take(cursor - 1));
                    assert(v.skip(cursor - 1) =~= value.skip(cursor));
                }
            },
            Key::Delete => {
                if cursor < value.len() {
                    assert(v.take(cursor) =~= value.take(cursor));
                    assert(v.skip(cursor) =~= value.skip(cursor + 1));
                }
            },
            _ => {},
        }
    }
}

impl Input {
    /// The cursor lies within the value.
    pub open spec fn wf(&self) -> bool {
        self.cursor_chars <= self.value@.len()
    }

    /// Create an empty input.
    pub fn new(id: InputId) -> (r: Self)
        ensures
            r.wf(),
            r.id == id,
            r.value@.len() == 0 && r.placeholder@.len() == 0,
            r.cursor_chars == 0,
            r.error is None,
            !r.dirty && !r.focus_requested,
    {
        Input {
            id,
            value: String::new(),
            placeholder: String::new(),
            cursor_chars: 0,
            error: None,
            dirty: false,
            focus_requested: false,
        }
    }

    /// Create an input holding `value`, with the cursor at its end.
    pub fn with_value(id: InputId, value: String) -> (r: Self)
        ensures
            r.wf(),
            r.id == id,
            r.value == value,
            r.placeholder@.len() == 0,
            r.cursor_chars == value@.len(),
            r.error is None,
            !r.dirty && !r.focus_requested,
    {
        let n = value.as_str().unicode_len();
        let mut i = Input::new(id);
        i.value = value;
        i.cursor_chars = n;
        i
    }

    /// Create an empty input with a placeholder.
    pub fn with_placeholder(id: InputId, placeholder: String) -> (r: Self)
        ensures
            r.wf(),
            r.id == id,
            r.value@.len() == 0,
            r.placeholder == placeholder,
            r.cursor_chars == 0,
            r.error is None,
            !r.dirty && !r.focus_requested,
    {
        let mut i = Input::new(id);
        i.placeholder = placeholder;
        i
    }

    /// The id string.
    pub fn id_string(&self) -> (r: String)
        ensures
            r@ == "__input_"@ + crate::numfmt::decimal(self.id.value() as nat),
    {
        self.id.to_string()
    }

    /// The current value.
    pub fn value(&self) -> (r: String)
        ensures
            r@ == self.value@,
    {
        self.value.clone()
    }

    /// The placeholder.
    pub fn placeholder(&self) -> (r: String)
        ensures
            r@ == self.placeholder@,
    {
        self.placeholder.clone()
    }

    /// The cursor position as a byte offset into the value.
    pub fn cursor(&self) -> (r: usize)
        requires
            self.wf(),
        ensures
            r == utf8_len(self.value@.subrange(0, self.cursor_chars as int)),
    {
        self.value.as_str().substring_char(0, self.cursor_chars).len()
    }

    /// Whether the value is empty.
    pub fn is_empty(&self) -> (r: bool)
        ensures
            r == (self.value@.len() == 0),
    {
        self.value.as_str().is_empty()
    }

    /// Length of the value in bytes.
    pub fn len(&self) -> (r: usize)
        ensures
            r == utf8_len(self.value@),
    {
        self.value.as_str().len()
    }

    /// Replace the value; the cursor moves to its end and the error clears.
    pub fn set_value(&mut self, value: String)
        ensures
            final(self).wf(),
            final(self).value == value,
            final(self).cursor_chars == value@.len(),
            final(self).error is None,
            final(self).dirty,
            final(self).placeholder == old(self).placeholder,
            final(self).id == old(self).id,
    {
        let n = value.as_str().unicode_len();
        self.value = value;
        self.cursor_chars = n;
        self.error = None;
        self.dirty = true;
    }

    /// Clear the value.
    pub fn clear(&mut self)
        ensures
            final(self).wf(),
            final(self).value@.len() == 0,
            final(self).cursor_chars == 0,
            final(self).error is None,
            final(self).dirty,
            final(self).placeholder == old(self).placeholder,
    {
        self.value = String::new();
        self.cursor_chars = 0;
        self.error = None;
        self.dirty = true;
    }

    /// Set the placeholder.
    pub fn set_placeholder(&mut self, placeholder: String)
        ensures
            final(self).placeholder == placeholder,
            final(self).dirty,
            final(self).value == old(self).value,
            final(self).cursor_chars == old(self).cursor_chars,
    {
        self.placeholder = placeholder;
        self.dirty = true;
    }

    /// Move the cursor to character `position`, or to the end when the
    /// value is shorter.
    pub fn set_cursor(&mut self, position: usize)
        ensures
            final(self).wf(),
            final(self).cursor_chars == (if position < old(self).value@.len() { position as int } else { old(self).value@.len() as int }),
            final(self).dirty,
            final(self).value == old(self).value,
            final(self).error == old(self).error,
    {
        let n = self.value.as_str().unicode_len();
        self.cursor_chars = if position < n { position } else { n };
        self.dirty = true;
    }

    /// Insert a character at the cursor, which moves past it.
    pub fn insert_char(&mut self, c: char)
        requires
            old(self).wf(),
        ensures
            final(self).wf(),
            final(self).value@ == old(self).value@.subrange(0, old(self).cursor_chars as int).push(c)
                + old(self).value@.subrange(old(self).cursor_chars as int, old(self).value@.len() as int),
            final(self).cursor_chars == old(self).cursor_chars + 1,
            final(self).error is None,
            final(self).dirty,
            final(self).placeholder == old(self).placeholder,
            final(self).id == old(self).id,
    {
        let n = self.value.as_str().unicode_len();
        let k = self.cursor_chars;
        let left = joined2(self.value.as_str().substring_char(0, k), char_string(c).as_str());
        let right = self.value.as_str().substring_char(k, n);
        self.value = left.concat(right);
        proof {
            assert(self.value@ =~= old(self).value@.subrange(0, k as int).push(c)
                + old(self).value@.subrange(k as int, n as int));
        }
        let m = self.value.as_str().unicode_len();
        assert(m == n + 1);
        self.cursor_chars = k + 1;
        self.error = None;
        self.dirty = true;
    }

    /// Delete the character before the cursor (Backspace).
    pub fn delete_char_before(&mut self)
        requires
            old(self).wf(),
        ensures
            final(self).wf(),
            old(self).cursor_chars > 0 ==> {
                &&& final(self).value@ == old(self).value@.subrange(0, old(self).cursor_chars - 1)
                    + old(self).value@.subrange(old(self).cursor_chars as int, old(self).value@.len() as int)
                &&& final(self).cursor_chars == old(self).cursor_chars - 1
                &&& final(self).error is None
                &&& final(self).dirty
            },
            old(self).cursor_chars == 0 ==> *final(self) == *old(self),
            final(self).placeholder == old(self).placeholder,
            final(self).id == old(self).id,
    {
        if self.cursor_chars > 0 {
            let n = self.value.as_str().unicode_len();
            let k = self.cursor_chars;
            let v = joined2(self.value.as_str().substring_char(0, k - 1), self.value.as_str().substring_char(k, n));
            self.value = v;
            self.cursor_chars = k - 1;
            self.error = None;
            self.dirty = true;
        }
    }

    /// Delete the character at the cursor (Delete).
    pub fn delete_char_at(&mut self)
        requires
            old(self).wf(),
        ensures
            final(self).wf(),
            old(self).cursor_chars < old(self).value@.len() ==> {
                &&& final(self).value@ == old(self).value@.subrange(0, old(self).cursor_chars as int)
                    + old(self).value@.subrange(old(self).cursor_chars + 1, old(self).value@.len() as int)
                &&& final(self).cursor_chars == old(self).cursor_chars
                &&& final(self).error is None
                &&& final(self).dirty
            },
            old(self).cursor_chars == old(self).value@.len() ==> *final(self) == *old(self),
            final(self).placeholder == old(self).placeholder,
            final(self).id == old(self).id,
    {
        let n = self.value.as_str().unicode_len();
        let k = self.cursor_chars;
        if k < n {
            let v = joined2(self.value.as_str().substring_char(0, k), self.value.as_str().substring_char(k + 1, n));
            self.value = v;
            self.error = None;
            self.dirty = true;
        }
    }

    /// Move the cursor one character left.
    pub fn cursor_left(&mut self)
        requires
            old(self).wf(),
        ensures
            final(self).wf(),
            final(self).cursor_chars == (if old(self).cursor_chars > 0 { old(self).cursor_chars - 1 } else { 0 }),
            final(self).dirty == (old(self).dirty || old(self).cursor_chars > 0),
            final(self).value == old(self).value,
            final(self).error == old(self).error,
    {
        if self.cursor_chars > 0 {
            self.cursor_chars = self.cursor_chars - 1;
            self.dirty = true;
        }
    }

    /// Move the cursor one character right.
    pub fn cursor_right(&mut self)
        requires
            old(self).wf(),
        ensures
            final(self).wf(),
            final(self).cursor_chars == (if old(self).cursor_chars < old(self).value@.len() {
                old(self).cursor_chars + 1
            } else {
                old(self).cursor_chars as int
            }),
            final(self).dirty == (old(self).dirty || old(self).cursor_chars < old(self).value@.len()),
            final(self).value == old(self).value,
            final(self).error == old(self).error,
    {
        if self.cursor_chars < self.value.as_str().unicode_len() {
            self.cursor_chars = self.cursor_chars + 1;
            self.dirty = true;
        }
    }

    /// Move the cursor to the start.
    pub fn cursor_home(&mut self)
        ensures
            final(self).wf(),
            final(self).cursor_chars == 0,
            final(self).dirty == (old(self).dirty || old(self).cursor_chars != 0),
            final(self).value == old(self).value,
            final(self).error == old(self).error,
    {
        if self.cursor_chars != 0 {
            self.cursor_chars = 0;
            self.dirty = true;
        }
    }

    /// Move the cursor to the end.
    pub fn cursor_end(&mut self)
        ensures
            final(self).wf(),
            final(self).cursor_chars == old(self).value@.len(),
            final(self).dirty == (old(self).dirty || old(self).cursor_chars != old(self).value@.len()),
            final(self).value == old(self).value,
            final(self).error == old(self).error,
    {
        let end = self.value.as_str().unicode_len();
        if self.cursor_chars != end {
            self.cursor_chars = end;
            self.dirty = true;
        }
    }

    /// Request focus for this input.
    pub fn focus(&mut self)
        ensures
            final(self).focus_requested,
            final(self).value == old(self).value,
            final(self).cursor_chars == old(self).cursor_chars,
            final(self).dirty == old(self).dirty,
    {
        self.focus_requested = true;
    }

    /// Take the pending focus request, if any.
    pub fn take_focus_request(&mut self) -> (r: bool)
        ensures
            r == old(self).focus_requested,
            !final(self).focus_requested,
            final(self).value == old(self).value,
            final(self).cursor_chars == old(self).cursor_chars,
            final(self).dirty == old(self).dirty,
    {
        let r = self.focus_requested;
        self.focus_requested = false;
        r
    }

    /// Whether the state changed since the last render.
    pub fn is_dirty(&self) -> (r: bool)
        ensures
            r == self.dirty,
    {
        self.dirty
    }

    /// Clear the dirty flag after rendering.
    pub fn clear_dirty(&mut self)
        ensures
            !final(self).dirty,
            final(self).value == old(self).value,
            final(self).cursor_chars == old(self).cursor_chars,
    {
        self.dirty = false;
    }

    /// Set a validation error.
    pub fn set_error(&mut self, msg: String)
        ensures
            final(self).error == Some(msg),
            final(self).dirty,
            final(self).value == old(self).value,
            final(self).cursor_chars == old(self).cursor_chars,
    {
        self.error = Some(msg);
        self.dirty = true;
    }

    /// Clear the validation error.
    pub fn clear_error(&mut self)
        ensures
            final(self).error is None,
            final(self).dirty == (old(self).dirty || old(self).error is Some),
            final(self).value == old(self).value,
            final(self).cursor_chars == old(self).cursor_chars,
    {
        if self.error.is_some() {
            self.error = None;
            self.dirty = true;
        }
    }

    /// Whether there is a validation error.
    pub fn has_error(&self) -> (r: bool)
        ensures
            r == self.error is Some,
    {
        self.error.is_some()
    }

    /// The validation error.
    pub fn error(&self) -> (r: Option<String>)
        ensures
            r == self.error,
    {
        self.error.clone()
    }

    /// The width the input asks for.
    pub fn intrinsic_width(&self) -> (r: u16)
        requires
            utf8_len(self.value@) + 5 <= usize::MAX,
            utf8_len(self.placeholder@) + 5 <= usize::MAX,
        ensures
            r == input_width(self.value@, self.placeholder@),
    {
        let content_len = if self.value.as_str().is_empty() {
            self.placeholder.as_str().len()
        } else {
            self.value.as_str().len()
        };
        let w = if content_len + 5 < 15 { 15 } else { content_len + 5 };
        (w % 0x10000) as u16
    }
}

impl WidgetEvents for Input {
    /// Editing and cursor keys (without Ctrl or Alt) act on the value and
    /// cursor, hand the new value to the handlers and report a change when
    /// the value changed; other keys are ignored.
    fn on_key(&mut self, key: &KeyCombo, cx: &mut EventSink) -> (r: EventResult)
        ensures
            old(self).wf() ==> {
                let after = input_after_key(*key, old(self).value@, old(self).cursor_chars as int);
                &&& final(self).wf()
                &&& final(self).value@ == after.0
                &&& final(self).cursor_chars == after.1
                &&& r == (if input_key_consumed(*key) { EventResult::Consumed } else { EventResult::Ignored })
                &&& input_key_consumed(*key) ==> (final(cx).input_text matches Some(t) && t@ == after.0)
                &&& !input_key_consumed(*key) ==> *final(cx) == *old(cx)
                &&& (input_key_consumed(*key) && after.0 != old(self).value@) ==> {
                    &&& final(cx).events@.len() == old(cx).events@.len() + 1
                    &&& final(cx).events@.drop_last() == old(cx).events@
                    &&& final(cx).events@.last().kind == WidgetEventKind::Change
                    &&& final(cx).events@.last().widget_id@ == "__input_"@ + crate::numfmt::decimal(old(self).id.value() as nat)
                }
                &&& !(input_key_consumed(*key) && after.0 != old(self).value@) ==> final(cx).events == old(cx).events
            },
            !old(self).wf() ==> r == EventResult::Ignored && *final(self) == *old(self) && *final(cx) == *old(cx),
    {
        if key.modifiers.ctrl || key.modifiers.alt || !self.wf_exec() {
            return EventResult::Ignored;
        }
        let old_value = self.value();
        let result = match key.key {
            Key::Backspace => {
                self.delete_char_before();
                EventResult::Consumed
            },
            Key::Delete => {
                self.delete_char_at();
                EventResult::Consumed
            },
            Key::Left => {
                self.cursor_left();
                EventResult::Consumed
            },
            Key::Right => {
                self.cursor_right();
                EventResult::Consumed
            },
            Key::Home => {
                self.cursor_home();
                EventResult::Consumed
            },
            Key::End => {
                self.cursor_end();
                EventResult::Consumed
            },
            Key::Char(c) => {
                self.insert_char(c);
                EventResult::Consumed
            },
            _ => EventResult::Ignored,
        };
        if let EventResult::Consumed = result {
            let new_value = self.value();
            let changed = new_value != old_value;
            cx.set_input_text(new_value);
            if changed {
                cx.push_event(WidgetEvent::new(WidgetEventKind::Change, self.id_string()));
            }
        }
        result
    }
}

impl Input {
    /// Whether the cursor lies within the value.
    pub fn wf_exec(&self) -> (r: bool)
        ensures
            r == self.wf(),
    {
        self.cursor_chars <= self.value.as_str().unicode_len()
    }
}

/// Typing a character and then Backspace restores the value and the cursor.
pub proof fn law_type_then_backspace(value: Seq<char>, cursor: int, c: char, modifiers: crate::input::Modifiers)
    requires
        0 <= cursor <= value.len(),
        !modifiers.ctrl && !modifiers.alt,
    ensures
        ({
            let typed = input_after_key(KeyCombo { key: Key::Char(c), modifiers }, value, cursor);
            input_after_key(KeyCombo { key: Key::Backspace, modifiers }, typed.0, typed.1) == (value, cursor)
        }),
{
    let typed = input_after_key(KeyCombo { key: Key::Char(c), modifiers }, value, cursor);
    let v1 = typed.0;
    assert(v1.len() == value.len() + 1);
    assert(v1.subrange(0, cursor) + v1.subrange(cursor + 1, v1.len() as int) =~= value);
}

/// Left then Right brings a cursor that is not at the start back where it was.
pub proof fn law_left_then_right(value: Seq<char>, cursor: int, modifiers: crate::input::Modifiers)
    requires
        0 < cursor <= value.len(),
        !modifiers.ctrl && !modifiers.alt,
    ensures
        ({
            let left = input_after_key(KeyCombo { key: Key::Left, modifiers }, value, cursor);
            input_after_key(KeyCombo { key: Key::Right, modifiers }, left.0, left.1) == (value, cursor)
        }),
{
}

} // verus!
