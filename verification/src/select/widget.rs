//! Select field: a dropdown of labelled options chosen by index, with
//! keyboard and mouse handling.
use vstd::prelude::*;
use crate::autocomplete::widget::clamp_cursor;
use crate::events::{EventResult, EventSink, WidgetEvent, WidgetEventKind, WidgetEvents};
use crate::input::{Key, KeyCombo, ScrollDirection};
use crate::measure::utf8_len;
use crate::widget_ids::SelectId;

verus! {

/// A select field.
#[derive(Debug, Clone)]
pub struct Select {
    /// The instance identifier.
    pub id: SelectId,
    /// Index of the chosen option.
    pub selected_index: Option<usize>,
    /// Placeholder shown while nothing is chosen.
    pub placeholder: String,
    /// Validation error, if any.
    pub error: Option<String>,
    /// Where the field was last drawn (x, y, width, height).
    pub anchor_rect: Option<(u16, u16, u16, u16)>,
    /// Number of options.
    pub options_count: usize,
    /// Option labels.
    pub option_labels: Vec<String>,
    /// The state changed since the last render.
    pub dirty: bool,
    /// Whether the dropdown is open.
    pub is_open: bool,
    /// Dropdown cursor.
    pub cursor: usize,
}

/// What a key does to a select field: with the dropdown closed, Enter,
/// Space and Down open it; with it open, Up and Down move the cursor,
/// Enter and Space choose the option under it, Escape closes it, Home and
/// End move to the first and last option. Keys with Ctrl or Alt, and all
/// other keys, are ignored (`None`).
#[derive(Debug, Clone, Copy, PartialEq, Eq, Structural)]
pub enum SelectKeyAction {
    /// Open the dropdown.
    Open,
    /// Cursor one option up.
    CursorUp,
    /// Cursor one option down.
    CursorDown,
    /// Choose the option under the cursor.
    Choose,
    /// Close the dropdown.
    Close,
    /// Cursor to the first option.
    First,
    /// Cursor to the last option.
    Last,
}

/// See [`SelectKeyAction`].
pub open spec fn select_key_action(key: KeyCombo, open: bool) -> Option<SelectKeyAction> {
    if key.modifiers.ctrl || key.modifiers.alt {
        None
    } else if !open {
        if key.key == Key::Enter || key.key == Key::Char(' ') || key.key == Key::Down {
            Some(SelectKeyAction::Open)
        } else {
            None
        }
    } else if key.key == Key::Up {
        Some(SelectKeyAction::CursorUp)
    } else if key.key == Key::Down {
        Some(SelectKeyAction::CursorDown)
    } else if key.key == Key::Enter || key.key == Key::Char(' ') {
        Some(SelectKeyAction::Choose)
    } else if key.key == Key::Escape {
        Some(SelectKeyAction::Close)
    } else if key.key == Key::Home {
        Some(SelectKeyAction::First)
    } else if key.key == Key::End {
        Some(SelectKeyAction::Last)
    } else {
        None
    }
}

/// The keys of a select field: with the dropdown closed, Enter, Space and
/// Down open it and nothing else does; with it open, Enter and Space choose
/// the option under the cursor, Escape closes it, Up and Down move the
/// cursor up and down, Home and End move it to the first and last option;
/// with Ctrl or Alt held no key acts.
pub proof fn law_select_keys(key: KeyCombo, open: bool)
    ensures
        ({
            let r = select_key_action(key, open);
            let plain = !key.modifiers.ctrl && !key.modifiers.alt;
            &&& !plain ==> r is None
            &&& plain && !open ==> (r == Some(SelectKeyAction::Open)
                <==> (key.key == Key::Enter || key.key == Key::Char(' ') || key.key == Key::Down))
            &&& !open ==> (r is None || r == Some(SelectKeyAction::Open))
            &&& plain && open && (key.key == Key::Enter || key.key == Key::Char(' ')) ==> r == Some(SelectKeyAction::Choose)
            &&& plain && open && key.key == Key::Escape ==> r == Some(SelectKeyAction::Close)
            &&& plain && open && key.key == Key::Up ==> r == Some(SelectKeyAction::CursorUp)
            &&& plain && open && key.key == Key::Down ==> r == Some(SelectKeyAction::CursorDown)
            &&& plain && open && key.key == Key::Home ==> r == Some(SelectKeyAction::First)
            &&& plain && open && key.key == Key::End ==> r == Some(SelectKeyAction::Last)
            &&& open && r is Some ==> r != Some(SelectKeyAction::Open)
            &&& !(key.key == Key::Enter || key.key == Key::Char(' ') || key.key == Key::Escape || key.key == Key::Up
                || key.key == Key::Down || key.key == Key::Home || key.key == Key::End) ==> r is None
        }),
{
}

impl Select {
    /// Create an empty field.
    pub fn new(id: SelectId) -> (r: Self)
        ensures
            r.id == id,
            r.selected_index is None,
            r.placeholder@.len() == 0,
            r.options_count == 0 && r.option_labels@.len() == 0,
            !r.is_open && !r.dirty && r.cursor == 0,
            r.error is None && r.anchor_rect is None,
    {
        Select {
            id,
            selected_index: None,
            placeholder: String::new(),
            error: None,
            anchor_rect: None,
            options_count: 0,
            option_labels: Vec::new(),
            dirty: false,
            is_open: false,
            cursor: 0,
        }
    }

    /// Create an empty field with a placeholder.
    pub fn with_placeholder(id: SelectId, placeholder: String) -> (r: Self)
        ensures
            r.id == id,
            r.selected_index is None,
            r.placeholder == placeholder,
            r.options_count == 0,
            !r.is_open && !r.dirty && r.cursor == 0,
    {
        let mut s = Select::new(id);
        s.placeholder = placeholder;
        s
    }

    /// The id string.
    pub fn id_string(&self) -> (r: String)
        ensures
            r@ == "__select_"@ + crate::numfmt::decimal(self.id.value() as nat),
    {
        self.id.to_string()
    }

    /// The chosen option.
    pub fn selected_index(&self) -> (r: Option<usize>)
        ensures
            r == self.selected_index,
    {
        self.selected_index
    }

    /// Choose an option (or none); a change clears the error.
    pub fn set_selected_index(&mut self, index: Option<usize>)
        ensures
            final(self).selected_index == index,
            final(self).error == (if old(self).selected_index != index { None } else { old(self).error }),
            final(self).dirty == (old(self).dirty || old(self).selected_index != index),
            final(self).is_open == old(self).is_open && final(self).cursor == old(self).cursor,
            final(self).options_count == old(self).options_count,
            final(self).option_labels == old(self).option_labels,
            final(self).id == old(self).id,
    {
        let same = match (self.selected_index, index) {
            (Some(a), Some(b)) => a == b,
            (None, None) => true,
            _ => false,
        };
        if !same {
            self.selected_index = index;
            self.error = None;
            self.dirty = true;
        }
    }

    /// Clear the choice.
    pub fn clear(&mut self)
        ensures
            final(self).selected_index is None,
            final(self).is_open == old(self).is_open && final(self).cursor == old(self).cursor,
            final(self).options_count == old(self).options_count,
    {
        self.set_selected_index(None);
    }

    /// The label of the chosen option.
    pub fn selected_label(&self) -> (r: Option<String>)
        ensures
            r == (match self.selected_index {
                Some(i) => if i < self.option_labels@.len() { Some(self.option_labels@[i as int]) } else { None },
                None => None,
            }),
    {
        match self.selected_index {
            Some(i) => if i < self.option_labels.len() { Some(self.option_labels[i].clone()) } else { None },
            None => None,
        }
    }

    /// The placeholder.
    pub fn placeholder(&self) -> (r: String)
        ensures
            r@ == self.placeholder@,
    {
        self.placeholder.clone()
    }

    /// Set the placeholder.
    pub fn set_placeholder(&mut self, placeholder: String)
        ensures
            final(self).placeholder == placeholder,
            final(self).dirty,
            final(self).selected_index == old(self).selected_index,
            final(self).is_open == old(self).is_open,
    {
        self.placeholder = placeholder;
        self.dirty = true;
    }

    /// Whether the dropdown is open.
    pub fn is_open(&self) -> (r: bool)
        ensures
            r == self.is_open,
    {
        self.is_open
    }

    /// Open the dropdown; when it was closed, its cursor goes to the chosen
    /// option (the first when none is).
    pub fn open(&mut self)
        ensures
            final(self).is_open,
            final(self).cursor == (if old(self).is_open { old(self).cursor } else {
                match old(self).selected_index { Some(i) => i, None => 0 }
            }),
            final(self).dirty == (old(self).dirty || !old(self).is_open),
            final(self).selected_index == old(self).selected_index,
            final(self).options_count == old(self).options_count,
            final(self).option_labels == old(self).option_labels,
            final(self).id == old(self).id,
    {
        if !self.is_open {
            self.is_open = true;
            self.cursor = match self.selected_index { Some(i) => i, None => 0 };
            self.dirty = true;
        }
    }

    /// Close the dropdown.
    pub fn close(&mut self)
        ensures
            !final(self).is_open,
            final(self).cursor == old(self).cursor,
            final(self).dirty == (old(self).dirty || old(self).is_open),
            final(self).selected_index == old(self).selected_index,
            final(self).options_count == old(self).options_count,
            final(self).option_labels == old(self).option_labels,
            final(self).error == old(self).error,
            final(self).id == old(self).id,
    {
        if self.is_open {
            self.is_open = false;
            self.dirty = true;
        }
    }

    /// Open a closed dropdown, close an open one.
    pub fn toggle(&mut self)
        ensures
            final(self).is_open == !old(self).is_open,
            final(self).cursor == (if old(self).is_open { old(self).cursor } else {
                match old(self).selected_index { Some(i) => i, None => 0 }
            }),
            final(self).selected_index == old(self).selected_index,
            final(self).options_count == old(self).options_count,
    {
        if self.is_open {
            self.close();
        } else {
            self.open();
        }
    }

    /// The dropdown cursor.
    pub fn cursor(&self) -> (r: usize)
        ensures
            r == self.cursor,
    {
        self.cursor
    }

    /// Move the cursor to `index`, at most the last option.
    pub fn set_cursor(&mut self, index: usize)
        ensures
            final(self).cursor == clamp_cursor(index, old(self).options_count as int),
            final(self).dirty,
            final(self).selected_index == old(self).selected_index,
            final(self).is_open == old(self).is_open,
            final(self).options_count == old(self).options_count,
            final(self).option_labels == old(self).option_labels,
            final(self).error == old(self).error,
            final(self).id == old(self).id,
    {
        let max = self.options_count.saturating_sub(1);
        self.cursor = if index < max { index } else { max };
        self.dirty = true;
    }

    /// Move the cursor one option up.
    pub fn cursor_up(&mut self)
        ensures
            old(self).cursor > 0 ==> final(self).cursor == clamp_cursor((old(self).cursor - 1) as usize, old(self).options_count as int),
            old(self).cursor == 0 ==> *final(self) == *old(self),
            final(self).selected_index == old(self).selected_index,
            final(self).is_open == old(self).is_open,
            final(self).options_count == old(self).options_count,
            final(self).option_labels == old(self).option_labels,
            final(self).id == old(self).id,
    {
        let current = self.cursor;
        if current > 0 {
            self.set_cursor(current - 1);
        }
    }

    /// Move the cursor one option down, up to the last option.
    pub fn cursor_down(&mut self)
        ensures
            old(self).cursor + 1 < old(self).options_count ==> final(self).cursor == old(self).cursor + 1,
            !(old(self).cursor + 1 < old(self).options_count) ==> *final(self) == *old(self),
            final(self).selected_index == old(self).selected_index,
            final(self).is_open == old(self).is_open,
            final(self).options_count == old(self).options_count,
            final(self).option_labels == old(self).option_labels,
            final(self).id == old(self).id,
    {
        let current = self.cursor;
        let max = self.options_count.saturating_sub(1);
        if current < max {
            self.set_cursor(current + 1);
        }
    }

    /// Number of options.
    pub fn options_count(&self) -> (r: usize)
        ensures
            r == self.options_count,
    {
        self.options_count
    }

    /// Set the number of options.
    pub fn set_options_count(&mut self, count: usize)
        ensures
            final(self).options_count == count,
            final(self).selected_index == old(self).selected_index,
            final(self).is_open == old(self).is_open && final(self).cursor == old(self).cursor,
            final(self).option_labels == old(self).option_labels,
            final(self).dirty == old(self).dirty,
    {
        self.options_count = count;
    }

    /// Set the option labels.
    pub fn set_option_labels(&mut self, labels: Vec<String>)
        ensures
            final(self).option_labels == labels,
            final(self).selected_index == old(self).selected_index,
            final(self).is_open == old(self).is_open && final(self).cursor == old(self).cursor,
            final(self).options_count == old(self).options_count,
            final(self).dirty == old(self).dirty,
    {
        self.option_labels = labels;
    }

    /// Where the field was last drawn.
    pub fn anchor_rect(&self) -> (r: Option<(u16, u16, u16, u16)>)
        ensures
            r == self.anchor_rect,
    {
        self.anchor_rect
    }

    /// Record where the field was drawn.
    pub fn set_anchor_rect(&mut self, rect: (u16, u16, u16, u16))
        ensures
            final(self).anchor_rect == Some(rect),
            final(self).selected_index == old(self).selected_index,
            final(self).is_open == old(self).is_open && final(self).cursor == old(self).cursor,
            final(self).dirty == old(self).dirty,
    {
        self.anchor_rect = Some(rect);
    }

    /// Whether the state changed since the last render.
    pub fn is_dirty(&self) -> (r: bool)
        ensures
            r == self.dirty,
    {
        self.dirty
    }

    /// Clear the dirty flag after rendering.
    pub fn clear_dirty(&mut self)
        ensures
            !final(self).dirty,
            final(self).selected_index == old(self).selected_index,
            final(self).is_open == old(self).is_open,
    {
        self.dirty = false;
    }

    /// Set a validation error.
    pub fn set_error(&mut self, msg: String)
        ensures
            final(self).error == Some(msg),
            final(self).dirty,
            final(self).selected_index == old(self).selected_index,
    {
        self.error = Some(msg);
        self.dirty = true;
    }

    /// Clear the validation error.
    pub fn clear_error(&mut self)
        ensures
            final(self).error is None,
            final(self).dirty == (old(self).dirty || old(self).error is Some),
            final(self).selected_index == old(self).selected_index,
    {
        if self.error.is_some() {
            self.error = None;
            self.dirty = true;
        }
    }

    /// Whether there is a validation error.
    pub fn has_error(&self) -> (r: bool)
        ensures
            r == self.error is Some,
    {
        self.error.is_some()
    }

    /// The validation error.
    pub fn error(&self) -> (r: Option<String>)
        ensures
            r == self.error,
    {
        self.error.clone()
    }

    /// The width the field asks for: the chosen label (or the placeholder)
    /// in bytes plus 2, at least 10, kept to its low 16 bits.
    pub fn intrinsic_width(&self) -> (r: u16)
        requires
            forall|i: int| 0 <= i < self.option_labels@.len() ==> utf8_len(#[trigger] self.option_labels@[i]@) + 2 <= usize::MAX,
            utf8_len(self.placeholder@) + 2 <= usize::MAX,
        ensures
            r == ({
                let content: int = match self.selected_index {
                    Some(i) => if i < self.option_labels@.len() { utf8_len(self.option_labels@[i as int]@) as int } else { utf8_len(self.placeholder@) as int },
                    None => utf8_len(self.placeholder@) as int,
                };
                let w: int = if content + 2 < 10 { 10 } else { content + 2 };
                (w % 0x10000) as u16
            }),
    {
        let content_len = match self.selected_index {
            Some(i) => if i < self.option_labels.len() { self.option_labels[i].as_str().len() } else { self.placeholder.as_str().len() },
            None => self.placeholder.as_str().len(),
        };
        let w = if content_len + 2 < 10 { 10 } else { content_len + 2 };
        (w % 0x10000) as u16
    }

    /// What the trigger shows: the chosen option's label, else the
    /// placeholder; the flag (drawn dimmed) tells that no option is chosen.
    pub fn trigger_text(&self) -> (r: (String, bool))
        ensures
            r.1 == self.selected_index is None,
            r.0@ == (match self.selected_index {
                Some(i) => if i < self.option_labels@.len() { self.option_labels@[i as int]@ } else { self.placeholder@ },
                None => self.placeholder@,
            }),
    {
        let text = match self.selected_label() {
            Some(l) => l,
            None => self.placeholder(),
        };
        (text, self.selected_index.is_none())
    }

    /// A click on the field opens or closes the dropdown.
    pub fn dispatch_click(&mut self) -> (r: EventResult)
        ensures
            r == EventResult::Consumed,
            final(self).is_open == !old(self).is_open,
            final(self).selected_index == old(self).selected_index,
    {
        self.toggle();
        EventResult::Consumed
    }

    /// Focus left the field: the dropdown closes.
    pub fn dispatch_blur(&mut self)
        ensures
            !final(self).is_open,
            final(self).selected_index == old(self).selected_index,
    {
        self.close();
    }

    /// Choose option `index`, close, and report the change.
    fn choose_index(&mut self, index: usize, cx: &mut EventSink)
        ensures
            final(self).selected_index == Some(index),
            !final(self).is_open,
            final(self).options_count == old(self).options_count,
            final(self).cursor == old(self).cursor,
            final(cx).events@.len() == old(cx).events@.len() + 1,
            final(cx).events@.drop_last() == old(cx).events@,
            final(cx).events@.last().kind == WidgetEventKind::Change,
            final(cx).events@.last().widget_id@ == "__select_"@ + crate::numfmt::decimal(old(self).id.value() as nat),
    {
        self.set_selected_index(Some(index));
        self.close();
        cx.push_event(WidgetEvent::new(WidgetEventKind::Change, self.id_string()));
    }

    /// A click on row `y` of the open dropdown chooses that option.
    pub fn dispatch_overlay_click(&mut self, y: u16, cx: &mut EventSink) -> (r: EventResult)
        ensures
            r == (if old(self).is_open { EventResult::Consumed } else { EventResult::Ignored }),
            old(self).is_open && (y as int) < old(self).options_count ==> {
                &&& final(self).selected_index == Some(y as usize)
                &&& !final(self).is_open
                &&& final(cx).events@.len() == old(cx).events@.len() + 1
                &&& final(cx).events@.last().kind == WidgetEventKind::Change
                &&& final(cx).events@.last().widget_id@ == "__select_"@ + crate::numfmt::decimal(old(self).id.value() as nat)
            },
            !(old(self).is_open && (y as int) < old(self).options_count) ==> *final(self) == *old(self) && *final(cx) == *old(cx),
    {
        if !self.is_open {
            return EventResult::Ignored;
        }
        let index = y as usize;
        if index < self.options_count {
            self.choose_index(index, cx);
        }
        EventResult::Consumed
    }

    /// Wheel over the open dropdown moves its cursor up or down.
    pub fn dispatch_overlay_scroll(&mut self, direction: ScrollDirection) -> (r: EventResult)
        ensures
            r == (if old(self).is_open && (direction is Up || direction is Down) {
                EventResult::Consumed
            } else {
                EventResult::Ignored
            }),
            final(self).selected_index == old(self).selected_index,
            final(self).is_open == old(self).is_open,
            old(self).is_open && direction is Down && old(self).cursor + 1 < old(self).options_count
                ==> final(self).cursor == old(self).cursor + 1,
    {
        if !self.is_open {
            return EventResult::Ignored;
        }
        match direction {
            ScrollDirection::Up => {
                self.cursor_up();
                EventResult::Consumed
            },
            ScrollDirection::Down => {
                self.cursor_down();
                EventResult::Consumed
            },
            _ => EventResult::Ignored,
        }
    }

    /// Hover over row `y` of the open dropdown moves its cursor there.
    pub fn dispatch_overlay_hover(&mut self, y: u16) -> (r: EventResult)
        ensures
            r == (if old(self).is_open && (y as int) < old(self).options_count { EventResult::Consumed } else { EventResult::Ignored }),
            old(self).is_open && (y as int) < old(self).options_count ==> final(self).cursor == y as usize,
            final(self).selected_index == old(self).selected_index,
            final(self).is_open == old(self).is_open,
    {
        if !self.is_open {
            return EventResult::Ignored;
        }
        let index = y as usize;
        if index < self.options_count {
            self.set_cursor(index);
            EventResult::Consumed
        } else {
            EventResult::Ignored
        }
    }
}

impl WidgetEvents for Select {
    /// Keyboard handling (see [`SelectKeyAction`]): choosing an option
    /// selects the option under the cursor, closes the dropdown and
    /// reports a change.
    fn on_key(&mut self, key: &KeyCombo, cx: &mut EventSink) -> (r: EventResult)
        ensures
            r == (if select_key_action(*key, old(self).is_open) is Some { EventResult::Consumed } else { EventResult::Ignored }),
            match select_key_action(*key, old(self).is_open) {
                Some(SelectKeyAction::Open) => final(self).is_open
                    && final(self).cursor == (match old(self).selected_index { Some(i) => i, None => 0 }),
                Some(SelectKeyAction::CursorDown) => final(self).is_open && final(self).cursor
                    == (if old(self).cursor + 1 < old(self).options_count { (old(self).cursor + 1) as usize } else { old(self).cursor }),
                Some(SelectKeyAction::CursorUp) => final(self).is_open && final(self).cursor
                    == (if old(self).cursor > 0 {
                        clamp_cursor((old(self).cursor - 1) as usize, old(self).options_count as int)
                    } else {
                        old(self).cursor
                    }),
                Some(SelectKeyAction::Choose) => {
                    &&& final(self).selected_index == Some(old(self).cursor)
                    &&& !final(self).is_open
                    &&& final(self).cursor == old(self).cursor
                    &&& final(cx).events@.len() == old(cx).events@.len() + 1
                    &&& final(cx).events@.last().kind == WidgetEventKind::Change
                    &&& final(cx).events@.last().widget_id@ == "__select_"@ + crate::numfmt::decimal(old(self).id.value() as nat)
                },
                Some(SelectKeyAction::Close) => !final(self).is_open && final(self).cursor == old(self).cursor,
                Some(SelectKeyAction::First) => final(self).is_open
                    && final(self).cursor == clamp_cursor(0, old(self).options_count as int),
                Some(SelectKeyAction::Last) => final(self).is_open && final(self).cursor
                    == clamp_cursor((if old(self).options_count > 0 { old(self).options_count - 1 } else { 0 }) as usize,
                        old(self).options_count as int),
                None => *final(self) == *old(self),
            },
            old(self).is_open && !key.modifiers.ctrl && !key.modifiers.alt
                && (key.key == Key::Enter || key.key == Key::Char(' ')) ==> {
                &&& final(self).selected_index == Some(old(self).cursor)
                &&& !final(self).is_open
                &&& final(cx).events@.len() == old(cx).events@.len() + 1
                &&& final(cx).events@.last().kind == WidgetEventKind::Change
            },
            old(self).is_open && !key.modifiers.ctrl && !key.modifiers.alt && key.key == Key::Escape
                ==> !final(self).is_open && final(self).selected_index == old(self).selected_index && *final(cx) == *old(cx),
            !(select_key_action(*key, old(self).is_open) == Some(SelectKeyAction::Choose)) ==> *final(cx) == *old(cx),
            !(select_key_action(*key, old(self).is_open) == Some(SelectKeyAction::Choose))
                ==> final(self).selected_index == old(self).selected_index,
    {
        if key.modifiers.ctrl || key.modifiers.alt {
            return EventResult::Ignored;
        }
        if !self.is_open {
            match key.key {
                Key::Enter | Key::Down => {
                    self.open();
                    EventResult::Consumed
                },
                Key::Char(c) => {
                    if c == ' ' {
                        self.open();
                        EventResult::Consumed
                    } else {
                        EventResult::Ignored
                    }
                },
                _ => EventResult::Ignored,
            }
        } else {
            match key.key {
                Key::Up => {
                    self.cursor_up();
                    EventResult::Consumed
                },
                Key::Down => {
                    self.cursor_down();
                    EventResult::Consumed
                },
                Key::Enter => {
                    let cursor = self.cursor;
                    self.choose_index(cursor, cx);
                    EventResult::Consumed
                },
                Key::Char(c) => {
                    if c == ' ' {
                        let cursor = self.cursor;
                        self.choose_index(cursor, cx);
                        EventResult::Consumed
                    } else {
                        EventResult::Ignored
                    }
                },
                Key::Escape => {
                    self.close();
                    EventResult::Consumed
                },
                Key::Home => {
                    self.set_cursor(0);
                    EventResult::Consumed
                },
                Key::End => {
                    let max = self.options_count.saturating_sub(1);
                    self.set_cursor(max);
                    EventResult::Consumed
                },
                _ => EventResult::Ignored,
            }
        }
    }
}

/// The arrow drawn at the end of a dropdown trigger: `▲` while the
/// dropdown is open, `▼` while it is closed.
pub fn dropdown_indicator(open: bool) -> (r: &'static str)
    ensures
        open ==> r@ == "▲"@,
        !open ==> r@ == "▼"@,
{
    if open { "▲" } else { "▼" }
}

} // verus!
