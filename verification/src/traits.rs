//! Shared traits for scrollable and selectable widgets, and the decisions
//! that their keyboard and mouse handling takes.
use vstd::prelude::*;
use crate::events::{pushed_one, EventResult, EventSink, WidgetEvent, WidgetEventKind};
use crate::input::{HandlerId, Key, KeyCombo};
use crate::scrollbar::ScrollbarState;
use crate::selection::SelectionMode;

verus! {

/// The item under viewport row `y`, for items of `item_height` rows
/// scrolled by `scroll_offset`: none when the height is 0 or the row lies
/// past the last item.
pub open spec fn viewport_index_spec(scroll_offset: u16, item_height: u16, item_count: usize, y: u16) -> Option<usize> {
    if item_height == 0 {
        None
    } else {
        let index = (scroll_offset + y) / (item_height as int);
        if index < item_count { Some(index as usize) } else { None }
    }
}

/// The item found under a viewport row is the one that covers that row of
/// the content: its rows start at or above `scroll_offset + y` and end
/// below it; no item is found only when items have no height or the row
/// lies below the last item.
pub proof fn law_viewport_index_covers_row(scroll_offset: u16, item_height: u16, item_count: usize, y: u16)
    ensures
        ({
            let r = viewport_index_spec(scroll_offset, item_height, item_count, y);
            let row = scroll_offset + y;
            &&& r matches Some(i) ==> i < item_count && i * item_height <= row < (i + 1) * item_height
            &&& r is None <==> item_height == 0 || row >= item_count * item_height
        }),
{
    let r = viewport_index_spec(scroll_offset, item_height, item_count, y);
    let row = scroll_offset + y;
    if item_height > 0 {
        let i = row / (item_height as int);
        assert(i * item_height <= row < (i + 1) * item_height) by (nonlinear_arith)
            requires i == row / (item_height as int), item_height > 0, row >= 0;
        assert(i < item_count <==> row < item_count * item_height) by (nonlinear_arith)
            requires i * item_height <= row < (i + 1) * item_height, item_height > 0, item_count >= 0, i >= 0;
    }
}

/// See [`viewport_index_spec`].
pub fn viewport_index(scroll_offset: u16, item_height: u16, item_count: usize, y: u16) -> (r: Option<usize>)
    requires
        scroll_offset + y <= u16::MAX,
    ensures
        r == viewport_index_spec(scroll_offset, item_height, item_count, y),
{
    if item_height == 0 {
        return None;
    }
    let absolute_y = scroll_offset + y;
    let index = (absolute_y / item_height) as usize;
    if index < item_count { Some(index) } else { None }
}

/// Where a navigation key moves the cursor.
#[derive(Debug, Clone, Copy, PartialEq, Eq, Structural)]
pub enum NavTarget {
    /// One item up.
    Up,
    /// One item down.
    Down,
    /// The first item.
    First,
    /// The last item.
    Last,
    /// The given item.
    To(usize),
}

/// The cursor move that `key` asks for: arrows and Home/End move by one or
/// to an end; PageUp/PageDown move by a page of at least one item (from
/// item 0 when there is no cursor), staying within the items.
pub open spec fn navigation_target_spec(key: Key, cursor: Option<usize>, item_count: usize, viewport_item_count: usize) -> Option<NavTarget> {
    let page: int = if viewport_item_count < 1 { 1 } else { viewport_item_count as int };
    let current: int = match cursor { Some(c) => c as int, None => 0 };
    match key {
        Key::Up => Some(NavTarget::Up),
        Key::Down => Some(NavTarget::Down),
        Key::Home => Some(NavTarget::First),
        Key::End => Some(NavTarget::Last),
        Key::PageUp => Some(NavTarget::To((if current < page { 0 } else { current - page }) as usize)),
        Key::PageDown => {
            let max_index: int = if item_count < 1 { 0 } else { item_count - 1 };
            let sum: int = if current + page > usize::MAX { usize::MAX as int } else { current + page };
            Some(NavTarget::To((if sum < max_index { sum } else { max_index }) as usize))
        },
        _ => None,
    }
}

/// See [`navigation_target_spec`].
pub fn navigation_target(key: Key, cursor: Option<usize>, item_count: usize, viewport_item_count: usize) -> (r: Option<NavTarget>)
    ensures
        r == navigation_target_spec(key, cursor, item_count, viewport_item_count),
{
    let page_size: usize = if viewport_item_count < 1 { 1 } else { viewport_item_count };
    let current: usize = match cursor { Some(c) => c, None => 0 };
    match key {
        Key::Up => Some(NavTarget::Up),
        Key::Down => Some(NavTarget::Down),
        Key::Home => Some(NavTarget::First),
        Key::End => Some(NavTarget::Last),
        Key::PageUp => Some(NavTarget::To(current.saturating_sub(page_size))),
        Key::PageDown => {
            let max_index = item_count.saturating_sub(1);
            let sum = current.saturating_add(page_size);
            Some(NavTarget::To(if sum < max_index { sum } else { max_index }))
        },
        _ => None,
    }
}

/// What a selection key does.
#[derive(Debug, Clone, Copy, PartialEq, Eq, Structural)]
pub enum SelectionKeyAction {
    /// Toggle the item under the cursor.
    ToggleAtCursor,
    /// Select every item.
    SelectAll,
    /// Clear the selection.
    DeselectAll,
    /// Activate the item under the cursor.
    Activate,
}

/// The selection action of `key`: Space toggles and Ctrl+A selects all in
/// multi-selection; Escape clears any selection that is enabled; Enter
/// activates.
pub open spec fn selection_key_action_spec(key: KeyCombo, mode: SelectionMode) -> Option<SelectionKeyAction> {
    if key.key == Key::Char(' ') && mode == SelectionMode::Multi {
        Some(SelectionKeyAction::ToggleAtCursor)
    } else if key.key == Key::Char('a') && key.modifiers.ctrl && mode == SelectionMode::Multi {
        Some(SelectionKeyAction::SelectAll)
    } else if key.key == Key::Escape && mode != SelectionMode::Disabled {
        Some(SelectionKeyAction::DeselectAll)
    } else if key.key == Key::Enter {
        Some(SelectionKeyAction::Activate)
    } else {
        None
    }
}

/// See [`selection_key_action_spec`].
pub fn selection_key_action(key: &KeyCombo, mode: SelectionMode) -> (r: Option<SelectionKeyAction>)
    ensures
        r == selection_key_action_spec(*key, mode),
{
    let multi = match mode { SelectionMode::Multi => true, _ => false };
    let enabled = match mode { SelectionMode::Disabled => false, _ => true };
    match key.key {
        Key::Char(c) => {
            if c == ' ' && multi {
                Some(SelectionKeyAction::ToggleAtCursor)
            } else if c == 'a' && key.modifiers.ctrl && multi {
                Some(SelectionKeyAction::SelectAll)
            } else {
                None
            }
        },
        Key::Escape => if enabled { Some(SelectionKeyAction::DeselectAll) } else { None },
        Key::Enter => Some(SelectionKeyAction::Activate),
        _ => None,
    }
}

/// Navigation keys move the cursor the way they point: Up one item up,
/// Down one item down, Home to the first item and End to the last, whatever
/// the cursor, item count and viewport; PageUp moves back by a page (at
/// least one item) or to the first item, never forward; PageDown moves
/// forward by a page or to the last item, never past it; any other key
/// does not navigate.
pub proof fn law_navigation_keys_point_their_way(key: Key, cursor: Option<usize>, item_count: usize, viewport_item_count: usize)
    ensures
        ({
            let r = navigation_target_spec(key, cursor, item_count, viewport_item_count);
            let current: int = match cursor { Some(c) => c as int, None => 0 };
            let page: int = if viewport_item_count > 1 { viewport_item_count as int } else { 1 };
            let last: int = if item_count > 0 { item_count - 1 } else { 0 };
            &&& key == Key::Up ==> r == Some(NavTarget::Up)
            &&& key == Key::Down ==> r == Some(NavTarget::Down)
            &&& key == Key::Home ==> r == Some(NavTarget::First)
            &&& key == Key::End ==> r == Some(NavTarget::Last)
            &&& key == Key::PageUp ==> (r matches Some(NavTarget::To(t))
                && t <= current && (t == current - page || (t == 0 && current < page)))
            &&& key == Key::PageDown ==> (r matches Some(NavTarget::To(t))
                && t <= last && (t == current + page || t == last)
                && (current <= last ==> current <= t))
            &&& !(key == Key::Up || key == Key::Down || key == Key::Home || key == Key::End
                || key == Key::PageUp || key == Key::PageDown) ==> r is None
        }),
{
}

/// The selection keys: Escape clears the selection in every mode that has
/// one (single or multi) and does nothing when selection is disabled;
/// Enter activates the item at the cursor in every mode; Space toggles and
/// Ctrl+A selects everything only in multi-selection; no other key acts.
pub proof fn law_selection_keys(key: KeyCombo, mode: SelectionMode)
    ensures
        ({
            let r = selection_key_action_spec(key, mode);
            &&& key.key == Key::Escape && mode != SelectionMode::Disabled ==> r == Some(SelectionKeyAction::DeselectAll)
            &&& key.key == Key::Escape && mode == SelectionMode::Disabled ==> r is None
            &&& key.key == Key::Enter ==> r == Some(SelectionKeyAction::Activate)
            &&& key.key == Key::Char(' ') ==> (r == Some(SelectionKeyAction::ToggleAtCursor) <==> mode == SelectionMode::Multi)
            &&& key.key == Key::Char(' ') && mode != SelectionMode::Multi ==> r is None
            &&& key.key == Key::Char('a') && key.modifiers.ctrl && mode == SelectionMode::Multi
                ==> r == Some(SelectionKeyAction::SelectAll)
            &&& key.key == Key::Char('a') && !(key.modifiers.ctrl && mode == SelectionMode::Multi) ==> r is None
            &&& mode == SelectionMode::Disabled ==> r is None || r == Some(SelectionKeyAction::Activate)
            &&& !(key.key == Key::Escape || key.key == Key::Enter || key.key == Key::Char(' ') || key.key == Key::Char('a'))
                ==> r is None
        }),
{
}

/// A click activates unless a modifier asks for selection: Ctrl toggles
/// the clicked row wherever selection is enabled, Shift (in
/// multi-selection) selects a range that Ctrl extends, and with selection
/// disabled, or without modifiers, the row is activated.
pub proof fn law_click_actions(mode: SelectionMode, ctrl: bool, shift: bool)
    ensures
        ({
            let r = click_action_spec(mode, ctrl, shift);
            &&& mode == SelectionMode::Disabled ==> r == ClickAction::Activate
            &&& !ctrl && !shift ==> r == ClickAction::Activate
            &&& mode == SelectionMode::Single && ctrl ==> r == ClickAction::Toggle
            &&& mode == SelectionMode::Multi && ctrl && !shift ==> r == ClickAction::Toggle
            &&& mode == SelectionMode::Multi && shift ==> r == (ClickAction::RangeSelect { extend: ctrl })
            &&& mode != SelectionMode::Multi ==> !(r is RangeSelect)
        }),
{
}

/// What a click on a row does, by selection mode and modifiers.
#[derive(Debug, Clone, Copy, PartialEq, Eq, Structural)]
pub enum ClickAction {
    /// Activate the clicked row.
    Activate,
    /// Toggle the clicked row's selection.
    Toggle,
    /// Select the range up to the clicked row; `extend` keeps the rows
    /// selected before.
    RangeSelect {
        /// Keep the earlier selection.
        extend: bool,
    },
}

/// The action of a click on a row (after the cursor moved there): without
/// selection it activates; in single selection Ctrl toggles, else it
/// activates; in multi-selection Shift selects a range (extending it with
/// Ctrl), Ctrl toggles, else it activates.
pub open spec fn click_action_spec(mode: SelectionMode, ctrl: bool, shift: bool) -> ClickAction {
    match mode {
        SelectionMode::Disabled => ClickAction::Activate,
        SelectionMode::Single => if ctrl { ClickAction::Toggle } else { ClickAction::Activate },
        SelectionMode::Multi => if shift {
            ClickAction::RangeSelect { extend: ctrl }
        } else if ctrl {
            ClickAction::Toggle
        } else {
            ClickAction::Activate
        },
    }
}

/// See [`click_action_spec`].
pub fn click_action(mode: SelectionMode, ctrl: bool, shift: bool) -> (r: ClickAction)
    ensures
        r == click_action_spec(mode, ctrl, shift),
{
    match mode {
        SelectionMode::Disabled => ClickAction::Activate,
        SelectionMode::Single => if ctrl { ClickAction::Toggle } else { ClickAction::Activate },
        SelectionMode::Multi => if shift {
            ClickAction::RangeSelect { extend: ctrl }
        } else if ctrl {
            ClickAction::Toggle
        } else {
            ClickAction::Activate
        },
    }
}

/// The item under viewport row `y` for a widget scrolled by `offset` with
/// `count` items of `height` rows: none past the last `u16` row, else see
/// [`viewport_index_spec`].
pub open spec fn viewport_row_index(offset: u16, height: u16, count: usize, y: u16) -> Option<usize> {
    if offset + y > u16::MAX { None } else { viewport_index_spec(offset, height, count, y) }
}

/// `after` is `before` with the cursor reported: nothing changes when there
/// is no item at the cursor (`cursor_id` is none); otherwise a cursor-move
/// event of widget `widget` is pushed and the item id and cursor are
/// recorded, the rest kept.
pub open spec fn reported_cursor(before: EventSink, after: EventSink, widget: Seq<char>,
    cursor_id: Option<Seq<char>>, cursor: Option<usize>) -> bool {
    match cursor_id {
        None => after == before,
        Some(cid) => {
            &&& pushed_one(before.events@, after.events@, WidgetEventKind::CursorMove)
            &&& after.events@.last().widget_id@ == widget
            &&& after.cursor matches Some((s, c)) && s@ == cid && c == cursor
            &&& after.focus == before.focus && after.input_text == before.input_text
            &&& after.activated == before.activated && after.selected == before.selected
        },
    }
}

/// `after` is `before` with the item at the cursor reported as activated:
/// nothing changes when there is no item at the cursor; otherwise an
/// activate event of widget `widget` is pushed and the item id and cursor
/// are recorded, the rest kept.
pub open spec fn reported_activation(before: EventSink, after: EventSink, widget: Seq<char>,
    cursor_id: Option<Seq<char>>, cursor: Option<usize>) -> bool {
    match cursor_id {
        None => after == before,
        Some(cid) => {
            &&& pushed_one(before.events@, after.events@, WidgetEventKind::Activate)
            &&& after.events@.last().widget_id@ == widget
            &&& after.activated matches Some((s, c)) && s@ == cid && c == cursor
            &&& after.focus == before.focus && after.input_text == before.input_text
            &&& after.cursor == before.cursor && after.selected == before.selected
        },
    }
}

/// Trait for widgets that support scrollable content.
pub trait ScrollableWidget: ScrollbarState {
    /// The unique ID, as the widget holds it.
    spec fn id_view(&self) -> Seq<char>;

    /// Get the unique ID as a string (for node binding).
    fn id_string(&self) -> (r: String)
        ensures
            r@ == self.id_view(),
    ;

    /// Check if the widget state has changed and needs re-render.
    fn is_dirty(&self) -> bool;

    /// Clear the dirty flag after rendering.
    fn clear_dirty(&mut self);
}

/// Trait for widgets that support cursor navigation and selection.
pub trait SelectableWidget: ScrollableWidget {
    /// The cursor position, as the widget holds it.
    spec fn cursor_view(&self) -> Option<usize>;

    /// The ID of the item at the cursor, as the widget holds it.
    spec fn cursor_id_view(&self) -> Option<Seq<char>>;

    /// The number of items, as the widget holds it.
    spec fn item_count_view(&self) -> usize;

    /// The height of an item, as the widget holds it.
    spec fn item_height_view(&self) -> u16;

    /// Get the current cursor position (index).
    fn cursor(&self) -> (r: Option<usize>)
        ensures
            r == self.cursor_view(),
    ;

    /// Set the cursor position when `index` names an item. Returns the
    /// previous cursor position.
    fn set_cursor(&mut self, index: usize) -> (previous: Option<usize>)
        ensures
            previous == old(self).cursor_view(),
            final(self).cursor_view() == (if index < old(self).item_count_view() {
                Some(index)
            } else {
                old(self).cursor_view()
            }),
            final(self).item_count_view() == old(self).item_count_view(),
            final(self).id_view() == old(self).id_view(),
    ;

    /// Get the ID of the item at the cursor position.
    fn cursor_id(&self) -> (r: Option<String>)
        ensures
            match r {
                Some(s) => self.cursor_id_view() == Some(s@),
                None => self.cursor_id_view() is None,
            },
    ;

    /// Move cursor up. Returns `(previous_cursor, new_cursor)` if moved.
    fn cursor_up(&mut self) -> Option<(Option<usize>, usize)>;

    /// Move cursor down. Returns `(previous_cursor, new_cursor)` if moved.
    fn cursor_down(&mut self) -> Option<(Option<usize>, usize)>;

    /// Move cursor to first item. Returns `(previous_cursor, new_cursor)` if moved.
    fn cursor_first(&mut self) -> Option<(Option<usize>, usize)>;

    /// Move cursor to last item. Returns `(previous_cursor, new_cursor)` if moved.
    fn cursor_last(&mut self) -> Option<(Option<usize>, usize)>;

    /// Scroll the viewport to make the cursor visible; the cursor stays.
    fn scroll_to_cursor(&mut self)
        ensures
            final(self).cursor_view() == old(self).cursor_view(),
            final(self).cursor_id_view() == old(self).cursor_id_view(),
            final(self).item_count_view() == old(self).item_count_view(),
            final(self).id_view() == old(self).id_view(),
    ;

    /// Get the selection mode.
    fn selection_mode(&self) -> SelectionMode;

    /// Get all selected IDs.
    fn selected_ids(&self) -> Vec<String>;

    /// Toggle selection of the item at the cursor. Returns (added IDs, removed IDs).
    fn toggle_select_at_cursor(&mut self) -> (Vec<String>, Vec<String>);

    /// Select all items. Returns the IDs that were newly selected.
    fn select_all(&mut self) -> Vec<String>;

    /// Clear all selection. Returns the IDs that were deselected.
    fn deselect_all(&mut self) -> Vec<String>;

    /// Get the total number of items.
    fn item_count(&self) -> (r: usize)
        ensures
            r == self.item_count_view(),
    ;

    /// Get the number of items that fit in the viewport.
    fn viewport_item_count(&self) -> usize;

    /// Get the height of a single item (in rows).
    fn item_height(&self) -> (r: u16)
        ensures
            r == self.item_height_view(),
    ;

    /// Push a cursor move event.
    fn push_cursor_event(&self, cx: &mut EventSink)
        ensures
            reported_cursor(*old(cx), *final(cx), self.id_view(), self.cursor_id_view(), self.cursor_view()),
    {
        if let Some(id) = self.cursor_id() {
            cx.set_cursor(id, self.cursor());
            cx.push_event(WidgetEvent::new(WidgetEventKind::CursorMove, self.id_string()));
            assert(cx.events@.drop_last() =~= old(cx).events@);
        }
    }

    /// Push an activate event.
    fn push_activate_event(&self, cx: &mut EventSink)
        ensures
            reported_activation(*old(cx), *final(cx), self.id_view(), self.cursor_id_view(), self.cursor_view()),
    {
        if let Some(id) = self.cursor_id() {
            cx.set_activated(id, self.cursor());
            cx.push_event(WidgetEvent::new(WidgetEventKind::Activate, self.id_string()));
            assert(cx.events@.drop_last() =~= old(cx).events@);
        }
    }

    /// Push a selection change event, when anything was added or removed.
    fn push_selection_event(&self, added: &[String], removed: &[String], cx: &mut EventSink)
        ensures
            added@.len() == 0 && removed@.len() == 0 ==> *final(cx) == *old(cx),
            added@.len() > 0 || removed@.len() > 0 ==> pushed_one(old(cx).events@, final(cx).events@,
                WidgetEventKind::SelectionChange) && final(cx).selected is Some,
            final(cx).focus == old(cx).focus && final(cx).input_text == old(cx).input_text,
            final(cx).cursor == old(cx).cursor && final(cx).activated == old(cx).activated,
    {
        if added.len() > 0 || removed.len() > 0 {
            cx.set_selected(self.selected_ids());
            cx.push_event(WidgetEvent::new(WidgetEventKind::SelectionChange, self.id_string()));
            assert(cx.events@.drop_last() =~= old(cx).events@);
        }
    }

    /// Handle cursor movement, scroll to cursor, and push event.
    /// Returns true if cursor was moved.
    fn handle_cursor_move(&mut self, new_cursor: usize, cx: &mut EventSink) -> (moved: bool)
        ensures
            moved == (old(self).cursor_view() != Some(new_cursor)),
            final(self).cursor_view() == (if new_cursor < old(self).item_count_view() {
                Some(new_cursor)
            } else {
                old(self).cursor_view()
            }),
            final(self).item_count_view() == old(self).item_count_view(),
            final(self).id_view() == old(self).id_view(),
            !moved ==> *final(cx) == *old(cx),
            moved ==> reported_cursor(*old(cx), *final(cx), final(self).id_view(), final(self).cursor_id_view(),
                final(self).cursor_view()),
    {
        let previous = self.set_cursor(new_cursor);
        let same = match previous { Some(p) => p == new_cursor, None => false };
        if !same {
            self.scroll_to_cursor();
            self.push_cursor_event(cx);
            true
        } else {
            false
        }
    }

    /// The item under viewport row `y` (none past the last `u16` row).
    fn index_from_viewport_y(&self, y: u16) -> (r: Option<usize>)
        ensures
            r == viewport_row_index(self.scroll_offset_y_view(), self.item_height_view(), self.item_count_view(), y),
    {
        let scroll_offset = self.scroll_offset_y();
        if scroll_offset > u16::MAX - y {
            return None;
        }
        viewport_index(scroll_offset, self.item_height(), self.item_count(), y)
    }

    /// Handle navigation key events (Up, Down, Home, End, PageUp, PageDown).
    fn handle_navigation_key(&mut self, key: &KeyCombo, cx: &mut EventSink) -> (r: Option<EventResult>)
        ensures
            r is None <==> !(key.key is Up || key.key is Down || key.key is Home || key.key is End
                || key.key is PageUp || key.key is PageDown),
            r is None || r == Some(EventResult::Ignored) ==> *final(cx) == *old(cx),
            r == Some(EventResult::Consumed) ==> *final(cx) == *old(cx) || (pushed_one(old(cx).events@,
                final(cx).events@, WidgetEventKind::CursorMove) && final(cx).cursor is Some),
            final(cx).focus == old(cx).focus && final(cx).input_text == old(cx).input_text,
            final(cx).activated == old(cx).activated && final(cx).selected == old(cx).selected,
    {
        let target = navigation_target(key.key, self.cursor(), self.item_count(), self.viewport_item_count());
        match target {
            Some(NavTarget::To(index)) => {
                if self.handle_cursor_move(index, cx) {
                    Some(EventResult::Consumed)
                } else {
                    Some(EventResult::Ignored)
                }
            },
            Some(step) => {
                let moved = match step {
                    NavTarget::Up => self.cursor_up(),
                    NavTarget::Down => self.cursor_down(),
                    NavTarget::First => self.cursor_first(),
                    _ => self.cursor_last(),
                };
                if moved.is_some() {
                    self.scroll_to_cursor();
                    self.push_cursor_event(cx);
                    Some(EventResult::Consumed)
                } else {
                    Some(EventResult::Ignored)
                }
            },
            None => None,
        }
    }

    /// Handle selection key events (Space, Ctrl+A, Escape, Enter).
    fn handle_selection_key(&mut self, key: &KeyCombo, cx: &mut EventSink) -> (r: Option<EventResult>)
        ensures
            r is None || r == Some(EventResult::Consumed),
            key.key == Key::Enter ==> r == Some(EventResult::Consumed),
            !(key.key == Key::Enter || key.key == Key::Escape || key.key == Key::Char(' ') || key.key == Key::Char('a'))
                ==> r is None && *final(cx) == *old(cx),
            r is None ==> *final(cx) == *old(cx),
            final(cx).focus == old(cx).focus && final(cx).input_text == old(cx).input_text,
    {
        match selection_key_action(key, self.selection_mode()) {
            Some(SelectionKeyAction::ToggleAtCursor) => {
                let (added, removed) = self.toggle_select_at_cursor();
                self.push_selection_event(added.as_slice(), removed.as_slice(), cx);
                Some(EventResult::Consumed)
            },
            Some(SelectionKeyAction::SelectAll) => {
                let added = self.select_all();
                let none: Vec<String> = Vec::new();
                if added.len() > 0 {
                    self.push_selection_event(added.as_slice(), none.as_slice(), cx);
                }
                Some(EventResult::Consumed)
            },
            Some(SelectionKeyAction::DeselectAll) => {
                let removed = self.deselect_all();
                let none: Vec<String> = Vec::new();
                if removed.len() > 0 {
                    self.push_selection_event(none.as_slice(), removed.as_slice(), cx);
                }
                Some(EventResult::Consumed)
            },
            Some(SelectionKeyAction::Activate) => {
                self.push_activate_event(cx);
                Some(EventResult::Consumed)
            },
            None => None,
        }
    }

    /// Handle hover at viewport row `y`: the cursor moves to the hovered item.
    fn handle_hover(&mut self, y: u16, cx: &mut EventSink) -> (r: EventResult)
        ensures
            r == EventResult::Consumed,
            ({
                let hovered = viewport_row_index(old(self).scroll_offset_y_view(), old(self).item_height_view(),
                    old(self).item_count_view(), y);
                &&& hovered is None ==> {
                    &&& final(self).cursor_view() == old(self).cursor_view()
                    &&& final(self).cursor_id_view() == old(self).cursor_id_view()
                    &&& final(self).scroll_offset_y_view() == old(self).scroll_offset_y_view()
                    &&& *final(cx) == *old(cx)
                }
                &&& hovered matches Some(i) ==> {
                    &&& final(self).cursor_view() == Some(i)
                    &&& old(self).cursor_view() == Some(i) ==> *final(cx) == *old(cx)
                    &&& old(self).cursor_view() != Some(i) ==> reported_cursor(*old(cx), *final(cx),
                        final(self).id_view(), final(self).cursor_id_view(), final(self).cursor_view())
                }
            }),
    {
        if let Some(index) = self.index_from_viewport_y(y) {
            self.handle_cursor_move(index, cx);
        }
        EventResult::Consumed
    }
}

/// Unified interface for type-erased selectable widgets (List, Tree, Table).
pub trait AnySelectable {
    /// Get the widget ID.
    fn id_string(&self) -> String;

    /// Handle click with modifiers on a data row.
    fn on_click_with_modifiers(&mut self, y_in_viewport: u16, ctrl: bool, shift: bool, cx: &mut EventSink) -> EventResult;

    /// Whether this widget has a header row (Table only).
    fn has_header(&self) -> bool {
        false
    }

    /// Handle header click (Table only).
    fn on_header_click(&mut self, x_in_viewport: u16, cx: &mut EventSink) -> EventResult {
        EventResult::Ignored
    }
}

/// Handler composition for widgets.
///
/// Any handler can be set on any widget; one that a widget never fires is
/// never called.
#[derive(Debug, Clone)]
pub struct WidgetHandlers {
    /// Click handler (for buttons, interactive elements)
    pub on_click: Option<HandlerId>,
    /// Activation handler (Enter key, double-click on list items, etc.)
    pub on_activate: Option<HandlerId>,
    /// Change handler (input value changed, checkbox toggled, etc.)
    pub on_change: Option<HandlerId>,
    /// Submit handler (Enter on input, form submission)
    pub on_submit: Option<HandlerId>,
    /// Cursor movement handler (list/tree/table cursor moved)
    pub on_cursor_move: Option<HandlerId>,
    /// Selection change handler (list/tree/table selection changed)
    pub on_selection_change: Option<HandlerId>,
    /// Scroll handler (scrollable content was scrolled)
    pub on_scroll: Option<HandlerId>,
    /// Expand handler (tree node expanded)
    pub on_expand: Option<HandlerId>,
    /// Collapse handler (tree node collapsed)
    pub on_collapse: Option<HandlerId>,
    /// Sort handler (table column sorted)
    pub on_sort: Option<HandlerId>,
}

impl WidgetHandlers {
    /// No handler is set.
    pub open spec fn is_empty(&self) -> bool {
        &&& self.on_click is None && self.on_activate is None && self.on_change is None
        &&& self.on_submit is None && self.on_cursor_move is None && self.on_selection_change is None
        &&& self.on_scroll is None && self.on_expand is None && self.on_collapse is None
        &&& self.on_sort is None
    }

    /// The handler slot that widget events of `kind` go to.
    pub open spec fn slot(&self, kind: WidgetEventKind) -> Option<HandlerId> {
        match kind {
            WidgetEventKind::Activate => self.on_activate,
            WidgetEventKind::CursorMove => self.on_cursor_move,
            WidgetEventKind::SelectionChange => self.on_selection_change,
            WidgetEventKind::Expand => self.on_expand,
            WidgetEventKind::Collapse => self.on_collapse,
            WidgetEventKind::Sort => self.on_sort,
            WidgetEventKind::Change => self.on_change,
            WidgetEventKind::Select => self.on_selection_change,
        }
    }

    /// Create empty handlers
    pub fn new() -> (r: Self)
        ensures
            r.is_empty(),
    {
        WidgetHandlers {
            on_click: None,
            on_activate: None,
            on_change: None,
            on_submit: None,
            on_cursor_move: None,
            on_selection_change: None,
            on_scroll: None,
            on_expand: None,
            on_collapse: None,
            on_sort: None,
        }
    }

    /// Get handler for a given event kind
    pub fn get(&self, kind: WidgetEventKind) -> (r: Option<&HandlerId>)
        ensures
            match r {
                Some(h) => self.slot(kind) == Some(*h),
                None => self.slot(kind) is None,
            },
    {
        match kind {
            WidgetEventKind::Activate => self.on_activate.as_ref(),
            WidgetEventKind::CursorMove => self.on_cursor_move.as_ref(),
            WidgetEventKind::SelectionChange => self.on_selection_change.as_ref(),
            WidgetEventKind::Expand => self.on_expand.as_ref(),
            WidgetEventKind::Collapse => self.on_collapse.as_ref(),
            WidgetEventKind::Sort => self.on_sort.as_ref(),
            WidgetEventKind::Change => self.on_change.as_ref(),
            WidgetEventKind::Select => self.on_selection_change.as_ref(),
        }
    }
}

impl Default for WidgetHandlers {
    fn default() -> (r: Self)
        ensures
            r.is_empty(),
    {
        WidgetHandlers::new()
    }
}

/// Core scrolling interface.
pub trait Scrollable {
    /// Current scroll offset.
    fn scroll_offset(&self) -> usize;

    /// Set the scroll offset.
    fn set_scroll_offset(&mut self, offset: usize);

    /// Size of the viewport, as the widget holds it.
    spec fn viewport_size_view(&self) -> usize;

    /// Size of the content, as the widget holds it.
    spec fn content_size_view(&self) -> usize;

    /// Size of the viewport.
    fn viewport_size(&self) -> (r: usize)
        ensures
            r == self.viewport_size_view(),
    ;

    /// Size of the content.
    fn content_size(&self) -> (r: usize)
        ensures
            r == self.content_size_view(),
    ;

    /// Scroll to a position.
    fn scroll_to(&mut self, position: usize) {
        self.set_scroll_offset(position);
    }

    /// The largest scroll offset: content size minus viewport size, or 0.
    fn max_scroll(&self) -> (r: usize)
        ensures
            r == (if self.content_size_view() > self.viewport_size_view() {
                self.content_size_view() - self.viewport_size_view()
            } else {
                0
            }),
    {
        self.content_size().saturating_sub(self.viewport_size())
    }

    /// Whether the content overflows the viewport.
    fn needs_scroll(&self) -> (r: bool)
        ensures
            r == (self.content_size_view() > self.viewport_size_view()),
    {
        self.content_size() > self.viewport_size()
    }
}

/// Selection and cursor interface.
pub trait Selectable: Scrollable {
    /// Get the current cursor position (index).
    fn cursor(&self) -> Option<usize>;

    /// Set the cursor position. Returns the previous cursor position.
    fn set_cursor(&mut self, index: usize) -> Option<usize>;

    /// Get the ID of the item at the cursor position.
    fn cursor_id(&self) -> Option<String>;

    /// Move cursor up. Returns `(previous_cursor, new_cursor)` if moved.
    fn cursor_up(&mut self) -> Option<(Option<usize>, usize)>;

    /// Move cursor down. Returns `(previous_cursor, new_cursor)` if moved.
    fn cursor_down(&mut self) -> Option<(Option<usize>, usize)>;

    /// Move cursor to first item.
    fn cursor_first(&mut self) -> Option<(Option<usize>, usize)>;

    /// Move cursor to last item.
    fn cursor_last(&mut self) -> Option<(Option<usize>, usize)>;

    /// Scroll the viewport to make the cursor visible.
    fn scroll_to_cursor(&mut self);

    /// Get the selection mode.
    fn selection_mode(&self) -> SelectionMode;

    /// Get all selected IDs.
    fn selected_ids(&self) -> Vec<String>;

    /// Toggle selection at cursor. Returns (added, removed).
    fn toggle_select_at_cursor(&mut self) -> (Vec<String>, Vec<String>);

    /// Select all items. Returns newly selected IDs.
    fn select_all(&mut self) -> Vec<String>;

    /// Clear selection. Returns deselected IDs.
    fn deselect_all(&mut self) -> Vec<String>;

    /// Get total item count.
    fn item_count(&self) -> usize;

    /// Get number of items visible in viewport.
    fn viewport_item_count(&self) -> usize;

    /// Get height of a single item (in rows).
    fn item_height(&self) -> u16;

    /// Whether this widget has a header row (Table only).
    fn has_header(&self) -> bool {
        false
    }

    /// Handle header click (Table only).
    fn on_header_click(&mut self, x_in_viewport: u16, cx: &mut EventSink) -> EventResult {
        EventResult::Ignored
    }

    /// Handle click on a data row with modifiers.
    fn on_click_with_modifiers(&mut self, y_in_viewport: u16, ctrl: bool, shift: bool, cx: &mut EventSink) -> EventResult {
        EventResult::Ignored
    }
}

} // verus!
