use rafter_widgets::checkbox::{checkbox_indicator, CheckboxVariant};
use rafter_widgets::collapsible::collapse_arrow;
use rafter_widgets::grid::{
    column_at_x, column_positions, max_scroll_offset, scroll_offset_to_show, scroll_offset_to_show_column,
    toggle_sort, visible_column_range, visible_index_range, RowCursor,
};
use rafter_widgets::input::{Key, KeyCombo, Modifiers};
use rafter_widgets::scrollbar::{scroll_area_key_action, ScrollAreaKeyAction};

#[test]
fn row_cursor_moves_within_rows() {
    let mut c = RowCursor::new();
    assert_eq!(c.cursor_up(0), None);
    assert_eq!(c.cursor_down(3), Some((None, 0)));
    assert_eq!(c.cursor_down(3), Some((Some(0), 1)));
    assert_eq!(c.cursor_down(3), Some((Some(1), 2)));
    assert_eq!(c.cursor_down(3), None);
    assert_eq!(c.cursor_up(3), Some((Some(2), 1)));
    assert_eq!(c.cursor_first(3), Some((Some(1), 0)));
    assert_eq!(c.cursor_up(3), None);
    assert_eq!(c.cursor_last(3), Some((Some(0), 2)));
    assert_eq!(c.set_cursor(7, 3), Some(2));
    assert_eq!(c.cursor, Some(2));
    assert_eq!(c.set_cursor(1, 3), Some(2));
    assert_eq!(c.cursor, Some(1));
    assert!(c.dirty);
    assert_eq!(RowCursor::new().cursor_last(0), None);
}

#[test]
fn row_cursor_down_then_up_returns() {
    let mut c = RowCursor::new();
    c.set_cursor(4, 10);
    c.cursor_down(10);
    c.cursor_up(10);
    assert_eq!(c.cursor, Some(4));
}

#[test]
fn rows_scroll_into_view() {
    assert_eq!(scroll_offset_to_show(12, 20, 1, 5, 0), 8);
    assert_eq!(scroll_offset_to_show(2, 20, 1, 5, 8), 2);
    assert_eq!(scroll_offset_to_show(9, 20, 1, 5, 8), 8);
    assert_eq!(scroll_offset_to_show(25, 20, 1, 5, 8), 8);
    assert_eq!(scroll_offset_to_show(3, 20, 2, 4, 0), 4);
    assert_eq!(scroll_offset_to_show(3, 20, 2, 0, 7), 7);
    assert_eq!(visible_index_range(20, 5, 8, 1), (8, 14));
    assert_eq!(visible_index_range(10, 5, 8, 1), (8, 10));
    assert_eq!(visible_index_range(20, 5, 8, 2), (4, 8));
    assert_eq!(visible_index_range(0, 5, 0, 1), (0, 0));
    assert_eq!(max_scroll_offset(20, 1, 5), 15);
    assert_eq!(max_scroll_offset(3, 1, 5), 0);
}

#[test]
fn columns_positions_and_hits() {
    let pos = column_positions(&vec![10, 5, 0, 8]);
    assert_eq!(pos, vec![0, 10, 15, 15]);
    assert_eq!(column_at_x(&pos, 4, 0), 0);
    assert_eq!(column_at_x(&pos, 4, 12), 1);
    assert_eq!(column_at_x(&pos, 4, 10), 1);
    let at15 = column_at_x(&pos, 4, 15);
    assert!(at15 == 2 || at15 == 3);
    assert_eq!(column_at_x(&pos, 4, 40), 3);
    assert_eq!(column_at_x(&vec![], 0, 5), 0);
    assert_eq!(visible_column_range(&vec![0, 10, 20, 30], 12, 10), (1, 3));
    assert_eq!(visible_column_range(&vec![0, 10, 20, 30], 0, 10), (0, 1));
    assert_eq!(visible_column_range(&vec![0, 10, 20, 30], 0, 0), (0, 0));
    assert_eq!(scroll_offset_to_show_column(20, 10, 15, 0), 15);
    assert_eq!(scroll_offset_to_show_column(5, 10, 15, 8), 5);
    assert_eq!(scroll_offset_to_show_column(10, 5, 15, 8), 8);
}

#[test]
fn sort_toggles_direction() {
    assert_eq!(toggle_sort(None, 1, 3, true), Some((1, true)));
    assert_eq!(toggle_sort(Some((1, true)), 1, 3, true), Some((1, false)));
    assert_eq!(toggle_sort(Some((1, false)), 1, 3, true), Some((1, true)));
    assert_eq!(toggle_sort(Some((1, false)), 2, 3, true), Some((2, true)));
    assert_eq!(toggle_sort(Some((1, false)), 2, 3, false), None);
    assert_eq!(toggle_sort(None, 3, 3, true), None);
}

#[test]
fn scroll_area_keys() {
    let plain = |k| KeyCombo::plain(k);
    assert_eq!(scroll_area_key_action(&plain(Key::Up), 20), Some(ScrollAreaKeyAction::ScrollBy(0, -1)));
    assert_eq!(scroll_area_key_action(&plain(Key::Right), 20), Some(ScrollAreaKeyAction::ScrollBy(1, 0)));
    assert_eq!(scroll_area_key_action(&plain(Key::PageDown), 20), Some(ScrollAreaKeyAction::ScrollBy(0, 20)));
    assert_eq!(scroll_area_key_action(&plain(Key::PageUp), 0), Some(ScrollAreaKeyAction::ScrollBy(0, -10)));
    assert_eq!(scroll_area_key_action(&plain(Key::Home), 20), Some(ScrollAreaKeyAction::ToTop));
    assert_eq!(scroll_area_key_action(&plain(Key::End), 20), Some(ScrollAreaKeyAction::ToBottom));
    assert_eq!(scroll_area_key_action(&plain(Key::Enter), 20), None);
    let alt = KeyCombo { key: Key::Up, modifiers: Modifiers { ctrl: false, alt: true, shift: false } };
    assert_eq!(scroll_area_key_action(&alt, 20), None);
}

#[test]
fn indicators() {
    assert_eq!(checkbox_indicator(CheckboxVariant::Big, true), "[x]");
    assert_eq!(checkbox_indicator(CheckboxVariant::Big, false), "[ ]");
    assert_eq!(checkbox_indicator(CheckboxVariant::Small, true), "◼");
    assert_eq!(checkbox_indicator(CheckboxVariant::Small, false), "◻");
    assert_eq!(collapse_arrow(true), "▼");
    assert_eq!(collapse_arrow(false), "▶");
}
