use rafter_widgets::list_layout::RowPlacement;
use rafter_widgets::table_view::{GridColumn, TableRenderLayout, TableView};

fn col(width: u16, sortable: bool) -> GridColumn {
    GridColumn { width, sortable }
}

fn view() -> TableView {
    let mut v = TableView::new(vec![col(10, true), col(5, false), col(20, true), col(8, true)], 1);
    v.set_rows(30);
    v.set_viewport_height(11);
    v.set_viewport_width(25);
    v
}

#[test]
fn table_view_columns_and_positions() {
    let v = view();
    assert_eq!(v.column_positions, vec![0, 10, 15, 35]);
    assert_eq!(v.total_width(), 43);
    assert_eq!(v.column_at(0), 0);
    assert_eq!(v.column_at(12), 1);
    assert_eq!(v.column_at(15), 2);
    assert_eq!(v.column_at(100), 3);
    assert!(v.needs_horizontal_scrollbar());
    assert_eq!(v.visible_column_range(), (0, 3));
    assert_eq!(v.max_offset_x(), 18);
}

#[test]
fn table_view_vertical_scrolling() {
    let mut v = view();
    assert_eq!(v.data_viewport_height(), 10);
    assert_eq!(v.viewport_item_count(), 10);
    assert_eq!(v.max_offset_y(), 20);
    assert!(v.needs_vertical_scrollbar());
    let mut short = view();
    short.set_rows(10);
    assert!(!short.needs_vertical_scrollbar());
    v.set_scroll_offset_y(50);
    assert_eq!(v.scroll_offset_y, 20);
    v.scroll_to_row(3);
    assert_eq!(v.scroll_offset_y, 3);
    v.scroll_to_row(25);
    assert_eq!(v.scroll_offset_y, 16);
    v.scroll_to_row(99);
    assert_eq!(v.scroll_offset_y, 16);
    assert_eq!(v.visible_row_range(), (16, 27));
    v.scroll_by(0, -20);
    assert_eq!(v.scroll_offset_y, 0);
    v.scroll_to_bottom();
    assert_eq!(v.scroll_offset_y, 20);
    v.set_viewport_height(26);
    assert_eq!(v.scroll_offset_y, 5);
    v.scroll_to_top();
    assert_eq!(v.scroll_offset_y, 0);
    assert_eq!(v.index_from_viewport_y(0), None);
    assert_eq!(v.index_from_viewport_y(4), Some(3));
    assert_eq!(v.index_from_viewport_y(40), None);
}

#[test]
fn table_view_horizontal_scrolling() {
    let mut v = view();
    v.scroll_x_by(30);
    assert_eq!(v.scroll_offset_x, 18);
    v.scroll_x_by(-5);
    assert_eq!(v.scroll_offset_x, 13);
    assert_eq!(v.visible_column_range(), (1, 4));
    v.scroll_to_column(0);
    assert_eq!(v.scroll_offset_x, 0);
    v.scroll_to_column(3);
    assert_eq!(v.scroll_offset_x, 18);
    v.set_scroll_offset_x(4);
    assert_eq!(v.scroll_offset_x, 4);
    v.set_viewport_width(40);
    assert_eq!(v.scroll_offset_x, 3);
    v.set_columns(vec![col(4, true)]);
    assert_eq!(v.scroll_offset_x, 0);
    assert!(!v.needs_horizontal_scrollbar());
}

#[test]
fn table_view_cursor_rows_and_sort() {
    let mut v = view();
    assert_eq!(v.cursor_up(), Some((None, 0)));
    assert_eq!(v.cursor_last(), Some((Some(0), 29)));
    v.set_rows(5);
    assert_eq!(v.cursor.cursor, Some(4));
    assert_eq!(v.cursor_down(), None);
    assert_eq!(v.set_cursor(2), Some(4));
    v.scroll_to_cursor();
    assert_eq!(v.cursor_first(), Some((Some(2), 0)));
    assert_eq!(v.toggle_sort(0), Some((0, true)));
    assert_eq!(v.toggle_sort(0), Some((0, false)));
    assert_eq!(v.toggle_sort(1), None);
    assert_eq!(v.sort, Some((0, false)));
    v.set_sort(2, false);
    assert_eq!(v.sort, Some((2, false)));
    v.set_sort(1, true);
    assert_eq!(v.sort, Some((2, false)));
    v.clear_sort();
    assert_eq!(v.sort, None);
    v.clear();
    assert_eq!((v.row_count, v.cursor.cursor, v.scroll_offset_y), (0, None, 0));
}

#[test]
fn layout_reserves_scrollbars_and_places_rows() {
    let mut v = TableView::new(vec![col(10, true), col(5, false), col(20, true), col(8, true)], 1);
    v.set_rows(30);
    let l = v.layout((0, 2, 50, 10));
    assert_eq!(
        l,
        Some(TableRenderLayout { x: 0, y: 2, width: 43, height: 10, needs_vertical_scrollbar: true, needs_horizontal_scrollbar: false })
    );
    assert_eq!((v.viewport_width, v.viewport_height), (43, 10));
    let rows = v.data_rows(2);
    assert_eq!(rows.len(), 9);
    assert_eq!(rows[0], RowPlacement { index: 0, y: 3, height: 1 });
    assert_eq!(rows[8], RowPlacement { index: 8, y: 11, height: 1 });
    let narrow = v.layout((0, 0, 30, 10));
    assert_eq!(
        narrow,
        Some(TableRenderLayout { x: 0, y: 0, width: 28, height: 9, needs_vertical_scrollbar: true, needs_horizontal_scrollbar: true })
    );
    assert_eq!(v.layout((0, 0, 0, 5)), None);
    assert_eq!(v.layout((0, 0, 2, 5)), None);
    assert_eq!(v.viewport_width, 2);
}
