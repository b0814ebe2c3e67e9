//! The view state of a table drawn a row per item under a header row:
//! fixed-width columns, a row cursor, the sort, and the vertical and
//! horizontal scroll offsets within the viewport.
use vstd::prelude::*;
use crate::grid::{
    column_at_x, column_positions, down_target, index_range, is_column_at, offset_to_show,
    offset_to_show_column, scroll_offset_to_show, scroll_offset_to_show_column, sort_after_toggle,
    toggle_sort, up_target, visible_column_range, visible_index_range, width_sum, column_range_end,
    RowCursor,
};
use crate::list_layout::{list_rows, places_rows, row_in_range, RowPlacement};
use crate::scroll::clamp_int;
use crate::traits::{viewport_index, viewport_index_spec};

verus! {

/// A column of the table as the view sees it.
#[derive(Debug, Clone, Copy, PartialEq, Eq, Structural)]
pub struct GridColumn {
    /// Width in terminal columns.
    pub width: u16,
    /// Whether a click on its header sorts by it.
    pub sortable: bool,
}

/// The widths of `columns`.
pub open spec fn widths_of(columns: Seq<GridColumn>) -> Seq<u16> {
    Seq::new(columns.len(), |i: int| columns[i].width)
}

/// `a - b`, or 0 when `b` is larger.
pub open spec fn sat_sub(a: int, b: int) -> int {
    if a > b { a - b } else { 0 }
}

/// The view state of a table.
#[derive(Debug, Clone)]
pub struct TableView {
    /// The columns, in display order.
    pub columns: Vec<GridColumn>,
    /// The left edge of each column.
    pub column_positions: Vec<u16>,
    /// The number of rows.
    pub row_count: usize,
    /// The height of every row.
    pub row_height: u16,
    /// The row cursor.
    pub cursor: RowCursor,
    /// The sort: column index and whether ascending.
    pub sort: Option<(usize, bool)>,
    /// Vertical scroll offset, in terminal rows.
    pub scroll_offset_y: u16,
    /// Horizontal scroll offset, in terminal columns.
    pub scroll_offset_x: u16,
    /// Viewport height, the header row included.
    pub viewport_height: u16,
    /// Viewport width available to the columns.
    pub viewport_width: u16,
}

impl TableView {
    /// The column positions match the columns, whose widths, and the rows'
    /// heights, add up within `u16`.
    pub open spec fn wf(&self) -> bool {
        &&& width_sum(widths_of(self.columns@), self.columns@.len() as int) <= u16::MAX
        &&& self.column_positions@.len() == self.columns@.len()
        &&& forall|i: int| 0 <= i < self.columns@.len()
            ==> #[trigger] self.column_positions@[i] == width_sum(widths_of(self.columns@), i)
        &&& self.row_count * self.row_height <= u16::MAX
    }

    /// The total width of the columns.
    pub open spec fn total_width_spec(&self) -> int {
        width_sum(widths_of(self.columns@), self.columns@.len() as int)
    }

    /// The total height of the rows.
    pub open spec fn total_height_spec(&self) -> int {
        self.row_count * self.row_height
    }

    /// The rows of the viewport below the header.
    pub open spec fn data_viewport_spec(&self) -> int {
        sat_sub(self.viewport_height as int, 1)
    }

    /// The largest vertical offset.
    pub open spec fn max_y(&self) -> int {
        sat_sub(self.total_height_spec(), self.data_viewport_spec())
    }

    /// The largest horizontal offset.
    pub open spec fn max_x(&self) -> int {
        sat_sub(self.total_width_spec(), self.viewport_width as int)
    }

    /// The fields that only the column operations change are kept.
    pub open spec fn same_rows(&self, other: &Self) -> bool {
        &&& self.row_count == other.row_count
        &&& self.row_height == other.row_height
        &&& self.cursor == other.cursor
        &&& self.scroll_offset_y == other.scroll_offset_y
        &&& self.viewport_height == other.viewport_height
    }

    /// The fields that the viewport does not bound are kept: the rows, their
    /// height and the cursor.
    pub open spec fn same_rows_but_viewport(&self, other: &Self) -> bool {
        &&& self.row_count == other.row_count
        &&& self.row_height == other.row_height
        &&& self.cursor == other.cursor
    }

    /// The columns, their positions and the sort are kept.
    pub open spec fn same_columns_but_viewport(&self, other: &Self) -> bool {
        &&& self.columns == other.columns
        &&& self.column_positions == other.column_positions
        &&& self.sort == other.sort
    }

    /// The fields that only the row operations change are kept.
    pub open spec fn same_columns(&self, other: &Self) -> bool {
        &&& self.columns == other.columns
        &&& self.column_positions == other.column_positions
        &&& self.sort == other.sort
        &&& self.scroll_offset_x == other.scroll_offset_x
        &&& self.viewport_width == other.viewport_width
    }

    /// A view of `columns` with no rows of `row_height`, nothing sorted and
    /// nothing scrolled.
    pub fn new(columns: Vec<GridColumn>, row_height: u16) -> (r: Self)
        requires
            width_sum(widths_of(columns@), columns@.len() as int) <= u16::MAX,
        ensures
            r.wf(),
            r.columns@ == columns@,
            r.row_count == 0 && r.row_height == row_height,
            r.cursor.cursor is None && !r.cursor.dirty,
            r.sort is None,
            r.scroll_offset_y == 0 && r.scroll_offset_x == 0,
            r.viewport_height == 0 && r.viewport_width == 0,
    {
        let positions = positions_of(&columns);
        TableView {
            columns,
            column_positions: positions,
            row_count: 0,
            row_height,
            cursor: RowCursor::new(),
            sort: None,
            scroll_offset_y: 0,
            scroll_offset_x: 0,
            viewport_height: 0,
            viewport_width: 0,
        }
    }

    /// Replace the columns; the horizontal scroll goes back to the start.
    pub fn set_columns(&mut self, columns: Vec<GridColumn>)
        requires
            old(self).row_count * old(self).row_height <= u16::MAX,
            width_sum(widths_of(columns@), columns@.len() as int) <= u16::MAX,
        ensures
            final(self).wf(),
            final(self).columns@ == columns@,
            final(self).scroll_offset_x == 0,
            final(self).sort == old(self).sort,
            final(self).viewport_width == old(self).viewport_width,
            final(self).same_rows(old(self)),
    {
        self.column_positions = positions_of(&columns);
        self.columns = columns;
        self.scroll_offset_x = 0;
    }

    /// The total width of the columns.
    pub fn total_width(&self) -> (r: u16)
        requires
            self.wf(),
        ensures
            r == self.total_width_spec(),
    {
        let n = self.columns.len();
        if n == 0 {
            0
        } else {
            proof { lemma_width_step(self.columns@, (n - 1) as int); }
            self.column_positions[n - 1] + self.columns[n - 1].width
        }
    }

    /// The column under `x` (see [`is_column_at`]).
    pub fn column_at(&self, x: u16) -> (r: usize)
        requires
            self.wf(),
        ensures
            is_column_at(self.column_positions@, self.columns@.len() as int, x, r as int),
    {
        proof { lemma_positions_sorted(self); }
        column_at_x(&self.column_positions, self.columns.len(), x)
    }

    /// Replace the rows by `count` rows: a cursor past the last row moves
    /// onto it (or goes away when there are no rows).
    pub fn set_rows(&mut self, count: usize)
        requires
            count * old(self).row_height <= u16::MAX,
            old(self).wf(),
        ensures
            final(self).wf(),
            final(self).row_count == count,
            final(self).cursor.cursor == (match old(self).cursor.cursor {
                Some(c) => if c >= count { if count > 0 { Some((count - 1) as usize) } else { None } } else { Some(c) },
                None => None,
            }),
            final(self).cursor.dirty == old(self).cursor.dirty,
            final(self).scroll_offset_y == old(self).scroll_offset_y,
            final(self).viewport_height == old(self).viewport_height,
            final(self).row_height == old(self).row_height,
            final(self).same_columns(old(self)),
    {
        self.row_count = count;
        if let Some(c) = self.cursor.cursor {
            if c >= count {
                self.cursor.cursor = if count > 0 { Some(count - 1) } else { None };
            }
        }
    }

    /// Remove every row: no cursor, and the vertical scroll back at the top.
    pub fn clear(&mut self)
        requires
            old(self).wf(),
        ensures
            final(self).wf(),
            final(self).row_count == 0,
            final(self).cursor.cursor is None,
            final(self).cursor.dirty == old(self).cursor.dirty,
            final(self).scroll_offset_y == 0,
            final(self).viewport_height == old(self).viewport_height,
            final(self).row_height == old(self).row_height,
            final(self).same_columns(old(self)),
    {
        self.row_count = 0;
        self.cursor.cursor = None;
        self.scroll_offset_y = 0;
    }

    /// Move the cursor to row `index` when it names a row; returns the
    /// previous cursor.
    pub fn set_cursor(&mut self, index: usize) -> (previous: Option<usize>)
        ensures
            previous == old(self).cursor.cursor,
            final(self).cursor.cursor == (if index < old(self).row_count { Some(index) } else { old(self).cursor.cursor }),
            final(self).row_count == old(self).row_count && final(self).row_height == old(self).row_height,
            final(self).scroll_offset_y == old(self).scroll_offset_y,
            final(self).viewport_height == old(self).viewport_height,
            final(self).same_columns(old(self)),
    {
        let n = self.row_count;
        self.cursor.set_cursor(index, n)
    }

    /// Move the cursor one row up (see [`up_target`]).
    pub fn cursor_up(&mut self) -> (r: Option<(Option<usize>, usize)>)
        ensures
            r == (match up_target(old(self).cursor.cursor, old(self).row_count as int) {
                Some(t) => Some((old(self).cursor.cursor, t)),
                None => None,
            }),
            final(self).cursor.cursor == (match up_target(old(self).cursor.cursor, old(self).row_count as int) {
                Some(t) => Some(t),
                None => old(self).cursor.cursor,
            }),
            final(self).row_count == old(self).row_count && final(self).row_height == old(self).row_height,
            final(self).scroll_offset_y == old(self).scroll_offset_y,
            final(self).viewport_height == old(self).viewport_height,
            final(self).same_columns(old(self)),
    {
        let n = self.row_count;
        self.cursor.cursor_up(n)
    }

    /// Move the cursor one row down (see [`down_target`]).
    pub fn cursor_down(&mut self) -> (r: Option<(Option<usize>, usize)>)
        ensures
            r == (match down_target(old(self).cursor.cursor, old(self).row_count as int) {
                Some(t) => Some((old(self).cursor.cursor, t)),
                None => None,
            }),
            final(self).cursor.cursor == (match down_target(old(self).cursor.cursor, old(self).row_count as int) {
                Some(t) => Some(t),
                None => old(self).cursor.cursor,
            }),
            final(self).row_count == old(self).row_count && final(self).row_height == old(self).row_height,
            final(self).scroll_offset_y == old(self).scroll_offset_y,
            final(self).viewport_height == old(self).viewport_height,
            final(self).same_columns(old(self)),
    {
        let n = self.row_count;
        self.cursor.cursor_down(n)
    }

    /// Move the cursor to the first row, when there is one.
    pub fn cursor_first(&mut self) -> (r: Option<(Option<usize>, usize)>)
        ensures
            r == (if old(self).row_count > 0 { Some((old(self).cursor.cursor, 0usize)) } else { None }),
            final(self).cursor.cursor == (if old(self).row_count > 0 { Some(0usize) } else { old(self).cursor.cursor }),
            final(self).row_count == old(self).row_count && final(self).row_height == old(self).row_height,
            final(self).scroll_offset_y == old(self).scroll_offset_y,
            final(self).viewport_height == old(self).viewport_height,
            final(self).same_columns(old(self)),
    {
        let n = self.row_count;
        self.cursor.cursor_first(n)
    }

    /// Move the cursor to the last row, when there is one.
    pub fn cursor_last(&mut self) -> (r: Option<(Option<usize>, usize)>)
        ensures
            r == (if old(self).row_count > 0 { Some((old(self).cursor.cursor, (old(self).row_count - 1) as usize)) } else { None }),
            final(self).cursor.cursor == (if old(self).row_count > 0 {
                Some((old(self).row_count - 1) as usize)
            } else {
                old(self).cursor.cursor
            }),
            final(self).row_count == old(self).row_count && final(self).row_height == old(self).row_height,
            final(self).scroll_offset_y == old(self).scroll_offset_y,
            final(self).viewport_height == old(self).viewport_height,
            final(self).same_columns(old(self)),
    {
        let n = self.row_count;
        self.cursor.cursor_last(n)
    }
}

impl TableView {
    /// Whether column `i` exists and sorts.
    pub open spec fn sortable_at(&self, i: usize) -> bool {
        i < self.columns@.len() && self.columns@[i as int].sortable
    }

    /// Sort by column `column_index` in the given direction, when that
    /// column exists and sorts (the rows themselves are not reordered).
    pub fn set_sort(&mut self, column_index: usize, ascending: bool)
        ensures
            final(self).sort == (if old(self).sortable_at(column_index) { Some((column_index, ascending)) } else { old(self).sort }),
            final(self).columns == old(self).columns && final(self).column_positions == old(self).column_positions,
            final(self).scroll_offset_x == old(self).scroll_offset_x && final(self).viewport_width == old(self).viewport_width,
            final(self).same_rows(old(self)),
    {
        if column_index < self.columns.len() && self.columns[column_index].sortable {
            self.sort = Some((column_index, ascending));
        }
    }

    /// A click on the header of column `column_index` (see
    /// [`sort_after_toggle`]); returns the new sort when it changed.
    pub fn toggle_sort(&mut self, column_index: usize) -> (r: Option<(usize, bool)>)
        ensures
            r == sort_after_toggle(old(self).sort, column_index, old(self).columns@.len() as usize,
                old(self).sortable_at(column_index)),
            final(self).sort == (match r { Some(s) => Some(s), None => old(self).sort }),
            final(self).columns == old(self).columns && final(self).column_positions == old(self).column_positions,
            final(self).scroll_offset_x == old(self).scroll_offset_x && final(self).viewport_width == old(self).viewport_width,
            final(self).same_rows(old(self)),
    {
        let sortable = column_index < self.columns.len() && self.columns[column_index].sortable;
        let r = toggle_sort(self.sort, column_index, self.columns.len(), sortable);
        if let Some(s) = r {
            self.sort = Some(s);
        }
        r
    }

    /// Forget the sort.
    pub fn clear_sort(&mut self)
        ensures
            final(self).sort is None,
            final(self).columns == old(self).columns && final(self).column_positions == old(self).column_positions,
            final(self).scroll_offset_x == old(self).scroll_offset_x && final(self).viewport_width == old(self).viewport_width,
            final(self).same_rows(old(self)),
    {
        self.sort = None;
    }

    /// The rows of the viewport below the header row.
    pub fn data_viewport_height(&self) -> (r: u16)
        ensures
            r == self.data_viewport_spec(),
    {
        self.viewport_height.saturating_sub(1)
    }

    /// How many whole rows fit below the header.
    pub fn viewport_item_count(&self) -> (r: usize)
        requires
            self.row_height > 0,
        ensures
            r == self.data_viewport_spec() / (self.row_height as int),
    {
        (self.data_viewport_height() / self.row_height) as usize
    }

    /// The largest vertical offset.
    pub fn max_offset_y(&self) -> (r: u16)
        requires
            self.wf(),
        ensures
            r == self.max_y(),
    {
        crate::grid::max_scroll_offset(self.row_count, self.row_height, self.data_viewport_height())
    }

    /// The largest horizontal offset.
    pub fn max_offset_x(&self) -> (r: u16)
        requires
            self.wf(),
        ensures
            r == self.max_x(),
    {
        self.total_width().saturating_sub(self.viewport_width)
    }

    /// Scroll vertically to `offset`, at most the largest offset.
    pub fn set_scroll_offset_y(&mut self, offset: u16)
        requires
            old(self).wf(),
        ensures
            final(self).scroll_offset_y == (if offset < old(self).max_y() { offset as int } else { old(self).max_y() }),
            final(self).row_count == old(self).row_count && final(self).row_height == old(self).row_height,
            final(self).cursor == old(self).cursor && final(self).viewport_height == old(self).viewport_height,
            final(self).same_columns(old(self)),
    {
        let max = self.max_offset_y();
        self.scroll_offset_y = if offset < max { offset } else { max };
    }

    /// Scroll vertically so that row `index` is in view (see
    /// [`offset_to_show`], over the rows below the header).
    pub fn scroll_to_row(&mut self, index: usize)
        requires
            old(self).wf(),
            index < old(self).row_count && old(self).data_viewport_spec() > 0
                ==> old(self).scroll_offset_y + old(self).data_viewport_spec() <= u16::MAX,
        ensures
            final(self).scroll_offset_y == offset_to_show(index as int, old(self).row_count as int,
                old(self).row_height as int, old(self).data_viewport_spec(), old(self).scroll_offset_y as int),
            final(self).row_count == old(self).row_count && final(self).row_height == old(self).row_height,
            final(self).cursor == old(self).cursor && final(self).viewport_height == old(self).viewport_height,
            final(self).same_columns(old(self)),
    {
        let vp = self.data_viewport_height();
        if index < self.row_count {
            proof {
                vstd::arithmetic::mul::lemma_mul_inequality((index + 1) as int, self.row_count as int, self.row_height as int);
            }
        }
        self.scroll_offset_y = scroll_offset_to_show(index, self.row_count, self.row_height, vp, self.scroll_offset_y);
    }

    /// Scroll vertically to the row under the cursor, if any.
    pub fn scroll_to_cursor(&mut self)
        requires
            old(self).wf(),
            old(self).cursor.cursor matches Some(c) && c < old(self).row_count && old(self).data_viewport_spec() > 0
                ==> old(self).scroll_offset_y + old(self).data_viewport_spec() <= u16::MAX,
        ensures
            final(self).scroll_offset_y == (match old(self).cursor.cursor {
                Some(c) => offset_to_show(c as int, old(self).row_count as int, old(self).row_height as int,
                    old(self).data_viewport_spec(), old(self).scroll_offset_y as int),
                None => old(self).scroll_offset_y as int,
            }),
            final(self).row_count == old(self).row_count && final(self).row_height == old(self).row_height,
            final(self).cursor == old(self).cursor && final(self).viewport_height == old(self).viewport_height,
            final(self).same_columns(old(self)),
    {
        if let Some(c) = self.cursor.cursor {
            self.scroll_to_row(c);
        }
    }

    /// Scroll horizontally to `offset`, at most the largest offset.
    pub fn set_scroll_offset_x(&mut self, offset: u16)
        requires
            old(self).wf(),
        ensures
            final(self).scroll_offset_x == (if offset < old(self).max_x() { offset as int } else { old(self).max_x() }),
            final(self).columns == old(self).columns && final(self).column_positions == old(self).column_positions,
            final(self).sort == old(self).sort && final(self).viewport_width == old(self).viewport_width,
            final(self).same_rows(old(self)),
    {
        let max = self.max_offset_x();
        self.scroll_offset_x = if offset < max { offset } else { max };
    }

    /// Scroll horizontally by `delta` columns, within `[0, max_x]`.
    pub fn scroll_x_by(&mut self, delta: i16)
        requires
            old(self).wf(),
        ensures
            final(self).scroll_offset_x == clamp_int(old(self).scroll_offset_x + delta, 0, old(self).max_x()),
            final(self).columns == old(self).columns && final(self).column_positions == old(self).column_positions,
            final(self).sort == old(self).sort && final(self).viewport_width == old(self).viewport_width,
            final(self).same_rows(old(self)),
    {
        let max = self.max_offset_x();
        let v: i32 = self.scroll_offset_x as i32 + delta as i32;
        self.scroll_offset_x = if v < 0 { 0 } else if v > max as i32 { max } else { v as u16 };
    }

    /// Scroll horizontally so that column `column_index` is in view (see
    /// [`offset_to_show_column`]); nothing happens for a column past the
    /// last.
    pub fn scroll_to_column(&mut self, column_index: usize)
        requires
            old(self).wf(),
            column_index < old(self).columns@.len() && old(self).viewport_width > 0
                ==> old(self).scroll_offset_x + old(self).viewport_width <= u16::MAX,
        ensures
            final(self).scroll_offset_x == (if column_index < old(self).columns@.len() {
                offset_to_show_column(old(self).column_positions@[column_index as int] as int,
                    old(self).columns@[column_index as int].width as int, old(self).viewport_width as int,
                    old(self).scroll_offset_x as int)
            } else {
                old(self).scroll_offset_x as int
            }),
            final(self).columns == old(self).columns && final(self).column_positions == old(self).column_positions,
            final(self).sort == old(self).sort && final(self).viewport_width == old(self).viewport_width,
            final(self).same_rows(old(self)),
    {
        if column_index >= self.columns.len() {
            return;
        }
        proof {
            lemma_width_step(self.columns@, column_index as int);
            crate::grid::lemma_width_sum_monotone(widths_of(self.columns@), column_index + 1, self.columns@.len() as int);
        }
        let left = self.column_positions[column_index];
        let width = self.columns[column_index].width;
        self.scroll_offset_x = scroll_offset_to_show_column(left, width, self.viewport_width, self.scroll_offset_x);
    }

    /// Whether the columns are wider than the viewport.
    pub fn needs_horizontal_scrollbar(&self) -> (r: bool)
        requires
            self.wf(),
        ensures
            r == (self.total_width_spec() > self.viewport_width),
    {
        self.total_width() > self.viewport_width
    }

    /// Whether the rows are taller than the rows below the header.
    pub fn needs_vertical_scrollbar(&self) -> (r: bool)
        requires
            self.wf(),
        ensures
            r == (self.total_height_spec() > self.data_viewport_spec()),
    {
        crate::grid::max_scroll_offset(self.row_count, self.row_height, self.data_viewport_height()) > 0
    }

    /// The columns that overlap the viewport (see [`column_range_end`]).
    pub fn visible_column_range(&self) -> (r: (usize, usize))
        requires
            self.wf(),
            self.scroll_offset_x + self.viewport_width <= u16::MAX,
        ensures
            self.columns@.len() == 0 || self.viewport_width == 0 ==> r == (0usize, 0usize),
            self.columns@.len() > 0 && self.viewport_width > 0 ==> {
                &&& is_column_at(self.column_positions@, self.columns@.len() as int, self.scroll_offset_x, r.0 as int)
                &&& column_range_end(self.column_positions@, r.0 as int, self.scroll_offset_x + self.viewport_width, r.1 as int)
            },
    {
        proof { lemma_positions_sorted(self); }
        visible_column_range(&self.column_positions, self.scroll_offset_x, self.viewport_width)
    }

    /// Set the viewport height, bringing the vertical offset within range.
    pub fn set_viewport_height(&mut self, height: u16)
        requires
            old(self).wf(),
        ensures
            final(self).viewport_height == height,
            final(self).scroll_offset_y == (if old(self).scroll_offset_y > final(self).max_y() {
                final(self).max_y()
            } else {
                old(self).scroll_offset_y as int
            }),
            final(self).row_count == old(self).row_count && final(self).row_height == old(self).row_height,
            final(self).cursor == old(self).cursor,
            final(self).same_columns(old(self)),
    {
        self.viewport_height = height;
        let max = self.max_offset_y();
        if self.scroll_offset_y > max {
            self.scroll_offset_y = max;
        }
    }

    /// Set the viewport width, bringing the horizontal offset within range.
    pub fn set_viewport_width(&mut self, width: u16)
        requires
            old(self).wf(),
        ensures
            final(self).viewport_width == width,
            final(self).scroll_offset_x == (if old(self).scroll_offset_x > final(self).max_x() {
                final(self).max_x()
            } else {
                old(self).scroll_offset_x as int
            }),
            final(self).columns == old(self).columns && final(self).column_positions == old(self).column_positions,
            final(self).sort == old(self).sort,
            final(self).same_rows(old(self)),
    {
        self.viewport_width = width;
        let max = self.max_offset_x();
        if self.scroll_offset_x > max {
            self.scroll_offset_x = max;
        }
    }

    /// The rows to draw below the header (see [`index_range`]).
    pub fn visible_row_range(&self) -> (r: (usize, usize))
        requires
            self.row_height > 0,
        ensures
            r.0 == index_range(self.row_count as int, self.data_viewport_spec(), self.scroll_offset_y as int, self.row_height as int).0,
            r.1 == index_range(self.row_count as int, self.data_viewport_spec(), self.scroll_offset_y as int, self.row_height as int).1,
    {
        if self.row_count == 0 || self.viewport_height <= 1 {
            return (0, 0);
        }
        visible_index_range(self.row_count, self.data_viewport_height(), self.scroll_offset_y, self.row_height)
    }

    /// Scroll by `dx` columns and `dy` rows, each within its range.
    pub fn scroll_by(&mut self, dx: i16, dy: i16)
        requires
            old(self).wf(),
        ensures
            final(self).scroll_offset_y == (if dy != 0 {
                clamp_int(old(self).scroll_offset_y + dy, 0, old(self).max_y())
            } else {
                old(self).scroll_offset_y as int
            }),
            final(self).scroll_offset_x == (if dx != 0 {
                clamp_int(old(self).scroll_offset_x + dx, 0, old(self).max_x())
            } else {
                old(self).scroll_offset_x as int
            }),
            final(self).columns == old(self).columns && final(self).column_positions == old(self).column_positions,
            final(self).sort == old(self).sort && final(self).viewport_width == old(self).viewport_width,
            final(self).row_count == old(self).row_count && final(self).row_height == old(self).row_height,
            final(self).cursor == old(self).cursor && final(self).viewport_height == old(self).viewport_height,
    {
        if dy != 0 {
            let max = self.max_offset_y();
            let v: i32 = self.scroll_offset_y as i32 + dy as i32;
            self.scroll_offset_y = if v < 0 { 0 } else if v > max as i32 { max } else { v as u16 };
        }
        if dx != 0 {
            self.scroll_x_by(dx);
        }
    }

    /// Scroll to the first row.
    pub fn scroll_to_top(&mut self)
        ensures
            final(self).scroll_offset_y == 0,
            final(self).row_count == old(self).row_count && final(self).row_height == old(self).row_height,
            final(self).cursor == old(self).cursor && final(self).viewport_height == old(self).viewport_height,
            final(self).same_columns(old(self)),
    {
        self.scroll_offset_y = 0;
    }

    /// Scroll to the last rows.
    pub fn scroll_to_bottom(&mut self)
        requires
            old(self).wf(),
        ensures
            final(self).scroll_offset_y == old(self).max_y(),
            final(self).row_count == old(self).row_count && final(self).row_height == old(self).row_height,
            final(self).cursor == old(self).cursor && final(self).viewport_height == old(self).viewport_height,
            final(self).same_columns(old(self)),
    {
        self.scroll_offset_y = self.max_offset_y();
    }

    /// The row under viewport row `y`: none on the header row (`y` = 0),
    /// else the data row below it (see [`viewport_index_spec`]).
    pub fn index_from_viewport_y(&self, y: u16) -> (r: Option<usize>)
        requires
            y > 0 ==> self.scroll_offset_y + (y - 1) <= u16::MAX,
        ensures
            r == (if y == 0 { None } else { viewport_index_spec(self.scroll_offset_y, self.row_height, self.row_count, (y - 1) as u16) }),
    {
        if y == 0 {
            return None;
        }
        viewport_index(self.scroll_offset_y, self.row_height, self.row_count, y - 1)
    }

    /// The largest vertical offset for a viewport `height` rows tall, the
    /// header row included.
    pub open spec fn max_y_at(&self, height: u16) -> int {
        sat_sub(self.total_height_spec(), sat_sub(height as int, 1))
    }

    /// The largest horizontal offset for a viewport `width` columns wide.
    pub open spec fn max_x_at(&self, width: u16) -> int {
        sat_sub(self.total_width_spec(), width as int)
    }

    /// Lay the table out in the area `(x, y, width, height)` left inside its
    /// border and padding. A first pass sizes the viewport to the area (its
    /// width at most the columns' total) to see which scrollbars are needed;
    /// 2 columns are kept for a vertical scrollbar and 1 row for a
    /// horizontal one; the viewport is then set to what is left (its width
    /// again at most the columns' total). `None` when nothing is left to
    /// draw in; the state is untouched for an empty area.
    pub fn layout(&mut self, area: (u16, u16, u16, u16)) -> (r: Option<TableRenderLayout>)
        requires
            old(self).wf(),
        ensures
            ({
                let (x, y, w, h) = area;
                let tw = old(self).total_width_spec();
                let est: u16 = (if w < tw { w as int } else { tw }) as u16;
                let v = old(self).total_height_spec() > sat_sub(h as int, 1);
                let hz = tw > est;
                let cw = sat_sub(w as int, if v { 2 } else { 0 });
                let ch = sat_sub(h as int, if hz { 1 } else { 0 });
                let eff: u16 = (if cw < tw { cw } else { tw }) as u16;
                &&& w == 0 || h == 0 ==> r is None && *final(self) == *old(self)
                &&& w > 0 && h > 0 ==> {
                    &&& final(self).wf()
                    &&& final(self).same_rows_but_viewport(old(self))
                    &&& final(self).same_columns_but_viewport(old(self))
                    &&& (r is None <==> cw == 0 || ch == 0)
                    &&& r is None ==> final(self).viewport_width == est && final(self).viewport_height == h
                    &&& r is None ==> final(self).scroll_offset_x == clamped(old(self).scroll_offset_x as int, old(self).max_x_at(est))
                    &&& r is None ==> final(self).scroll_offset_y == clamped(old(self).scroll_offset_y as int, old(self).max_y_at(h))
                    &&& r matches Some(l) ==> {
                        &&& l == (TableRenderLayout { x, y, width: eff, height: ch as u16,
                            needs_vertical_scrollbar: v, needs_horizontal_scrollbar: hz })
                        &&& final(self).viewport_width == eff && final(self).viewport_height == ch
                        &&& final(self).scroll_offset_x == clamped(clamped(old(self).scroll_offset_x as int,
                            old(self).max_x_at(est)), old(self).max_x_at(eff))
                        &&& final(self).scroll_offset_y == clamped(clamped(old(self).scroll_offset_y as int,
                            old(self).max_y_at(h)), old(self).max_y_at(ch as u16))
                    }
                }
            }),
    {
        let (x, y, w, h) = area;
        if w == 0 || h == 0 {
            return None;
        }
        let tw = self.total_width();
        let est = if w < tw { w } else { tw };
        self.set_viewport_width(est);
        self.set_viewport_height(h);
        let v = self.needs_vertical_scrollbar();
        let hz = self.needs_horizontal_scrollbar();
        let v_reserved: u16 = if v { 2 } else { 0 };
        let h_reserved: u16 = if hz { 1 } else { 0 };
        let cw = w.saturating_sub(v_reserved);
        let ch = h.saturating_sub(h_reserved);
        if cw == 0 || ch == 0 {
            return None;
        }
        let eff = if cw < tw { cw } else { tw };
        self.set_viewport_height(ch);
        self.set_viewport_width(eff);
        Some(TableRenderLayout { x, y, width: eff, height: ch, needs_vertical_scrollbar: v, needs_horizontal_scrollbar: hz })
    }

    /// The data rows drawn below the header row at screen row `top`: the
    /// visible rows (see [`Self::visible_row_range`]) placed from `top + 1`
    /// in the rows below the header, each clipped at the bottom (see
    /// [`places_rows`]). None when the viewport has no width or no data
    /// rows, or when the offset lies past the last row.
    pub fn data_rows(&self, top: u16) -> (r: Vec<RowPlacement>)
        requires
            self.row_height > 0,
            top + self.viewport_height <= u16::MAX,
            ({
                let range = index_range(self.row_count as int, self.data_viewport_spec(), self.scroll_offset_y as int,
                    self.row_height as int);
                forall|i: int| 0 <= i < range.1 - range.0 ==> #[trigger] row_in_range(top + 1,
                    self.data_viewport_spec(), range.0, self.row_height as int, self.scroll_offset_y as int, i)
            }),
        ensures
            ({
                let range = index_range(self.row_count as int, self.data_viewport_spec(), self.scroll_offset_y as int,
                    self.row_height as int);
                &&& self.viewport_width == 0 || self.data_viewport_spec() == 0 || range.0 > range.1 ==> r@.len() == 0
                &&& self.viewport_width > 0 && self.data_viewport_spec() > 0 && range.0 <= range.1 ==> places_rows(r@, top + 1,
                    self.data_viewport_spec(), range.0, range.1, self.row_height as int, self.scroll_offset_y as int)
            }),
    {
        let (start, end) = self.visible_row_range();
        let data_height = self.data_viewport_height();
        if self.viewport_width == 0 || data_height == 0 || start > end {
            return Vec::new();
        }
        let ghost o = self.scroll_offset_y as int;
        let ghost rh = self.row_height as int;
        assert((o / rh) * rh <= o) by (nonlinear_arith)
            requires o >= 0, rh > 0;
        assert(start * self.row_height <= u16::MAX) by {
            if self.row_count > 0 {
                assert(start as int == o / rh);
                assert(start * self.row_height == (o / rh) * rh);
            } else {
                assert(start == 0);
            }
        }
        list_rows(top + 1, data_height, self.viewport_width, start, end, self.row_height, self.scroll_offset_y)
    }
}

/// `o`, at most `m`.
pub open spec fn clamped(o: int, m: int) -> int {
    if o > m { m } else { o }
}

/// Where a table goes on screen once laid out.
#[derive(Debug, Clone, Copy, PartialEq, Eq, Structural)]
pub struct TableRenderLayout {
    /// The left edge.
    pub x: u16,
    /// The top row (the header row).
    pub y: u16,
    /// The width drawn: what the scrollbar leaves, at most the columns'
    /// total.
    pub width: u16,
    /// The rows drawn, the header row included: what the scrollbar leaves.
    pub height: u16,
    /// Whether a vertical scrollbar is drawn right of the table.
    pub needs_vertical_scrollbar: bool,
    /// Whether a horizontal scrollbar is drawn below the table.
    pub needs_horizontal_scrollbar: bool,
}

/// The left edges of `columns`.
fn positions_of(columns: &Vec<GridColumn>) -> (r: Vec<u16>)
    requires
        width_sum(widths_of(columns@), columns@.len() as int) <= u16::MAX,
    ensures
        r@.len() == columns@.len(),
        forall|i: int| 0 <= i < columns@.len() ==> #[trigger] r@[i] == width_sum(widths_of(columns@), i),
{
    let mut widths: Vec<u16> = Vec::new();
    let mut i: usize = 0;
    while i < columns.len()
        invariant
            i <= columns@.len(),
            widths@.len() == i,
            forall|k: int| 0 <= k < i ==> #[trigger] widths@[k] == columns@[k].width,
        decreases columns@.len() - i,
    {
        widths.push(columns[i].width);
        i = i + 1;
    }
    proof {
        assert(widths@ =~= widths_of(columns@));
    }
    column_positions(&widths)
}

/// The left edge of a column and its width add up to the next edge.
proof fn lemma_width_step(columns: Seq<GridColumn>, i: int)
    requires
        0 <= i < columns.len(),
    ensures
        width_sum(widths_of(columns), i + 1) == width_sum(widths_of(columns), i) + columns[i].width,
{
}

/// Column edges never decrease.
proof fn lemma_positions_sorted(v: &TableView)
    requires
        v.wf(),
    ensures
        forall|i: int, j: int| 0 <= i <= j < v.column_positions@.len()
            ==> v.column_positions@[i] <= v.column_positions@[j],
{
    assert forall|i: int, j: int| 0 <= i <= j < v.column_positions@.len()
        implies v.column_positions@[i] <= v.column_positions@[j] by {
        crate::grid::lemma_width_sum_monotone(widths_of(v.columns@), i, j);
    }
}

} // verus!
