//! Cursor, scrolling and column geometry of row-based widgets with rows of
//! equal height (trees and tables drawn a row per item).
use vstd::prelude::*;

verus! {

/// A cursor over the rows of a widget.
#[derive(Debug, Clone, Copy, PartialEq, Eq, Structural)]
pub struct RowCursor {
    /// The row under the cursor, if any.
    pub cursor: Option<usize>,
    /// The cursor moved since the last render.
    pub dirty: bool,
}

/// Where `cursor_up` moves a cursor over `len` rows: one row up, or onto
/// the first row when there is no cursor; `None` when it cannot move.
pub open spec fn up_target(cursor: Option<usize>, len: int) -> Option<usize> {
    match cursor {
        Some(c) => if c > 0 { Some((c - 1) as usize) } else { None },
        None => if len > 0 { Some(0) } else { None },
    }
}

/// Where `cursor_down` moves a cursor over `len` rows: one row down while
/// not on the last row, or onto the first row when there is no cursor.
pub open spec fn down_target(cursor: Option<usize>, len: int) -> Option<usize> {
    let max_index: int = if len > 0 { len - 1 } else { 0 };
    match cursor {
        Some(c) => if c < max_index { Some((c + 1) as usize) } else { None },
        None => if len > 0 { Some(0) } else { None },
    }
}

/// Up moves the cursor exactly one row up and Down exactly one row down,
/// within the rows: from no cursor either lands on the first row (when there
/// is one); at the first row Up does not move and at the last row Down does
/// not move.
pub proof fn law_cursor_steps_one_row(cursor: Option<usize>, len: int)
    requires
        0 <= len <= usize::MAX,
        cursor matches Some(c) ==> c < len,
    ensures
        cursor matches Some(c) ==> (c > 0 <==> up_target(cursor, len) is Some),
        cursor matches Some(c) ==> (up_target(cursor, len) matches Some(t) ==> t + 1 == c),
        cursor matches Some(c) ==> (c + 1 < len <==> down_target(cursor, len) is Some),
        cursor matches Some(c) ==> (down_target(cursor, len) matches Some(t) ==> t == c + 1 && t < len),
        cursor is None ==> up_target(cursor, len) == (if len > 0 { Some(0usize) } else { None }),
        cursor is None ==> down_target(cursor, len) == (if len > 0 { Some(0usize) } else { None }),
{
}

impl RowCursor {
    /// No cursor.
    pub fn new() -> (r: Self)
        ensures
            r.cursor is None,
            !r.dirty,
    {
        RowCursor { cursor: None, dirty: false }
    }

    /// Move the cursor to `index` when it names a row; returns the previous
    /// cursor.
    pub fn set_cursor(&mut self, index: usize, len: usize) -> (previous: Option<usize>)
        ensures
            previous == old(self).cursor,
            final(self).cursor == (if index < len { Some(index) } else { old(self).cursor }),
            final(self).dirty == (old(self).dirty || (index < len && old(self).cursor != Some(index))),
    {
        let previous = self.cursor;
        let same = match previous { Some(p) => p == index, None => false };
        if index < len && !same {
            self.cursor = Some(index);
            self.dirty = true;
        }
        previous
    }

    /// Move one row up (see [`up_target`]); returns the previous and new
    /// cursor when it moved.
    pub fn cursor_up(&mut self, len: usize) -> (r: Option<(Option<usize>, usize)>)
        ensures
            r == (match up_target(old(self).cursor, len as int) {
                Some(t) => Some((old(self).cursor, t)),
                None => None,
            }),
            final(self).cursor == (match up_target(old(self).cursor, len as int) {
                Some(t) => Some(t),
                None => old(self).cursor,
            }),
            final(self).dirty == (old(self).dirty || up_target(old(self).cursor, len as int) is Some),
    {
        let previous = self.cursor;
        match self.cursor {
            Some(c) => {
                if c > 0 {
                    self.cursor = Some(c - 1);
                    self.dirty = true;
                    Some((previous, c - 1))
                } else {
                    None
                }
            },
            None => {
                if len > 0 {
                    self.cursor = Some(0);
                    self.dirty = true;
                    Some((None, 0))
                } else {
                    None
                }
            },
        }
    }

    /// Move one row down (see [`down_target`]); returns the previous and
    /// new cursor when it moved.
    pub fn cursor_down(&mut self, len: usize) -> (r: Option<(Option<usize>, usize)>)
        ensures
            r == (match down_target(old(self).cursor, len as int) {
                Some(t) => Some((old(self).cursor, t)),
                None => None,
            }),
            final(self).cursor == (match down_target(old(self).cursor, len as int) {
                Some(t) => Some(t),
                None => old(self).cursor,
            }),
            final(self).dirty == (old(self).dirty || down_target(old(self).cursor, len as int) is Some),
    {
        let previous = self.cursor;
        let max_index = len.saturating_sub(1);
        match self.cursor {
            Some(c) => {
                if c < max_index {
                    self.cursor = Some(c + 1);
                    self.dirty = true;
                    Some((previous, c + 1))
                } else {
                    None
                }
            },
            None => {
                if len > 0 {
                    self.cursor = Some(0);
                    self.dirty = true;
                    Some((None, 0))
                } else {
                    None
                }
            },
        }
    }

    /// Move to the first row, when there is one.
    pub fn cursor_first(&mut self, len: usize) -> (r: Option<(Option<usize>, usize)>)
        ensures
            r == (if len > 0 { Some((old(self).cursor, 0usize)) } else { None }),
            final(self).cursor == (if len > 0 { Some(0usize) } else { old(self).cursor }),
            final(self).dirty == (old(self).dirty || len > 0),
    {
        if len > 0 {
            let previous = self.cursor;
            self.cursor = Some(0);
            self.dirty = true;
            Some((previous, 0))
        } else {
            None
        }
    }

    /// Move to the last row, when there is one.
    pub fn cursor_last(&mut self, len: usize) -> (r: Option<(Option<usize>, usize)>)
        ensures
            r == (if len > 0 { Some((old(self).cursor, (len - 1) as usize)) } else { None }),
            final(self).cursor == (if len > 0 { Some((len - 1) as usize) } else { old(self).cursor }),
            final(self).dirty == (old(self).dirty || len > 0),
    {
        if len > 0 {
            let previous = self.cursor;
            let last = len - 1;
            self.cursor = Some(last);
            self.dirty = true;
            Some((previous, last))
        } else {
            None
        }
    }
}

/// Moving down and then up brings a cursor that is not on the last row back.
pub proof fn law_down_then_up(c: usize, len: usize)
    requires
        c + 1 < len,
    ensures
        down_target(Some(c), len as int) == Some((c + 1) as usize),
        up_target(down_target(Some(c), len as int), len as int) == Some(c),
{
}

/// The scroll offset that shows row `index` of `len` rows of `item_height`
/// in a viewport of `viewport` rows scrolled to `offset`: the row's top when
/// it lies above, the offset that puts its bottom at the viewport's bottom
/// when it lies below, else `offset`; `offset` for a row past the end or an
/// empty viewport.
pub open spec fn offset_to_show(index: int, len: int, item_height: int, viewport: int, offset: int) -> int {
    let top = index * item_height;
    let bottom = top + item_height;
    if index >= len || viewport == 0 {
        offset
    } else if top < offset {
        top
    } else if bottom > offset + viewport {
        bottom - viewport
    } else {
        offset
    }
}

/// Scrolling to a row shows it and moves no more than needed: the row
/// (when it fits in the viewport) lies in view afterwards, a row already
/// in view keeps the offset, a row above moves the view up and a row below
/// moves it down; a row past the end or an empty viewport keeps the offset.
pub proof fn law_offset_to_show_shows_row(index: int, len: int, item_height: int, viewport: int, offset: int)
    requires
        0 <= index,
        0 <= item_height <= viewport,
        0 <= offset,
    ensures
        ({
            let r = offset_to_show(index, len, item_height, viewport, offset);
            let top = index * item_height;
            &&& index >= len || viewport == 0 ==> r == offset
            &&& index < len && viewport > 0 ==> r <= top && top + item_height <= r + viewport
            &&& offset <= top && top + item_height <= offset + viewport ==> r == offset
            &&& index < len && viewport > 0 && top < offset ==> r < offset
            &&& index < len && viewport > 0 && top + item_height > offset + viewport ==> r > offset
        }),
{
}

/// See [`offset_to_show`].
pub fn scroll_offset_to_show(index: usize, len: usize, item_height: u16, viewport: u16, offset: u16) -> (r: u16)
    requires
        index < len && viewport > 0 ==> (index + 1) * item_height <= u16::MAX && offset + viewport <= u16::MAX,
    ensures
        r == offset_to_show(index as int, len as int, item_height as int, viewport as int, offset as int),
{
    if index >= len || viewport == 0 {
        return offset;
    }
    let top: u16 = if item_height == 0 {
        0
    } else {
        proof {
            assert(index + 1 <= (index + 1) * item_height) by (nonlinear_arith)
                requires item_height >= 1, index >= 0;
            assert(index * item_height + item_height == (index + 1) * item_height) by (nonlinear_arith);
        }
        (index as u16) * item_height
    };
    proof {
        assert(top == index * item_height) by (nonlinear_arith)
            requires item_height == 0 ==> top == 0, item_height != 0 ==> top == index * item_height;
        assert(index * item_height + item_height == (index + 1) * item_height) by (nonlinear_arith);
    }
    let bottom = top + item_height;
    if top < offset {
        top
    } else if bottom > offset + viewport {
        bottom - viewport
    } else {
        offset
    }
}

/// The rows to build for `len` rows of `item_height` in a viewport of
/// `viewport` rows scrolled to `offset`: from the row at the offset, as
/// many rows as the viewport can show plus one, within the rows; none for
/// no rows or an empty viewport.
pub open spec fn index_range(len: int, viewport: int, offset: int, item_height: int) -> (int, int) {
    if len == 0 || viewport == 0 {
        (0, 0)
    } else {
        let start = offset / item_height;
        let count = (viewport + item_height - 1) / item_height;
        let end = if start + count + 1 < len { start + count + 1 } else { len };
        (start, end)
    }
}

/// The visible range starts at the row under the top of the viewport and
/// reaches past its bottom (or to the last row): the first row covers the
/// offset, and the rows up to the end cover the whole viewport.
pub proof fn law_index_range_covers_viewport(len: int, viewport: int, offset: int, item_height: int)
    requires
        len > 0,
        viewport > 0,
        offset >= 0,
        item_height > 0,
    ensures
        ({
            let (start, end) = index_range(len, viewport, offset, item_height);
            &&& start * item_height <= offset < (start + 1) * item_height
            &&& end <= len
            &&& end == len || offset + viewport <= end * item_height
        }),
{
    let (start, end) = index_range(len, viewport, offset, item_height);
    let count = (viewport + item_height - 1) / item_height;
    assert(start * item_height <= offset < (start + 1) * item_height) by (nonlinear_arith)
        requires start == offset / item_height, item_height > 0, offset >= 0;
    assert(count * item_height >= viewport) by (nonlinear_arith)
        requires count == (viewport + item_height - 1) / item_height, item_height > 0, viewport > 0;
    assert((start + count + 1) * item_height == (start + 1) * item_height + count * item_height) by (nonlinear_arith);
}

/// See [`index_range`].
pub fn visible_index_range(len: usize, viewport: u16, offset: u16, item_height: u16) -> (r: (usize, usize))
    requires
        item_height > 0,
    ensures
        r.0 == index_range(len as int, viewport as int, offset as int, item_height as int).0,
        r.1 == index_range(len as int, viewport as int, offset as int, item_height as int).1,
{
    if len == 0 || viewport == 0 {
        return (0, 0);
    }
    let start = (offset / item_height) as usize;
    let count = ((viewport as u32 + item_height as u32 - 1) / item_height as u32) as usize;
    let end = if start + count + 1 < len { start + count + 1 } else { len };
    (start, end)
}

/// The largest scroll offset for `len` rows of `item_height` in a viewport
/// of `viewport` rows.
pub fn max_scroll_offset(len: usize, item_height: u16, viewport: u16) -> (r: u16)
    requires
        len * item_height <= u16::MAX,
    ensures
        r == (if len * item_height > viewport { len * item_height - viewport } else { 0 }),
{
    let total: u16 = if item_height == 0 {
        0
    } else {
        proof {
            assert(len <= len * item_height) by (nonlinear_arith)
                requires item_height >= 1, len >= 0;
        }
        (len as u16) * item_height
    };
    proof {
        assert(total == len * item_height) by (nonlinear_arith)
            requires item_height == 0 ==> total == 0, item_height != 0 ==> total == len * item_height;
    }
    total.saturating_sub(viewport)
}

/// Running sum of `widths`: the left edge of each column.
pub open spec fn width_sum(widths: Seq<u16>, n: int) -> int
    decreases n,
{
    if n <= 0 || n > widths.len() { 0 } else { width_sum(widths, n - 1) + widths[n - 1] }
}

/// Running sums of widths never decrease.
pub proof fn lemma_width_sum_monotone(widths: Seq<u16>, i: int, j: int)
    requires
        0 <= i <= j <= widths.len(),
    ensures
        width_sum(widths, i) <= width_sum(widths, j),
    decreases j - i,
{
    if i < j {
        lemma_width_sum_monotone(widths, i, j - 1);
    }
}

/// The left edge of each column: the widths of the columns before it added.
pub fn column_positions(widths: &Vec<u16>) -> (r: Vec<u16>)
    requires
        width_sum(widths@, widths@.len() as int) <= u16::MAX,
    ensures
        r@.len() == widths@.len(),
        forall|i: int| 0 <= i < r@.len() ==> #[trigger] r@[i] == width_sum(widths@, i),
{
    let mut positions: Vec<u16> = Vec::new();
    let mut x: u16 = 0;
    let mut i: usize = 0;
    while i < widths.len()
        invariant
            i <= widths@.len(),
            width_sum(widths@, widths@.len() as int) <= u16::MAX,
            x == width_sum(widths@, i as int),
            positions@.len() == i,
            forall|k: int| 0 <= k < i ==> #[trigger] positions@[k] == width_sum(widths@, k),
        decreases widths@.len() - i,
    {
        positions.push(x);
        proof { lemma_width_sum_monotone(widths@, i + 1, widths@.len() as int); }
        x = x + widths[i];
        i = i + 1;
    }
    positions
}

/// The column under `x`, for columns whose left edges are `positions`
/// (sorted): a column starting exactly at `x`, else the last column
/// starting before `x`, at most the last of `n_columns` columns; 0 when
/// there are no positions.
pub open spec fn is_column_at(positions: Seq<u16>, n_columns: int, x: u16, r: int) -> bool {
    if positions.len() == 0 {
        r == 0
    } else if exists|i: int| 0 <= i < positions.len() && positions[i] == x {
        0 <= r < positions.len() && positions[r] == x
    } else {
        let ins = Set::new(|i: int| 0 <= i <= positions.len()
            && (forall|k: int| 0 <= k < i ==> positions[k] < x)
            && (forall|k: int| i <= k < positions.len() ==> positions[k] > x));
        exists|i: int| #[trigger] ins.contains(i) && {
            let below: int = if i > 0 { i - 1 } else { 0 };
            let last: int = if n_columns > 0 { n_columns - 1 } else { 0 };
            r == (if below < last { below } else { last })
        }
    }
}

/// See [`is_column_at`].
pub fn column_at_x(positions: &Vec<u16>, n_columns: usize, x: u16) -> (r: usize)
    requires
        forall|i: int, j: int| 0 <= i <= j < positions@.len() ==> positions@[i] <= positions@[j],
    ensures
        is_column_at(positions@, n_columns as int, x, r as int),
{
    if positions.len() == 0 {
        return 0;
    }
    let mut lo: usize = 0;
    let mut hi: usize = positions.len();
    while lo < hi
        invariant
            0 <= lo <= hi <= positions@.len(),
            forall|i: int, j: int| 0 <= i <= j < positions@.len() ==> positions@[i] <= positions@[j],
            forall|k: int| 0 <= k < lo ==> positions@[k] < x,
            forall|k: int| hi <= k < positions@.len() ==> positions@[k] >= x,
        decreases hi - lo,
    {
        let mid = lo + (hi - lo) / 2;
        if positions[mid] < x {
            lo = mid + 1;
        } else {
            hi = mid;
        }
    }
    if lo < positions.len() && positions[lo] == x {
        return lo;
    }
    proof {
        assert forall|i: int| 0 <= i < positions@.len() implies positions@[i] != x by {
            if i >= lo {
                assert(positions@[lo as int] <= positions@[i]);
            }
        }
        let ins = Set::new(|i: int| 0 <= i <= positions@.len()
            && (forall|k: int| 0 <= k < i ==> positions@[k] < x)
            && (forall|k: int| i <= k < positions@.len() ==> positions@[k] > x));
        assert(ins.contains(lo as int));
    }
    let below = if lo > 0 { lo - 1 } else { 0 };
    let last = if n_columns > 0 { n_columns - 1 } else { 0 };
    if below < last { below } else { last }
}

/// The sort after a click on column `column_index` of `column_count`
/// columns: a sortable column already sorted flips its direction, another
/// one sorts ascending; `None` (no change) for a column past the end or one
/// that cannot be sorted.
pub open spec fn sort_after_toggle(current: Option<(usize, bool)>, column_index: usize, column_count: usize, sortable: bool) -> Option<(usize, bool)> {
    if column_index < column_count && sortable {
        match current {
            Some((idx, asc)) => if idx == column_index { Some((column_index, !asc)) } else { Some((column_index, true)) },
            None => Some((column_index, true)),
        }
    } else {
        None
    }
}

/// A click on a sortable column sorts by it: ascending the first time,
/// then each further click on the same column flips the direction, so two
/// clicks restore it; clicking another column starts it ascending; a
/// column that is not sortable, or does not exist, changes nothing
/// (`None`).
pub proof fn law_sort_toggles(current: Option<(usize, bool)>, column_index: usize, column_count: usize, sortable: bool)
    ensures
        ({
            let r = sort_after_toggle(current, column_index, column_count, sortable);
            &&& !(column_index < column_count && sortable) <==> r is None
            &&& r matches Some((i, asc)) ==> i == column_index
            &&& r matches Some((_, asc)) ==> (asc <==> !(current == Some((column_index, true))))
            &&& (current matches Some((i, _)) && i == column_index && r is Some)
                ==> sort_after_toggle(r, column_index, column_count, sortable) == current
        }),
{
}

/// See [`sort_after_toggle`].
pub fn toggle_sort(current: Option<(usize, bool)>, column_index: usize, column_count: usize, sortable: bool) -> (r: Option<(usize, bool)>)
    ensures
        r == sort_after_toggle(current, column_index, column_count, sortable),
{
    if column_index < column_count && sortable {
        let new_sort = match current {
            Some((idx, asc)) => if idx == column_index { (column_index, !asc) } else { (column_index, true) },
            None => (column_index, true),
        };
        Some(new_sort)
    } else {
        None
    }
}

/// Two clicks on the same sortable column flip its direction twice, back to
/// where it was.
pub proof fn law_toggle_sort_twice(column_index: usize, ascending: bool, column_count: usize)
    requires
        column_index < column_count,
    ensures
        sort_after_toggle(sort_after_toggle(Some((column_index, ascending)), column_index, column_count, true),
            column_index, column_count, true) == Some((column_index, ascending)),
{
}

/// The columns that overlap a viewport of `viewport_width` scrolled to
/// `scroll_x`: from `start`, the column under `scroll_x`, up to the first
/// later column that starts at or past the viewport's end.
pub open spec fn column_range_end(positions: Seq<u16>, start: int, viewport_end: int, end: int) -> bool {
    &&& start <= end <= positions.len()
    &&& forall|i: int| start <= i < end ==> #[trigger] positions[i] < viewport_end
    &&& end < positions.len() ==> positions[end] >= viewport_end
}

/// See [`column_range_end`]; `(0, 0)` without columns or with an empty
/// viewport.
pub fn visible_column_range(positions: &Vec<u16>, scroll_x: u16, viewport_width: u16) -> (r: (usize, usize))
    requires
        forall|i: int, j: int| 0 <= i <= j < positions@.len() ==> positions@[i] <= positions@[j],
        scroll_x + viewport_width <= u16::MAX,
    ensures
        positions@.len() == 0 || viewport_width == 0 ==> r == (0usize, 0usize),
        positions@.len() > 0 && viewport_width > 0 ==> {
            &&& is_column_at(positions@, positions@.len() as int, scroll_x, r.0 as int)
            &&& column_range_end(positions@, r.0 as int, scroll_x + viewport_width, r.1 as int)
        },
{
    let n = positions.len();
    if n == 0 || viewport_width == 0 {
        return (0, 0);
    }
    let viewport_end = scroll_x + viewport_width;
    let start = column_at_x(positions, n, scroll_x);
    let mut end = start;
    let mut i = start;
    while i < n
        invariant
            start < n,
            n == positions@.len(),
            start <= i <= n,
            end == i,
            forall|k: int| start <= k < i ==> #[trigger] positions@[k] < viewport_end,
        ensures
            start <= end <= n,
            forall|k: int| start <= k < end ==> #[trigger] positions@[k] < viewport_end,
            end < n ==> positions@[end as int] >= viewport_end,
        decreases n - i,
    {
        if positions[i] >= viewport_end {
            break;
        }
        end = i + 1;
        i = i + 1;
    }
    (start, end)
}

/// The horizontal scroll offset that shows a column spanning
/// `[left, left + width)` in a viewport of `viewport_width` columns
/// scrolled to `offset` (see [`offset_to_show`]).
pub open spec fn offset_to_show_column(left: int, width: int, viewport_width: int, offset: int) -> int {
    if viewport_width == 0 {
        offset
    } else if left < offset {
        left
    } else if left + width > offset + viewport_width {
        left + width - viewport_width
    } else {
        offset
    }
}

/// Scrolling to a column shows it (when it fits) and moves no more than
/// needed: a column in view keeps the offset, one to the left moves the
/// view left, one to the right moves it right.
pub proof fn law_offset_to_show_column_shows_it(left: int, width: int, viewport_width: int, offset: int)
    requires
        0 <= left,
        0 <= width <= viewport_width,
        0 <= offset,
    ensures
        ({
            let r = offset_to_show_column(left, width, viewport_width, offset);
            &&& viewport_width > 0 ==> r <= left && left + width <= r + viewport_width
            &&& offset <= left && left + width <= offset + viewport_width ==> r == offset
            &&& viewport_width > 0 && left < offset ==> r < offset
            &&& viewport_width > 0 && left + width > offset + viewport_width ==> r > offset
        }),
{
}

/// See [`offset_to_show_column`].
pub fn scroll_offset_to_show_column(left: u16, width: u16, viewport_width: u16, offset: u16) -> (r: u16)
    requires
        viewport_width > 0 ==> left + width <= u16::MAX && offset + viewport_width <= u16::MAX,
    ensures
        r == offset_to_show_column(left as int, width as int, viewport_width as int, offset as int),
{
    if viewport_width == 0 {
        return offset;
    }
    let right = left + width;
    if left < offset {
        left
    } else if right > offset + viewport_width {
        right - viewport_width
    } else {
        offset
    }
}

} // verus!
