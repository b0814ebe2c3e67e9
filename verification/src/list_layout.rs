//! Where the rows of a list with rows of one height go on screen: the
//! columns kept for the scrollbar, the width left for content, and the
//! position and clipped height of each visible row.
use vstd::prelude::*;

verus! {

/// The columns a list keeps at its right edge for the scrollbar (the bar
/// and a gap), when it needs one.
pub open spec fn scrollbar_columns(needs_scrollbar: bool) -> int {
    if needs_scrollbar { 2 } else { 0 }
}

/// The width left for the rows of a list `width` columns wide.
pub open spec fn content_width_spec(width: u16, needs_scrollbar: bool) -> int {
    if width < scrollbar_columns(needs_scrollbar) { 0 } else { width - scrollbar_columns(needs_scrollbar) }
}

/// See [`content_width_spec`].
pub fn content_width(width: u16, needs_scrollbar: bool) -> (r: u16)
    ensures
        r == content_width_spec(width, needs_scrollbar),
{
    let reserved: u16 = if needs_scrollbar { 2 } else { 0 };
    width.saturating_sub(reserved)
}

/// The screen row of the `i`-th visible row: the content starts at `top`,
/// the first visible row is item `first`, rows are `item_height` tall and
/// the content is scrolled by `offset` rows (the first row's top is
/// clipped at the content's top).
pub open spec fn row_top(top: int, first: int, item_height: int, offset: int, i: int) -> int {
    let first_y = if first * item_height < offset { 0 } else { first * item_height - offset };
    top + first_y + i * item_height
}

/// Row `i` starts within the screen's `u16` rows, unless the row before
/// it already starts at or below the bottom `top + height` (where the rows
/// stop).
pub open spec fn row_in_range(top: int, height: int, first: int, item_height: int, offset: int, i: int) -> bool {
    row_top(top, first, item_height, offset, i) <= u16::MAX
        || (i > 0 && row_top(top, first, item_height, offset, i - 1) >= top + height)
}

/// A visible row of a list, placed on screen.
#[derive(Debug, Clone, Copy, PartialEq, Eq, Structural)]
pub struct RowPlacement {
    /// The item shown.
    pub index: usize,
    /// Its screen row.
    pub y: u16,
    /// Its height, clipped at the bottom of the content.
    pub height: u16,
}

/// Whether `rows` places the items `first..end` from screen row `top` in
/// a content area `height` rows tall: row `i` shows item `first + i` at
/// [`row_top`], clipped at the bottom, and the rows stop before the first
/// one that would start at or below the bottom.
pub open spec fn places_rows(rows: Seq<RowPlacement>, top: int, height: int, first: int, end: int,
    item_height: int, offset: int) -> bool {
    let bottom = top + height;
    &&& rows.len() <= end - first
    &&& forall|i: int| 0 <= i < rows.len() ==> {
        &&& (#[trigger] rows[i]).index == first + i
        &&& rows[i].y == row_top(top, first, item_height, offset, i)
        &&& rows[i].y < bottom
        &&& rows[i].height == (if item_height < bottom - rows[i].y { item_height } else { bottom - rows[i].y })
    }
    &&& rows.len() < end - first ==> row_top(top, first, item_height, offset, rows.len() as int) >= bottom
}

/// The rows of the items `first..end` (the visible range) placed in a
/// content area at screen row `top`, `height` rows tall and
/// `content_width` columns wide, for rows `item_height` tall scrolled by
/// `offset`. No row is placed when the area is empty.
pub fn list_rows(top: u16, height: u16, content_width: u16, first: usize, end: usize, item_height: u16,
    offset: u16) -> (r: Vec<RowPlacement>)
    requires
        first <= end,
        top + height <= u16::MAX,
        first * item_height <= u16::MAX,
        forall|i: int| 0 <= i < end - first ==> #[trigger] row_in_range(top as int, height as int, first as int,
            item_height as int, offset as int, i),
    ensures
        content_width == 0 || height == 0 ==> r@.len() == 0,
        content_width > 0 && height > 0 ==> places_rows(r@, top as int, height as int, first as int, end as int,
            item_height as int, offset as int),
{
    let mut rows: Vec<RowPlacement> = Vec::new();
    if content_width == 0 || height == 0 {
        return rows;
    }
    let bottom: u16 = top + height;
    let start: u16 = if item_height == 0 {
        0
    } else {
        assert(first <= u16::MAX) by (nonlinear_arith)
            requires first * item_height <= u16::MAX, item_height >= 1;
        (first as u16) * item_height
    };
    assert(start == first * item_height) by (nonlinear_arith)
        requires item_height == 0 ==> start == 0, item_height != 0 ==> start == first * item_height;
    let first_y: u16 = start.saturating_sub(offset);
    let ghost t = top as int;
    let ghost f = first as int;
    let ghost h = item_height as int;
    let ghost o = offset as int;
    let n: usize = end - first;
    let mut i: usize = 0;
    let mut y: u32 = top as u32 + first_y as u32;
    while i < n
        invariant_except_break
            i <= n,
            n == end - first,
            bottom == top + height,
            t == top && f == first && h == item_height && o == offset,
            y == row_top(t, f, h, o, i as int),
            rows@.len() == i,
            forall|j: int| 0 <= j < i ==> {
                &&& (#[trigger] rows@[j]).index == first + j
                &&& rows@[j].y == row_top(t, f, h, o, j)
                &&& rows@[j].y < bottom
                &&& rows@[j].height == (if h < bottom - rows@[j].y { h } else { bottom - rows@[j].y })
            },
            forall|k: int| 0 <= k < n ==> #[trigger] row_in_range(t, height as int, f, h, o, k),
            i > 0 ==> row_top(t, f, h, o, i - 1) < bottom,
        ensures
            rows@.len() <= n,
            forall|j: int| 0 <= j < rows@.len() ==> {
                &&& (#[trigger] rows@[j]).index == first + j
                &&& rows@[j].y == row_top(t, f, h, o, j)
                &&& rows@[j].y < bottom
                &&& rows@[j].height == (if h < bottom - rows@[j].y { h } else { bottom - rows@[j].y })
            },
            rows@.len() < n ==> row_top(t, f, h, o, rows@.len() as int) >= bottom,
        decreases n - i,
    {
        if y >= bottom as u32 {
            break;
        }
        assert(row_in_range(t, height as int, f, h, o, i as int));
        let row_y: u16 = y as u16;
        let left: u16 = bottom - row_y;
        let row_height: u16 = if item_height < left { item_height } else { left };
        rows.push(RowPlacement { index: first + i, y: row_y, height: row_height });
        let ghost ii = i as int;
        assert((ii + 1) * h == ii * h + h) by (nonlinear_arith);
        assert(row_top(t, f, h, o, ii + 1) == row_top(t, f, h, o, ii) + h);
        y = y + item_height as u32;
        i = i + 1;
    }
    rows
}

} // verus!
