//! Table widget state: a virtualized table with rows, columns and frozen
//! columns.
use std::hash::Hash;
use vstd::prelude::*;
use crate::cumulative::{
    cum_at, height_at, index_at, is_cumulative, lemma_cumulative_sorted, offset_at, total_of,
};
use crate::list::{
    effective_viewport, fills_viewport, height_in, offset_after_request, offset_in, process_scroll_request,
    request_processable, row_at, visible_span,
};
use crate::scroll::{ScrollRequest, ScrollState, ScrollableWidgetState};
use crate::selection::{keys_behave, keys_equal, toggled, Selection, SelectionMode};

verus! {

/// Column width specification.
#[derive(Clone, Debug, PartialEq, Eq, Structural)]
pub enum ColumnWidth {
    /// Fixed width in characters.
    Fixed(u16),
    /// Flexible width with weight.
    Flex(u16),
    /// Auto-size to content (treated as Flex(1)).
    Auto,
}

impl Default for ColumnWidth {
    fn default() -> (r: Self)
        ensures
            r == ColumnWidth::Flex(1),
    {
        ColumnWidth::Flex(1)
    }
}

/// A table column definition.
#[derive(Clone, Debug)]
pub struct Column {
    /// Unique identifier for this column.
    pub id: String,
    /// Header text displayed at the top.
    pub header: String,
    /// Width specification.
    pub width: ColumnWidth,
}

impl Column {
    /// Create a new column with the given id and header (flex width 1).
    pub fn new(id: String, header: String) -> (r: Self)
        ensures
            r.id@ == id@,
            r.header@ == header@,
            r.width == ColumnWidth::Flex(1),
    {
        Column { id, header, width: ColumnWidth::Flex(1) }
    }

    /// Set a fixed width for this column.
    pub fn fixed(self, width: u16) -> (r: Self)
        ensures
            r.id == self.id && r.header == self.header,
            r.width == ColumnWidth::Fixed(width),
    {
        Column { width: ColumnWidth::Fixed(width), ..self }
    }

    /// Set a flex width for this column.
    pub fn flex(self, weight: u16) -> (r: Self)
        ensures
            r.id == self.id && r.header == self.header,
            r.width == ColumnWidth::Flex(weight),
    {
        Column { width: ColumnWidth::Flex(weight), ..self }
    }

    /// Set auto width for this column.
    pub fn auto(self) -> (r: Self)
        ensures
            r.id == self.id && r.header == self.header,
            r.width == ColumnWidth::Auto,
    {
        Column { width: ColumnWidth::Auto, ..self }
    }
}

/// Rows that can be displayed in a Table widget.
pub trait TableRow: Clone + Send + Sync + 'static {
    /// The key type used to identify this row.
    type Key: Clone + Eq + Hash + Send + Sync + 'static;

    /// The key of this row.
    spec fn key_spec(&self) -> Self::Key;

    /// The height of this row in terminal rows.
    spec fn height_spec(&self) -> u16;

    /// Return a unique key for this row.
    fn key(&self) -> (k: Self::Key)
        ensures
            k == self.key_spec(),
    ;

    /// Height of this row in terminal rows.
    fn height(&self) -> (h: u16)
        ensures
            h == self.height_spec(),
    ;
}

/// The heights of a sequence of rows.
pub open spec fn row_heights<T: TableRow>(rows: Seq<T>) -> Seq<u16> {
    Seq::new(rows.len(), |i: int| rows[i].height_spec())
}

/// Whether a column is frozen, given the frozen column ids.
pub open spec fn is_frozen(ids: Seq<String>, c: Column) -> bool {
    exists|i: int| 0 <= i < ids.len() && ids[i]@ == c.id@
}

/// Columns `cols` reordered so that the frozen ones (by `ids`) come first,
/// each group in the order it had.
pub open spec fn frozen_first(ids: Seq<String>, cols: Seq<Column>) -> Seq<Column> {
    cols.filter(|c: Column| is_frozen(ids, c)) + cols.filter(|c: Column| !is_frozen(ids, c))
}

/// Whether column `c` is one of the frozen columns `ids`.
fn column_is_frozen(ids: &Vec<String>, c: &Column) -> (r: bool)
    ensures
        r == is_frozen(ids@, *c),
{
    let mut i: usize = 0;
    while i < ids.len()
        invariant
            i <= ids@.len(),
            forall|j: int| 0 <= j < i ==> ids@[j]@ != c.id@,
        decreases ids@.len() - i,
    {
        if ids[i] == c.id {
            return true;
        }
        i = i + 1;
    }
    false
}

/// State for a virtualized Table widget.
#[derive(Clone, Debug)]
pub struct TableState<T: TableRow> {
    /// The rows in the table.
    pub rows: Vec<T>,
    /// Column definitions (frozen columns first).
    pub columns: Vec<Column>,
    /// Selection state.
    pub selection: Selection<T::Key>,
    /// Vertical scroll state for virtualization.
    pub scroll: ScrollState,
    /// The key of the last activated row.
    pub last_activated: Option<T::Key>,
    /// Cached cumulative heights: entry `i` is the total height of rows `0..i`.
    pub cumulative_heights: Vec<u16>,
    /// Frozen column IDs.
    pub frozen_column_ids: Vec<String>,
    /// Number of frozen columns (columns are reordered so frozen are first).
    pub frozen_count: usize,
    /// Scrollbar screen rect for drag calculations.
    pub scrollbar_rect: Option<(u16, u16, u16, u16)>,
    /// Grab offset within thumb for smooth dragging.
    pub drag_grab_offset: Option<u16>,
    /// Horizontal scroll offset for the scrollable (non-frozen) section.
    pub horizontal_scroll_offset: u16,
    /// Currently focused row key (for syncing focus styling across panels).
    pub focused_key: Option<T::Key>,
}

impl<T: TableRow> TableState<T> {
    /// The height cache matches the rows and the frozen count fits the columns.
    pub open spec fn wf(&self) -> bool {
        &&& is_cumulative(self.cumulative_heights@, row_heights(self.rows@))
        &&& self.frozen_count <= self.columns@.len()
    }

    /// Create a new TableState with the given rows and columns.
    pub fn new(rows: Vec<T>, columns: Vec<Column>) -> (r: Self)
        ensures
            r.wf(),
            r.rows@ == rows@,
            r.columns@ == columns@,
            r.frozen_count == 0,
            r.frozen_column_ids@.len() == 0,
            r.selection.mode == SelectionMode::Disabled,
            r.selection.keys() == Set::<T::Key>::empty(),
            r.scroll.offset == 0 && r.scroll.viewport == 0 && r.scroll.request is None,
            r.scroll.content_height == cum_at(row_heights(rows@), rows@.len()),
            r.last_activated is None && r.focused_key is None,
            r.horizontal_scroll_offset == 0,
    {
        let mut state = TableState {
            rows: Vec::new(),
            columns: Vec::new(),
            selection: Selection::none(),
            scroll: ScrollState::new(),
            last_activated: None,
            cumulative_heights: vec![0],
            frozen_column_ids: Vec::new(),
            frozen_count: 0,
            scrollbar_rect: None,
            drag_grab_offset: None,
            horizontal_scroll_offset: 0,
            focused_key: None,
        };
        state.set_columns(columns);
        state.set_rows(rows);
        state
    }

    /// Set the selection mode.
    pub fn with_selection(self, mode: SelectionMode) -> (r: Self)
        ensures
            r.selection.mode == mode,
            r.selection.keys() == Set::<T::Key>::empty(),
            r.rows == self.rows && r.columns == self.columns,
            r.cumulative_heights == self.cumulative_heights,
            r.frozen_count == self.frozen_count,
            r.scroll == self.scroll,
    {
        let mut s = self;
        s.selection = Selection::for_mode(mode);
        s
    }

    /// Freeze the specified columns (by ID). Columns are reordered so that
    /// frozen columns come first.
    pub fn with_frozen(self, column_ids: &[&str]) -> (r: Self)
        ensures
            r.frozen_column_ids@.len() == column_ids@.len(),
            forall|i: int| 0 <= i < column_ids@.len() ==> #[trigger] r.frozen_column_ids@[i]@ == column_ids@[i]@,
            r.frozen_column_ids@.len() == 0 ==> r.columns == self.columns && r.frozen_count == 0,
            r.frozen_column_ids@.len() > 0 ==> r.columns@ == frozen_first(r.frozen_column_ids@, self.columns@),
            r.frozen_column_ids@.len() > 0 ==> r.frozen_count
                == self.columns@.filter(|c: Column| is_frozen(r.frozen_column_ids@, c)).len(),
            r.rows == self.rows,
            r.cumulative_heights == self.cumulative_heights,
    {
        let mut s = self;
        let mut ids: Vec<String> = Vec::new();
        let mut i: usize = 0;
        while i < column_ids.len()
            invariant
                i <= column_ids@.len(),
                ids@.len() == i,
                forall|j: int| 0 <= j < i ==> #[trigger] ids@[j]@ == column_ids@[j]@,
            decreases column_ids@.len() - i,
        {
            ids.push(column_ids[i].to_owned());
            i = i + 1;
        }
        s.frozen_column_ids = ids;
        s.reorder_columns_for_frozen();
        s
    }

    /// Set columns and reorder for frozen.
    pub fn set_columns(&mut self, columns: Vec<Column>)
        ensures
            final(self).frozen_column_ids == old(self).frozen_column_ids,
            old(self).frozen_column_ids@.len() == 0 ==> final(self).columns@ == columns@ && final(self).frozen_count == 0,
            old(self).frozen_column_ids@.len() > 0 ==> final(self).columns@
                == frozen_first(old(self).frozen_column_ids@, columns@),
            old(self).frozen_column_ids@.len() > 0 ==> final(self).frozen_count
                == columns@.filter(|c: Column| is_frozen(old(self).frozen_column_ids@, c)).len(),
            final(self).rows == old(self).rows,
            final(self).cumulative_heights == old(self).cumulative_heights,
            final(self).scroll == old(self).scroll,
            final(self).selection == old(self).selection,
            final(self).last_activated == old(self).last_activated,
            final(self).focused_key == old(self).focused_key,
            final(self).horizontal_scroll_offset == old(self).horizontal_scroll_offset,
    {
        self.columns = columns;
        self.reorder_columns_for_frozen();
    }

    /// Reorder columns so frozen columns come first.
    fn reorder_columns_for_frozen(&mut self)
        ensures
            final(self).frozen_column_ids == old(self).frozen_column_ids,
            old(self).frozen_column_ids@.len() == 0 ==> final(self).columns == old(self).columns && final(self).frozen_count == 0,
            old(self).frozen_column_ids@.len() > 0 ==> final(self).columns@
                == frozen_first(old(self).frozen_column_ids@, old(self).columns@),
            old(self).frozen_column_ids@.len() > 0 ==> final(self).frozen_count
                == old(self).columns@.filter(|c: Column| is_frozen(old(self).frozen_column_ids@, c)).len(),
            final(self).rows == old(self).rows,
            final(self).cumulative_heights == old(self).cumulative_heights,
            final(self).scroll == old(self).scroll,
            final(self).selection == old(self).selection,
            final(self).last_activated == old(self).last_activated,
            final(self).focused_key == old(self).focused_key,
            final(self).horizontal_scroll_offset == old(self).horizontal_scroll_offset,
    {
        if self.frozen_column_ids.len() == 0 {
            self.frozen_count = 0;
            return;
        }
        let ghost ids = self.frozen_column_ids@;
        let ghost pf = |c: Column| is_frozen(ids, c);
        let ghost pn = |c: Column| !is_frozen(ids, c);
        let mut rest: Vec<Column> = Vec::new();
        std::mem::swap(&mut rest, &mut self.columns);
        let ghost orig = rest@;
        assert(orig.len() == rest.len());
        let mut frozen: Vec<Column> = Vec::new();
        let mut non_frozen: Vec<Column> = Vec::new();
        let mut k: usize = 0;
        while rest.len() > 0
            invariant
                ids == self.frozen_column_ids@,
                k + rest@.len() == orig.len(),
                k <= orig.len() <= usize::MAX,
                rest@ == orig.subrange(k as int, orig.len() as int),
                pf == (|c: Column| is_frozen(ids, c)),
                pn == (|c: Column| !is_frozen(ids, c)),
                frozen@ == orig.subrange(0, k as int).filter(pf),
                non_frozen@ == orig.subrange(0, k as int).filter(pn),
            decreases rest@.len(),
        {
            let col = rest.remove(0);
            proof {
                assert(pf(col) == is_frozen(ids, col));
                assert(pn(col) == !is_frozen(ids, col));
                assert(orig.subrange(0, k + 1) =~= orig.subrange(0, k as int).push(col));
                orig.subrange(0, k as int).lemma_filter_push(col, pf);
                orig.subrange(0, k as int).lemma_filter_push(col, pn);
            }
            let fz = column_is_frozen(&self.frozen_column_ids, &col);
            if fz {
                frozen.push(col);
            } else {
                non_frozen.push(col);
            }
            k = k + 1;
            proof {
                assert(rest@ =~= orig.subrange(k as int, orig.len() as int));
            }
        }
        proof {
            assert(orig.subrange(0, k as int) =~= orig);
        }
        self.frozen_count = frozen.len();
        frozen.append(&mut non_frozen);
        self.columns = frozen;
    }

    /// Set rows and rebuild cumulative height cache.
    pub fn set_rows(&mut self, rows: Vec<T>)
        ensures
            is_cumulative(final(self).cumulative_heights@, row_heights(rows@)),
            final(self).rows@ == rows@,
            final(self).scroll.content_height == cum_at(row_heights(rows@), rows@.len()),
            final(self).scroll.viewport == old(self).scroll.viewport,
            final(self).scroll.offset == (if old(self).scroll.offset < final(self).scroll.max_offset_spec() {
                old(self).scroll.offset
            } else {
                final(self).scroll.max_offset_spec()
            }),
            final(self).scroll.request == old(self).scroll.request,
            final(self).columns == old(self).columns,
            final(self).frozen_count == old(self).frozen_count,
            final(self).frozen_column_ids == old(self).frozen_column_ids,
            final(self).selection == old(self).selection,
            final(self).last_activated == old(self).last_activated,
            final(self).focused_key == old(self).focused_key,
            final(self).horizontal_scroll_offset == old(self).horizontal_scroll_offset,
    {
        let ghost hs = row_heights(rows@);
        let mut cum: Vec<u16> = Vec::new();
        cum.push(0);
        let mut total: u16 = 0;
        let mut i: usize = 0;
        while i < rows.len()
            invariant
                i <= rows@.len(),
                hs == row_heights(rows@),
                cum@.len() == i + 1,
                total == cum_at(hs, i as nat),
                forall|j: int| 0 <= j <= i ==> #[trigger] cum@[j] == cum_at(hs, j as nat),
            decreases rows@.len() - i,
        {
            let h = rows[i].height();
            total = total.saturating_add(h);
            cum.push(total);
            i = i + 1;
        }
        self.cumulative_heights = cum;
        self.rows = rows;
        self.scroll.set_content_height(total);
    }

    /// Get Y offset for row at index. O(1).
    pub fn row_y_offset(&self, index: usize) -> (r: u16)
        ensures
            r == offset_in(self.cumulative_heights@, index as int),
    {
        offset_at(&self.cumulative_heights, index)
    }

    /// Get total content height. O(1).
    pub fn total_height(&self) -> (r: u16)
        requires
            self.wf(),
        ensures
            r == cum_at(row_heights(self.rows@), self.rows@.len()),
    {
        total_of(&self.cumulative_heights)
    }

    /// Find row index at given Y offset. O(log n) binary search.
    pub fn row_at_offset(&self, y: u16) -> (r: usize)
        requires
            self.wf(),
        ensures
            row_at(self.cumulative_heights@, y, r as int),
    {
        proof { lemma_cumulative_sorted(self.cumulative_heights@, row_heights(self.rows@)); }
        index_at(&self.cumulative_heights, y)
    }

    /// Get height of row at index. O(1).
    pub fn row_height(&self, index: usize) -> (r: u16)
        requires
            self.wf(),
        ensures
            r == height_in(self.cumulative_heights@, index as int),
    {
        proof { lemma_cumulative_sorted(self.cumulative_heights@, row_heights(self.rows@)); }
        height_at(&self.cumulative_heights, index)
    }

    /// Get the index of a row by key.
    pub fn index_of(&self, key: &T::Key) -> (r: Option<usize>)
        ensures
            keys_behave::<T::Key>() ==> match r {
                Some(i) => i < self.rows@.len() && self.rows@[i as int].key_spec() == *key
                    && forall|j: int| 0 <= j < i ==> self.rows@[j].key_spec() != *key,
                None => forall|j: int| 0 <= j < self.rows@.len() ==> self.rows@[j].key_spec() != *key,
            },
    {
        let mut i: usize = 0;
        while i < self.rows.len()
            invariant
                i <= self.rows@.len(),
                keys_behave::<T::Key>() ==> forall|j: int| 0 <= j < i ==> self.rows@[j].key_spec() != *key,
            decreases self.rows@.len() - i,
        {
            let k = self.rows[i].key();
            if keys_equal(&k, key) {
                return Some(i);
            }
            i = i + 1;
        }
        None
    }

    /// Get frozen columns (first N columns).
    pub fn frozen_columns(&self) -> (r: &[Column])
        requires
            self.wf(),
        ensures
            r@ == self.columns@.subrange(0, self.frozen_count as int),
    {
        self.columns.as_slice().split_at(self.frozen_count).0
    }

    /// Get scrollable columns (after frozen columns).
    pub fn scrollable_columns(&self) -> (r: &[Column])
        requires
            self.wf(),
        ensures
            r@ == self.columns@.subrange(self.frozen_count as int, self.columns@.len() as int),
    {
        self.columns.as_slice().split_at(self.frozen_count).1
    }

    /// Check if there are frozen columns.
    pub fn has_frozen_columns(&self) -> (r: bool)
        ensures
            r == (self.frozen_count > 0),
    {
        self.frozen_count > 0
    }

    /// Process any pending scroll request. Returns true if the offset changed.
    pub fn process_scroll(&mut self) -> (changed: bool)
        requires
            old(self).wf(),
            request_processable(old(self).scroll, old(self).cumulative_heights@),
        ensures
            final(self).scroll.offset == offset_after_request(old(self).scroll, old(self).cumulative_heights@),
            final(self).scroll.viewport == old(self).scroll.viewport,
            final(self).scroll.content_height == old(self).scroll.content_height,
            final(self).scroll.request is None,
            changed == (final(self).scroll.offset != old(self).scroll.offset),
            final(self).rows == old(self).rows,
            final(self).cumulative_heights == old(self).cumulative_heights,
            final(self).selection == old(self).selection,
    {
        proof { lemma_cumulative_sorted(self.cumulative_heights@, row_heights(self.rows@)); }
        process_scroll_request(&mut self.scroll, &self.cumulative_heights)
    }

    /// Get the index of the first visible row based on current scroll offset.
    pub fn first_visible_index(&self) -> (r: usize)
        requires
            self.wf(),
        ensures
            row_at(self.cumulative_heights@, self.scroll.offset, r as int),
    {
        self.row_at_offset(self.scroll.offset)
    }

    /// Record `key` as the last activated row and toggle its selection.
    pub fn activate(&mut self, key: T::Key)
        ensures
            keys_behave::<T::Key>() ==> final(self).last_activated == Some(key),
            keys_behave::<T::Key>() ==> final(self).selection.keys()
                == toggled(old(self).selection.mode, old(self).selection.keys(), key),
            final(self).selection.mode == old(self).selection.mode,
            final(self).rows == old(self).rows,
            final(self).cumulative_heights == old(self).cumulative_heights,
            final(self).scroll == old(self).scroll,
            final(self).focused_key == old(self).focused_key,
    {
        let k = key.clone();
        proof { assert(cloned(key, k)); }
        self.last_activated = Some(k);
        self.selection.toggle(key);
    }

    /// A row gained focus: it becomes the focused row.
    pub fn focus_row(&mut self, key: T::Key)
        ensures
            final(self).focused_key == Some(key),
            final(self).rows == old(self).rows,
            final(self).selection == old(self).selection,
            final(self).scroll == old(self).scroll,
    {
        self.focused_key = Some(key);
    }

    /// A row lost focus: the focused row is cleared if it is that row.
    pub fn blur_row(&mut self, key: &T::Key)
        ensures
            keys_behave::<T::Key>() ==> final(self).focused_key
                == (if old(self).focused_key == Some(*key) { None } else { old(self).focused_key }),
            final(self).rows == old(self).rows,
            final(self).selection == old(self).selection,
            final(self).scroll == old(self).scroll,
    {
        let same = match &self.focused_key {
            Some(k) => keys_equal(k, key),
            None => false,
        };
        if same {
            self.focused_key = None;
        }
    }

    /// Up or Down at a boundary row: when row `target` exists, scroll by
    /// `delta` rows, make it the focused row and hand back its key, to be
    /// focused; otherwise nothing changes.
    pub fn scroll_step(&mut self, delta: i16, target: usize) -> (focus: Option<T::Key>)
        ensures
            focus is Some <==> target < old(self).rows@.len(),
            target < old(self).rows@.len() ==> {
                &&& final(self).scroll.offset == crate::scroll::offset_after(old(self).scroll.offset,
                    old(self).scroll.viewport, old(self).scroll.content_height, ScrollRequest::Delta(delta))
                &&& final(self).scroll.viewport == old(self).scroll.viewport
                &&& final(self).scroll.content_height == old(self).scroll.content_height
                &&& focus == Some(old(self).rows@[target as int].key_spec())
                &&& final(self).focused_key is Some
                &&& keys_behave::<T::Key>() ==> final(self).focused_key == focus
            },
            target >= old(self).rows@.len() ==> *final(self) == *old(self),
            final(self).rows == old(self).rows,
            final(self).selection == old(self).selection,
    {
        if target < self.rows.len() {
            let key = self.rows[target].key();
            let stored = key.clone();
            proof { assert(cloned(key, stored)); }
            self.scroll_step_and_focus(delta, stored);
            Some(key)
        } else {
            None
        }
    }

    /// Scroll by one row at a boundary row and make `key` the focused row.
    pub fn scroll_step_and_focus(&mut self, delta: i16, key: T::Key)
        ensures
            final(self).scroll.offset == crate::scroll::offset_after(old(self).scroll.offset,
                old(self).scroll.viewport, old(self).scroll.content_height, ScrollRequest::Delta(delta)),
            final(self).scroll.viewport == old(self).scroll.viewport,
            final(self).scroll.content_height == old(self).scroll.content_height,
            final(self).focused_key == Some(key),
            final(self).rows == old(self).rows,
            final(self).selection == old(self).selection,
    {
        self.scroll.apply_request(ScrollRequest::Delta(delta));
        self.focused_key = Some(key);
    }
}

impl<T: TableRow> ScrollableWidgetState for TableState<T> {
    fn scroll(&self) -> (r: &ScrollState)
        ensures
            *r == self.scroll,
    {
        &self.scroll
    }

    fn scroll_mut(&mut self) -> (r: &mut ScrollState)
        ensures
            *r == old(self).scroll,
            *final(self) == (TableState { scroll: *final(r), ..*old(self) }),
    {
        &mut self.scroll
    }

    fn scrollbar_rect(&self) -> (r: Option<(u16, u16, u16, u16)>)
        ensures
            r == self.scrollbar_rect,
    {
        self.scrollbar_rect
    }

    fn set_scrollbar_rect(&mut self, rect: Option<(u16, u16, u16, u16)>)
        ensures
            final(self).scrollbar_rect == rect,
            final(self).scroll == old(self).scroll,
            final(self).drag_grab_offset == old(self).drag_grab_offset,
    {
        self.scrollbar_rect = rect;
    }

    fn drag_grab_offset(&self) -> (r: Option<u16>)
        ensures
            r == self.drag_grab_offset,
    {
        self.drag_grab_offset
    }

    fn set_drag_grab_offset(&mut self, offset: Option<u16>)
        ensures
            final(self).drag_grab_offset == offset,
            final(self).scroll == old(self).scroll,
            final(self).scrollbar_rect == old(self).scrollbar_rect,
    {
        self.drag_grab_offset = offset;
    }
}

/// Filtering a filtered sequence again by a predicate that implies the
/// first keeps it as it is; by one that excludes it leaves nothing.
proof fn lemma_filter_refilter(s: Seq<Column>, p: spec_fn(Column) -> bool, q: spec_fn(Column) -> bool)
    ensures
        (forall|c: Column| #[trigger] p(c) ==> q(c)) ==> s.filter(p).filter(q) == s.filter(p),
        (forall|c: Column| #[trigger] p(c) ==> !q(c)) ==> s.filter(p).filter(q).len() == 0,
    decreases s.len(),
{
    reveal(Seq::filter);
    if s.len() > 0 {
        let t = s.drop_last();
        let x = s.last();
        lemma_filter_refilter(t, p, q);
        assert(s =~= t.push(x));
        t.lemma_filter_push(x, p);
        t.filter(p).lemma_filter_push(x, q);
    }
}

/// Freezing only reorders: every column is kept, none is added or
/// repeated, and every frozen column comes before every column that is not
/// frozen.
pub proof fn law_frozen_first_keeps_every_column(ids: Seq<String>, cols: Seq<Column>)
    ensures
        frozen_first(ids, cols).len() == cols.len(),
        frozen_first(ids, cols).to_multiset() == cols.to_multiset(),
        forall|i: int, j: int| 0 <= i < j < cols.len() && is_frozen(ids, #[trigger] frozen_first(ids, cols)[j])
            ==> is_frozen(ids, #[trigger] frozen_first(ids, cols)[i]),
{
    broadcast use vstd::seq_lib::group_filter_ensures;
    let pf = |c: Column| is_frozen(ids, c);
    let pn = |c: Column| !is_frozen(ids, c);
    lemma_filters_partition(cols, pf, pn);
    let a = cols.filter(pf);
    let b = cols.filter(pn);
    let r = frozen_first(ids, cols);
    vstd::seq_lib::lemma_multiset_commutative(a, b);
    assert forall|i: int, j: int| 0 <= i < j < cols.len() && is_frozen(ids, #[trigger] r[j])
        implies is_frozen(ids, #[trigger] r[i]) by {
        if j >= a.len() {
            assert(r[j] == b[j - a.len()]);
            assert(pn(b[j - a.len()]));
        }
        assert(i < a.len());
        assert(r[i] == a[i]);
        assert(pf(a[i]));
    }
}

/// Splitting a sequence by a predicate and its negation keeps every
/// element exactly once.
proof fn lemma_filters_partition(s: Seq<Column>, p: spec_fn(Column) -> bool, q: spec_fn(Column) -> bool)
    requires
        forall|c: Column| #[trigger] q(c) == !p(c),
    ensures
        s.filter(p).len() + s.filter(q).len() == s.len(),
        s.filter(p).to_multiset().add(s.filter(q).to_multiset()) == s.to_multiset(),
    decreases s.len(),
{
    broadcast use vstd::seq_lib::group_to_multiset_ensures;
    if s.len() > 0 {
        let t = s.drop_last();
        let x = s.last();
        lemma_filters_partition(t, p, q);
        assert(t.push(x) =~= s);
        t.lemma_filter_push(x, p);
        t.lemma_filter_push(x, q);
    } else {
        assert(s.filter(p) =~= Seq::<Column>::empty()) by { reveal(Seq::filter); }
        assert(s.filter(q) =~= Seq::<Column>::empty()) by { reveal(Seq::filter); }
    }
}

/// Reordering columns so that the frozen ones come first is idempotent:
/// setting the already reordered columns again leaves them as they are.
pub proof fn law_frozen_first_idempotent(ids: Seq<String>, cols: Seq<Column>)
    ensures
        frozen_first(ids, frozen_first(ids, cols))
            == frozen_first(ids, cols),
{
    let pf = |c: Column| is_frozen(ids, c);
    let pn = |c: Column| !is_frozen(ids, c);
    let a = cols.filter(pf);
    let b = cols.filter(pn);
    Seq::filter_distributes_over_add(a, b, pf);
    Seq::filter_distributes_over_add(a, b, pn);
    lemma_filter_refilter(cols, pf, pf);
    lemma_filter_refilter(cols, pf, pn);
    lemma_filter_refilter(cols, pn, pf);
    lemma_filter_refilter(cols, pn, pn);
    assert(a.filter(pn) =~= Seq::<Column>::empty());
    assert(b.filter(pf) =~= Seq::<Column>::empty());
    assert(a.filter(pf) + b.filter(pf) =~= a);
    assert(a.filter(pn) + b.filter(pn) =~= b);
}

/// A row to build, by its index in the rows.
pub struct VisibleRow {
    /// Index in the rows.
    pub index: usize,
}

/// The rows that are built for the current scroll state: from the row at
/// the scroll offset down to the first row that no longer fits in the
/// viewport (see [`fills_viewport`]).
pub fn calculate_visible_rows<T: TableRow>(state: &TableState<T>) -> (r: Vec<VisibleRow>)
    requires
        state.wf(),
    ensures
        state.rows@.len() == 0 ==> r@.len() == 0,
        state.rows@.len() > 0 ==> exists|first: int| {
            &&& row_at(state.cumulative_heights@, state.scroll.offset, first)
            &&& fills_viewport(state.cumulative_heights@, state.rows@.len() as int, first,
                first + r@.len(), effective_viewport(state.scroll.viewport))
            &&& forall|k: int| 0 <= k < r@.len() ==> #[trigger] r@[k].index == first + k
        },
{
    proof { lemma_cumulative_sorted(state.cumulative_heights@, row_heights(state.rows@)); }
    let (first, end) = visible_span(&state.cumulative_heights, state.rows.len(), state.scroll.offset, state.scroll.viewport);
    let mut rows: Vec<VisibleRow> = Vec::new();
    let mut i = first;
    while i < end
        invariant
            first <= i <= end,
            rows@.len() == i - first,
            forall|k: int| 0 <= k < rows@.len() ==> #[trigger] rows@[k].index == first + k,
        decreases end - i,
    {
        rows.push(VisibleRow { index: i });
        i = i + 1;
    }
    proof {
        if state.rows@.len() > 0 {
            assert(first + rows@.len() == end);
        }
    }
    rows
}

/// Typestate marker: a table builder that still needs its state.
pub struct NeedsState;

} // verus!
