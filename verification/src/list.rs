//! List widget state: a virtualized selectable list of items.
//!
//! Only the rows in view are built; the cumulative height cache gives the
//! position of any row in O(1) and the row at any offset in O(log n).
use std::hash::Hash;
use vstd::prelude::*;
use crate::cumulative::{
    cum_at, height_at, index_at, into_view_offset, is_cumulative, lemma_cumulative_sorted,
    offset_at, scroll_into_view_offset, total_of,
};
use crate::scroll::{offset_after, ScrollRequest, ScrollState, ScrollableWidgetState};
use crate::selection::{keys_behave, keys_equal, toggled, Selection, SelectionMode};

verus! {

/// Items that can be displayed in a List widget.
pub trait ListItem: Clone + Send + Sync + 'static {
    /// The key type used to identify this item.
    type Key: Clone + Eq + Hash + Send + Sync + 'static;

    /// The key of this item.
    spec fn key_spec(&self) -> Self::Key;

    /// The height of this item in rows.
    spec fn height_spec(&self) -> u16;

    /// Return a unique key for this item.
    fn key(&self) -> (k: Self::Key)
        ensures
            k == self.key_spec(),
    ;

    /// Height of this item in rows for virtualization.
    fn height(&self) -> (h: u16)
        ensures
            h == self.height_spec(),
    ;
}

/// The heights of a sequence of items.
pub open spec fn item_heights<T: ListItem>(items: Seq<T>) -> Seq<u16> {
    Seq::new(items.len(), |i: int| items[i].height_spec())
}

/// The entry of a cumulative cache at `index`, or 0 past its end.
pub open spec fn offset_in(cum: Seq<u16>, index: int) -> u16 {
    if 0 <= index < cum.len() { cum[index] } else { 0 }
}

/// The height of row `index` recorded by a cumulative cache, or 1 past its end.
pub open spec fn height_in(cum: Seq<u16>, index: int) -> u16 {
    if 0 <= index && index + 1 < cum.len() { (cum[index + 1] - cum[index]) as u16 } else { 1 }
}

/// The index of the row that contains offset `y`: the last cache entry at
/// most `y`.
pub open spec fn row_at(cum: Seq<u16>, y: u16, r: int) -> bool {
    &&& 0 <= r < cum.len()
    &&& cum[r] <= y
    &&& (r + 1 < cum.len() ==> cum[r + 1] > y)
}

/// The offset that the pending request leads to, for rows cached in `cum`.
pub open spec fn offset_after_request(scroll: ScrollState, cum: Seq<u16>) -> u16 {
    match scroll.request {
        Some(ScrollRequest::IntoView(index)) => into_view_offset(
            offset_in(cum, index as int),
            height_in(cum, index as int),
            scroll.offset,
            scroll.viewport,
        ),
        Some(req) => offset_after(scroll.offset, scroll.viewport, scroll.content_height, req),
        None => scroll.offset,
    }
}

/// A pending `IntoView` request for an item no taller than the viewport
/// leaves that item (its rows in the cache) in view.
pub proof fn law_list_request_shows_item(scroll: ScrollState, cum: Seq<u16>, index: usize)
    requires
        scroll.request == Some(ScrollRequest::IntoView(index)),
        (index as int) + 1 < cum.len(),
        cum[index as int] <= cum[index + 1],
        cum[index + 1] - cum[index as int] <= scroll.viewport,
    ensures
        offset_after_request(scroll, cum) <= cum[index as int],
        cum[index + 1] <= offset_after_request(scroll, cum) + scroll.viewport,
{
}

/// The pending request can be processed within `u16` arithmetic.
pub open spec fn request_processable(scroll: ScrollState, cum: Seq<u16>) -> bool {
    match scroll.request {
        Some(ScrollRequest::IntoView(index)) => {
            &&& offset_in(cum, index as int) + height_in(cum, index as int) <= u16::MAX
            &&& scroll.offset + scroll.viewport <= u16::MAX
        },
        Some(req) => scroll.can_apply(req),
        None => true,
    }
}

/// Process the pending request of `scroll` for rows cached in `cum`.
pub fn process_scroll_request(scroll: &mut ScrollState, cum: &Vec<u16>) -> (changed: bool)
    requires
        forall|i: int, j: int| 0 <= i <= j < cum@.len() ==> cum@[i] <= cum@[j],
        request_processable(*old(scroll), cum@),
    ensures
        final(scroll).offset == offset_after_request(*old(scroll), cum@),
        final(scroll).viewport == old(scroll).viewport,
        final(scroll).content_height == old(scroll).content_height,
        final(scroll).request is None,
        changed == (final(scroll).offset != old(scroll).offset),
{
    let old_offset = scroll.offset;
    if let Some(request) = scroll.process_request() {
        if let ScrollRequest::IntoView(index) = request {
            let y = offset_at(cum, index);
            let item_h = height_at(cum, index);
            let viewport = scroll.viewport;
            let offset = scroll.offset;
            scroll.offset = scroll_into_view_offset(y, item_h, offset, viewport);
        }
    }
    scroll.offset != old_offset
}

/// State for a virtualized List widget.
#[derive(Clone, Debug)]
pub struct ListState<T: ListItem> {
    /// The items in the list.
    pub items: Vec<T>,
    /// Selection state.
    pub selection: Selection<T::Key>,
    /// Scroll state for virtualization.
    pub scroll: ScrollState,
    /// The key of the last activated item. Set before handlers are called.
    pub last_activated: Option<T::Key>,
    /// Cached cumulative heights: entry `i` is the total height of items `0..i`.
    pub cumulative_heights: Vec<u16>,
    /// Scrollbar screen rect (x, y, width, height) for drag calculations.
    pub scrollbar_rect: Option<(u16, u16, u16, u16)>,
    /// Grab offset within thumb for smooth dragging.
    pub drag_grab_offset: Option<u16>,
}

impl<T: ListItem> ListState<T> {
    /// The height cache matches the items.
    pub open spec fn wf(&self) -> bool {
        is_cumulative(self.cumulative_heights@, item_heights(self.items@))
    }

    /// Create a new ListState with the given items.
    pub fn new(items: Vec<T>) -> (r: Self)
        ensures
            r.wf(),
            r.items@ == items@,
            r.selection.mode == SelectionMode::Disabled,
            r.selection.keys() == Set::<T::Key>::empty(),
            r.last_activated is None,
            r.scroll.offset == 0 && r.scroll.viewport == 0,
            r.scroll.request is None,
            r.scroll.content_height == cum_at(item_heights(items@), items@.len()),
            r.scrollbar_rect is None && r.drag_grab_offset is None,
    {
        let mut state = ListState {
            items: Vec::new(),
            selection: Selection::none(),
            scroll: ScrollState::new(),
            last_activated: None,
            cumulative_heights: vec![0],
            scrollbar_rect: None,
            drag_grab_offset: None,
        };
        state.set_items(items);
        state
    }

    /// Set the selection mode.
    pub fn with_selection(self, mode: SelectionMode) -> (r: Self)
        ensures
            r.selection.mode == mode,
            r.selection.keys() == Set::<T::Key>::empty(),
            r.items == self.items,
            r.cumulative_heights == self.cumulative_heights,
            r.scroll == self.scroll,
            r.last_activated == self.last_activated,
    {
        let mut s = self;
        s.selection = Selection::for_mode(mode);
        s
    }

    /// Set items and rebuild the cumulative height cache.
    pub fn set_items(&mut self, items: Vec<T>)
        ensures
            final(self).wf(),
            final(self).items@ == items@,
            final(self).scroll.content_height == cum_at(item_heights(items@), items@.len()),
            final(self).scroll.viewport == old(self).scroll.viewport,
            final(self).scroll.offset == (if old(self).scroll.offset < final(self).scroll.max_offset_spec() {
                old(self).scroll.offset
            } else {
                final(self).scroll.max_offset_spec()
            }),
            final(self).scroll.request == old(self).scroll.request,
            final(self).selection == old(self).selection,
            final(self).last_activated == old(self).last_activated,
            final(self).scrollbar_rect == old(self).scrollbar_rect,
            final(self).drag_grab_offset == old(self).drag_grab_offset,
    {
        let ghost hs = item_heights(items@);
        let mut cum: Vec<u16> = Vec::new();
        cum.push(0);
        let mut total: u16 = 0;
        let mut i: usize = 0;
        while i < items.len()
            invariant
                i <= items@.len(),
                hs == item_heights(items@),
                cum@.len() == i + 1,
                total == cum_at(hs, i as nat),
                forall|j: int| 0 <= j <= i ==> #[trigger] cum@[j] == cum_at(hs, j as nat),
            decreases items@.len() - i,
        {
            let h = items[i].height();
            total = total.saturating_add(h);
            cum.push(total);
            i = i + 1;
        }
        self.cumulative_heights = cum;
        self.items = items;
        self.scroll.set_content_height(total);
    }

    /// Get Y offset for item at index. O(1).
    pub fn item_y_offset(&self, index: usize) -> (r: u16)
        ensures
            r == offset_in(self.cumulative_heights@, index as int),
    {
        offset_at(&self.cumulative_heights, index)
    }

    /// Get total content height. O(1).
    pub fn total_height(&self) -> (r: u16)
        requires
            self.wf(),
        ensures
            r == cum_at(item_heights(self.items@), self.items@.len()),
    {
        total_of(&self.cumulative_heights)
    }

    /// Find item index at given Y offset. O(log n) binary search.
    pub fn item_at_offset(&self, y: u16) -> (r: usize)
        requires
            self.wf(),
        ensures
            row_at(self.cumulative_heights@, y, r as int),
    {
        proof { lemma_cumulative_sorted(self.cumulative_heights@, item_heights(self.items@)); }
        index_at(&self.cumulative_heights, y)
    }

    /// Get height of item at index. O(1).
    pub fn item_height(&self, index: usize) -> (r: u16)
        requires
            self.wf(),
        ensures
            r == height_in(self.cumulative_heights@, index as int),
    {
        proof { lemma_cumulative_sorted(self.cumulative_heights@, item_heights(self.items@)); }
        height_at(&self.cumulative_heights, index)
    }

    /// Get the index of an item by key.
    pub fn index_of(&self, key: &T::Key) -> (r: Option<usize>)
        ensures
            keys_behave::<T::Key>() ==> match r {
                Some(i) => i < self.items@.len() && self.items@[i as int].key_spec() == *key
                    && forall|j: int| 0 <= j < i ==> self.items@[j].key_spec() != *key,
                None => forall|j: int| 0 <= j < self.items@.len() ==> self.items@[j].key_spec() != *key,
            },
    {
        let mut i: usize = 0;
        while i < self.items.len()
            invariant
                i <= self.items@.len(),
                keys_behave::<T::Key>() ==> forall|j: int| 0 <= j < i ==> self.items@[j].key_spec() != *key,
            decreases self.items@.len() - i,
        {
            let k = self.items[i].key();
            if keys_equal(&k, key) {
                return Some(i);
            }
            i = i + 1;
        }
        None
    }

    /// Scroll to make item at index visible.
    pub fn scroll_to_item(&mut self, index: usize)
        ensures
            final(self).scroll.request == Some(ScrollRequest::IntoView(index)),
            final(self).scroll.offset == old(self).scroll.offset,
            final(self).scroll.viewport == old(self).scroll.viewport,
            final(self).scroll.content_height == old(self).scroll.content_height,
            final(self).items == old(self).items,
            final(self).cumulative_heights == old(self).cumulative_heights,
            final(self).selection == old(self).selection,
            final(self).last_activated == old(self).last_activated,
    {
        self.scroll.scroll_into_view(index);
    }

    /// Process any pending scroll request. Returns true if the offset changed.
    pub fn process_scroll(&mut self) -> (changed: bool)
        requires
            old(self).wf(),
            request_processable(old(self).scroll, old(self).cumulative_heights@),
        ensures
            final(self).scroll.offset == offset_after_request(old(self).scroll, old(self).cumulative_heights@),
            final(self).scroll.viewport == old(self).scroll.viewport,
            final(self).scroll.content_height == old(self).scroll.content_height,
            final(self).scroll.request is None,
            changed == (final(self).scroll.offset != old(self).scroll.offset),
            final(self).items == old(self).items,
            final(self).cumulative_heights == old(self).cumulative_heights,
            final(self).selection == old(self).selection,
            final(self).last_activated == old(self).last_activated,
    {
        proof { lemma_cumulative_sorted(self.cumulative_heights@, item_heights(self.items@)); }
        process_scroll_request(&mut self.scroll, &self.cumulative_heights)
    }

    /// Get the index of the first visible item based on current scroll offset.
    pub fn first_visible_index(&self) -> (r: usize)
        requires
            self.wf(),
        ensures
            row_at(self.cumulative_heights@, self.scroll.offset, r as int),
    {
        self.item_at_offset(self.scroll.offset)
    }

    /// Up or Down at a boundary row: scroll by `delta` rows and hand back
    /// the key of the item at `target`, to be focused, if there is one.
    pub fn scroll_step(&mut self, delta: i16, target: usize) -> (focus: Option<T::Key>)
        ensures
            final(self).scroll.offset == crate::scroll::offset_after(old(self).scroll.offset,
                old(self).scroll.viewport, old(self).scroll.content_height, ScrollRequest::Delta(delta)),
            final(self).scroll.viewport == old(self).scroll.viewport,
            final(self).scroll.content_height == old(self).scroll.content_height,
            final(self).scroll.request == old(self).scroll.request,
            focus == (if target < old(self).items@.len() { Some(old(self).items@[target as int].key_spec()) } else { None }),
            final(self).items == old(self).items,
            final(self).cumulative_heights == old(self).cumulative_heights,
            final(self).selection == old(self).selection,
    {
        self.scroll.apply_request(ScrollRequest::Delta(delta));
        if target < self.items.len() {
            Some(self.items[target].key())
        } else {
            None
        }
    }

    /// Record `key` as the last activated item and toggle its selection.
    pub fn activate(&mut self, key: T::Key)
        ensures
            keys_behave::<T::Key>() ==> final(self).last_activated == Some(key),
            keys_behave::<T::Key>() ==> final(self).selection.keys()
                == toggled(old(self).selection.mode, old(self).selection.keys(), key),
            final(self).selection.mode == old(self).selection.mode,
            final(self).items == old(self).items,
            final(self).cumulative_heights == old(self).cumulative_heights,
            final(self).scroll == old(self).scroll,
    {
        let k = key.clone();
        proof {
            assert(cloned(key, k));
        }
        self.last_activated = Some(k);
        self.selection.toggle(key);
    }
}

/// The viewport height used to pick rows: a viewport of 0 (before the
/// first layout) counts as 200 rows.
pub open spec fn effective_viewport(viewport: u16) -> u16 {
    if viewport == 0 { 200 } else { viewport }
}

/// Rows `first..end` of a list of `n` rows cached in `cum` are those that
/// fill a viewport of `eff` rows from row `first`: each starts less than
/// `eff` rows below row `first`, and the next one (if any) does not.
pub open spec fn fills_viewport(cum: Seq<u16>, n: int, first: int, end: int, eff: u16) -> bool {
    &&& first <= end <= n
    &&& forall|e: int| first <= e < end ==> cum[e] - cum[first] < eff
    &&& (end == n || cum[end] - cum[first] >= eff)
}

/// The rows `first..end` to build, of `n` rows cached in `cum` (sorted,
/// from 0):
/// from the row at `offset` down to the first row that no longer fits in a
/// viewport of `viewport` rows (see [`fills_viewport`]); `(0, 0)` without
/// rows.
pub fn visible_span(cum: &Vec<u16>, n: usize, offset: u16, viewport: u16) -> (r: (usize, usize))
    requires
        cum@.len() == n + 1,
        cum@[0] == 0,
        forall|i: int, j: int| 0 <= i <= j < cum@.len() ==> cum@[i] <= cum@[j],
    ensures
        n == 0 ==> r == (0usize, 0usize),
        n > 0 ==> row_at(cum@, offset, r.0 as int)
            && fills_viewport(cum@, n as int, r.0 as int, r.1 as int, effective_viewport(viewport)),
{
    if n == 0 {
        return (0, 0);
    }
    let effective: u16 = if viewport == 0 { 200 } else { viewport };
    let first_visible = index_at(cum, offset);
    let mut end_idx = first_visible;
    let mut total_height: u16 = 0;
    while end_idx < n && total_height < effective
        invariant
            cum@.len() == n + 1,
            forall|i: int, j: int| 0 <= i <= j < cum@.len() ==> cum@[i] <= cum@[j],
            first_visible <= end_idx <= n,
            total_height == cum@[end_idx as int] - cum@[first_visible as int],
            forall|e: int| first_visible <= e < end_idx ==> cum@[e] - cum@[first_visible as int] < effective,
        decreases n - end_idx,
    {
        total_height = total_height + height_at(cum, end_idx);
        end_idx = end_idx + 1;
    }
    (first_visible, end_idx)
}

/// Information about a visible item for rendering.
pub struct VisibleItem {
    /// Index in the items array.
    pub index: usize,
}

/// The rows that are built for the current scroll state: from the row at the
/// scroll offset down to the first row that no longer fits in the viewport.
pub fn calculate_visible_items<T: ListItem>(state: &ListState<T>) -> (r: Vec<VisibleItem>)
    requires
        state.wf(),
    ensures
        state.items@.len() == 0 ==> r@.len() == 0,
        state.items@.len() > 0 ==> exists|first: int| {
            &&& row_at(state.cumulative_heights@, state.scroll.offset, first)
            &&& fills_viewport(state.cumulative_heights@, state.items@.len() as int, first,
                first + r@.len(), effective_viewport(state.scroll.viewport))
            &&& forall|k: int| 0 <= k < r@.len() ==> #[trigger] r@[k].index == first + k
        },
{
    proof { lemma_cumulative_sorted(state.cumulative_heights@, item_heights(state.items@)); }
    let (first, end) = visible_span(&state.cumulative_heights, state.items.len(), state.scroll.offset, state.scroll.viewport);
    let mut items: Vec<VisibleItem> = Vec::new();
    let mut i = first;
    while i < end
        invariant
            first <= i <= end,
            items@.len() == i - first,
            forall|k: int| 0 <= k < items@.len() ==> #[trigger] items@[k].index == first + k,
        decreases end - i,
    {
        items.push(VisibleItem { index: i });
        i = i + 1;
    }
    proof {
        if state.items@.len() > 0 {
            assert(first + items@.len() == end);
        }
    }
    items
}

impl<T: ListItem> ScrollableWidgetState for ListState<T> {
    fn scroll(&self) -> (r: &ScrollState)
        ensures
            *r == self.scroll,
    {
        &self.scroll
    }

    fn scroll_mut(&mut self) -> (r: &mut ScrollState)
        ensures
            *r == old(self).scroll,
            *final(self) == (ListState { scroll: *final(r), ..*old(self) }),
    {
        &mut self.scroll
    }

    fn scrollbar_rect(&self) -> (r: Option<(u16, u16, u16, u16)>)
        ensures
            r == self.scrollbar_rect,
    {
        self.scrollbar_rect
    }

    fn set_scrollbar_rect(&mut self, rect: Option<(u16, u16, u16, u16)>)
        ensures
            final(self).scrollbar_rect == rect,
            final(self).scroll == old(self).scroll,
            final(self).drag_grab_offset == old(self).drag_grab_offset,
    {
        self.scrollbar_rect = rect;
    }

    fn drag_grab_offset(&self) -> (r: Option<u16>)
        ensures
            r == self.drag_grab_offset,
    {
        self.drag_grab_offset
    }

    fn set_drag_grab_offset(&mut self, offset: Option<u16>)
        ensures
            final(self).drag_grab_offset == offset,
            final(self).scroll == old(self).scroll,
            final(self).scrollbar_rect == old(self).scrollbar_rect,
    {
        self.drag_grab_offset = offset;
    }
}

/// Typestate marker: a list builder that still needs its state.
pub struct NeedsState;

/// The row found at the offset of a row of nonzero height is that row: the
/// offset-to-index lookup inverts the index-to-offset lookup.
pub proof fn law_row_at_own_offset(cum: Seq<u16>, hs: Seq<u16>, i: int, r: int)
    requires
        is_cumulative(cum, hs),
        0 <= i < hs.len(),
        height_in(cum, i) > 0,
        row_at(cum, cum[i], r),
    ensures
        r == i,
{
    lemma_cumulative_sorted(cum, hs);
    if r < i {
        assert(cum[r + 1] <= cum[i]);
    } else if r > i {
        assert(cum[i + 1] <= cum[r]);
    }
}

} // verus!
