//! Scroll state for virtualized containers.
//!
//! - `ScrollState`: offset, viewport and content height, plus one pending request
//! - `ScrollRequest`: actions that can be requested on scroll state
//! - `ScrollableWidgetState`: widget states that carry a scroll state and scrollbar data
//! - the integer part of scrollbar thumb dragging
use vstd::prelude::*;

verus! {

/// Actions that can be requested on scroll state.
///
/// These are consumed by widgets on the next build cycle.
#[derive(Debug, Clone, Copy, PartialEq, Eq, Structural)]
pub enum ScrollRequest {
    /// Scroll by relative amount (positive = down, negative = up).
    Delta(i16),
    /// Scroll to absolute offset.
    ToOffset(u16),
    /// Scroll to make item at index visible.
    IntoView(usize),
    /// Scroll up by one page.
    PageUp,
    /// Scroll down by one page.
    PageDown,
    /// Scroll to top.
    Home,
    /// Scroll to bottom.
    End,
}

/// `content - viewport`, or 0 when the content fits.
pub open spec fn max_offset_of(content_height: u16, viewport: u16) -> u16 {
    if content_height > viewport {
        (content_height - viewport) as u16
    } else {
        0
    }
}

/// `v` clamped to `[lo, hi]`.
pub open spec fn clamp_int(v: int, lo: int, hi: int) -> int {
    if v < lo {
        lo
    } else if v > hi {
        hi
    } else {
        v
    }
}

/// The offset that a request other than `IntoView` leads to.
pub open spec fn offset_after(offset: u16, viewport: u16, content_height: u16, request: ScrollRequest) -> u16 {
    let max = max_offset_of(content_height, viewport);
    match request {
        ScrollRequest::Delta(d) => clamp_int(offset + d, 0, max as int) as u16,
        ScrollRequest::ToOffset(o) => if o < max { o } else { max },
        ScrollRequest::PageUp => if offset >= viewport { (offset - viewport) as u16 } else { 0 },
        ScrollRequest::PageDown => if offset + viewport < max { (offset + viewport) as u16 } else { max },
        ScrollRequest::Home => 0,
        ScrollRequest::End => max,
        ScrollRequest::IntoView(_) => offset,
    }
}

/// Each request moves the offset the way it says and keeps it within
/// `0..=max`: PageDown never moves up and PageUp never down, each by at most
/// a viewport; Home goes to 0 and End to the largest offset; a positive
/// delta never moves up and a negative one never down, by at most the
/// delta; `ToOffset` goes to the offset asked for when it is in range.
pub proof fn law_requests_move_their_way(offset: u16, viewport: u16, content_height: u16, request: ScrollRequest)
    requires
        offset <= max_offset_of(content_height, viewport),
        !(request is IntoView),
    ensures
        ({
            let max = max_offset_of(content_height, viewport);
            let r = offset_after(offset, viewport, content_height, request);
            &&& r <= max
            &&& request == ScrollRequest::PageDown ==> offset <= r <= offset + viewport
            &&& request == ScrollRequest::PageDown && offset + viewport <= max ==> r == offset + viewport
            &&& request == ScrollRequest::PageUp ==> r <= offset && offset - viewport <= r
            &&& request == ScrollRequest::Home ==> r == 0
            &&& request == ScrollRequest::End ==> r == max
            &&& request matches ScrollRequest::Delta(d) ==> {
                &&& d >= 0 ==> offset <= r <= offset + d
                &&& d <= 0 ==> offset + d <= r <= offset
                &&& 0 <= offset + d <= max ==> r == offset + d
            }
            &&& request matches ScrollRequest::ToOffset(o) ==> (o <= max ==> r == o) && (o > max ==> r == max)
        }),
{
}

/// Scroll state for virtualized containers.
///
/// Managed by the widget, can be manipulated by app via scroll requests.
/// The widget consumes pending requests on each build cycle.
#[derive(Debug, Clone)]
pub struct ScrollState {
    /// Current scroll offset (rows from top).
    pub offset: u16,
    /// Viewport height (set by widget after layout feedback).
    pub viewport: u16,
    /// Total content height (computed from items).
    pub content_height: u16,
    /// Pending scroll request (consumed by widget on next build).
    pub request: Option<ScrollRequest>,
}

impl Default for ScrollState {
    fn default() -> (r: Self)
        ensures
            r.is_initial(),
    {
        ScrollState { offset: 0, viewport: 0, content_height: 0, request: None }
    }
}

impl ScrollState {
    /// The pending request.
    pub open spec fn pending(&self) -> Option<ScrollRequest> {
        self.request
    }

    /// Offset, viewport and content height are 0 and no request is pending.
    pub open spec fn is_initial(&self) -> bool {
        self.offset == 0 && self.viewport == 0 && self.content_height == 0 && self.request is None
    }

    /// `content_height - viewport`, or 0.
    pub open spec fn max_offset_spec(&self) -> u16 {
        max_offset_of(self.content_height, self.viewport)
    }

    /// The offset lies within `[0, max_offset]`.
    pub open spec fn wf(&self) -> bool {
        self.offset <= self.max_offset_spec()
    }

    /// Whether applying `request` stays within `u16` arithmetic.
    pub open spec fn can_apply(&self, request: ScrollRequest) -> bool {
        request is PageDown ==> self.offset + self.viewport <= u16::MAX
    }

    /// Create a new scroll state.
    pub fn new() -> (r: Self)
        ensures
            r.offset == 0 && r.viewport == 0 && r.content_height == 0,
            r.pending() is None,
            r.wf(),
    {
        ScrollState { offset: 0, viewport: 0, content_height: 0, request: None }
    }

    /// Create a scroll state with known content height.
    pub fn with_content_height(content_height: u16) -> (r: Self)
        ensures
            r.offset == 0 && r.viewport == 0 && r.content_height == content_height,
            r.pending() is None,
            r.wf(),
    {
        ScrollState { offset: 0, viewport: 0, content_height, request: None }
    }

    /// Maximum scroll offset (content_height - viewport).
    pub fn max_offset(&self) -> (r: u16)
        ensures
            r == self.max_offset_spec(),
    {
        self.content_height.saturating_sub(self.viewport)
    }

    /// Whether content exceeds viewport (scrolling needed).
    pub fn can_scroll(&self) -> (r: bool)
        ensures
            r == (self.content_height > self.viewport),
    {
        self.content_height > self.viewport
    }

    /// Request scroll by relative amount.
    pub fn scroll_by(&mut self, delta: i16)
        ensures
            final(self).pending() == Some(ScrollRequest::Delta(delta)),
            final(self).offset == old(self).offset,
            final(self).viewport == old(self).viewport,
            final(self).content_height == old(self).content_height,
    {
        self.request = Some(ScrollRequest::Delta(delta));
    }

    /// Request scroll to absolute offset.
    pub fn scroll_to(&mut self, offset: u16)
        ensures
            final(self).pending() == Some(ScrollRequest::ToOffset(offset)),
            final(self).offset == old(self).offset,
            final(self).viewport == old(self).viewport,
            final(self).content_height == old(self).content_height,
    {
        self.request = Some(ScrollRequest::ToOffset(offset));
    }

    /// Request scroll to make item at index visible.
    pub fn scroll_into_view(&mut self, index: usize)
        ensures
            final(self).pending() == Some(ScrollRequest::IntoView(index)),
            final(self).offset == old(self).offset,
            final(self).viewport == old(self).viewport,
            final(self).content_height == old(self).content_height,
    {
        self.request = Some(ScrollRequest::IntoView(index));
    }

    /// Request page up.
    pub fn page_up(&mut self)
        ensures
            final(self).pending() == Some(ScrollRequest::PageUp),
            final(self).offset == old(self).offset,
            final(self).viewport == old(self).viewport,
            final(self).content_height == old(self).content_height,
    {
        self.request = Some(ScrollRequest::PageUp);
    }

    /// Request page down.
    pub fn page_down(&mut self)
        ensures
            final(self).pending() == Some(ScrollRequest::PageDown),
            final(self).offset == old(self).offset,
            final(self).viewport == old(self).viewport,
            final(self).content_height == old(self).content_height,
    {
        self.request = Some(ScrollRequest::PageDown);
    }

    /// Request scroll to top.
    pub fn home(&mut self)
        ensures
            final(self).pending() == Some(ScrollRequest::Home),
            final(self).offset == old(self).offset,
            final(self).viewport == old(self).viewport,
            final(self).content_height == old(self).content_height,
    {
        self.request = Some(ScrollRequest::Home);
    }

    /// Request scroll to bottom.
    pub fn end(&mut self)
        ensures
            final(self).pending() == Some(ScrollRequest::End),
            final(self).offset == old(self).offset,
            final(self).viewport == old(self).viewport,
            final(self).content_height == old(self).content_height,
    {
        self.request = Some(ScrollRequest::End);
    }

    /// Take and clear pending request.
    pub fn take_request(&mut self) -> (r: Option<ScrollRequest>)
        ensures
            r == old(self).pending(),
            final(self).pending() is None,
            final(self).offset == old(self).offset,
            final(self).viewport == old(self).viewport,
            final(self).content_height == old(self).content_height,
    {
        let r = self.request;
        self.request = None;
        r
    }

    /// Check if there's a pending request.
    pub fn has_request(&self) -> (r: bool)
        ensures
            r == self.pending() is Some,
    {
        self.request.is_some()
    }

    /// Set viewport size, clamping the offset to the new maximum.
    pub fn set_viewport(&mut self, height: u16)
        ensures
            final(self).viewport == height,
            final(self).content_height == old(self).content_height,
            final(self).offset == (if old(self).offset < final(self).max_offset_spec() {
                old(self).offset
            } else {
                final(self).max_offset_spec()
            }),
            final(self).pending() == old(self).pending(),
            final(self).wf(),
    {
        self.viewport = height;
        let max = self.max_offset();
        if max < self.offset {
            self.offset = max;
        }
    }

    /// Set content height, clamping the offset to the new maximum.
    pub fn set_content_height(&mut self, height: u16)
        ensures
            final(self).content_height == height,
            final(self).viewport == old(self).viewport,
            final(self).offset == (if old(self).offset < final(self).max_offset_spec() {
                old(self).offset
            } else {
                final(self).max_offset_spec()
            }),
            final(self).pending() == old(self).pending(),
            final(self).wf(),
    {
        self.content_height = height;
        let max = self.max_offset();
        if max < self.offset {
            self.offset = max;
        }
    }

    /// Apply a scroll request directly to the offset.
    ///
    /// Returns the processed request if it was handled, or the original
    /// request if it needs widget-specific handling (`IntoView`, which
    /// needs item positions and leaves the offset to the widget).
    pub fn apply_request(&mut self, request: ScrollRequest) -> (r: Option<ScrollRequest>)
        requires
            old(self).can_apply(request),
        ensures
            r == Some(request),
            final(self).offset == offset_after(old(self).offset, old(self).viewport, old(self).content_height, request),
            final(self).viewport == old(self).viewport,
            final(self).content_height == old(self).content_height,
            final(self).pending() == old(self).pending(),
            old(self).wf() && !(request is IntoView) ==> final(self).wf(),
    {
        let max = self.max_offset();
        match request {
            ScrollRequest::Delta(d) => {
                let v: i32 = self.offset as i32 + d as i32;
                let new_offset: u16 = if v < 0 {
                    0
                } else if v > max as i32 {
                    max
                } else {
                    v as u16
                };
                assert(new_offset <= max);
                assert(new_offset == clamp_int(old(self).offset + d, 0, max as int));
                self.offset = new_offset;
                Some(request)
            },
            ScrollRequest::ToOffset(o) => {
                self.offset = if o < max { o } else { max };
                Some(request)
            },
            ScrollRequest::PageUp => {
                self.offset = self.offset.saturating_sub(self.viewport);
                Some(request)
            },
            ScrollRequest::PageDown => {
                let sum = self.offset + self.viewport;
                self.offset = if sum < max { sum } else { max };
                Some(request)
            },
            ScrollRequest::Home => {
                self.offset = 0;
                Some(request)
            },
            ScrollRequest::End => {
                self.offset = max;
                Some(request)
            },
            ScrollRequest::IntoView(_) => Some(request),
        }
    }

    /// Process and apply any pending request.
    ///
    /// Returns the pending request, as [`Self::apply_request`] gives it
    /// back: the widget handles it further when it is `IntoView`.
    pub fn process_request(&mut self) -> (r: Option<ScrollRequest>)
        requires
            old(self).pending() matches Some(req) ==> old(self).can_apply(req),
        ensures
            final(self).pending() is None,
            final(self).viewport == old(self).viewport,
            final(self).content_height == old(self).content_height,
            match old(self).pending() {
                Some(req) => {
                    &&& final(self).offset == offset_after(old(self).offset, old(self).viewport, old(self).content_height, req)
                    &&& r == Some(req)
                },
                None => final(self).offset == old(self).offset && r is None,
            },
    {
        match self.take_request() {
            Some(r) => self.apply_request(r),
            None => None,
        }
    }
}

/// Keyboard scroll actions (PageUp/PageDown/Home/End) delivered to a
/// scrollable container.
#[derive(Debug, Clone, Copy, PartialEq, Eq, Structural)]
pub enum ScrollAction {
    PageUp,
    PageDown,
    Home,
    End,
}

/// The scroll request that a keyboard scroll action makes.
pub open spec fn request_for(action: ScrollAction) -> ScrollRequest {
    match action {
        ScrollAction::PageUp => ScrollRequest::PageUp,
        ScrollAction::PageDown => ScrollRequest::PageDown,
        ScrollAction::Home => ScrollRequest::Home,
        ScrollAction::End => ScrollRequest::End,
    }
}

/// Each keyboard scroll action asks for the scroll of the same name, and
/// the resulting offset moves the way the key points (see
/// [`law_requests_move_their_way`]): PageUp never down, PageDown never up,
/// Home to the top and End to the bottom.
pub proof fn law_actions_request_their_scroll(action: ScrollAction, offset: u16, viewport: u16, content_height: u16)
    requires
        offset <= max_offset_of(content_height, viewport),
    ensures
        action == ScrollAction::PageUp ==> request_for(action) == ScrollRequest::PageUp
            && offset_after(offset, viewport, content_height, request_for(action)) <= offset,
        action == ScrollAction::PageDown ==> request_for(action) == ScrollRequest::PageDown
            && offset_after(offset, viewport, content_height, request_for(action)) >= offset,
        action == ScrollAction::Home ==> request_for(action) == ScrollRequest::Home
            && offset_after(offset, viewport, content_height, request_for(action)) == 0,
        action == ScrollAction::End ==> request_for(action) == ScrollRequest::End
            && offset_after(offset, viewport, content_height, request_for(action)) == max_offset_of(content_height, viewport),
{
}

/// See [`request_for`].
pub fn scroll_action_request(action: ScrollAction) -> (r: ScrollRequest)
    ensures
        r == request_for(action),
{
    match action {
        ScrollAction::PageUp => ScrollRequest::PageUp,
        ScrollAction::PageDown => ScrollRequest::PageDown,
        ScrollAction::Home => ScrollRequest::Home,
        ScrollAction::End => ScrollRequest::End,
    }
}

/// Which of `total` rows gets focus after a keyboard scroll action, once the
/// scroll is applied and `first_visible` is the first row in view: the first
/// row on Home, the last on End, the first row in view on PageUp, and on
/// PageDown the last row in view (`viewport` rows from the first), or the
/// last row. `None` when there are no rows.
pub open spec fn focus_after_scroll(action: ScrollAction, total: int, first_visible: int, viewport: int) -> Option<int> {
    if total == 0 {
        None
    } else {
        Some(match action {
            ScrollAction::Home => 0,
            ScrollAction::End => total - 1,
            ScrollAction::PageUp => first_visible,
            ScrollAction::PageDown => {
                let last = first_visible + if viewport > 0 { viewport - 1 } else { 0 };
                if last < total - 1 { last } else { total - 1 }
            },
        })
    }
}

/// After a keyboard scroll the focus lands where the key points, and for
/// the page keys inside the view: Home focuses the first row and End the
/// last; PageUp focuses the first row in view; PageDown focuses the last
/// row in view (the `viewport`-th from the first in view), or the last row
/// when the view reaches past it, never a row before the first in view
/// (when that row exists). With no rows nothing is focused.
pub proof fn law_focus_stays_in_view(action: ScrollAction, total: int, first_visible: int, viewport: int)
    requires
        total >= 0,
        first_visible >= 0,
        viewport >= 0,
    ensures
        ({
            let r = focus_after_scroll(action, total, first_visible, viewport);
            let last_in_view = first_visible + (if viewport > 0 { viewport - 1 } else { 0 });
            &&& total == 0 <==> r is None
            &&& total > 0 && action == ScrollAction::Home ==> r == Some(0int)
            &&& total > 0 && action == ScrollAction::End ==> r == Some(total - 1)
            &&& total > 0 && action == ScrollAction::PageUp ==> r == Some(first_visible)
            &&& total > 0 && action == ScrollAction::PageDown ==> (r matches Some(i)
                && i <= total - 1 && i <= last_in_view && (i == last_in_view || i == total - 1)
                && (first_visible < total ==> first_visible <= i))
            &&& r matches Some(i) ==> 0 <= i && (action != ScrollAction::PageUp ==> i < total)
        }),
{
}

/// See [`focus_after_scroll`].
pub fn focus_target_after_scroll(action: ScrollAction, total: usize, first_visible: usize, viewport: u16) -> (r: Option<usize>)
    requires
        first_visible + viewport <= usize::MAX,
    ensures
        r == (match focus_after_scroll(action, total as int, first_visible as int, viewport as int) {
            Some(i) => Some(i as usize),
            None => None,
        }),
{
    if total == 0 {
        return None;
    }
    Some(match action {
        ScrollAction::Home => 0,
        ScrollAction::End => total - 1,
        ScrollAction::PageUp => first_visible,
        ScrollAction::PageDown => {
            let last = first_visible + (viewport as usize).saturating_sub(1);
            if last < total - 1 { last } else { total - 1 }
        },
    })
}

/// Which boundary a row in view sits on: whether it is the first row in
/// view with rows above it, and whether it is the last row in view with rows
/// below it. Up/Down keys on such rows scroll by one row.
pub fn boundary_flags(pos_in_visible: usize, visible_count: usize, index: usize, total: usize) -> (r: (bool, bool))
    requires
        visible_count > 0,
        total > 0,
    ensures
        r.0 == (pos_in_visible == 0 && index > 0),
        r.1 == (pos_in_visible == visible_count - 1 && index < total - 1),
{
    (pos_in_visible == 0 && index > 0, pos_in_visible == visible_count - 1 && index < total - 1)
}

/// Scrollbar orientation.
#[derive(Debug, Clone, Copy, PartialEq, Eq, Structural)]
pub enum Orientation {
    Vertical,
    Horizontal,
}

/// Typestate marker: scrollbar needs a state reference.
pub struct NeedsScrollState;

/// Typestate marker: scrollbar has a state reference.
pub struct HasScrollState<'a, S: ScrollableWidgetState>(pub &'a S);

/// Widget states that support scrollbar interaction.
pub trait ScrollableWidgetState: Clone + Send + Sync + 'static {
    /// Get a reference to the scroll state.
    fn scroll(&self) -> &ScrollState;

    /// Get a mutable reference to the scroll state.
    fn scroll_mut(&mut self) -> &mut ScrollState;

    /// Get the scrollbar's screen rect (x, y, width, height).
    fn scrollbar_rect(&self) -> Option<(u16, u16, u16, u16)>;

    /// Set the scrollbar's screen rect.
    fn set_scrollbar_rect(&mut self, rect: Option<(u16, u16, u16, u16)>);

    /// Get the drag grab offset within the thumb.
    fn drag_grab_offset(&self) -> Option<u16>;

    /// Set the drag grab offset.
    fn set_drag_grab_offset(&mut self, offset: Option<u16>);
}

/// The scroll offset for a thumb whose top edge is dragged to
/// `pointer_y - grab_offset`, on a track at `track_y` of `track_height` rows
/// with a thumb of `thumb_size` rows; the thumb is kept on the track and its
/// position is mapped, rounding to nearest, onto `[0, max_offset]`.
pub open spec fn offset_for_thumb(pointer_y: u16, grab_offset: u16, track_y: u16, track_height: u16, thumb_size: u16, max_offset: u16) -> u16 {
    let range: int = if track_height > thumb_size { track_height - thumb_size } else { 0 };
    let start: int = if pointer_y > grab_offset { pointer_y - grab_offset } else { 0 };
    let pos: int = clamp_int(start, track_y as int, track_y + range) - track_y;
    if range == 0 {
        0
    } else {
        let q = (pos * max_offset + range / 2) / range;
        (if q < max_offset { q } else { max_offset as int }) as u16
    }
}

/// Map a dragged thumb position to a scroll offset (see [`offset_for_thumb`]).
pub fn scroll_offset_for_thumb(pointer_y: u16, grab_offset: u16, track_y: u16, track_height: u16, thumb_size: u16, max_offset: u16) -> (r: u16)
    requires
        track_y + (if track_height > thumb_size { track_height - thumb_size } else { 0int }) <= u16::MAX,
    ensures
        r == offset_for_thumb(pointer_y, grab_offset, track_y, track_height, thumb_size, max_offset),
        r <= max_offset,
{
    let scroll_range = track_height.saturating_sub(thumb_size);
    let thumb_start = pointer_y.saturating_sub(grab_offset);
    let hi = track_y + scroll_range;
    let clamped = if thumb_start < track_y {
        track_y
    } else if thumb_start > hi {
        hi
    } else {
        thumb_start
    };
    let pos = clamped - track_y;
    if scroll_range == 0 {
        0
    } else {
        assert(pos as u32 * max_offset as u32 <= 65535u32 * 65535u32) by (nonlinear_arith)
            requires pos <= 65535, max_offset <= 65535;
        let q: u32 = (pos as u32 * max_offset as u32 + scroll_range as u32 / 2) / scroll_range as u32;
        if q < max_offset as u32 {
            q as u16
        } else {
            max_offset
        }
    }
}

/// Whether a click at `click_y` falls on a thumb of `thumb_size` rows that
/// starts `thumb_pos` rows into a track at `track_y`.
pub fn thumb_contains(click_y: u16, track_y: u16, thumb_pos: u16, thumb_size: u16) -> (r: bool)
    requires
        track_y + thumb_pos + thumb_size <= u16::MAX,
    ensures
        r == (track_y + thumb_pos <= click_y < track_y + thumb_pos + thumb_size),
{
    let start = track_y + thumb_pos;
    let end = start + thumb_size;
    click_y >= start && click_y < end
}

/// What a press on a scrollbar does.
#[derive(Debug, Clone, Copy, PartialEq, Eq, Structural)]
pub enum ThumbPress {
    /// The press fell on the thumb: it is dragged, held where it was
    /// pressed, the given number of rows below its top.
    Grab(u16),
    /// The press fell on the track: the thumb jumps under the pointer, held
    /// `grab` rows below its top, and the content scrolls to `offset`.
    Jump {
        /// The new scroll offset.
        offset: u16,
        /// Where the thumb is held.
        grab: u16,
    },
}

/// The press at `click_y` on a track at `track_y` of `track_height` rows
/// whose thumb of `thumb_size` rows starts `thumb_pos` rows into it: on the
/// thumb it grabs the thumb where it was pressed; on the track the thumb,
/// held `track_grab` rows below its top, jumps to the pointer (see
/// [`offset_for_thumb`]).
pub open spec fn thumb_press_spec(click_y: u16, track_y: u16, track_height: u16, thumb_pos: u16, thumb_size: u16,
    track_grab: u16, max_offset: u16) -> ThumbPress {
    if track_y + thumb_pos <= click_y < track_y + thumb_pos + thumb_size {
        ThumbPress::Grab((click_y - (track_y + thumb_pos)) as u16)
    } else {
        ThumbPress::Jump {
            offset: offset_for_thumb(click_y, track_grab, track_y, track_height, thumb_size, max_offset),
            grab: track_grab,
        }
    }
}

/// A press on the thumb grabs it at the row pressed, counted from the
/// thumb's top and so less than its size; a press elsewhere on the track
/// jumps, keeping the grab offset given for the track.
pub proof fn law_thumb_press(click_y: u16, track_y: u16, track_height: u16, thumb_pos: u16, thumb_size: u16,
    track_grab: u16, max_offset: u16)
    ensures
        ({
            let r = thumb_press_spec(click_y, track_y, track_height, thumb_pos, thumb_size, track_grab, max_offset);
            let on_thumb = track_y + thumb_pos <= click_y < track_y + thumb_pos + thumb_size;
            &&& on_thumb ==> (r matches ThumbPress::Grab(g) && g < thumb_size && track_y + thumb_pos + g == click_y)
            &&& !on_thumb ==> (r matches ThumbPress::Jump { offset: _, grab } && grab == track_grab)
        }),
{
}

/// See [`thumb_press_spec`].
pub fn thumb_press(click_y: u16, track_y: u16, track_height: u16, thumb_pos: u16, thumb_size: u16,
    track_grab: u16, max_offset: u16) -> (r: ThumbPress)
    requires
        track_y + thumb_pos + thumb_size <= u16::MAX,
        track_y + (if track_height > thumb_size { track_height - thumb_size } else { 0int }) <= u16::MAX,
    ensures
        r == thumb_press_spec(click_y, track_y, track_height, thumb_pos, thumb_size, track_grab, max_offset),
{
    if thumb_contains(click_y, track_y, thumb_pos, thumb_size) {
        ThumbPress::Grab(click_y - (track_y + thumb_pos))
    } else {
        let offset = scroll_offset_for_thumb(click_y, track_grab, track_y, track_height, thumb_size, max_offset);
        ThumbPress::Jump { offset, grab: track_grab }
    }
}

/// Apply a press on the scrollbar to the scroll state and the grab offset
/// of the drag it starts; returns the new offset when the content scrolled.
pub fn apply_thumb_press(scroll: &mut ScrollState, grab: &mut Option<u16>, press: ThumbPress) -> (moved: Option<u16>)
    ensures
        match press {
            ThumbPress::Grab(g) => {
                &&& *final(scroll) == *old(scroll)
                &&& *final(grab) == Some(g)
                &&& moved is None
            },
            ThumbPress::Jump { offset, grab: g } => {
                &&& final(scroll).offset == offset
                &&& final(scroll).viewport == old(scroll).viewport
                &&& final(scroll).content_height == old(scroll).content_height
                &&& final(scroll).request == old(scroll).request
                &&& *final(grab) == Some(g)
                &&& moved == Some(offset)
            },
        },
{
    match press {
        ThumbPress::Grab(g) => {
            *grab = Some(g);
            None
        },
        ThumbPress::Jump { offset, grab: g } => {
            scroll.offset = offset;
            *grab = Some(g);
            Some(offset)
        },
    }
}

/// The thumb was dragged to `drag_y`: the content scrolls to where the
/// thumb, held `grab` rows below its top (0 when no grab was recorded),
/// now stands (see [`offset_for_thumb`]); returns the new offset.
pub fn apply_thumb_drag(scroll: &mut ScrollState, grab: Option<u16>, drag_y: u16, track_y: u16, track_height: u16,
    thumb_size: u16) -> (r: u16)
    requires
        track_y + (if track_height > thumb_size { track_height - thumb_size } else { 0int }) <= u16::MAX,
    ensures
        r == offset_for_thumb(drag_y, match grab { Some(g) => g, None => 0 }, track_y, track_height, thumb_size,
            old(scroll).max_offset_spec()),
        final(scroll).offset == r,
        final(scroll).viewport == old(scroll).viewport,
        final(scroll).content_height == old(scroll).content_height,
        final(scroll).request == old(scroll).request,
        final(scroll).wf(),
{
    let g = match grab {
        Some(g) => g,
        None => 0,
    };
    let max = scroll.max_offset();
    let offset = scroll_offset_for_thumb(drag_y, g, track_y, track_height, thumb_size, max);
    scroll.offset = offset;
    offset
}

/// Dragging the thumb further down never scrolls the content up.
pub proof fn law_thumb_drag_monotone(p1: u16, p2: u16, grab_offset: u16, track_y: u16, track_height: u16,
    thumb_size: u16, max_offset: u16)
    requires
        p1 <= p2,
    ensures
        offset_for_thumb(p1, grab_offset, track_y, track_height, thumb_size, max_offset)
            <= offset_for_thumb(p2, grab_offset, track_y, track_height, thumb_size, max_offset),
{
    let range: int = if track_height > thumb_size { track_height - thumb_size } else { 0 };
    if range > 0 {
        let s1: int = if p1 > grab_offset { p1 - grab_offset } else { 0 };
        let s2: int = if p2 > grab_offset { p2 - grab_offset } else { 0 };
        let pos1 = clamp_int(s1, track_y as int, track_y + range) - track_y;
        let pos2 = clamp_int(s2, track_y as int, track_y + range) - track_y;
        assert(pos1 <= pos2);
        vstd::arithmetic::mul::lemma_mul_inequality(pos1, pos2, max_offset as int);
        vstd::arithmetic::div_mod::lemma_div_is_ordered(pos1 * max_offset + range / 2,
            pos2 * max_offset + range / 2, range);
    }
}

/// A thumb held at the top of the track shows the start of the content; one
/// held at the bottom shows the end.
pub proof fn law_thumb_at_track_ends(grab_offset: u16, track_y: u16, track_height: u16, thumb_size: u16, max_offset: u16)
    requires
        track_height > thumb_size,
        track_y + grab_offset + (track_height - thumb_size) <= u16::MAX,
    ensures
        offset_for_thumb((track_y + grab_offset) as u16, grab_offset, track_y, track_height, thumb_size, max_offset) == 0,
        offset_for_thumb((track_y + grab_offset + (track_height - thumb_size)) as u16, grab_offset, track_y,
            track_height, thumb_size, max_offset) == max_offset,
{
    let range: int = track_height - thumb_size;
    assert(range / 2 < range);
    vstd::arithmetic::div_mod::lemma_div_multiples_vanish_fancy(0, range / 2, range);
    assert(range * 0 + range / 2 == 0 * max_offset + range / 2) by (nonlinear_arith);
    vstd::arithmetic::div_mod::lemma_div_multiples_vanish_fancy(max_offset as int, range / 2, range);
    vstd::arithmetic::mul::lemma_mul_is_commutative(range, max_offset as int);
}

/// Every request but `IntoView`, applied to an offset within range, leaves
/// the offset within `[0, max_offset]`.
pub proof fn law_requests_keep_offset_in_range(offset: u16, viewport: u16, content_height: u16, request: ScrollRequest)
    requires
        offset <= max_offset_of(content_height, viewport),
        !(request is IntoView),
    ensures
        offset_after(offset, viewport, content_height, request) <= max_offset_of(content_height, viewport),
{
}

} // verus!
