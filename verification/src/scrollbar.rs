//! Scrollbar types and the decisions that scrollbar events take.
//!
//! Hit-testing, drag state and wheel deltas are decided here; turning a
//! pointer position into a scroll ratio is the caller's part.
use vstd::prelude::*;
use crate::events::EventResult;
use crate::input::{Key, KeyCombo, ScrollDirection};

verus! {

/// Scrollbar visibility configuration.
#[derive(Debug, Clone, Copy, PartialEq, Eq, Structural)]
pub enum ScrollbarVisibility {
    /// Show scrollbar only when content overflows.
    Auto,
    /// Always show scrollbar.
    Always,
    /// Never show scrollbar.
    Never,
}

impl Default for ScrollbarVisibility {
    fn default() -> (r: Self)
        ensures
            r == ScrollbarVisibility::Auto,
    {
        ScrollbarVisibility::Auto
    }
}

/// Scrollbar appearance configuration.
#[derive(Debug, Clone)]
pub struct ScrollbarConfig {
    /// Horizontal scrollbar visibility.
    pub horizontal: ScrollbarVisibility,
    /// Vertical scrollbar visibility.
    pub vertical: ScrollbarVisibility,
    /// Track (background) color, by theme name.
    pub track_color: Option<String>,
    /// Handle (draggable part) color, by theme name.
    pub handle_color: Option<String>,
}

impl Default for ScrollbarConfig {
    fn default() -> (r: Self)
        ensures
            r.horizontal == ScrollbarVisibility::Auto,
            r.vertical == ScrollbarVisibility::Auto,
            r.track_color is None,
            r.handle_color is None,
    {
        ScrollbarConfig {
            horizontal: ScrollbarVisibility::Auto,
            vertical: ScrollbarVisibility::Auto,
            track_color: None,
            handle_color: None,
        }
    }
}

/// Scrollbar geometry for hit testing and rendering.
#[derive(Debug, Clone, Copy, PartialEq, Eq, Structural)]
pub struct ScrollbarGeometry {
    /// X position of the scrollbar track.
    pub x: u16,
    /// Y position of the scrollbar track.
    pub y: u16,
    /// Width of the scrollbar (1 for vertical, track length for horizontal).
    pub width: u16,
    /// Height of the scrollbar (track length for vertical, 1 for horizontal).
    pub height: u16,
    /// Position of the handle within the track (0-based).
    pub handle_pos: u16,
    /// Size of the handle.
    pub handle_size: u16,
}

impl Default for ScrollbarGeometry {
    fn default() -> (r: Self)
        ensures
            r.x == 0 && r.y == 0 && r.width == 0 && r.height == 0,
            r.handle_pos == 0 && r.handle_size == 0,
    {
        ScrollbarGeometry { x: 0, y: 0, width: 0, height: 0, handle_pos: 0, handle_size: 0 }
    }
}

impl ScrollbarGeometry {
    /// The track and the handle end within `u16` coordinates.
    pub open spec fn wf(&self) -> bool {
        &&& self.x + self.width <= u16::MAX
        &&& self.y + self.height <= u16::MAX
        &&& self.handle_pos + self.handle_size <= u16::MAX
    }

    /// The point lies within the track.
    pub open spec fn contains_spec(&self, x: u16, y: u16) -> bool {
        self.x <= x < self.x + self.width && self.y <= y < self.y + self.height
    }

    /// The point lies on the handle: within the track, and along the track
    /// within `[handle_pos, handle_pos + handle_size)`.
    pub open spec fn handle_contains_spec(&self, x: u16, y: u16, vertical: bool) -> bool {
        &&& self.contains_spec(x, y)
        &&& if vertical {
            self.handle_pos <= y - self.y < self.handle_pos + self.handle_size
        } else {
            self.handle_pos <= x - self.x < self.handle_pos + self.handle_size
        }
    }

    /// Check if a point is within the scrollbar track.
    pub fn contains(&self, x: u16, y: u16) -> (r: bool)
        requires
            self.wf(),
        ensures
            r == self.contains_spec(x, y),
    {
        x >= self.x && x < self.x + self.width && y >= self.y && y < self.y + self.height
    }

    /// Check if a point is on the handle.
    pub fn handle_contains(&self, x: u16, y: u16, vertical: bool) -> (r: bool)
        requires
            self.wf(),
        ensures
            r == self.handle_contains_spec(x, y, vertical),
    {
        if !self.contains(x, y) {
            return false;
        }
        if vertical {
            let rel_y = y - self.y;
            rel_y >= self.handle_pos && rel_y < self.handle_pos + self.handle_size
        } else {
            let rel_x = x - self.x;
            rel_x >= self.handle_pos && rel_x < self.handle_pos + self.handle_size
        }
    }
}

/// Drag state for scrollbar dragging.
#[derive(Debug, Clone, Copy, PartialEq, Eq, Structural)]
pub struct ScrollbarDrag {
    /// Whether dragging the vertical scrollbar (false = horizontal).
    pub is_vertical: bool,
    /// Offset within the handle where the user grabbed.
    pub grab_offset: u16,
}

/// Where a click on a scrollbar landed.
#[derive(Debug, Clone, Copy, PartialEq, Eq, Structural)]
pub enum ScrollbarClick {
    /// On the handle: drag it from where it was grabbed.
    Handle(ScrollbarDrag),
    /// On the track, off the handle: the content jumps there, then drags.
    Track {
        /// Whether it is the vertical scrollbar.
        is_vertical: bool,
    },
}

/// What a click at `(x, y)` does to the scrollbars: the vertical one is
/// tested first, then the horizontal one.
pub open spec fn click_on(vertical: Option<ScrollbarGeometry>, horizontal: Option<ScrollbarGeometry>, x: u16, y: u16) -> Option<ScrollbarClick> {
    if vertical is Some && vertical->0.contains_spec(x, y) {
        let g = vertical->0;
        if g.handle_contains_spec(x, y, true) {
            Some(ScrollbarClick::Handle(ScrollbarDrag { is_vertical: true, grab_offset: (y - (g.y + g.handle_pos)) as u16 }))
        } else {
            Some(ScrollbarClick::Track { is_vertical: true })
        }
    } else if horizontal is Some && horizontal->0.contains_spec(x, y) {
        let g = horizontal->0;
        if g.handle_contains_spec(x, y, false) {
            Some(ScrollbarClick::Handle(ScrollbarDrag { is_vertical: false, grab_offset: (x - (g.x + g.handle_pos)) as u16 }))
        } else {
            Some(ScrollbarClick::Track { is_vertical: false })
        }
    } else {
        None
    }
}

/// A click lands on the bar it hits, and on its handle exactly when it
/// hits the handle: a handle click drags that bar grabbed at the point hit
/// (less than the handle's size from its start), a click on the rest of a
/// track starts a track drag of that bar, and a click that hits neither
/// bar does nothing; the vertical bar wins where both are hit.
pub proof fn law_click_lands_where_it_hits(vertical: Option<ScrollbarGeometry>, horizontal: Option<ScrollbarGeometry>, x: u16, y: u16)
    ensures
        ({
            let r = click_on(vertical, horizontal, x, y);
            let on_v = vertical is Some && vertical->0.contains_spec(x, y);
            let on_h = horizontal is Some && horizontal->0.contains_spec(x, y);
            &&& r is None <==> !on_v && !on_h
            &&& on_v ==> (r matches Some(ScrollbarClick::Handle(d)) ==> d.is_vertical
                && d.grab_offset < vertical->0.handle_size && vertical->0.handle_contains_spec(x, y, true))
            &&& on_v ==> (r matches Some(ScrollbarClick::Track { is_vertical }) ==> is_vertical
                && !vertical->0.handle_contains_spec(x, y, true))
            &&& on_v ==> r is Some
            &&& !on_v && on_h ==> (r matches Some(ScrollbarClick::Handle(d)) ==> !d.is_vertical
                && d.grab_offset < horizontal->0.handle_size && horizontal->0.handle_contains_spec(x, y, false))
            &&& !on_v && on_h ==> (r matches Some(ScrollbarClick::Track { is_vertical }) ==> !is_vertical
                && !horizontal->0.handle_contains_spec(x, y, false))
        }),
{
}

/// Handle a click on the scrollbars: a click on either one starts a drag
/// (`StartDrag`); `None` when the click missed both.
pub fn handle_scrollbar_click(
    vertical: Option<ScrollbarGeometry>,
    horizontal: Option<ScrollbarGeometry>,
    x: u16,
    y: u16,
) -> (r: Option<(EventResult, ScrollbarClick)>)
    requires
        vertical matches Some(g) ==> g.wf(),
        horizontal matches Some(g) ==> g.wf(),
    ensures
        r is None <==> click_on(vertical, horizontal, x, y) is None,
        r matches Some((res, click)) ==> res == EventResult::StartDrag && click_on(vertical, horizontal, x, y) == Some(click),
{
    if let Some(geom) = vertical {
        if geom.contains(x, y) {
            let click = if geom.handle_contains(x, y, true) {
                ScrollbarClick::Handle(ScrollbarDrag { is_vertical: true, grab_offset: y - (geom.y + geom.handle_pos) })
            } else {
                ScrollbarClick::Track { is_vertical: true }
            };
            return Some((EventResult::StartDrag, click));
        }
    }
    if let Some(geom) = horizontal {
        if geom.contains(x, y) {
            let click = if geom.handle_contains(x, y, false) {
                ScrollbarClick::Handle(ScrollbarDrag { is_vertical: false, grab_offset: x - (geom.x + geom.handle_pos) })
            } else {
                ScrollbarClick::Track { is_vertical: false }
            };
            return Some((EventResult::StartDrag, click));
        }
    }
    None
}

/// `amount` read as an `i16` (two's complement).
pub open spec fn as_i16(amount: u16) -> int {
    if amount < 0x8000 { amount as int } else { amount - 0x1_0000 }
}

/// The `(dx, dy)` that a wheel scroll of `amount` in `direction` asks for.
pub open spec fn wheel_delta(direction: ScrollDirection, amount: u16) -> (int, int) {
    match direction {
        ScrollDirection::Up => (0, -as_i16(amount)),
        ScrollDirection::Down => (0, as_i16(amount)),
        ScrollDirection::Left => (-as_i16(amount), 0),
        ScrollDirection::Right => (as_i16(amount), 0),
    }
}

/// Handle a scroll wheel event: the content scrolls by `amount`, taken as an
/// `i16`, in `direction`; the event is consumed.
pub fn handle_scroll(direction: ScrollDirection, amount: u16) -> (r: (EventResult, (i16, i16)))
    requires
        (direction is Up || direction is Left) ==> amount != 0x8000,
    ensures
        r.0 == EventResult::Consumed,
        r.1.0 == wheel_delta(direction, amount).0,
        r.1.1 == wheel_delta(direction, amount).1,
{
    let amount: i16 = if amount < 0x8000 {
        amount as i16
    } else {
        ((amount - 0x8000) as i16) - 0x4000 - 0x4000
    };
    let delta = match direction {
        ScrollDirection::Up => (0, -amount),
        ScrollDirection::Down => (0, amount),
        ScrollDirection::Left => (-amount, 0),
        ScrollDirection::Right => (amount, 0),
    };
    (EventResult::Consumed, delta)
}

/// The scrollbar that an active drag moves, with the drag's grab offset.
#[derive(Debug, Clone, Copy, PartialEq, Eq, Structural)]
pub struct DragTarget {
    /// Whether it is the vertical scrollbar.
    pub is_vertical: bool,
    /// Its geometry.
    pub geometry: ScrollbarGeometry,
    /// Where in the handle it was grabbed.
    pub grab_offset: u16,
}

/// Handle a drag: while a drag is active the event is consumed and the
/// dragged scrollbar (when it is shown) follows the pointer; otherwise the
/// event is ignored.
pub fn handle_scrollbar_drag(
    drag: Option<ScrollbarDrag>,
    vertical: Option<ScrollbarGeometry>,
    horizontal: Option<ScrollbarGeometry>,
) -> (r: (EventResult, Option<DragTarget>))
    ensures
        r.0 == (if drag is Some { EventResult::Consumed } else { EventResult::Ignored }),
        r.1 == (match drag {
            Some(d) => {
                let g = if d.is_vertical { vertical } else { horizontal };
                match g {
                    Some(geometry) => Some(DragTarget { is_vertical: d.is_vertical, geometry, grab_offset: d.grab_offset }),
                    None => None,
                }
            },
            None => None,
        }),
{
    match drag {
        Some(d) => {
            let g = if d.is_vertical { vertical } else { horizontal };
            let target = match g {
                Some(geometry) => Some(DragTarget { is_vertical: d.is_vertical, geometry, grab_offset: d.grab_offset }),
                None => None,
            };
            (EventResult::Consumed, target)
        },
        None => (EventResult::Ignored, None),
    }
}

/// Handle a mouse release: an active drag ends and the event is consumed;
/// without one the event is ignored.
pub fn handle_scrollbar_release(drag: &mut Option<ScrollbarDrag>) -> (r: EventResult)
    ensures
        *final(drag) is None,
        r == (if *old(drag) is Some { EventResult::Consumed } else { EventResult::Ignored }),
{
    if drag.is_some() {
        *drag = None;
        EventResult::Consumed
    } else {
        EventResult::Ignored
    }
}

/// A widget with scrollbars.
pub trait ScrollbarState {
    /// Geometry of the vertical scrollbar, when it is shown.
    fn vertical_scrollbar(&self) -> Option<ScrollbarGeometry>;

    /// Geometry of the horizontal scrollbar, when it is shown.
    fn horizontal_scrollbar(&self) -> Option<ScrollbarGeometry>;

    /// The active drag, if any.
    fn drag(&self) -> Option<ScrollbarDrag>;

    /// Start or end a drag.
    fn set_drag(&mut self, drag: Option<ScrollbarDrag>);

    /// Scroll the content by `(dx, dy)`.
    fn scroll_by(&mut self, dx: i16, dy: i16);

    /// The vertical scroll offset, as the widget holds it.
    spec fn scroll_offset_y_view(&self) -> u16;

    /// The vertical scroll offset.
    fn scroll_offset_y(&self) -> (r: u16)
        ensures
            r == self.scroll_offset_y_view(),
    ;
}

/// Rows scrolled by an arrow key in a scroll area.
pub const SCROLL_LINES: i16 = 1;

/// Rows scrolled by a page key in a scroll area that has no viewport yet.
pub const SCROLL_PAGE_LINES: i16 = 10;

/// What a key does to a scroll area.
#[derive(Debug, Clone, Copy, PartialEq, Eq, Structural)]
pub enum ScrollAreaKeyAction {
    /// Scroll by `(dx, dy)`.
    ScrollBy(i16, i16),
    /// Scroll to the top.
    ToTop,
    /// Scroll to the bottom.
    ToBottom,
}

/// The action of `key` on a scroll area whose viewport is `viewport_height`
/// rows: arrows scroll by one line, page keys by the viewport (taken as an
/// `i16`; 10 lines when that is not positive), Home and End go to the ends.
/// `None` (the key is ignored) for other keys or with Ctrl or Alt held.
pub open spec fn scroll_area_action(key: KeyCombo, viewport_height: u16) -> Option<ScrollAreaKeyAction> {
    let page: int = if as_i16(viewport_height) > 0 { as_i16(viewport_height) } else { 10 };
    if key.modifiers.ctrl || key.modifiers.alt {
        None
    } else {
        match key.key {
            Key::Up => Some(ScrollAreaKeyAction::ScrollBy(0, -1i16)),
            Key::Down => Some(ScrollAreaKeyAction::ScrollBy(0, 1)),
            Key::Left => Some(ScrollAreaKeyAction::ScrollBy(-1i16, 0)),
            Key::Right => Some(ScrollAreaKeyAction::ScrollBy(1, 0)),
            Key::PageUp => Some(ScrollAreaKeyAction::ScrollBy(0, (-page) as i16)),
            Key::PageDown => Some(ScrollAreaKeyAction::ScrollBy(0, page as i16)),
            Key::Home => Some(ScrollAreaKeyAction::ToTop),
            Key::End => Some(ScrollAreaKeyAction::ToBottom),
            _ => None,
        }
    }
}

/// Keys scroll a scroll area the way they point: Down scrolls
/// [`SCROLL_LINES`] (a positive number of) rows toward the end and Up as
/// many back, Right and Left likewise sideways; PageDown scrolls forward
/// and PageUp back by the same page, which is the viewport's height when
/// that is a positive `i16`; Home goes to the top and End to the bottom.
/// With Ctrl or Alt held, or for any other key, nothing happens.
pub proof fn law_scroll_keys_point_their_way(key: KeyCombo, viewport_height: u16)
    ensures
        SCROLL_LINES > 0,
        ({
            let r = scroll_area_action(key, viewport_height);
            let plain = !key.modifiers.ctrl && !key.modifiers.alt;
            let down = scroll_area_action(KeyCombo { key: Key::PageDown, modifiers: key.modifiers }, viewport_height);
            &&& !plain ==> r is None
            &&& plain && key.key == Key::Down ==> r == Some(ScrollAreaKeyAction::ScrollBy(0, SCROLL_LINES))
            &&& plain && key.key == Key::Up ==> (r matches Some(ScrollAreaKeyAction::ScrollBy(dx, dy)) && dx == 0 && dy == -SCROLL_LINES)
            &&& plain && key.key == Key::Right ==> r == Some(ScrollAreaKeyAction::ScrollBy(SCROLL_LINES, 0))
            &&& plain && key.key == Key::Left ==> (r matches Some(ScrollAreaKeyAction::ScrollBy(dx, dy)) && dx == -SCROLL_LINES && dy == 0)
            &&& plain && key.key == Key::PageDown ==> (r matches Some(ScrollAreaKeyAction::ScrollBy(dx, dy))
                && dx == 0 && dy > 0 && (0 < viewport_height <= i16::MAX ==> dy == viewport_height))
            &&& plain && key.key == Key::PageUp ==> (r matches Some(ScrollAreaKeyAction::ScrollBy(dx, dy))
                && dx == 0 && (down matches Some(ScrollAreaKeyAction::ScrollBy(_, d)) && dy == -d))
            &&& plain && key.key == Key::Home ==> r == Some(ScrollAreaKeyAction::ToTop)
            &&& plain && key.key == Key::End ==> r == Some(ScrollAreaKeyAction::ToBottom)
            &&& !(key.key == Key::Down || key.key == Key::Up || key.key == Key::Left || key.key == Key::Right
                || key.key == Key::PageDown || key.key == Key::PageUp || key.key == Key::Home || key.key == Key::End)
                ==> r is None
        }),
{
}

/// See [`scroll_area_action`].
pub fn scroll_area_key_action(key: &KeyCombo, viewport_height: u16) -> (r: Option<ScrollAreaKeyAction>)
    ensures
        r == scroll_area_action(*key, viewport_height),
{
    if key.modifiers.ctrl || key.modifiers.alt {
        return None;
    }
    let vh: i16 = if viewport_height < 0x8000 {
        viewport_height as i16
    } else {
        ((viewport_height - 0x8000) as i16) - 0x4000 - 0x4000
    };
    let page: i16 = if vh > 0 { vh } else { SCROLL_PAGE_LINES };
    match key.key {
        Key::Up => Some(ScrollAreaKeyAction::ScrollBy(0, -SCROLL_LINES)),
        Key::Down => Some(ScrollAreaKeyAction::ScrollBy(0, SCROLL_LINES)),
        Key::Left => Some(ScrollAreaKeyAction::ScrollBy(-SCROLL_LINES, 0)),
        Key::Right => Some(ScrollAreaKeyAction::ScrollBy(SCROLL_LINES, 0)),
        Key::PageUp => Some(ScrollAreaKeyAction::ScrollBy(0, -page)),
        Key::PageDown => Some(ScrollAreaKeyAction::ScrollBy(0, page)),
        Key::Home => Some(ScrollAreaKeyAction::ToTop),
        Key::End => Some(ScrollAreaKeyAction::ToBottom),
        _ => None,
    }
}

/// The axes along which a scroll area scrolls.
#[derive(Debug, Clone, Copy, PartialEq, Eq, Structural)]
pub enum ScrollAreaDirection {
    /// Up and down only.
    Vertical,
    /// Left and right only.
    Horizontal,
    /// Both ways.
    Both,
}

/// Where a scroll area draws its content and which scrollbars it shows.
#[derive(Debug, Clone, Copy, PartialEq, Eq)]
pub struct ScrollAreaRenderState {
    /// The area of the content, `(x, y, width, height)`, without the
    /// scrollbars.
    pub content_area: (u16, u16, u16, u16),
    /// Whether the vertical scrollbar is shown.
    pub show_vertical: bool,
    /// Whether the horizontal scrollbar is shown.
    pub show_horizontal: bool,
}

/// Whether a scrollbar with visibility `v` is shown on an axis the area
/// scrolls along (`scrolls`) when the content does or does not overflow
/// (`overflows`): always when asked to, never when asked not to, else when
/// the content overflows.
pub open spec fn shows_scrollbar(v: ScrollbarVisibility, scrolls: bool, overflows: bool) -> bool {
    match v {
        ScrollbarVisibility::Always => scrolls,
        ScrollbarVisibility::Never => false,
        ScrollbarVisibility::Auto => scrolls && overflows,
    }
}

/// The layout of a scroll area in `area` showing content of `content_size`
/// (width, height): the scrollbars it shows (see [`shows_scrollbar`]) and
/// the content area, a column narrower for a vertical scrollbar and a row
/// shorter for a horizontal one.
pub open spec fn scroll_area_layout(area: (u16, u16, u16, u16), content_size: (u16, u16),
    direction: ScrollAreaDirection, vertical: ScrollbarVisibility, horizontal: ScrollbarVisibility) -> ScrollAreaRenderState {
    let show_vertical = shows_scrollbar(vertical, !(direction is Horizontal), content_size.1 > area.3);
    let show_horizontal = shows_scrollbar(horizontal, !(direction is Vertical), content_size.0 > area.2);
    ScrollAreaRenderState {
        content_area: (
            area.0,
            area.1,
            (if show_vertical && area.2 > 0 { area.2 - 1 } else { area.2 as int }) as u16,
            (if show_horizontal && area.3 > 0 { area.3 - 1 } else { area.3 as int }) as u16,
        ),
        show_vertical,
        show_horizontal,
    }
}

/// See [`scroll_area_layout`].
pub fn calculate_scroll_area_layout(area: (u16, u16, u16, u16), content_size: (u16, u16),
    direction: ScrollAreaDirection, config: &ScrollbarConfig) -> (r: ScrollAreaRenderState)
    ensures
        r == scroll_area_layout(area, content_size, direction, config.vertical, config.horizontal),
{
    let (content_width, content_height) = content_size;
    let (x, y, width, height) = area;
    let needs_vertical = match direction {
        ScrollAreaDirection::Horizontal => false,
        _ => content_height > height,
    };
    let needs_horizontal = match direction {
        ScrollAreaDirection::Vertical => false,
        _ => content_width > width,
    };
    let show_vertical = match config.vertical {
        ScrollbarVisibility::Always => match direction {
            ScrollAreaDirection::Vertical | ScrollAreaDirection::Both => true,
            ScrollAreaDirection::Horizontal => false,
        },
        ScrollbarVisibility::Never => false,
        ScrollbarVisibility::Auto => needs_vertical,
    };
    let show_horizontal = match config.horizontal {
        ScrollbarVisibility::Always => match direction {
            ScrollAreaDirection::Horizontal | ScrollAreaDirection::Both => true,
            ScrollAreaDirection::Vertical => false,
        },
        ScrollbarVisibility::Never => false,
        ScrollbarVisibility::Auto => needs_horizontal,
    };
    let scrollbar_width: u16 = if show_vertical { 1 } else { 0 };
    let scrollbar_height: u16 = if show_horizontal { 1 } else { 0 };
    ScrollAreaRenderState {
        content_area: (x, y, width.saturating_sub(scrollbar_width), height.saturating_sub(scrollbar_height)),
        show_vertical,
        show_horizontal,
    }
}

} // verus!
