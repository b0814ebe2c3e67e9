//! Cumulative row heights of virtualized lists, tables and trees.
//!
//! For rows of heights `hs`, the cache holds `hs.len() + 1` entries: entry `i`
//! is the (saturating) total height of the rows before row `i`.
use vstd::prelude::*;

verus! {

/// `a + b`, saturating at `u16::MAX`.
pub open spec fn sat_add(a: u16, b: u16) -> u16 {
    if a + b > u16::MAX { u16::MAX } else { (a + b) as u16 }
}

/// Saturating total height of the first `i` rows.
pub open spec fn cum_at(hs: Seq<u16>, i: nat) -> u16
    decreases i,
{
    if i == 0 || i > hs.len() {
        0
    } else {
        sat_add(cum_at(hs, (i - 1) as nat), hs[i - 1])
    }
}

/// `cum` is the cumulative height cache of rows of heights `hs`.
pub open spec fn is_cumulative(cum: Seq<u16>, hs: Seq<u16>) -> bool {
    &&& cum.len() == hs.len() + 1
    &&& forall|i: int| 0 <= i <= hs.len() ==> #[trigger] cum[i] == cum_at(hs, i as nat)
}

/// The totals never decrease.
pub proof fn lemma_cum_monotone(hs: Seq<u16>, i: nat, j: nat)
    requires
        i <= j <= hs.len(),
    ensures
        cum_at(hs, i) <= cum_at(hs, j),
    decreases j - i,
{
    if i < j {
        lemma_cum_monotone(hs, i, (j - 1) as nat);
    }
}

/// A cache of rows of heights `hs` is sorted.
pub proof fn lemma_cumulative_sorted(cum: Seq<u16>, hs: Seq<u16>)
    requires
        is_cumulative(cum, hs),
    ensures
        forall|i: int, j: int| 0 <= i <= j < cum.len() ==> cum[i] <= cum[j],
{
    assert forall|i: int, j: int| 0 <= i <= j < cum.len() implies cum[i] <= cum[j] by {
        lemma_cum_monotone(hs, i as nat, j as nat);
    }
}

/// The entry of `cum` at `index`, or 0 past its end.
pub fn offset_at(cum: &Vec<u16>, index: usize) -> (r: u16)
    ensures
        r == (if index < cum@.len() { cum@[index as int] } else { 0 }),
{
    if index < cum.len() { cum[index] } else { 0 }
}

/// The last entry of `cum`, or 0 when it is empty.
pub fn total_of(cum: &Vec<u16>) -> (r: u16)
    ensures
        r == (if cum@.len() > 0 { cum@.last() } else { 0 }),
{
    if cum.len() > 0 { cum[cum.len() - 1] } else { 0 }
}

/// The height of row `index` as the cache records it (1 past the last row).
pub fn height_at(cum: &Vec<u16>, index: usize) -> (r: u16)
    requires
        forall|i: int, j: int| 0 <= i <= j < cum@.len() ==> cum@[i] <= cum@[j],
    ensures
        r == (if index + 1 < cum@.len() { (cum@[index + 1] - cum@[index as int]) as u16 } else { 1 }),
{
    if cum.len() > 0 && index < cum.len() - 1 {
        cum[index + 1] - cum[index]
    } else {
        1
    }
}

/// The index of the last entry of a sorted `cum` that is at most `y`
/// (0 when none is).
pub fn index_at(cum: &Vec<u16>, y: u16) -> (r: usize)
    requires
        forall|i: int, j: int| 0 <= i <= j < cum@.len() ==> cum@[i] <= cum@[j],
    ensures
        cum@.len() > 0 && cum@[0] <= y ==> {
            &&& r < cum@.len()
            &&& cum@[r as int] <= y
            &&& (r + 1 < cum@.len() ==> cum@[r + 1] > y)
        },
        cum@.len() == 0 || cum@[0] > y ==> r == 0,
{
    // Binary search for the first entry above `y`.
    let mut lo: usize = 0;
    let mut hi: usize = cum.len();
    while lo < hi
        invariant
            0 <= lo <= hi <= cum@.len(),
            forall|i: int, j: int| 0 <= i <= j < cum@.len() ==> cum@[i] <= cum@[j],
            forall|i: int| 0 <= i < lo ==> cum@[i] <= y,
            forall|i: int| hi <= i < cum@.len() ==> cum@[i] > y,
        decreases hi - lo,
    {
        let mid = lo + (hi - lo) / 2;
        if cum[mid] <= y {
            lo = mid + 1;
        } else {
            hi = mid;
        }
    }
    if lo > 0 { lo - 1 } else { 0 }
}

/// The new offset that brings a row at `y` of height `h` into a viewport of
/// `viewport` rows scrolled to `offset`: the row's top when it lies above,
/// the offset that puts its bottom at the viewport's bottom when it lies
/// below, else `offset`.
pub open spec fn into_view_offset(y: u16, h: u16, offset: u16, viewport: u16) -> u16 {
    if y < offset {
        y
    } else if y + h > offset + viewport {
        (y + h - viewport) as u16
    } else {
        offset
    }
}

/// Bringing a row into view moves the viewport only as far as needed: a
/// row already in view leaves the offset alone, a row above it moves the
/// viewport up to it and a row below it moves the viewport down to it.
pub proof fn law_into_view_moves_least(y: u16, h: u16, offset: u16, viewport: u16)
    requires
        y + h <= u16::MAX,
    ensures
        offset <= y && y + h <= offset + viewport ==> into_view_offset(y, h, offset, viewport) == offset,
        y < offset ==> into_view_offset(y, h, offset, viewport) < offset,
        offset <= y && y + h > offset + viewport ==> into_view_offset(y, h, offset, viewport) > offset,
{
}

/// See [`into_view_offset`].
pub fn scroll_into_view_offset(y: u16, h: u16, offset: u16, viewport: u16) -> (r: u16)
    requires
        y + h <= u16::MAX,
        offset + viewport <= u16::MAX,
    ensures
        r == into_view_offset(y, h, offset, viewport),
{
    if y < offset {
        y
    } else if y + h > offset + viewport {
        (y + h).saturating_sub(viewport)
    } else {
        offset
    }
}

/// A row that fits in the viewport is fully visible after scrolling it into view.
pub proof fn law_scrolled_into_view_is_visible(y: u16, h: u16, offset: u16, viewport: u16)
    requires
        h <= viewport,
        y + h <= u16::MAX,
    ensures
        into_view_offset(y, h, offset, viewport) <= y,
        y + h <= into_view_offset(y, h, offset, viewport) + viewport,
{
}

} // verus!
