//! The size of a scroll area's content once its text is wrapped to the
//! viewport's width: text nodes wrap, columns stack their children, rows
//! share their width among their children, and other nodes keep their own
//! size.
//!
//! Text wraps at the given width, counted in characters, and at each
//! newline; at width 0 it wraps only at newlines. Heights are `u16`, as the
//! layout computes them.
use vstd::prelude::*;

verus! {

/// A node of scroll-area content, as far as its size depends on it.
#[derive(Debug)]
pub enum ContentNode {
    /// Text that wraps to the width it is given.
    Text {
        /// The text.
        content: String,
    },
    /// Children stacked top to bottom.
    Column {
        /// The children.
        children: Vec<ContentNode>,
        /// Padding on each side.
        padding: u16,
        /// Rows between two children.
        gap: u16,
        /// Whether a border (one cell on each side) surrounds it.
        bordered: bool,
    },
    /// Children side by side, sharing the width equally.
    Row {
        /// The children.
        children: Vec<ContentNode>,
        /// Padding on each side.
        padding: u16,
        /// Columns between two children.
        gap: u16,
        /// Whether a border (one cell on each side) surrounds it.
        bordered: bool,
    },
    /// Any other node: it keeps its intrinsic size.
    Sized {
        /// Its intrinsic width.
        width: u16,
        /// Its intrinsic height.
        height: u16,
    },
}

/// The rows and the column reached after wrapping `s` at `width`: a
/// newline starts a new row, and so does a character that finds its row
/// full (`width` characters, when `width > 0`).
pub open spec fn wrap_state(s: Seq<char>, width: int) -> (int, int)
    decreases s.len(),
{
    if s.len() == 0 {
        (1, 0)
    } else {
        let prev = wrap_state(s.drop_last(), width);
        if s.last() == '\n' {
            (prev.0 + 1, 0)
        } else if width > 0 && prev.1 >= width {
            (prev.0 + 1, 1)
        } else {
            (prev.0, prev.1 + 1)
        }
    }
}

/// The rows that `s` takes when wrapped at `width`.
pub open spec fn text_rows(s: Seq<char>, width: int) -> int {
    wrap_state(s, width).0
}

/// The columns or rows that padding and border take: padding on both
/// sides, and one cell on each side for a border.
pub open spec fn frame(padding: u16, bordered: bool) -> int {
    padding * 2 + if bordered { 2int } else { 0int }
}

/// `a - b`, or 0 when `b` is larger.
pub open spec fn minus(a: int, b: int) -> int {
    if a < b { 0 } else { a - b }
}

/// The space between `n` children: `gap` between each two, with the count
/// taken as a `u16` (wrapping), as the layout takes it.
pub open spec fn gaps(gap: u16, n: nat) -> int {
    if n > 1 { gap * minus((n % 65536) as int, 1) } else { 0 }
}

/// The width each of the `n` children of a row gets: what is left of
/// `width` after padding, border and gaps, shared equally (the count taken
/// as a `u16`, at least 1).
pub open spec fn row_child_width(width: int, padding: u16, gap: u16, bordered: bool, n: nat) -> int {
    let count: int = (if n < 1 { 1 } else { n as int }) % 65536;
    minus(width, frame(padding, bordered) + gaps(gap, n)) / count
}

/// The height of `node` laid out at `width`: a text's wrapped rows (as a
/// `u16`, wrapping); a column's children laid out inside its padding and
/// border, stacked with their gaps; a row's tallest child laid out at its
/// share of the width; and any other node's own height. Padding and border
/// are added on top.
pub open spec fn content_height(node: ContentNode, width: int) -> int
    decreases node, 1nat,
{
    match node {
        ContentNode::Text { content } => text_rows(content@, width) % 65536,
        ContentNode::Column { children, padding, gap, bordered } =>
            children_sum(children@, minus(width, frame(padding, bordered))) + gaps(gap, children@.len())
                + frame(padding, bordered),
        ContentNode::Row { children, padding, gap, bordered } =>
            children_max(children@, row_child_width(width, padding, gap, bordered, children@.len()))
                + frame(padding, bordered),
        ContentNode::Sized { width: _, height } => height as int,
    }
}

/// The heights of `s` laid out at `width`, added up.
pub open spec fn children_sum(s: Seq<ContentNode>, width: int) -> int
    decreases s, 0nat,
{
    if s.len() == 0 { 0 } else { children_sum(s.drop_last(), width) + content_height(s.last(), width) }
}

/// The largest height of `s` laid out at `width` (0 for none).
pub open spec fn children_max(s: Seq<ContentNode>, width: int) -> int
    decreases s, 0nat,
{
    if s.len() == 0 {
        0
    } else {
        let rest = children_max(s.drop_last(), width);
        let h = content_height(s.last(), width);
        if h > rest { h } else { rest }
    }
}

/// The layout of `node` at `width` stays within `u16` at every step (it
/// overflows, or a row divides by a zero count, otherwise).
pub open spec fn fits(node: ContentNode, width: int) -> bool
    decreases node, 1nat,
{
    match node {
        ContentNode::Text { content: _ } => true,
        ContentNode::Column { children, padding, gap, bordered } => {
            let n = children@.len();
            &&& padding * 2 <= u16::MAX
            &&& frame(padding, bordered) <= u16::MAX
            &&& n > 1 ==> n % 65536 != 0
            &&& all_fit(children@, minus(width, frame(padding, bordered)))
            &&& content_height(node, width) <= u16::MAX
        },
        ContentNode::Row { children, padding, gap, bordered } => {
            let n = children@.len();
            &&& padding * 2 <= u16::MAX
            &&& n > 1 ==> n % 65536 != 0
            &&& gaps(gap, n) <= u16::MAX
            &&& frame(padding, bordered) + gaps(gap, n) <= u16::MAX
            &&& all_fit(children@, row_child_width(width, padding, gap, bordered, n))
            &&& content_height(node, width) <= u16::MAX
        },
        ContentNode::Sized { width: _, height: _ } => true,
    }
}

/// Every node of `s` fits at `width`.
pub open spec fn all_fit(s: Seq<ContentNode>, width: int) -> bool
    decreases s, 0nat,
{
    s.len() == 0 || (all_fit(s.drop_last(), width) && fits(s.last(), width))
}

/// Heights are never negative.
proof fn lemma_heights_nonneg(s: Seq<ContentNode>, width: int)
    ensures
        children_sum(s, width) >= 0,
        children_max(s, width) >= 0,
    decreases s, 0nat,
{
    if s.len() > 0 {
        lemma_heights_nonneg(s.drop_last(), width);
        lemma_height_nonneg(s.last(), width);
    }
}

/// A height is never negative.
proof fn lemma_height_nonneg(node: ContentNode, width: int)
    ensures
        content_height(node, width) >= 0,
    decreases node, 1nat,
{
    match node {
        ContentNode::Column { children, padding, gap, bordered } => {
            lemma_heights_nonneg(children@, minus(width, frame(padding, bordered)));
            lemma_gaps_nonneg(gap, children@.len());
        },
        ContentNode::Row { children, padding, gap, bordered } => {
            lemma_heights_nonneg(children@, row_child_width(width, padding, gap, bordered, children@.len()));
        },
        _ => {},
    }
}

/// Gaps are never negative.
proof fn lemma_gaps_nonneg(gap: u16, n: nat)
    ensures
        gaps(gap, n) >= 0,
{
    let m = minus((n % 65536) as int, 1);
    assert(gap * m >= 0) by (nonlinear_arith)
        requires m >= 0;
}

/// A column is as tall as its children stacked with their gaps, inside its
/// padding and border: at least as tall as each child laid out at its
/// inner width plus the frame; a row is as tall as its tallest child plus
/// the frame, at least each child's height plus the frame.
pub proof fn law_containers_hold_their_children(node: ContentNode, width: int, i: int)
    ensures
        match node {
            ContentNode::Column { children, padding, gap, bordered } => 0 <= i < children@.len()
                ==> content_height(node, width) >= content_height(children@[i], minus(width, frame(padding, bordered)))
                    + frame(padding, bordered),
            ContentNode::Row { children, padding, gap, bordered } => 0 <= i < children@.len()
                ==> content_height(node, width) >= content_height(children@[i],
                    row_child_width(width, padding, gap, bordered, children@.len())) + frame(padding, bordered),
            _ => true,
        },
{
    match node {
        ContentNode::Column { children, padding, gap, bordered } => {
            if 0 <= i < children@.len() {
                lemma_sum_holds_each(children@, minus(width, frame(padding, bordered)), i);
                lemma_gaps_nonneg(gap, children@.len());
            }
        },
        ContentNode::Row { children, padding, gap, bordered } => {
            if 0 <= i < children@.len() {
                lemma_max_holds_each(children@, row_child_width(width, padding, gap, bordered, children@.len()), i);
            }
        },
        _ => {},
    }
}

/// The sum of the heights is at least each height.
proof fn lemma_sum_holds_each(s: Seq<ContentNode>, width: int, i: int)
    requires
        0 <= i < s.len(),
    ensures
        children_sum(s, width) >= content_height(s[i], width),
    decreases s.len(),
{
    lemma_heights_nonneg(s.drop_last(), width);
    if i < s.len() - 1 {
        lemma_sum_holds_each(s.drop_last(), width, i);
        lemma_height_nonneg(s.last(), width);
    }
}

/// The largest height is at least each height.
proof fn lemma_max_holds_each(s: Seq<ContentNode>, width: int, i: int)
    requires
        0 <= i < s.len(),
    ensures
        children_max(s, width) >= content_height(s[i], width),
    decreases s.len(),
{
    if i < s.len() - 1 {
        lemma_max_holds_each(s.drop_last(), width, i);
    }
}

/// The wrapped rows of `text` at `width`, as a `u16` (wrapping).
fn wrapped_rows(text: &str, width: u16) -> (r: u16)
    ensures
        r == text_rows(text@, width as int) % 65536,
{
    let n = text.unicode_len();
    let mut rows: u16 = 1;
    let mut col: usize = 0;
    let mut i: usize = 0;
    while i < n
        invariant
            i <= n,
            n == text@.len(),
            rows == wrap_state(text@.take(i as int), width as int).0 % 65536,
            col == wrap_state(text@.take(i as int), width as int).1,
            col <= i,
        decreases n - i,
    {
        let c = text.get_char(i);
        proof {
            assert(text@.take(i + 1).drop_last() =~= text@.take(i as int));
            assert(text@.take(i + 1).last() == c);
        }
        if c == '\n' {
            rows = rows.wrapping_add(1);
            col = 0;
        } else if width > 0 && col >= width as usize {
            rows = rows.wrapping_add(1);
            col = 1;
        } else {
            col = col + 1;
        }
        i = i + 1;
    }
    proof {
        assert(text@.take(n as int) =~= text@);
    }
    rows
}

/// The size of `node`'s content laid out at `viewport_width`: the viewport
/// width and [`content_height`] for text, columns and rows; a sized node's
/// own width and height.
pub fn calculate_wrapped_content_size(node: &ContentNode, viewport_width: u16) -> (r: (u16, u16))
    requires
        fits(*node, viewport_width as int),
    ensures
        r.0 == (match *node {
            ContentNode::Sized { width, height: _ } => width,
            _ => viewport_width,
        }),
        r.1 == content_height(*node, viewport_width as int),
    decreases node,
{
    match node {
        ContentNode::Text { content } => (viewport_width, wrapped_rows(content.as_str(), viewport_width)),
        ContentNode::Column { children, padding, gap, bordered } => {
            let border_size: u16 = if *bordered { 2 } else { 0 };
            let pad: u16 = *padding * 2;
            let inner_width = viewport_width.saturating_sub(pad + border_size);
            let ghost w = inner_width as int;
            proof {
                lemma_heights_nonneg(children@, w);
            }
            let mut sum: u16 = 0;
            let mut i: usize = 0;
            while i < children.len()
                invariant
                    i <= children@.len(),
                    w == inner_width,
                    *node == (ContentNode::Column { children: *children, padding: *padding, gap: *gap, bordered: *bordered }),
                    all_fit(children@, w),
                    children_sum(children@, w) <= u16::MAX,
                    sum == children_sum(children@.take(i as int), w),
                decreases children@.len() - i,
            {
                proof {
                    assert(children@.take(i + 1).drop_last() =~= children@.take(i as int));
                    lemma_prefix_fits(children@, (i + 1) as nat, w);
                    lemma_prefix_sum(children@, (i + 1) as nat, w);
                }
                assert(decreases_to!(*node => (*node)->Column_children));
                assert(decreases_to!(*children => children@));
                assert(decreases_to!(children@ => children@[i as int]));
                assert(decreases_to!(node => children@[i as int]));
                let (_, h) = calculate_wrapped_content_size(&children[i], inner_width);
                sum = sum + h;
                i = i + 1;
            }
            proof {
                assert(children@.take(i as int) =~= children@);
            }
            let n = children.len();
            let gaps_total: u16 = if n > 1 {
                let count: u16 = #[verifier::truncate] (n as u16);
                assert(count == n % 65536) by (bit_vector)
                    requires count == #[verifier::truncate] (n as u16);
                proof {
                    lemma_height_nonneg(*node, viewport_width as int);
                    lemma_gaps_nonneg(*gap, n as nat);
                }
                *gap * (count - 1)
            } else {
                0
            };
            (viewport_width, sum + gaps_total + pad + border_size)
        },
        ContentNode::Row { children, padding, gap, bordered } => {
            let border_size: u16 = if *bordered { 2 } else { 0 };
            let pad: u16 = *padding * 2;
            let n = children.len();
            let m: usize = if n < 1 { 1 } else { n };
            let count: u16 = #[verifier::truncate] (m as u16);
            assert(count == m % 65536) by (bit_vector)
                requires count == #[verifier::truncate] (m as u16);
            let gaps_total: u16 = if n > 1 {
                let c: u16 = #[verifier::truncate] (n as u16);
                assert(c == n % 65536) by (bit_vector)
                    requires c == #[verifier::truncate] (n as u16);
                *gap * (c - 1)
            } else {
                0
            };
            let available = viewport_width.saturating_sub(pad + border_size + gaps_total);
            let child_width: u16 = available / count;
            let ghost w = child_width as int;
            assert(w == row_child_width(viewport_width as int, *padding, *gap, *bordered, n as nat));
            proof {
                lemma_heights_nonneg(children@, w);
            }
            let mut tallest: u16 = 0;
            let mut i: usize = 0;
            while i < children.len()
                invariant
                    i <= children@.len(),
                    w == child_width,
                    *node == (ContentNode::Row { children: *children, padding: *padding, gap: *gap, bordered: *bordered }),
                    all_fit(children@, w),
                    children_max(children@, w) <= u16::MAX,
                    tallest == children_max(children@.take(i as int), w),
                decreases children@.len() - i,
            {
                proof {
                    assert(children@.take(i + 1).drop_last() =~= children@.take(i as int));
                    lemma_prefix_fits(children@, (i + 1) as nat, w);
                    lemma_prefix_max(children@, (i + 1) as nat, w);
                }
                assert(decreases_to!(*node => (*node)->Row_children));
                assert(decreases_to!(*children => children@));
                assert(decreases_to!(children@ => children@[i as int]));
                assert(decreases_to!(node => children@[i as int]));
                let (_, h) = calculate_wrapped_content_size(&children[i], child_width);
                if h > tallest {
                    tallest = h;
                }
                i = i + 1;
            }
            proof {
                assert(children@.take(i as int) =~= children@);
            }
            (viewport_width, tallest + pad + border_size)
        },
        ContentNode::Sized { width, height } => (*width, *height),
    }
}

/// Every node of a prefix of `s` fits, and so does the prefix's last node.
proof fn lemma_prefix_fits(s: Seq<ContentNode>, k: nat, width: int)
    requires
        all_fit(s, width),
        1 <= k <= s.len(),
    ensures
        all_fit(s.take(k as int), width),
        fits(s[k - 1], width),
    decreases s.len(),
{
    if k < s.len() {
        assert(s.drop_last().take(k as int) =~= s.take(k as int));
        lemma_prefix_fits(s.drop_last(), k, width);
    } else {
        assert(s.take(k as int) =~= s);
    }
}

/// The heights of a prefix of `s` add up to at most those of `s`.
proof fn lemma_prefix_sum(s: Seq<ContentNode>, k: nat, width: int)
    requires
        k <= s.len(),
    ensures
        children_sum(s.take(k as int), width) <= children_sum(s, width),
    decreases s.len(),
{
    if k < s.len() {
        assert(s.drop_last().take(k as int) =~= s.take(k as int));
        lemma_prefix_sum(s.drop_last(), k, width);
        lemma_height_nonneg(s.last(), width);
    } else {
        assert(s.take(k as int) =~= s);
    }
}

/// The tallest of a prefix of `s` is at most the tallest of `s`.
proof fn lemma_prefix_max(s: Seq<ContentNode>, k: nat, width: int)
    requires
        k <= s.len(),
    ensures
        children_max(s.take(k as int), width) <= children_max(s, width),
    decreases s.len(),
{
    if k < s.len() {
        assert(s.drop_last().take(k as int) =~= s.take(k as int));
        lemma_prefix_max(s.drop_last(), k, width);
    } else {
        assert(s.take(k as int) =~= s);
    }
}

} // verus!
