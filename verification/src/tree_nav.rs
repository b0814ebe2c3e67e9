//! The view of a tree drawn a row per visible node: its cursor and scroll
//! offset, the cursor moves between a node and its parent or its first
//! child, and the facts of the flattened pre-order that make those moves
//! land where they should.
use vstd::prelude::*;
use crate::grid::{down_target, index_range, offset_to_show, scroll_offset_to_show, up_target, visible_index_range, RowCursor};
use crate::scroll::clamp_int;
use crate::table_view::sat_sub;
use crate::traits::{viewport_index, viewport_index_spec};
use crate::input::{Key, KeyCombo};
use crate::selection::keys_behave;
use crate::tree::{flat_nodes, flat_of, flat_one, FlatNode, TreeItem, TreeNode, TreeState};

verus! {

/// The last position before `upto` whose node sits at depth `d`.
pub open spec fn last_at_depth<K: Clone>(flat: Seq<FlatNode<K>>, d: int, upto: int) -> Option<int>
    decreases upto,
{
    if upto <= 0 {
        None
    } else if flat[upto - 1].depth == d {
        Some(upto - 1)
    } else {
        last_at_depth(flat, d, upto - 1)
    }
}

/// Where the search for the parent of the node at `index` lands: the
/// nearest node before it one level up; none for a node at the root level.
pub open spec fn parent_position<K: Clone>(flat: Seq<FlatNode<K>>, index: int) -> Option<int> {
    if flat[index].depth == 0 {
        None
    } else {
        last_at_depth(flat, flat[index].depth - 1, index)
    }
}

/// Where the move to the first child of the node at `index` lands: the
/// next node, when the node is expanded and has children and the next node
/// sits one level deeper.
pub open spec fn first_child_position<K: Clone>(flat: Seq<FlatNode<K>>, index: int) -> Option<int> {
    if flat[index].is_expanded && flat[index].has_children && index + 1 < flat.len()
        && flat[index + 1].depth == flat[index].depth + 1 {
        Some(index + 1)
    } else {
        None
    }
}

/// Where the move to the parent lands for a cursor at `cursor`.
pub open spec fn parent_move<K: Clone>(flat: Seq<FlatNode<K>>, cursor: Option<usize>) -> Option<int> {
    match cursor {
        Some(c) => if c < flat.len() { parent_position(flat, c as int) } else { None },
        None => None,
    }
}

/// Where the move to the first child lands for a cursor at `cursor`.
pub open spec fn first_child_move<K: Clone>(flat: Seq<FlatNode<K>>, cursor: Option<usize>) -> Option<int> {
    match cursor {
        Some(c) => if c < flat.len() { first_child_position(flat, c as int) } else { None },
        None => None,
    }
}

/// What Left or Right does to the node under the cursor.
#[derive(Debug, Clone, Copy, PartialEq, Eq, Structural)]
pub enum TreeArrowAction {
    /// Collapse the expanded node.
    Collapse,
    /// Move the cursor to the node's parent.
    ToParent,
    /// Expand the collapsed node.
    Expand,
    /// Move the cursor to the node's first child.
    ToFirstChild,
}

/// The action of `key` on the node under the cursor, without Ctrl or Alt:
/// Left collapses an expanded node and otherwise goes to the parent; Right
/// expands a collapsed node with children and goes into an expanded one;
/// other keys, or no node, leave the tree to the shared navigation keys.
pub open spec fn tree_arrow_action_spec<K: Clone>(key: KeyCombo, node: Option<FlatNode<K>>) -> Option<TreeArrowAction> {
    if key.modifiers.ctrl || key.modifiers.alt {
        None
    } else {
        match node {
            None => None,
            Some(n) => match key.key {
                Key::Left => Some(if n.is_expanded { TreeArrowAction::Collapse } else { TreeArrowAction::ToParent }),
                Key::Right => if n.has_children && !n.is_expanded {
                    Some(TreeArrowAction::Expand)
                } else if n.is_expanded {
                    Some(TreeArrowAction::ToFirstChild)
                } else {
                    None
                },
                _ => None,
            },
        }
    }
}

/// Left closes or climbs and Right opens or descends: on an expanded node
/// Left collapses it and Right goes to its first child; on a collapsed node
/// with children Right expands it; on any node that is not expanded Left
/// goes to the parent; Right on a leaf, other keys, Ctrl or Alt, or no
/// node under the cursor do nothing here.
pub proof fn law_tree_arrows<K: Clone>(key: KeyCombo, node: Option<FlatNode<K>>)
    ensures
        ({
            let r = tree_arrow_action_spec(key, node);
            let plain = !key.modifiers.ctrl && !key.modifiers.alt;
            &&& !plain || node is None ==> r is None
            &&& plain && key.key == Key::Left ==> (node matches Some(n) ==>
                r == Some(if n.is_expanded { TreeArrowAction::Collapse } else { TreeArrowAction::ToParent }))
            &&& plain && key.key == Key::Right ==> (node matches Some(n) ==> {
                &&& n.is_expanded ==> r == Some(TreeArrowAction::ToFirstChild)
                &&& !n.is_expanded && n.has_children ==> r == Some(TreeArrowAction::Expand)
                &&& !n.is_expanded && !n.has_children ==> r is None
            })
            &&& key.key == Key::Left ==> !(r == Some(TreeArrowAction::Expand) || r == Some(TreeArrowAction::ToFirstChild))
            &&& key.key == Key::Right ==> !(r == Some(TreeArrowAction::Collapse) || r == Some(TreeArrowAction::ToParent))
            &&& !(key.key == Key::Left || key.key == Key::Right) ==> r is None
        }),
{
}

/// See [`tree_arrow_action_spec`].
pub fn tree_arrow_action<K: Clone>(key: &KeyCombo, node: Option<&FlatNode<K>>) -> (r: Option<TreeArrowAction>)
    ensures
        r == tree_arrow_action_spec(*key, match node { Some(n) => Some(*n), None => None }),
{
    if key.modifiers.ctrl || key.modifiers.alt {
        return None;
    }
    let n = match node {
        Some(n) => n,
        None => return None,
    };
    match key.key {
        Key::Left => Some(if n.is_expanded { TreeArrowAction::Collapse } else { TreeArrowAction::ToParent }),
        Key::Right => {
            if n.has_children && !n.is_expanded {
                Some(TreeArrowAction::Expand)
            } else if n.is_expanded {
                Some(TreeArrowAction::ToFirstChild)
            } else {
                None
            }
        },
        _ => None,
    }
}

/// The view state of a tree drawn a row per visible node: the row cursor
/// and the scroll offset within the viewport.
#[derive(Debug, Clone)]
pub struct TreeView {
    /// The number of visible nodes.
    pub visible_count: usize,
    /// The height of every row.
    pub row_height: u16,
    /// The row cursor.
    pub cursor: RowCursor,
    /// Scroll offset, in terminal rows.
    pub scroll_offset: u16,
    /// Viewport height.
    pub viewport_height: u16,
}

impl TreeView {
    /// The rows' heights add up within `u16`.
    pub open spec fn wf(&self) -> bool {
        self.visible_count * self.row_height <= u16::MAX
    }

    /// The largest scroll offset.
    pub open spec fn max_offset_spec(&self) -> int {
        sat_sub(self.visible_count * self.row_height, self.viewport_height as int)
    }

    /// A view of no nodes of `row_height`, nothing scrolled.
    pub fn new(row_height: u16) -> (r: Self)
        ensures
            r.wf(),
            r.visible_count == 0 && r.row_height == row_height,
            r.cursor.cursor is None && !r.cursor.dirty,
            r.scroll_offset == 0 && r.viewport_height == 0,
    {
        TreeView { visible_count: 0, row_height, cursor: RowCursor::new(), scroll_offset: 0, viewport_height: 0 }
    }

    /// The largest scroll offset.
    pub fn max_offset(&self) -> (r: u16)
        requires
            self.wf(),
        ensures
            r == self.max_offset_spec(),
    {
        crate::grid::max_scroll_offset(self.visible_count, self.row_height, self.viewport_height)
    }

    /// The visible nodes were rebuilt, `count` of them: a cursor past the
    /// last node moves onto it (or goes away when there is none) and the
    /// offset comes back within range.
    pub fn set_visible_count(&mut self, count: usize)
        requires
            count * old(self).row_height <= u16::MAX,
        ensures
            final(self).wf(),
            final(self).visible_count == count,
            final(self).cursor.cursor == (match old(self).cursor.cursor {
                Some(c) => if c >= count { if count > 0 { Some((count - 1) as usize) } else { None } } else { Some(c) },
                None => None,
            }),
            final(self).cursor.dirty == old(self).cursor.dirty,
            final(self).scroll_offset == (if old(self).scroll_offset > final(self).max_offset_spec() {
                final(self).max_offset_spec()
            } else {
                old(self).scroll_offset as int
            }),
            final(self).row_height == old(self).row_height && final(self).viewport_height == old(self).viewport_height,
    {
        self.visible_count = count;
        if let Some(c) = self.cursor.cursor {
            if c >= count {
                self.cursor.cursor = if count > 0 { Some(count - 1) } else { None };
            }
        }
        let max = self.max_offset();
        if self.scroll_offset > max {
            self.scroll_offset = max;
        }
    }

    /// Scroll to `offset`, at most the largest offset.
    pub fn set_scroll_offset(&mut self, offset: u16)
        requires
            old(self).wf(),
        ensures
            final(self).scroll_offset == (if offset < old(self).max_offset_spec() { offset as int } else { old(self).max_offset_spec() }),
            final(self).visible_count == old(self).visible_count && final(self).row_height == old(self).row_height,
            final(self).cursor == old(self).cursor && final(self).viewport_height == old(self).viewport_height,
    {
        let max = self.max_offset();
        self.scroll_offset = if offset < max { offset } else { max };
    }

    /// Scroll so that visible node `index` is in view (see
    /// [`offset_to_show`]).
    pub fn scroll_to_index(&mut self, index: usize)
        requires
            old(self).wf(),
            index < old(self).visible_count && old(self).viewport_height > 0
                ==> old(self).scroll_offset + old(self).viewport_height <= u16::MAX,
        ensures
            final(self).scroll_offset == offset_to_show(index as int, old(self).visible_count as int,
                old(self).row_height as int, old(self).viewport_height as int, old(self).scroll_offset as int),
            final(self).visible_count == old(self).visible_count && final(self).row_height == old(self).row_height,
            final(self).cursor == old(self).cursor && final(self).viewport_height == old(self).viewport_height,
    {
        if index < self.visible_count {
            proof {
                vstd::arithmetic::mul::lemma_mul_inequality((index + 1) as int, self.visible_count as int, self.row_height as int);
            }
        }
        self.scroll_offset = scroll_offset_to_show(index, self.visible_count, self.row_height, self.viewport_height, self.scroll_offset);
    }

    /// Set the viewport height, bringing the offset within range.
    pub fn set_viewport_height(&mut self, height: u16)
        requires
            old(self).wf(),
        ensures
            final(self).viewport_height == height,
            final(self).scroll_offset == (if old(self).scroll_offset > final(self).max_offset_spec() {
                final(self).max_offset_spec()
            } else {
                old(self).scroll_offset as int
            }),
            final(self).visible_count == old(self).visible_count && final(self).row_height == old(self).row_height,
            final(self).cursor == old(self).cursor,
    {
        self.viewport_height = height;
        let max = self.max_offset();
        if self.scroll_offset > max {
            self.scroll_offset = max;
        }
    }

    /// The visible nodes to draw (see [`index_range`]).
    pub fn visible_range(&self) -> (r: (usize, usize))
        requires
            self.row_height > 0,
        ensures
            r.0 == index_range(self.visible_count as int, self.viewport_height as int, self.scroll_offset as int, self.row_height as int).0,
            r.1 == index_range(self.visible_count as int, self.viewport_height as int, self.scroll_offset as int, self.row_height as int).1,
    {
        visible_index_range(self.visible_count, self.viewport_height, self.scroll_offset, self.row_height)
    }

    /// How many whole rows fit in the viewport.
    pub fn viewport_item_count(&self) -> (r: usize)
        requires
            self.row_height > 0,
        ensures
            r == self.viewport_height / self.row_height,
    {
        (self.viewport_height / self.row_height) as usize
    }

    /// Scroll by `dy` rows, within `[0, max_offset]`.
    pub fn scroll_by(&mut self, dy: i16)
        requires
            old(self).wf(),
        ensures
            final(self).scroll_offset == clamp_int(old(self).scroll_offset + dy, 0, old(self).max_offset_spec()),
            final(self).visible_count == old(self).visible_count && final(self).row_height == old(self).row_height,
            final(self).cursor == old(self).cursor && final(self).viewport_height == old(self).viewport_height,
    {
        let max = self.max_offset();
        let v: i32 = self.scroll_offset as i32 + dy as i32;
        self.scroll_offset = if v < 0 { 0 } else if v > max as i32 { max } else { v as u16 };
    }

    /// Scroll to the first node.
    pub fn scroll_to_top(&mut self)
        ensures
            final(self).scroll_offset == 0,
            final(self).visible_count == old(self).visible_count && final(self).row_height == old(self).row_height,
            final(self).cursor == old(self).cursor && final(self).viewport_height == old(self).viewport_height,
    {
        self.scroll_offset = 0;
    }

    /// Scroll to the last nodes.
    pub fn scroll_to_bottom(&mut self)
        requires
            old(self).wf(),
        ensures
            final(self).scroll_offset == old(self).max_offset_spec(),
            final(self).visible_count == old(self).visible_count && final(self).row_height == old(self).row_height,
            final(self).cursor == old(self).cursor && final(self).viewport_height == old(self).viewport_height,
    {
        self.scroll_offset = self.max_offset();
    }

    /// The node under viewport row `y` (see [`viewport_index_spec`]).
    pub fn index_from_viewport_y(&self, y: u16) -> (r: Option<usize>)
        requires
            self.scroll_offset + y <= u16::MAX,
        ensures
            r == viewport_index_spec(self.scroll_offset, self.row_height, self.visible_count, y),
    {
        viewport_index(self.scroll_offset, self.row_height, self.visible_count, y)
    }

    /// Move the cursor to node `index` when it is visible; returns the
    /// previous cursor.
    pub fn set_cursor(&mut self, index: usize) -> (previous: Option<usize>)
        ensures
            previous == old(self).cursor.cursor,
            final(self).cursor.cursor == (if index < old(self).visible_count { Some(index) } else { old(self).cursor.cursor }),
            final(self).visible_count == old(self).visible_count && final(self).scroll_offset == old(self).scroll_offset,
            final(self).row_height == old(self).row_height && final(self).viewport_height == old(self).viewport_height,
    {
        let n = self.visible_count;
        self.cursor.set_cursor(index, n)
    }

    /// Move the cursor one node up (see [`up_target`]).
    pub fn cursor_up(&mut self) -> (r: Option<(Option<usize>, usize)>)
        ensures
            r == (match up_target(old(self).cursor.cursor, old(self).visible_count as int) {
                Some(t) => Some((old(self).cursor.cursor, t)),
                None => None,
            }),
            final(self).cursor.cursor == (match up_target(old(self).cursor.cursor, old(self).visible_count as int) {
                Some(t) => Some(t),
                None => old(self).cursor.cursor,
            }),
            final(self).visible_count == old(self).visible_count && final(self).scroll_offset == old(self).scroll_offset,
            final(self).row_height == old(self).row_height && final(self).viewport_height == old(self).viewport_height,
    {
        let n = self.visible_count;
        self.cursor.cursor_up(n)
    }

    /// Move the cursor one node down (see [`down_target`]).
    pub fn cursor_down(&mut self) -> (r: Option<(Option<usize>, usize)>)
        ensures
            r == (match down_target(old(self).cursor.cursor, old(self).visible_count as int) {
                Some(t) => Some((old(self).cursor.cursor, t)),
                None => None,
            }),
            final(self).cursor.cursor == (match down_target(old(self).cursor.cursor, old(self).visible_count as int) {
                Some(t) => Some(t),
                None => old(self).cursor.cursor,
            }),
            final(self).visible_count == old(self).visible_count && final(self).scroll_offset == old(self).scroll_offset,
            final(self).row_height == old(self).row_height && final(self).viewport_height == old(self).viewport_height,
    {
        let n = self.visible_count;
        self.cursor.cursor_down(n)
    }

    /// Move the cursor to the first node, when there is one.
    pub fn cursor_first(&mut self) -> (r: Option<(Option<usize>, usize)>)
        ensures
            r == (if old(self).visible_count > 0 { Some((old(self).cursor.cursor, 0usize)) } else { None }),
            final(self).cursor.cursor == (if old(self).visible_count > 0 { Some(0usize) } else { old(self).cursor.cursor }),
            final(self).visible_count == old(self).visible_count && final(self).scroll_offset == old(self).scroll_offset,
            final(self).row_height == old(self).row_height && final(self).viewport_height == old(self).viewport_height,
    {
        let n = self.visible_count;
        self.cursor.cursor_first(n)
    }

    /// Move the cursor to the last node, when there is one.
    pub fn cursor_last(&mut self) -> (r: Option<(Option<usize>, usize)>)
        ensures
            r == (if old(self).visible_count > 0 {
                Some((old(self).cursor.cursor, (old(self).visible_count - 1) as usize))
            } else {
                None
            }),
            final(self).cursor.cursor == (if old(self).visible_count > 0 {
                Some((old(self).visible_count - 1) as usize)
            } else {
                old(self).cursor.cursor
            }),
            final(self).visible_count == old(self).visible_count && final(self).scroll_offset == old(self).scroll_offset,
            final(self).row_height == old(self).row_height && final(self).viewport_height == old(self).viewport_height,
    {
        let n = self.visible_count;
        self.cursor.cursor_last(n)
    }
}

/// Move the cursor to the parent of the node under it (see
/// [`parent_position`]); returns the previous and the new cursor when it
/// moved.
pub fn cursor_to_parent<K: Clone>(flat: &Vec<FlatNode<K>>, cursor: &mut RowCursor) -> (r: Option<(Option<usize>, usize)>)
    ensures
        ({
            let t = parent_move(flat@, old(cursor).cursor);
            &&& r == (match t { Some(i) => Some((old(cursor).cursor, i as usize)), None => None })
            &&& final(cursor).cursor == (match t { Some(i) => Some(i as usize), None => old(cursor).cursor })
            &&& final(cursor).dirty == (old(cursor).dirty || t is Some)
        }),
{
    let c = match cursor.cursor {
        Some(c) => c,
        None => return None,
    };
    if c >= flat.len() {
        return None;
    }
    let depth = flat[c].depth;
    if depth == 0 {
        return None;
    }
    let target = depth - 1;
    let mut i = c;
    while i > 0
        invariant
            i <= c < flat@.len(),
            depth == flat@[c as int].depth,
            target == depth - 1,
            last_at_depth(flat@, target as int, c as int) == last_at_depth(flat@, target as int, i as int),
            *cursor == *old(cursor),
            cursor.cursor == Some(c),
        decreases i,
    {
        if flat[i - 1].depth == target {
            let previous = cursor.cursor;
            cursor.cursor = Some(i - 1);
            cursor.dirty = true;
            return Some((previous, i - 1));
        }
        i = i - 1;
    }
    None
}

/// Move the cursor to the first child of the node under it (see
/// [`first_child_position`]); returns the previous and the new cursor when
/// it moved.
pub fn cursor_to_first_child<K: Clone>(flat: &Vec<FlatNode<K>>, cursor: &mut RowCursor) -> (r: Option<(Option<usize>, usize)>)
    ensures
        ({
            let t = first_child_move(flat@, old(cursor).cursor);
            &&& r == (match t { Some(i) => Some((old(cursor).cursor, i as usize)), None => None })
            &&& final(cursor).cursor == (match t { Some(i) => Some(i as usize), None => old(cursor).cursor })
            &&& final(cursor).dirty == (old(cursor).dirty || t is Some)
        }),
{
    let c = match cursor.cursor {
        Some(c) => c,
        None => return None,
    };
    if c >= flat.len() {
        return None;
    }
    if !flat[c].is_expanded || !flat[c].has_children {
        return None;
    }
    let next = c + 1;
    if next < flat.len() && flat[next].depth > flat[c].depth && flat[next].depth - flat[c].depth == 1 {
        let previous = cursor.cursor;
        cursor.cursor = Some(next);
        cursor.dirty = true;
        return Some((previous, next));
    }
    None
}

/// The facts of the node at `k` of the flattened order `f` of nodes at
/// depth `d` under `par`, whose first node sits at position `start` of the
/// whole list: it sits at depth `d` or deeper; at depth `d` it hangs under
/// `par`; deeper, the nearest node before it one level up is its parent;
/// and when it is expanded and has children, the next node is its first
/// child, one level deeper, at the position it records.
pub open spec fn shape_at<K: Clone>(f: Seq<FlatNode<K>>, d: int, par: Option<K>, start: int, k: int) -> bool {
    let n = f[k];
    &&& n.depth >= d
    &&& n.depth == d ==> n.parent_key == par
    &&& n.depth > d ==> (last_at_depth(f, n.depth - 1, k) matches Some(q) && n.parent_key == Some(f[q].key))
    &&& n.is_expanded && n.has_children ==> {
        &&& k + 1 < f.len()
        &&& f[k + 1].depth == n.depth + 1
        &&& f[k + 1].parent_key == Some(n.key)
        &&& n.first_child_index == Some((start + k + 1) as usize)
    }
}

/// [`shape_at`] holds at every node of `f`.
pub open spec fn flat_shape<K: Clone>(f: Seq<FlatNode<K>>, d: int, par: Option<K>, start: int) -> bool {
    forall|k: int| 0 <= k < f.len() ==> #[trigger] shape_at(f, d, par, start, k)
}

/// The search finds the last node at depth `dd` before `upto`.
proof fn lemma_last_found<K: Clone>(f: Seq<FlatNode<K>>, dd: int, q: int, upto: int)
    requires
        0 <= q < upto <= f.len(),
        f[q].depth == dd,
        forall|j: int| q < j < upto ==> f[j].depth != dd,
    ensures
        last_at_depth(f, dd, upto) == Some(q),
    decreases upto,
{
    if upto - 1 != q {
        lemma_last_found(f, dd, q, upto - 1);
    }
}

/// A search that succeeds finds a node at that depth before `upto`.
proof fn lemma_last_bounds<K: Clone>(f: Seq<FlatNode<K>>, dd: int, upto: int)
    requires
        upto <= f.len(),
    ensures
        last_at_depth(f, dd, upto) matches Some(q) ==> 0 <= q < upto && f[q].depth == dd,
    decreases upto,
{
    if upto > 0 {
        lemma_last_bounds(f, dd, upto - 1);
    }
}

/// Within a prefix, appending does not change the search.
proof fn lemma_last_prefix<K: Clone>(a: Seq<FlatNode<K>>, b: Seq<FlatNode<K>>, dd: int, k: int)
    requires
        0 <= k <= a.len(),
    ensures
        last_at_depth(a + b, dd, k) == last_at_depth(a, dd, k),
    decreases k,
{
    if k > 0 {
        assert((a + b)[k - 1] == a[k - 1]);
        lemma_last_prefix(a, b, dd, k - 1);
    }
}

/// A search that succeeds within `b` succeeds, shifted, behind `a`.
proof fn lemma_last_shift<K: Clone>(a: Seq<FlatNode<K>>, b: Seq<FlatNode<K>>, dd: int, k: int)
    requires
        0 <= k <= b.len(),
        last_at_depth(b, dd, k) is Some,
    ensures
        last_at_depth(a + b, dd, a.len() + k) == Some(last_at_depth(b, dd, k)->0 + a.len()),
    decreases k,
{
    assert((a + b)[a.len() + k - 1] == b[k - 1]);
    if b[k - 1].depth != dd {
        lemma_last_shift(a, b, dd, k - 1);
    }
}

/// Two flattened runs of nodes at the same depth under the same parent,
/// one behind the other, keep their facts.
proof fn lemma_shape_concat<K: Clone>(a: Seq<FlatNode<K>>, b: Seq<FlatNode<K>>, d: int, par: Option<K>, start: int)
    requires
        flat_shape(a, d, par, start),
        flat_shape(b, d, par, start + a.len()),
    ensures
        flat_shape(a + b, d, par, start),
{
    let f = a + b;
    assert forall|k: int| 0 <= k < f.len() implies #[trigger] shape_at(f, d, par, start, k) by {
        if k < a.len() {
            assert(shape_at(a, d, par, start, k));
            assert(f[k] == a[k]);
            lemma_last_prefix(a, b, a[k].depth - 1, k);
            lemma_last_bounds(a, a[k].depth - 1, k);
            if a[k].depth > d {
                let q = last_at_depth(a, a[k].depth - 1, k)->0;
                assert(f[q] == a[q]);
            }
            if k + 1 < a.len() {
                assert(f[k + 1] == a[k + 1]);
            }
        } else {
            let kb = k - a.len();
            assert(shape_at(b, d, par, start + a.len(), kb));
            assert(f[k] == b[kb]);
            if b[kb].depth > d {
                lemma_last_shift(a, b, b[kb].depth - 1, kb);
                lemma_last_bounds(b, b[kb].depth - 1, kb);
                let q = last_at_depth(b, b[kb].depth - 1, kb)->0;
                assert(f[q + a.len()] == b[q]);
            }
            if kb + 1 < b.len() {
                assert(f[k + 1] == b[kb + 1]);
            }
        }
    }
}

/// The flattened order of a node and, when it is expanded, its subtree.
proof fn lemma_flat_one_shape<T: TreeItem>(node: TreeNode<T>, x: Set<T::Key>, d: nat, par: Option<T::Key>, pos: nat)
    requires
        d + flat_one(node, x, d, par, pos).len() <= usize::MAX,
    ensures
        flat_shape(flat_nodes(flat_one(node, x, d, par, pos)), d as int, par, pos as int),
        flat_one(node, x, d, par, pos).len() > 0,
        flat_nodes(flat_one(node, x, d, par, pos))[0].depth == d,
    decreases node,
{
    let key = node.value.key_spec();
    let open = x.contains(key) && node.children@.len() > 0;
    let one = flat_one(node, x, d, par, pos);
    let f = flat_nodes(one);
    let head = f[0];
    assert(head.depth == d);
    assert(head.parent_key == par);
    if open {
        let c = flat_of(node.children@, x, d + 1, Some(key), pos + 1);
        let fc = flat_nodes(c);
        assert(one == seq![one[0]] + c);
        assert(f =~= seq![head] + fc);
        lemma_flat_of_shape(node.children@, x, d + 1, Some(key), pos + 1);
        assert(fc.len() > 0);
        assert forall|k: int| 0 <= k < f.len() implies #[trigger] shape_at(f, d as int, par, pos as int, k) by {
            if k == 0 {
                assert(f[1] == fc[0]);
                assert(shape_at(fc, (d + 1) as int, Some(key), (pos + 1) as int, 0));
            } else {
                let kc = k - 1;
                assert(f[k] == fc[kc]);
                assert(shape_at(fc, (d + 1) as int, Some(key), (pos + 1) as int, kc));
                let dk = fc[kc].depth as int;
                if dk == d + 1 {
                    assert forall|j: int| 0 < j < k implies f[j].depth != d by {
                        assert(f[j] == fc[j - 1]);
                        assert(shape_at(fc, (d + 1) as int, Some(key), (pos + 1) as int, j - 1));
                    }
                    lemma_last_found(f, d as int, 0, k);
                } else {
                    lemma_last_shift(seq![head], fc, dk - 1, kc);
                    lemma_last_bounds(fc, dk - 1, kc);
                    let q = last_at_depth(fc, dk - 1, kc)->0;
                    assert(f[q + 1] == fc[q]);
                }
                if kc + 1 < fc.len() {
                    assert(f[k + 1] == fc[kc + 1]);
                }
            }
        }
    } else {
        assert(one == seq![one[0]]);
        assert(f.len() == 1);
        assert(shape_at(f, d as int, par, pos as int, 0));
    }
}

/// The flattened order of a run of sibling nodes.
proof fn lemma_flat_of_shape<T: TreeItem>(nodes: Seq<TreeNode<T>>, x: Set<T::Key>, d: nat, par: Option<T::Key>, start: nat)
    requires
        d + flat_of(nodes, x, d, par, start).len() <= usize::MAX,
    ensures
        flat_shape(flat_nodes(flat_of(nodes, x, d, par, start)), d as int, par, start as int),
        nodes.len() > 0 ==> flat_of(nodes, x, d, par, start).len() > 0
            && flat_nodes(flat_of(nodes, x, d, par, start))[0].depth == d,
    decreases nodes,
{
    if nodes.len() > 0 {
        let pre = flat_of(nodes.drop_last(), x, d, par, start);
        let one = flat_one(nodes.last(), x, d, par, start + pre.len());
        assert(flat_of(nodes, x, d, par, start) == pre + one);
        lemma_flat_of_shape(nodes.drop_last(), x, d, par, start);
        lemma_flat_one_shape(nodes.last(), x, d, par, start + pre.len());
        assert(flat_nodes(pre + one) =~= flat_nodes(pre) + flat_nodes(one));
        lemma_shape_concat(flat_nodes(pre), flat_nodes(one), d as int, par, start as int);
        if pre.len() > 0 {
            assert(flat_nodes(pre + one)[0] == flat_nodes(pre)[0]);
        } else {
            assert(flat_nodes(pre + one)[0] == flat_nodes(one)[0]);
        }
    }
}

/// In a tree whose caches are up to date, the search for the parent of a
/// node lands on its parent, and a node at the root level has no parent.
pub proof fn law_parent_search_finds_parent<T: TreeItem>(state: TreeState<T>, index: int)
    requires
        keys_behave::<T::Key>(),
        state.wf(),
        0 <= index < state.flattened@.len(),
    ensures
        state.flattened@[index].depth == 0 <==> state.flattened@[index].parent_key is None,
        state.flattened@[index].depth > 0 ==> (parent_position(state.flattened@, index) matches Some(q)
            && state.flattened@[index].parent_key == Some(state.flattened@[q].key)),
{
    assert(state.flattened@.len() == state.flattened.len());
    lemma_flat_of_shape(state.roots@, state.expanded_keys(), 0, None, 0);
    assert(shape_at(state.flattened@, 0, None, 0, index));
}

/// In a tree whose caches are up to date, the node after an expanded node
/// with children is its first child, one level deeper, where the node
/// records it; the move to the first child lands there.
pub proof fn law_first_child_follows<T: TreeItem>(state: TreeState<T>, index: int)
    requires
        keys_behave::<T::Key>(),
        state.wf(),
        0 <= index < state.flattened@.len(),
        state.flattened@[index].is_expanded,
        state.flattened@[index].has_children,
    ensures
        first_child_position(state.flattened@, index) == Some(index + 1),
        state.flattened@[index + 1].parent_key == Some(state.flattened@[index].key),
        state.flattened@[index].first_child_index == Some((index + 1) as usize),
{
    assert(state.flattened@.len() == state.flattened.len());
    lemma_flat_of_shape(state.roots@, state.expanded_keys(), 0, None, 0);
    assert(shape_at(state.flattened@, 0, None, 0, index));
}

} // verus!
