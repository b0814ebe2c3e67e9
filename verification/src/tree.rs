//! Tree widget state: a virtualized tree with expandable nodes.
//!
//! The visible nodes are kept flattened in pre-order (a node, then, when it
//! is expanded, its children) with a cumulative height cache.
use std::hash::Hash;
use vstd::prelude::*;
use crate::cumulative::{
    cum_at, height_at, index_at, is_cumulative, lemma_cumulative_sorted, offset_at, total_of,
};
use crate::list::{
    effective_viewport, fills_viewport, height_in, offset_after_request, offset_in, process_scroll_request,
    request_processable, row_at, visible_span,
};
use crate::scroll::{ScrollRequest, ScrollState, ScrollableWidgetState};
use crate::selection::{keys_behave, keys_equal, position_of, remove_all, toggled, Selection, SelectionMode};

verus! {

/// Items that can be displayed in a Tree widget.
pub trait TreeItem: Clone + Send + Sync + 'static {
    /// The key type used to identify this item.
    type Key: Clone + Eq + Hash + Send + Sync + 'static;

    /// The key of this item.
    spec fn key_spec(&self) -> Self::Key;

    /// The height of this item in rows.
    spec fn height_spec(&self) -> u16;

    /// Return a unique key for this item.
    fn key(&self) -> (k: Self::Key)
        ensures
            k == self.key_spec(),
    ;

    /// Height of this item in rows for virtualization.
    fn height(&self) -> (h: u16)
        ensures
            h == self.height_spec(),
    ;
}

/// A node in the tree with a value and children.
#[derive(Debug)]
pub struct TreeNode<T: TreeItem> {
    /// The item value at this node.
    pub value: T,
    /// Child nodes.
    pub children: Vec<TreeNode<T>>,
}

impl<T: TreeItem> TreeNode<T> {
    /// Create a new leaf node (no children).
    pub fn leaf(value: T) -> (r: Self)
        ensures
            r.value == value,
            r.children@.len() == 0,
    {
        TreeNode { value, children: Vec::new() }
    }

    /// Create a new branch node with children.
    pub fn branch(value: T, children: Vec<TreeNode<T>>) -> (r: Self)
        ensures
            r.value == value,
            r.children@ == children@,
    {
        TreeNode { value, children }
    }

    /// Check if this node has children.
    pub fn has_children(&self) -> (r: bool)
        ensures
            r == (self.children@.len() > 0),
    {
        self.children.len() > 0
    }
}

/// `b` is a copy of `a`: its value is what `clone` gave for the value of
/// `a`, and its children are copies of the children of `a`, in order.
pub open spec fn clones_tree<T: TreeItem>(a: TreeNode<T>, b: TreeNode<T>) -> bool
    decreases a, 1nat,
{
    cloned::<T>(a.value, b.value) && clones_forest(a.children@, b.children@)
}

/// `t` is `s` copied node by node: as many nodes, each a copy of the node
/// at the same place in `s`.
pub open spec fn clones_forest<T: TreeItem>(s: Seq<TreeNode<T>>, t: Seq<TreeNode<T>>) -> bool
    decreases s, 0nat,
{
    &&& s.len() == t.len()
    &&& s.len() > 0 ==> clones_forest(s.drop_last(), t.drop_last()) && clones_tree(s.last(), t.last())
}

/// Copy a node and its subtree.
fn clone_node<T: TreeItem>(node: &TreeNode<T>) -> (r: TreeNode<T>)
    ensures
        clones_tree(*node, r),
    decreases node,
{
    let mut children: Vec<TreeNode<T>> = Vec::new();
    let mut i: usize = 0;
    while i < node.children.len()
        invariant
            i <= node.children@.len(),
            clones_forest(node.children@.take(i as int), children@),
        decreases node.children@.len() - i,
    {
        assert(decreases_to!(node => node.children@[i as int]));
        let child = clone_node(&node.children[i]);
        let ghost before = children@;
        children.push(child);
        assert(node.children@.take(i + 1).drop_last() =~= node.children@.take(i as int));
        assert(children@.drop_last() =~= before);
        i = i + 1;
    }
    assert(node.children@.take(i as int) =~= node.children@);
    TreeNode { value: node.value.clone(), children }
}

impl<T: TreeItem> Clone for TreeNode<T> {
    fn clone(&self) -> (r: Self)
        ensures
            clones_tree(*self, r),
    {
        clone_node(self)
    }
}

/// A flattened representation of a visible tree node.
#[derive(Clone, Debug)]
pub struct FlatNode<K: Clone> {
    /// The node's key.
    pub key: K,
    /// Depth in the tree (0 = root level).
    pub depth: usize,
    /// Whether this node has children.
    pub has_children: bool,
    /// Whether this node is currently expanded.
    pub is_expanded: bool,
    /// Parent node's key (None for root nodes).
    pub parent_key: Option<K>,
    /// Index of the first child in the flattened list (if expanded and has children).
    pub first_child_index: Option<usize>,
}

/// The icon drawn before a node: `collapse` for an expanded node with
/// children, `expand` for a collapsed one, `leaf` for a node without
/// children (by default `▼`, `▶` and a space).
pub fn node_icon<'a, K: Clone>(node: &FlatNode<K>, expand: &'a str, collapse: &'a str, leaf: &'a str) -> (r: &'a str)
    ensures
        r == (if node.has_children { if node.is_expanded { collapse } else { expand } } else { leaf }),
{
    if node.has_children {
        if node.is_expanded { collapse } else { expand }
    } else {
        leaf
    }
}

/// The width of the indentation before a node at `depth`: `indent`
/// columns per level (by default 2), the depth taken as a `u16`.
pub fn indent_width(depth: usize, indent: u16) -> (r: u16)
    requires
        (depth as u16) * indent <= u16::MAX,
    ensures
        r == (depth as u16) * indent,
{
    (depth as u16) * indent
}

/// The visible nodes of `nodes`, flattened in pre-order, each with its
/// height: the nodes sit at `depth` under `parent` and the first of them at
/// position `start` of the whole flattened list.
pub open spec fn flat_of<T: TreeItem>(nodes: Seq<TreeNode<T>>, expanded: Set<T::Key>, depth: nat,
    parent: Option<T::Key>, start: nat) -> Seq<(FlatNode<T::Key>, u16)>
    decreases nodes,
{
    if nodes.len() == 0 {
        Seq::empty()
    } else {
        let pre = flat_of(nodes.drop_last(), expanded, depth, parent, start);
        pre + flat_one(nodes.last(), expanded, depth, parent, start + pre.len())
    }
}

/// A node at position `pos`, followed, when it is expanded and has
/// children, by its visible descendants.
pub open spec fn flat_one<T: TreeItem>(node: TreeNode<T>, expanded: Set<T::Key>, depth: nat,
    parent: Option<T::Key>, pos: nat) -> Seq<(FlatNode<T::Key>, u16)>
    decreases node,
{
    let key = node.value.key_spec();
    let has_children = node.children@.len() > 0;
    let is_expanded = expanded.contains(key);
    let open = is_expanded && has_children;
    let flat = FlatNode {
        key,
        depth: depth as usize,
        has_children,
        is_expanded,
        parent_key: parent,
        first_child_index: if open { Some((pos + 1) as usize) } else { None },
    };
    seq![(flat, node.value.height_spec())] + if open {
        flat_of(node.children@, expanded, depth + 1, Some(key), pos + 1)
    } else {
        Seq::empty()
    }
}

/// The flattened nodes of entries.
pub open spec fn flat_nodes<K: Clone>(entries: Seq<(FlatNode<K>, u16)>) -> Seq<FlatNode<K>> {
    Seq::new(entries.len(), |i: int| entries[i].0)
}

/// The heights of entries.
pub open spec fn flat_heights<K: Clone>(entries: Seq<(FlatNode<K>, u16)>) -> Seq<u16> {
    Seq::new(entries.len(), |i: int| entries[i].1)
}


/// `cum` adds the heights `hs`, saturating, from entry `from` on.
pub open spec fn adds_heights(cum: Seq<u16>, from: int, hs: Seq<u16>) -> bool {
    forall|j: int| 0 <= j < hs.len() ==> #[trigger] cum[from + 1 + j] == crate::cumulative::sat_add(cum[from + j], hs[j])
}

/// Consecutive entries of `cum` never decrease.
pub open spec fn steps_up(cum: Seq<u16>) -> bool {
    forall|k: int| 0 <= k < cum.len() - 1 ==> #[trigger] cum[k] <= cum[k + 1]
}

/// All nodes of `nodes` and their subtrees, in pre-order.
pub open spec fn preorder<T: TreeItem>(nodes: Seq<TreeNode<T>>) -> Seq<TreeNode<T>>
    decreases nodes,
{
    if nodes.len() == 0 {
        Seq::empty()
    } else {
        preorder(nodes.drop_last()) + preorder_one(nodes.last())
    }
}

/// A node followed by all nodes of its subtree, in pre-order.
pub open spec fn preorder_one<T: TreeItem>(node: TreeNode<T>) -> Seq<TreeNode<T>>
    decreases node,
{
    seq![node] + preorder(node.children@)
}

/// No node among the first `upto` of `s` has key `key`.
pub open spec fn key_absent<T: TreeItem>(s: Seq<TreeNode<T>>, key: T::Key, upto: int) -> bool {
    forall|j: int| 0 <= j < upto ==> #[trigger] s[j].value.key_spec() != key
}

/// The keys of the nodes of `nodes` and their subtrees that have children.
pub open spec fn expandable_of<T: TreeItem>(nodes: Seq<TreeNode<T>>) -> Set<T::Key>
    decreases nodes,
{
    if nodes.len() == 0 {
        Set::empty()
    } else {
        expandable_of(nodes.drop_last()) + expandable_one(nodes.last())
    }
}

/// The key of `node` when it has children, with those of its subtree.
pub open spec fn expandable_one<T: TreeItem>(node: TreeNode<T>) -> Set<T::Key>
    decreases node,
{
    if node.children@.len() > 0 {
        expandable_of(node.children@).insert(node.value.key_spec())
    } else {
        Set::empty()
    }
}

/// Add to `out` the key of every node of `nodes`, or of their subtrees,
/// that has children (each key once).
fn collect_expandable<T: TreeItem>(nodes: &Vec<TreeNode<T>>, out: &mut Vec<T::Key>)
    ensures
        keys_behave::<T::Key>() ==> final(out)@.to_set() == old(out)@.to_set() + expandable_of(nodes@),
    decreases nodes@,
{
    let mut i: usize = 0;
    while i < nodes.len()
        invariant
            i <= nodes@.len(),
            keys_behave::<T::Key>() ==> out@.to_set() == old(out)@.to_set() + expandable_of(nodes@.subrange(0, i as int)),
        decreases nodes@.len() - i,
    {
        let ghost before = out@.to_set();
        let node = &nodes[i];
        let ghost sub = nodes@.subrange(0, i as int);
        let ghost sub1 = nodes@.subrange(0, i + 1);
        proof {
            assert(sub1.drop_last() =~= sub);
            assert(sub1.last() == nodes@[i as int]);
        }
        if node.children.len() > 0 {
            let key = node.value.key();
            let ghost with_key = out@;
            if position_of(out, &key).is_none() {
                out.push(key);
                proof { with_key.lemma_push_to_set_commute(key); }
            }
            assert(decreases_to!(nodes@ => nodes@[i as int]));
            let ghost mid = out@.to_set();
            collect_expandable(&node.children, out);
            proof {
                if keys_behave::<T::Key>() {
                    assert(mid =~= before.insert(key));
                    assert(expandable_of(sub1) == expandable_of(sub) + expandable_one(nodes@[i as int]));
                    assert(expandable_one(nodes@[i as int]) == expandable_of(node.children@).insert(key));
                    assert(out@.to_set() =~= old(out)@.to_set() + expandable_of(sub1));
                }
            }
        } else {
            proof {
                if keys_behave::<T::Key>() {
                    assert(expandable_one(nodes@[i as int]) =~= Set::<T::Key>::empty());
                    assert(out@.to_set() =~= old(out)@.to_set() + expandable_of(sub1));
                }
            }
        }
        i = i + 1;
    }
    proof {
        assert(nodes@.subrange(0, i as int) =~= nodes@);
    }
}

/// The pre-order of the first `k` nodes is a prefix of the pre-order of all.
proof fn lemma_preorder_prefix<T: TreeItem>(nodes: Seq<TreeNode<T>>, k: int)
    requires
        0 <= k <= nodes.len(),
    ensures
        preorder(nodes.subrange(0, k)).len() <= preorder(nodes).len(),
        forall|j: int| 0 <= j < preorder(nodes.subrange(0, k)).len()
            ==> #[trigger] preorder(nodes)[j] == preorder(nodes.subrange(0, k))[j],
    decreases nodes.len() - k,
{
    if k == nodes.len() {
        assert(nodes.subrange(0, k) =~= nodes);
    } else {
        lemma_preorder_prefix(nodes, k + 1);
        let s1 = nodes.subrange(0, k + 1);
        assert(s1.drop_last() =~= nodes.subrange(0, k));
        assert forall|j: int| 0 <= j < preorder(nodes.subrange(0, k)).len()
            implies #[trigger] preorder(nodes)[j] == preorder(nodes.subrange(0, k))[j] by {
            assert(preorder(s1)[j] == preorder(nodes.subrange(0, k))[j]);
        }
    }
}

/// The first node of `nodes`, in pre-order, whose key is `key`.
fn find_in_nodes<'a, T: TreeItem>(nodes: &'a Vec<TreeNode<T>>, key: &T::Key) -> (r: Option<&'a TreeNode<T>>)
    ensures
        keys_behave::<T::Key>() ==> match r {
            Some(n) => exists|i: int| 0 <= i < preorder(nodes@).len() && preorder(nodes@)[i] == *n
                && n.value.key_spec() == *key && key_absent(preorder(nodes@), *key, i),
            None => key_absent(preorder(nodes@), *key, preorder(nodes@).len() as int),
        },
    decreases nodes@,
{
    let mut i: usize = 0;
    while i < nodes.len()
        invariant
            i <= nodes@.len(),
            keys_behave::<T::Key>() ==> key_absent(preorder(nodes@.subrange(0, i as int)), *key,
                preorder(nodes@.subrange(0, i as int)).len() as int),
        decreases nodes@.len() - i,
    {
        let node = &nodes[i];
        let ghost sub = nodes@.subrange(0, i as int);
        let ghost sub1 = nodes@.subrange(0, i + 1);
        proof {
            assert(sub1.drop_last() =~= sub);
            assert(sub1.last() == nodes@[i as int]);
            assert(preorder(sub1) == preorder(sub) + preorder_one(nodes@[i as int]));
            lemma_preorder_prefix(nodes@, i + 1);
        }
        let k = node.value.key();
        if keys_equal(&k, key) {
            proof {
                if keys_behave::<T::Key>() {
                    let at = preorder(sub).len() as int;
                    assert(preorder(sub1)[at] == nodes@[i as int]);
                    assert(preorder(nodes@)[at] == *node);
                    assert(key_absent(preorder(nodes@), *key, at)) by {
                        assert forall|j: int| 0 <= j < at implies #[trigger] preorder(nodes@)[j].value.key_spec() != *key by {
                            assert(preorder(nodes@)[j] == preorder(sub1)[j]);
                            assert(preorder(sub1)[j] == preorder(sub)[j]);
                        }
                    }
                }
            }
            return Some(node);
        }
        assert(decreases_to!(nodes@ => nodes@[i as int]));
        let found = find_in_nodes(&node.children, key);
        match found {
            Some(n) => {
                proof {
                    if keys_behave::<T::Key>() {
                        let c = choose|c: int| 0 <= c < preorder(node.children@).len() && preorder(node.children@)[c] == *n
                            && n.value.key_spec() == *key && key_absent(preorder(node.children@), *key, c);
                        let at = preorder(sub).len() + 1 + c;
                        assert(preorder(sub1)[at] == preorder(node.children@)[c]);
                        assert(preorder(nodes@)[at] == *n);
                        assert(key_absent(preorder(nodes@), *key, at)) by {
                            assert forall|j: int| 0 <= j < at implies #[trigger] preorder(nodes@)[j].value.key_spec() != *key by {
                                assert(preorder(nodes@)[j] == preorder(sub1)[j]);
                                if j < preorder(sub).len() {
                                    assert(preorder(sub1)[j] == preorder(sub)[j]);
                                } else if j > preorder(sub).len() {
                                    assert(preorder(sub1)[j] == preorder(node.children@)[j - preorder(sub).len() - 1]);
                                }
                            }
                        }
                    }
                }
                return Some(n);
            },
            None => {
                proof {
                    if keys_behave::<T::Key>() {
                        assert forall|j: int| 0 <= j < preorder(sub1).len() implies #[trigger] preorder(sub1)[j].value.key_spec() != *key by {
                            if j < preorder(sub).len() {
                                assert(preorder(sub1)[j] == preorder(sub)[j]);
                            } else if j > preorder(sub).len() {
                                assert(preorder(sub1)[j] == preorder(node.children@)[j - preorder(sub).len() - 1]);
                            }
                        }
                    }
                }
            },
        }
        i = i + 1;
    }
    proof {
        assert(nodes@.subrange(0, i as int) =~= nodes@);
    }
    None
}

/// One step of flattening: the entries `one` of the next node, appended
/// behind what was flattened before, keep both caches in step with the spec.
proof fn lemma_flatten_step<K: Clone>(
    orig_flat: Seq<FlatNode<K>>,
    flat_before: Seq<FlatNode<K>>,
    cum_before: Seq<u16>,
    e_before: Seq<(FlatNode<K>, u16)>,
    flat_after: Seq<FlatNode<K>>,
    cum_after: Seq<u16>,
    one: Seq<(FlatNode<K>, u16)>,
)
    requires
        flat_before == orig_flat + flat_nodes(e_before),
        adds_heights(cum_before, orig_flat.len() as int, flat_heights(e_before)),
        cum_before.len() == flat_before.len() + 1,
        flat_after.len() == flat_before.len() + one.len(),
        cum_after.len() == flat_after.len() + 1,
        forall|k: int| 0 <= k < flat_before.len() ==> flat_after[k] == flat_before[k],
        forall|k: int| 0 <= k < cum_before.len() ==> cum_after[k] == cum_before[k],
        forall|j: int| 0 <= j < one.len() ==> flat_after[flat_before.len() + j] == #[trigger] one[j].0,
        adds_heights(cum_after, flat_before.len() as int, flat_heights(one)),
    ensures
        flat_after == orig_flat + flat_nodes(e_before + one),
        adds_heights(cum_after, orig_flat.len() as int, flat_heights(e_before + one)),
{
    let start = orig_flat.len() as int;
    let pos = flat_before.len() as int;
    assert(pos == start + e_before.len());
    let e = e_before + one;
    assert forall|k: int| 0 <= k < flat_after.len() implies flat_after[k] == (orig_flat + flat_nodes(e))[k] by {
        if k < pos {
            assert(flat_after[k] == flat_before[k]);
        } else {
            assert(e[k - start] == one[k - pos]);
            assert(flat_after[pos + (k - pos)] == one[k - pos].0);
        }
    }
    assert(flat_after =~= orig_flat + flat_nodes(e));
    assert forall|j: int| 0 <= j < flat_heights(e).len() implies
        #[trigger] cum_after[start + 1 + j] == crate::cumulative::sat_add(cum_after[start + j], flat_heights(e)[j]) by {
        if j < e_before.len() {
            assert(cum_before[start + 1 + j] == crate::cumulative::sat_add(cum_before[start + j], flat_heights(e_before)[j]));
            assert(cum_after[start + 1 + j] == cum_before[start + 1 + j]);
            assert(cum_after[start + j] == cum_before[start + j]);
        } else {
            let jj = j - e_before.len();
            assert(cum_after[pos + 1 + jj] == crate::cumulative::sat_add(cum_after[pos + jj], flat_heights(one)[jj]));
        }
    }
}

/// After appending one entry `x` with height `h` on a running total `cum`,
/// then `rest` behind it, the heights of `x` followed by `rest` are added.
proof fn lemma_heights_cons<K: Clone>(
    cum: Seq<u16>,
    pos: int,
    x: (FlatNode<K>, u16),
    rest: Seq<(FlatNode<K>, u16)>,
)
    requires
        0 <= pos,
        pos + 1 < cum.len(),
        cum[pos + 1] == crate::cumulative::sat_add(cum[pos], x.1),
        adds_heights(cum, pos + 1, flat_heights(rest)),
    ensures
        adds_heights(cum, pos, flat_heights(seq![x] + rest)),
{
    let hs = flat_heights(seq![x] + rest);
    assert forall|j: int| 0 <= j < hs.len() implies
        #[trigger] cum[pos + 1 + j] == crate::cumulative::sat_add(cum[pos + j], hs[j]) by {
        if j > 0 {
            assert(hs[j] == flat_heights(rest)[j - 1]);
            assert(cum[pos + 1 + 1 + (j - 1)] == crate::cumulative::sat_add(cum[pos + 1 + (j - 1)], flat_heights(rest)[j - 1]));
        }
    }
}

/// Append the visible nodes of `nodes` (at `depth`, under `parent`) to
/// `flat`, and their saturating running heights to `cum`.
fn flatten_nodes<T: TreeItem>(
    nodes: &Vec<TreeNode<T>>,
    expanded: &Vec<T::Key>,
    depth: usize,
    parent: &Option<T::Key>,
    flat: &mut Vec<FlatNode<T::Key>>,
    cum: &mut Vec<u16>,
)
    requires
        old(cum)@.len() == old(flat)@.len() + 1,
        depth <= old(flat)@.len(),
        steps_up(old(cum)@),
    ensures
        final(cum)@.len() == final(flat)@.len() + 1,
        final(flat)@.len() >= old(flat)@.len(),
        forall|k: int| 0 <= k < old(flat)@.len() ==> final(flat)@[k] == old(flat)@[k],
        forall|k: int| 0 <= k < old(cum)@.len() ==> final(cum)@[k] == old(cum)@[k],
        steps_up(final(cum)@),
        keys_behave::<T::Key>() ==> ({
            let e = flat_of(nodes@, expanded@.to_set(), depth as nat, *parent, old(flat)@.len());
            &&& final(flat)@ == old(flat)@ + flat_nodes(e)
            &&& adds_heights(final(cum)@, old(flat)@.len() as int, flat_heights(e))
        }),
    decreases nodes@,
{
    let ghost exp = expanded@.to_set();
    let ghost start = flat@.len();
    let ghost orig_flat = flat@;
    let ghost orig_cum = cum@;
    let mut i: usize = 0;
    while i < nodes.len()
        invariant
            i <= nodes@.len(),
            exp == expanded@.to_set(),
            start == orig_flat.len(),
            orig_cum.len() == start + 1,
            cum@.len() == flat@.len() + 1,
            flat@.len() >= start,
            depth <= start,
            forall|k: int| 0 <= k < start ==> flat@[k] == orig_flat[k],
            forall|k: int| 0 <= k < start + 1 ==> cum@[k] == orig_cum[k],
            steps_up(cum@),
            keys_behave::<T::Key>() ==> ({
                let e = flat_of(nodes@.subrange(0, i as int), exp, depth as nat, *parent, start);
                &&& flat@ == orig_flat + flat_nodes(e)
                &&& adds_heights(cum@, start as int, flat_heights(e))
            }),
        decreases nodes@.len() - i,
    {
        let ghost flat_before = flat@;
        let ghost cum_before = cum@;
        let node = &nodes[i];
        let key = node.value.key();
        let is_expanded = position_of(expanded, &key).is_some();
        let has_children = node.children.len() > 0;
        let height = node.value.height();
        let last = cum[cum.len() - 1];
        let cumulative = last.saturating_add(height);
        cum.push(cumulative);
        proof {
            assert forall|k: int| 0 <= k < cum@.len() - 1 implies #[trigger] cum@[k] <= cum@[k + 1] by {
                if k < cum@.len() - 2 {
                    assert(cum_before[k] <= cum_before[k + 1]);
                }
            }
        }
        let current_index = flat.len();
        let parent_key = match parent {
            Some(p) => {
                let c = p.clone();
                proof { assert(cloned(*p, c)); }
                Some(c)
            },
            None => None,
        };
        let key_copy = key.clone();
        proof { assert(cloned(key, key_copy)); }
        let open = is_expanded && has_children;
        flat.push(FlatNode {
            key: key_copy,
            depth,
            has_children,
            is_expanded,
            parent_key,
            first_child_index: None,
        });
        let ghost e_before = flat_of(nodes@.subrange(0, i as int), exp, depth as nat, *parent, start);
        let ghost pos = start + e_before.len();
        let ghost one = flat_one(nodes@[i as int], exp, depth as nat, *parent, pos);
        proof {
            if keys_behave::<T::Key>() {
                assert(current_index == pos);
                assert(key_copy == key);
                assert(parent_key == *parent);
                assert(is_expanded == exp.contains(key));
            }
        }
        if open {
            let next = flat.len();
            let mut me = flat.pop().unwrap();
            me.first_child_index = Some(next);
            flat.push(me);
            assert(forall|k: int| 0 <= k < flat_before.len() ==> flat@[k] == flat_before[k]);
            assert(decreases_to!(nodes@ => nodes@[i as int]));
            let child_parent = Some(key);
            let ghost flat_mid = flat@;
            let ghost cum_mid = cum@;
            flatten_nodes(&node.children, expanded, depth + 1, &child_parent, flat, cum);
            proof {
                assert(forall|k: int| 0 <= k < flat_before.len() ==> flat_mid[k] == flat_before[k]);
                assert(forall|k: int| 0 <= k < cum_before.len() ==> cum_mid[k] == cum_before[k]);
                assert(cum_mid[cum_before.len() as int] == cumulative);
                if keys_behave::<T::Key>() {
                    let e_child = flat_of(node.children@, exp, (depth + 1) as nat, Some(key), (pos + 1) as nat);
                    assert(one == seq![one[0]] + e_child);
                    assert(flat_mid[pos as int] == one[0].0);
                    lemma_heights_cons(cum@, pos as int, one[0], e_child);
                    assert forall|j: int| 0 <= j < one.len() implies flat@[pos + j] == #[trigger] one[j].0 by {
                        if j > 0 {
                            assert(one[j] == e_child[j - 1]);
                        }
                    }
                }
            }
        } else {
            proof {
                if keys_behave::<T::Key>() {
                    assert(one == seq![one[0]]);
                    lemma_heights_cons(cum@, pos as int, one[0], Seq::empty());
                    assert(seq![one[0]] + Seq::<(FlatNode<T::Key>, u16)>::empty() == one);
                }
            }
        }
        proof {
            assert(forall|k: int| 0 <= k < flat_before.len() ==> flat@[k] == flat_before[k]);
            assert(forall|k: int| 0 <= k < cum_before.len() ==> cum@[k] == cum_before[k]);
            assert(cum@[cum_before.len() as int] == cumulative);
            let sub1 = nodes@.subrange(0, i + 1);
            assert(sub1.drop_last() =~= nodes@.subrange(0, i as int));
            assert(sub1.last() == nodes@[i as int]);
            if keys_behave::<T::Key>() {
                assert(flat_of(sub1, exp, depth as nat, *parent, start) == e_before + one);
                lemma_flatten_step(orig_flat, flat_before, cum_before, e_before, flat@, cum@, one);
            }
        }
        i = i + 1;
    }
    proof {
        assert(nodes@.subrange(0, i as int) =~= nodes@);
    }
}

/// A cache that starts at 0 and adds the heights `hs` is their cumulative
/// cache.
proof fn lemma_adds_cumulative(cum: Seq<u16>, hs: Seq<u16>)
    requires
        cum.len() == hs.len() + 1,
        cum[0] == 0,
        adds_heights(cum, 0, hs),
    ensures
        is_cumulative(cum, hs),
{
    assert forall|i: int| 0 <= i <= hs.len() implies #[trigger] cum[i] == cum_at(hs, i as nat) by {
        lemma_adds_prefix(cum, hs, i);
    }
}

proof fn lemma_adds_prefix(cum: Seq<u16>, hs: Seq<u16>, i: int)
    requires
        cum.len() == hs.len() + 1,
        cum[0] == 0,
        adds_heights(cum, 0, hs),
        0 <= i <= hs.len(),
    ensures
        cum[i] == cum_at(hs, i as nat),
    decreases i,
{
    if i > 0 {
        lemma_adds_prefix(cum, hs, i - 1);
        assert(cum[0 + 1 + (i - 1)] == crate::cumulative::sat_add(cum[0 + (i - 1)], hs[i - 1]));
    }
}

/// Entries that never decrease step by step are sorted.
proof fn lemma_steps_up_sorted(cum: Seq<u16>)
    requires
        steps_up(cum),
    ensures
        forall|i: int, j: int| 0 <= i <= j < cum.len() ==> cum[i] <= cum[j],
{
    assert forall|i: int, j: int| 0 <= i <= j < cum.len() implies cum[i] <= cum[j] by {
        lemma_steps_up_range(cum, i, j);
    }
}

proof fn lemma_steps_up_range(cum: Seq<u16>, i: int, j: int)
    requires
        steps_up(cum),
        0 <= i <= j < cum.len(),
    ensures
        cum[i] <= cum[j],
    decreases j - i,
{
    if i < j {
        lemma_steps_up_range(cum, i, j - 1);
        assert(cum[j - 1] <= cum[j - 1 + 1]);
    }
}

/// State for a virtualized Tree widget.
///
/// Uses cumulative height caching for O(1) position lookups and O(log n)
/// offset-to-index queries.
#[derive(Clone, Debug)]
pub struct TreeState<T: TreeItem> {
    /// The root nodes of the tree.
    pub roots: Vec<TreeNode<T>>,
    /// The keys of the expanded nodes (the set of its elements counts).
    pub expanded: Vec<T::Key>,
    /// Selection state.
    pub selection: Selection<T::Key>,
    /// Scroll state for virtualization.
    pub scroll: ScrollState,
    /// The key of the last activated item.
    pub last_activated: Option<T::Key>,
    /// Cached flattened view of visible nodes.
    pub flattened: Vec<FlatNode<T::Key>>,
    /// Cached cumulative heights: entry `i` is the total height of the
    /// visible nodes before node `i`.
    pub cumulative_heights: Vec<u16>,
    /// Scrollbar screen rect for drag calculations.
    pub scrollbar_rect: Option<(u16, u16, u16, u16)>,
    /// Grab offset within thumb for smooth dragging.
    pub drag_grab_offset: Option<u16>,
}

impl<T: TreeItem> TreeState<T> {
    /// The set of expanded keys.
    pub open spec fn expanded_keys(&self) -> Set<T::Key> {
        self.expanded@.to_set()
    }

    /// The visible nodes with their heights, in pre-order.
    pub open spec fn visible(&self) -> Seq<(FlatNode<T::Key>, u16)> {
        flat_of(self.roots@, self.expanded_keys(), 0, None, 0)
    }

    /// The caches match the roots and the expanded set.
    pub open spec fn wf(&self) -> bool {
        &&& self.cumulative_heights@.len() == self.flattened@.len() + 1
        &&& self.cumulative_heights@[0] == 0
        &&& steps_up(self.cumulative_heights@)
        &&& keys_behave::<T::Key>() ==> {
            &&& self.flattened@ == flat_nodes(self.visible())
            &&& is_cumulative(self.cumulative_heights@, flat_heights(self.visible()))
        }
    }

    /// The last cache entry: the total height of the visible nodes.
    pub open spec fn total_spec(&self) -> u16 {
        self.cumulative_heights@.last()
    }

    /// Rebuild the flattened view and cumulative heights.
    fn rebuild_flattened(&mut self)
        ensures
            final(self).wf(),
            final(self).roots == old(self).roots,
            final(self).expanded == old(self).expanded,
            final(self).selection == old(self).selection,
            final(self).last_activated == old(self).last_activated,
            final(self).scrollbar_rect == old(self).scrollbar_rect,
            final(self).drag_grab_offset == old(self).drag_grab_offset,
            final(self).scroll.content_height == final(self).total_spec(),
            final(self).scroll.viewport == old(self).scroll.viewport,
            final(self).scroll.offset == (if old(self).scroll.offset < final(self).scroll.max_offset_spec() {
                old(self).scroll.offset
            } else {
                final(self).scroll.max_offset_spec()
            }),
            final(self).scroll.request == old(self).scroll.request,
    {
        let mut flat: Vec<FlatNode<T::Key>> = Vec::new();
        let mut cum: Vec<u16> = Vec::new();
        cum.push(0);
        let none: Option<T::Key> = None;
        flatten_nodes(&self.roots, &self.expanded, 0, &none, &mut flat, &mut cum);
        proof {
            if keys_behave::<T::Key>() {
                let e = flat_of(self.roots@, self.expanded@.to_set(), 0, None, 0);
                assert(flat@ =~= flat_nodes(e));
                lemma_adds_cumulative(cum@, flat_heights(e));
            }
        }
        self.flattened = flat;
        self.cumulative_heights = cum;
        let total = total_of(&self.cumulative_heights);
        self.scroll.set_content_height(total);
    }

    /// Create a new TreeState with the given root nodes.
    pub fn new(roots: Vec<TreeNode<T>>) -> (r: Self)
        ensures
            r.wf(),
            r.roots@ == roots@,
            r.expanded_keys() == Set::<T::Key>::empty(),
            r.selection.mode == SelectionMode::Disabled,
            r.selection.keys() == Set::<T::Key>::empty(),
            r.last_activated is None,
            r.scroll.offset == 0 && r.scroll.viewport == 0,
            r.scroll.request is None,
            r.scroll.content_height == r.total_spec(),
            r.scrollbar_rect is None && r.drag_grab_offset is None,
    {
        let mut state = TreeState {
            roots: Vec::new(),
            expanded: Vec::new(),
            selection: Selection::none(),
            scroll: ScrollState::new(),
            last_activated: None,
            flattened: Vec::new(),
            cumulative_heights: vec![0],
            scrollbar_rect: None,
            drag_grab_offset: None,
        };
        proof { assert(Seq::<T::Key>::empty().to_set() =~= Set::<T::Key>::empty()); }
        state.set_roots(roots);
        state
    }

    /// Set the selection mode.
    pub fn with_selection(self, mode: SelectionMode) -> (r: Self)
        ensures
            r.selection.mode == mode,
            r.selection.keys() == Set::<T::Key>::empty(),
            r.roots == self.roots,
            r.expanded == self.expanded,
            r.flattened == self.flattened,
            r.cumulative_heights == self.cumulative_heights,
            r.scroll == self.scroll,
            r.last_activated == self.last_activated,
    {
        let mut s = self;
        s.selection = Selection::for_mode(mode);
        s
    }

    /// Expand all root nodes initially.
    pub fn with_roots_expanded(self) -> (r: Self)
        ensures
            r.wf(),
            r.roots == self.roots,
            keys_behave::<T::Key>() ==> r.expanded_keys()
                == self.expanded_keys() + Set::new(|k: T::Key| exists|i: int| 0 <= i < self.roots@.len() && self.roots@[i].value.key_spec() == k),
            r.selection == self.selection,
            r.last_activated == self.last_activated,
            r.scroll.content_height == r.total_spec(),
            r.scroll.viewport == self.scroll.viewport,
            r.scroll.offset == (if self.scroll.offset < r.scroll.max_offset_spec() {
                self.scroll.offset
            } else {
                r.scroll.max_offset_spec()
            }),
            r.scroll.request == self.scroll.request,
    {
        let mut s = self;
        let ghost s0 = s;
        let ghost roots = s.roots@;
        let ghost orig = s.expanded@.to_set();
        let ghost root_keys = Set::new(|k: T::Key| exists|i: int| 0 <= i < roots.len() && roots[i].value.key_spec() == k);
        let mut i: usize = 0;
        while i < s.roots.len()
            invariant
                i <= roots.len(),
                s.roots@ == roots,
                s.roots == s0.roots,
                s.selection == s0.selection,
                s.last_activated == s0.last_activated,
                s.scroll == s0.scroll,
                keys_behave::<T::Key>() ==> s.expanded@.to_set()
                    == orig + Set::new(|k: T::Key| exists|j: int| 0 <= j < i && roots[j].value.key_spec() == k),
            decreases roots.len() - i,
        {
            let key = s.roots[i].value.key();
            let ghost before = s.expanded@;
            if position_of(&s.expanded, &key).is_none() {
                s.expanded.push(key);
                proof { before.lemma_push_to_set_commute(key); }
            }
            proof {
                if keys_behave::<T::Key>() {
                    let a = Set::new(|k: T::Key| exists|j: int| 0 <= j < i && roots[j].value.key_spec() == k);
                    let b = Set::new(|k: T::Key| exists|j: int| 0 <= j < i + 1 && roots[j].value.key_spec() == k);
                    assert(b =~= a.insert(key)) by {
                        assert forall|k: T::Key| b.contains(k) implies a.insert(key).contains(k) by {
                            let j = choose|j: int| 0 <= j < i + 1 && roots[j].value.key_spec() == k;
                            if j < i {
                                assert(a.contains(k));
                            }
                        }
                        assert(roots[i as int].value.key_spec() == key);
                    }
                    assert(s.expanded@.to_set() =~= orig + b);
                }
            }
            i = i + 1;
        }
        s.rebuild_flattened();
        s
    }

    /// Set root nodes and rebuild the flattened view.
    pub fn set_roots(&mut self, roots: Vec<TreeNode<T>>)
        ensures
            final(self).wf(),
            final(self).roots@ == roots@,
            final(self).expanded == old(self).expanded,
            final(self).selection == old(self).selection,
            final(self).last_activated == old(self).last_activated,
            final(self).scrollbar_rect == old(self).scrollbar_rect,
            final(self).drag_grab_offset == old(self).drag_grab_offset,
            final(self).scroll.content_height == final(self).total_spec(),
            final(self).scroll.viewport == old(self).scroll.viewport,
            final(self).scroll.offset == (if old(self).scroll.offset < final(self).scroll.max_offset_spec() {
                old(self).scroll.offset
            } else {
                final(self).scroll.max_offset_spec()
            }),
            final(self).scroll.request == old(self).scroll.request,
    {
        self.roots = roots;
        self.rebuild_flattened();
    }


    /// Toggle the expanded state of a node.
    pub fn toggle_expanded(&mut self, key: &T::Key)
        ensures
            final(self).wf(),
            keys_behave::<T::Key>() ==> final(self).expanded_keys() == toggle_key_set(old(self).expanded_keys(), *key),
            final(self).roots == old(self).roots,
            final(self).selection == old(self).selection,
            final(self).last_activated == old(self).last_activated,
            final(self).scroll.content_height == final(self).total_spec(),
            final(self).scroll.offset == (if old(self).scroll.offset < final(self).scroll.max_offset_spec() {
                old(self).scroll.offset
            } else {
                final(self).scroll.max_offset_spec()
            }),
            final(self).scroll.viewport == old(self).scroll.viewport,
            final(self).scroll.request == old(self).scroll.request,
    {
        let ghost before = self.expanded@;
        if position_of(&self.expanded, key).is_some() {
            remove_all(&mut self.expanded, key);
        } else {
            let k = key.clone();
            proof { assert(cloned(*key, k)); }
            self.expanded.push(k);
            proof { before.lemma_push_to_set_commute(k); }
        }
        self.rebuild_flattened();
    }

    /// Expand a node.
    pub fn expand(&mut self, key: &T::Key)
        requires
            old(self).wf(),
        ensures
            final(self).wf(),
            keys_behave::<T::Key>() ==> final(self).expanded_keys() == old(self).expanded_keys().insert(*key),
            keys_behave::<T::Key>() && old(self).expanded_keys().contains(*key) ==> *final(self) == *old(self),
            keys_behave::<T::Key>() && !old(self).expanded_keys().contains(*key)
                ==> final(self).scroll.content_height == final(self).total_spec(),
            keys_behave::<T::Key>() && !old(self).expanded_keys().contains(*key)
                ==> final(self).scroll.offset == (if old(self).scroll.offset < final(self).scroll.max_offset_spec() {
                    old(self).scroll.offset
                } else {
                    final(self).scroll.max_offset_spec()
                }),
            final(self).roots == old(self).roots,
            final(self).selection == old(self).selection,
            final(self).last_activated == old(self).last_activated,
            final(self).scroll.viewport == old(self).scroll.viewport,
            final(self).scroll.request == old(self).scroll.request,
    {
        let ghost before = self.expanded@;
        if position_of(&self.expanded, key).is_none() {
            let k = key.clone();
            proof { assert(cloned(*key, k)); }
            self.expanded.push(k);
            proof { before.lemma_push_to_set_commute(k); }
            self.rebuild_flattened();
        } else {
            proof {
                if keys_behave::<T::Key>() {
                    assert(old(self).expanded_keys().insert(*key) =~= old(self).expanded_keys());
                }
            }
        }
    }

    /// Collapse a node.
    pub fn collapse(&mut self, key: &T::Key)
        requires
            old(self).wf(),
        ensures
            final(self).wf(),
            keys_behave::<T::Key>() ==> final(self).expanded_keys() == old(self).expanded_keys().remove(*key),
            keys_behave::<T::Key>() && !old(self).expanded_keys().contains(*key) ==> *final(self) == *old(self),
            keys_behave::<T::Key>() && old(self).expanded_keys().contains(*key)
                ==> final(self).scroll.content_height == final(self).total_spec(),
            keys_behave::<T::Key>() && old(self).expanded_keys().contains(*key)
                ==> final(self).scroll.offset == (if old(self).scroll.offset < final(self).scroll.max_offset_spec() {
                    old(self).scroll.offset
                } else {
                    final(self).scroll.max_offset_spec()
                }),
            final(self).roots == old(self).roots,
            final(self).selection == old(self).selection,
            final(self).last_activated == old(self).last_activated,
            final(self).scroll.viewport == old(self).scroll.viewport,
            final(self).scroll.request == old(self).scroll.request,
    {
        if position_of(&self.expanded, key).is_some() {
            remove_all(&mut self.expanded, key);
            self.rebuild_flattened();
        } else {
            proof {
                if keys_behave::<T::Key>() {
                    assert(old(self).expanded_keys().remove(*key) =~= old(self).expanded_keys());
                }
            }
        }
    }

    /// Expand every node that has children.
    pub fn expand_all(&mut self)
        ensures
            final(self).wf(),
            keys_behave::<T::Key>() ==> final(self).expanded_keys() == old(self).expanded_keys() + expandable_of(old(self).roots@),
            final(self).roots == old(self).roots,
            final(self).selection == old(self).selection,
            final(self).last_activated == old(self).last_activated,
            final(self).scroll.content_height == final(self).total_spec(),
            final(self).scroll.offset == (if old(self).scroll.offset < final(self).scroll.max_offset_spec() {
                old(self).scroll.offset
            } else {
                final(self).scroll.max_offset_spec()
            }),
            final(self).scroll.viewport == old(self).scroll.viewport,
            final(self).scroll.request == old(self).scroll.request,
    {
        collect_expandable(&self.roots, &mut self.expanded);
        self.rebuild_flattened();
    }

    /// Collapse every node.
    pub fn collapse_all(&mut self)
        ensures
            final(self).wf(),
            final(self).expanded_keys() == Set::<T::Key>::empty(),
            final(self).roots == old(self).roots,
            final(self).selection == old(self).selection,
            final(self).last_activated == old(self).last_activated,
            final(self).scroll.content_height == final(self).total_spec(),
            final(self).scroll.offset == (if old(self).scroll.offset < final(self).scroll.max_offset_spec() {
                old(self).scroll.offset
            } else {
                final(self).scroll.max_offset_spec()
            }),
            final(self).scroll.viewport == old(self).scroll.viewport,
            final(self).scroll.request == old(self).scroll.request,
    {
        self.expanded.clear();
        proof { assert(self.expanded@.to_set() =~= Set::<T::Key>::empty()); }
        self.rebuild_flattened();
    }

    /// Up or Down at a boundary row: scroll by `delta` rows and hand back
    /// the key of the visible node at `target`, to be focused, if there is
    /// one.
    pub fn scroll_step(&mut self, delta: i16, target: usize) -> (focus: Option<T::Key>)
        ensures
            final(self).scroll.offset == crate::scroll::offset_after(old(self).scroll.offset,
                old(self).scroll.viewport, old(self).scroll.content_height, ScrollRequest::Delta(delta)),
            final(self).scroll.viewport == old(self).scroll.viewport,
            final(self).scroll.content_height == old(self).scroll.content_height,
            final(self).scroll.request == old(self).scroll.request,
            focus is Some <==> target < old(self).flattened@.len(),
            keys_behave::<T::Key>() && target < old(self).flattened@.len()
                ==> focus == Some(old(self).flattened@[target as int].key),
            final(self).roots == old(self).roots,
            final(self).expanded == old(self).expanded,
            final(self).flattened == old(self).flattened,
            final(self).cumulative_heights == old(self).cumulative_heights,
            final(self).selection == old(self).selection,
    {
        self.scroll.apply_request(ScrollRequest::Delta(delta));
        if target < self.flattened.len() {
            let k = self.flattened[target].key.clone();
            proof { assert(cloned(self.flattened@[target as int].key, k)); }
            Some(k)
        } else {
            None
        }
    }

    /// Check if a node is expanded.
    pub fn is_expanded(&self, key: &T::Key) -> (r: bool)
        ensures
            keys_behave::<T::Key>() ==> r == self.expanded_keys().contains(*key),
    {
        position_of(&self.expanded, key).is_some()
    }

    /// Get the number of visible (flattened) nodes.
    pub fn visible_count(&self) -> (r: usize)
        ensures
            r == self.flattened@.len(),
            self.wf() && keys_behave::<T::Key>() ==> r == self.visible().len(),
    {
        self.flattened.len()
    }

    /// Get Y offset for node at index. O(1).
    pub fn node_y_offset(&self, index: usize) -> (r: u16)
        ensures
            r == offset_in(self.cumulative_heights@, index as int),
    {
        offset_at(&self.cumulative_heights, index)
    }

    /// Get total content height. O(1).
    pub fn total_height(&self) -> (r: u16)
        requires
            self.wf(),
        ensures
            r == self.total_spec(),
            keys_behave::<T::Key>() ==> r == cum_at(flat_heights(self.visible()), self.visible().len()),
    {
        total_of(&self.cumulative_heights)
    }

    /// Find node index at given Y offset. O(log n) binary search.
    pub fn node_at_offset(&self, y: u16) -> (r: usize)
        requires
            self.wf(),
        ensures
            row_at(self.cumulative_heights@, y, r as int),
    {
        proof { lemma_steps_up_sorted(self.cumulative_heights@); }
        index_at(&self.cumulative_heights, y)
    }

    /// Get height of node at index. O(1).
    pub fn node_height(&self, index: usize) -> (r: u16)
        requires
            self.wf(),
        ensures
            r == height_in(self.cumulative_heights@, index as int),
    {
        proof { lemma_steps_up_sorted(self.cumulative_heights@); }
        height_at(&self.cumulative_heights, index)
    }

    /// Find the index of a visible node by key.
    pub fn index_of(&self, key: &T::Key) -> (r: Option<usize>)
        ensures
            keys_behave::<T::Key>() ==> match r {
                Some(i) => i < self.flattened@.len() && self.flattened@[i as int].key == *key
                    && forall|j: int| 0 <= j < i ==> self.flattened@[j].key != *key,
                None => forall|j: int| 0 <= j < self.flattened@.len() ==> self.flattened@[j].key != *key,
            },
    {
        let mut i: usize = 0;
        while i < self.flattened.len()
            invariant
                i <= self.flattened@.len(),
                keys_behave::<T::Key>() ==> forall|j: int| 0 <= j < i ==> self.flattened@[j].key != *key,
            decreases self.flattened@.len() - i,
        {
            if keys_equal(&self.flattened[i].key, key) {
                return Some(i);
            }
            i = i + 1;
        }
        None
    }

    /// Find the node with `key` among all nodes (expanded or not): the first
    /// one in pre-order.
    pub fn find_node(&self, key: &T::Key) -> (r: Option<&TreeNode<T>>)
        ensures
            keys_behave::<T::Key>() ==> match r {
                Some(n) => exists|i: int| 0 <= i < preorder(self.roots@).len() && preorder(self.roots@)[i] == *n
                    && n.value.key_spec() == *key && key_absent(preorder(self.roots@), *key, i),
                None => key_absent(preorder(self.roots@), *key, preorder(self.roots@).len() as int),
            },
    {
        find_in_nodes(&self.roots, key)
    }

    /// Process any pending scroll request. Returns true if the offset changed.
    pub fn process_scroll(&mut self) -> (changed: bool)
        requires
            old(self).wf(),
            request_processable(old(self).scroll, old(self).cumulative_heights@),
        ensures
            final(self).scroll.offset == offset_after_request(old(self).scroll, old(self).cumulative_heights@),
            final(self).scroll.viewport == old(self).scroll.viewport,
            final(self).scroll.content_height == old(self).scroll.content_height,
            final(self).scroll.request is None,
            changed == (final(self).scroll.offset != old(self).scroll.offset),
            final(self).roots == old(self).roots,
            final(self).expanded == old(self).expanded,
            final(self).flattened == old(self).flattened,
            final(self).cumulative_heights == old(self).cumulative_heights,
            final(self).selection == old(self).selection,
            final(self).last_activated == old(self).last_activated,
    {
        proof { lemma_steps_up_sorted(self.cumulative_heights@); }
        process_scroll_request(&mut self.scroll, &self.cumulative_heights)
    }

    /// Get the index of the first visible node based on current scroll offset.
    pub fn first_visible_index(&self) -> (r: usize)
        requires
            self.wf(),
        ensures
            row_at(self.cumulative_heights@, self.scroll.offset, r as int),
    {
        self.node_at_offset(self.scroll.offset)
    }

    /// Record `key` as the last activated node and toggle its selection.
    pub fn activate(&mut self, key: T::Key)
        ensures
            keys_behave::<T::Key>() ==> final(self).last_activated == Some(key),
            keys_behave::<T::Key>() ==> final(self).selection.keys()
                == toggled(old(self).selection.mode, old(self).selection.keys(), key),
            final(self).selection.mode == old(self).selection.mode,
            final(self).roots == old(self).roots,
            final(self).expanded == old(self).expanded,
            final(self).flattened == old(self).flattened,
            final(self).cumulative_heights == old(self).cumulative_heights,
            final(self).scroll == old(self).scroll,
    {
        let k = key.clone();
        proof { assert(cloned(key, k)); }
        self.last_activated = Some(k);
        self.selection.toggle(key);
    }

    /// The Left key on visible node `index`: an expanded node with children
    /// collapses; any other node hands back its parent's key, to be focused
    /// (a root gives `None`).
    pub fn left_key(&mut self, index: usize) -> (focus: Option<T::Key>)
        requires
            old(self).wf(),
        ensures
            final(self).wf(),
            index >= old(self).flattened@.len() ==> *final(self) == *old(self) && focus is None,
            index < old(self).flattened@.len() ==> {
                let n = old(self).flattened@[index as int];
                if n.is_expanded && n.has_children {
                    &&& focus is None
                    &&& keys_behave::<T::Key>() ==> final(self).expanded_keys() == old(self).expanded_keys().remove(n.key)
                    &&& final(self).roots == old(self).roots
                    &&& final(self).selection == old(self).selection
                } else {
                    &&& *final(self) == *old(self)
                    &&& keys_behave::<T::Key>() ==> focus == n.parent_key
                }
            },
    {
        if index >= self.flattened.len() {
            return None;
        }
        let is_expanded = self.flattened[index].is_expanded;
        let has_children = self.flattened[index].has_children;
        if is_expanded && has_children {
            let key = self.flattened[index].key.clone();
            proof { assert(cloned(self.flattened@[index as int].key, key)); }
            self.collapse(&key);
            None
        } else {
            match &self.flattened[index].parent_key {
                Some(p) => {
                    let c = p.clone();
                    proof { assert(cloned(*p, c)); }
                    Some(c)
                },
                None => None,
            }
        }
    }

    /// The Right key on visible node `index`: a collapsed node with children
    /// expands; an expanded one hands back its first child's key, to be
    /// focused; a leaf does nothing.
    pub fn right_key(&mut self, index: usize) -> (focus: Option<T::Key>)
        requires
            old(self).wf(),
        ensures
            final(self).wf(),
            index >= old(self).flattened@.len() ==> *final(self) == *old(self) && focus is None,
            index < old(self).flattened@.len() ==> {
                let n = old(self).flattened@[index as int];
                if n.has_children && !n.is_expanded {
                    &&& focus is None
                    &&& keys_behave::<T::Key>() ==> final(self).expanded_keys() == old(self).expanded_keys().insert(n.key)
                    &&& final(self).roots == old(self).roots
                    &&& final(self).selection == old(self).selection
                } else {
                    &&& *final(self) == *old(self)
                    &&& keys_behave::<T::Key>() ==> focus == (match n.first_child_index {
                        Some(c) => if n.has_children && c < old(self).flattened@.len() {
                            Some(old(self).flattened@[c as int].key)
                        } else {
                            None
                        },
                        None => None,
                    })
                }
            },
    {
        if index >= self.flattened.len() {
            return None;
        }
        let is_expanded = self.flattened[index].is_expanded;
        let has_children = self.flattened[index].has_children;
        if !has_children {
            return None;
        }
        if !is_expanded {
            let key = self.flattened[index].key.clone();
            proof { assert(cloned(self.flattened@[index as int].key, key)); }
            self.expand(&key);
            None
        } else {
            match self.flattened[index].first_child_index {
                Some(c) => {
                    if c < self.flattened.len() {
                        let k = self.flattened[c].key.clone();
                        proof { assert(cloned(self.flattened@[c as int].key, k)); }
                        Some(k)
                    } else {
                        None
                    }
                },
                None => None,
            }
        }
    }
}

impl<T: TreeItem> ScrollableWidgetState for TreeState<T> {
    fn scroll(&self) -> (r: &ScrollState)
        ensures
            *r == self.scroll,
    {
        &self.scroll
    }

    fn scroll_mut(&mut self) -> (r: &mut ScrollState)
        ensures
            *r == old(self).scroll,
            *final(self) == (TreeState { scroll: *final(r), ..*old(self) }),
    {
        &mut self.scroll
    }

    fn scrollbar_rect(&self) -> (r: Option<(u16, u16, u16, u16)>)
        ensures
            r == self.scrollbar_rect,
    {
        self.scrollbar_rect
    }

    fn set_scrollbar_rect(&mut self, rect: Option<(u16, u16, u16, u16)>)
        ensures
            final(self).scrollbar_rect == rect,
            final(self).scroll == old(self).scroll,
            final(self).drag_grab_offset == old(self).drag_grab_offset,
    {
        self.scrollbar_rect = rect;
    }

    fn drag_grab_offset(&self) -> (r: Option<u16>)
        ensures
            r == self.drag_grab_offset,
    {
        self.drag_grab_offset
    }

    fn set_drag_grab_offset(&mut self, offset: Option<u16>)
        ensures
            final(self).drag_grab_offset == offset,
            final(self).scroll == old(self).scroll,
            final(self).scrollbar_rect == old(self).scrollbar_rect,
    {
        self.drag_grab_offset = offset;
    }
}

/// A visible node to build, by its index in the flattened nodes.
pub struct VisibleNode {
    /// Index in the flattened nodes.
    pub index: usize,
}

/// The visible nodes that are built for the current scroll state: from the
/// node at the scroll offset down to the first node that no longer fits in
/// the viewport (see [`fills_viewport`]).
pub fn calculate_visible_nodes<T: TreeItem>(state: &TreeState<T>) -> (r: Vec<VisibleNode>)
    requires
        state.wf(),
    ensures
        state.flattened@.len() == 0 ==> r@.len() == 0,
        state.flattened@.len() > 0 ==> exists|first: int| {
            &&& row_at(state.cumulative_heights@, state.scroll.offset, first)
            &&& fills_viewport(state.cumulative_heights@, state.flattened@.len() as int, first,
                first + r@.len(), effective_viewport(state.scroll.viewport))
            &&& forall|k: int| 0 <= k < r@.len() ==> #[trigger] r@[k].index == first + k
        },
{
    proof { lemma_steps_up_sorted(state.cumulative_heights@); }
    let (first, end) = visible_span(&state.cumulative_heights, state.flattened.len(), state.scroll.offset, state.scroll.viewport);
    let mut nodes: Vec<VisibleNode> = Vec::new();
    let mut i = first;
    while i < end
        invariant
            first <= i <= end,
            nodes@.len() == i - first,
            forall|k: int| 0 <= k < nodes@.len() ==> #[trigger] nodes@[k].index == first + k,
        decreases end - i,
    {
        nodes.push(VisibleNode { index: i });
        i = i + 1;
    }
    proof {
        if state.flattened@.len() > 0 {
            assert(first + nodes@.len() == end);
        }
    }
    nodes
}

/// Typestate marker: a tree builder that still needs its state.
pub struct NeedsState;

/// `keys` with `key` removed when it is there, added when it is not.
pub open spec fn toggle_key_set<K>(keys: Set<K>, key: K) -> Set<K> {
    if keys.contains(key) { keys.remove(key) } else { keys.insert(key) }
}

/// Toggling a node twice restores the expanded set, and with it the visible
/// nodes.
pub proof fn law_toggle_expanded_twice<T: TreeItem>(roots: Seq<TreeNode<T>>, expanded: Set<T::Key>, key: T::Key)
    ensures
        toggle_key_set(toggle_key_set(expanded, key), key) == expanded,
        flat_of(roots, toggle_key_set(toggle_key_set(expanded, key), key), 0, None, 0)
            == flat_of(roots, expanded, 0, None, 0),
{
    if expanded.contains(key) {
        assert(expanded.remove(key).insert(key) =~= expanded);
    } else {
        assert(expanded.insert(key).remove(key) =~= expanded);
    }
}

/// Expanding a collapsed node and collapsing it again restores the expanded
/// set, and with it the visible nodes.
pub proof fn law_expand_then_collapse<T: TreeItem>(roots: Seq<TreeNode<T>>, expanded: Set<T::Key>, key: T::Key)
    requires
        !expanded.contains(key),
    ensures
        expanded.insert(key).remove(key) == expanded,
        flat_of(roots, expanded.insert(key).remove(key), 0, None, 0) == flat_of(roots, expanded, 0, None, 0),
{
    assert(expanded.insert(key).remove(key) =~= expanded);
}

/// With nothing expanded, the flattened order of `nodes` is the nodes
/// themselves, at depth `d`.
proof fn lemma_flat_collapsed<T: TreeItem>(nodes: Seq<TreeNode<T>>, d: nat, par: Option<T::Key>, start: nat)
    ensures
        flat_of(nodes, Set::empty(), d, par, start).len() == nodes.len(),
        forall|i: int| 0 <= i < nodes.len() ==> {
            let n = #[trigger] flat_of(nodes, Set::empty(), d, par, start)[i].0;
            &&& n.key == nodes[i].value.key_spec()
            &&& n.depth == d as usize
            &&& !n.is_expanded
            &&& n.parent_key == par
        },
    decreases nodes.len(),
{
    if nodes.len() > 0 {
        let pre = flat_of(nodes.drop_last(), Set::empty(), d, par, start);
        lemma_flat_collapsed(nodes.drop_last(), d, par, start);
        let one = flat_one(nodes.last(), Set::empty(), d, par, start + pre.len());
        assert(one == seq![one[0]]);
        let all = flat_of(nodes, Set::empty(), d, par, start);
        assert(all == pre + one);
        assert forall|i: int| 0 <= i < nodes.len() implies {
            let n = #[trigger] flat_of(nodes, Set::empty(), d, par, start)[i].0;
            &&& n.key == nodes[i].value.key_spec()
            &&& n.depth == d as usize
            &&& !n.is_expanded
            &&& n.parent_key == par
        } by {
            if i < nodes.len() - 1 {
                assert(all[i] == pre[i]);
                assert(nodes.drop_last()[i] == nodes[i]);
            } else {
                assert(all[i] == one[0]);
            }
        }
    }
}

/// After every node is collapsed, exactly the roots are visible, in order,
/// at the root level.
pub proof fn law_collapse_all_shows_only_roots<T: TreeItem>(roots: Seq<TreeNode<T>>)
    ensures
        flat_of(roots, Set::empty(), 0, None, 0).len() == roots.len(),
        forall|i: int| 0 <= i < roots.len() ==> {
            let n = #[trigger] flat_of(roots, Set::empty(), 0, None, 0)[i].0;
            &&& n.key == roots[i].value.key_spec()
            &&& n.depth == 0
            &&& !n.is_expanded
        },
{
    lemma_flat_collapsed(roots, 0, None, 0);
}

/// Every visible node of `nodes` is expanded exactly when its key is in
/// `x`, and the key of one with children is among the expandable keys.
proof fn lemma_flat_of_expandable<T: TreeItem>(nodes: Seq<TreeNode<T>>, x: Set<T::Key>, d: nat, par: Option<T::Key>, start: nat)
    ensures
        forall|k: int| 0 <= k < flat_of(nodes, x, d, par, start).len() ==> {
            let n = #[trigger] flat_of(nodes, x, d, par, start)[k].0;
            &&& n.is_expanded == x.contains(n.key)
            &&& n.has_children ==> expandable_of(nodes).contains(n.key)
        },
    decreases nodes,
{
    if nodes.len() > 0 {
        let pre = flat_of(nodes.drop_last(), x, d, par, start);
        let one = flat_one(nodes.last(), x, d, par, start + pre.len());
        let all = flat_of(nodes, x, d, par, start);
        assert(all == pre + one);
        lemma_flat_of_expandable(nodes.drop_last(), x, d, par, start);
        lemma_flat_one_expandable(nodes.last(), x, d, par, start + pre.len());
        assert forall|k: int| 0 <= k < all.len() implies {
            let n = #[trigger] all[k].0;
            &&& n.is_expanded == x.contains(n.key)
            &&& n.has_children ==> expandable_of(nodes).contains(n.key)
        } by {
            if k < pre.len() {
                assert(all[k] == pre[k]);
            } else {
                assert(all[k] == one[k - pre.len()]);
            }
        }
    }
}

/// [`lemma_flat_of_expandable`] for a node and its visible subtree.
proof fn lemma_flat_one_expandable<T: TreeItem>(node: TreeNode<T>, x: Set<T::Key>, d: nat, par: Option<T::Key>, pos: nat)
    ensures
        forall|k: int| 0 <= k < flat_one(node, x, d, par, pos).len() ==> {
            let n = #[trigger] flat_one(node, x, d, par, pos)[k].0;
            &&& n.is_expanded == x.contains(n.key)
            &&& n.has_children ==> expandable_one(node).contains(n.key)
        },
    decreases node,
{
    let key = node.value.key_spec();
    let one = flat_one(node, x, d, par, pos);
    if x.contains(key) && node.children@.len() > 0 {
        let c = flat_of(node.children@, x, d + 1, Some(key), pos + 1);
        assert(one == seq![one[0]] + c);
        lemma_flat_of_expandable(node.children@, x, d + 1, Some(key), pos + 1);
        assert forall|k: int| 0 <= k < one.len() implies {
            let n = #[trigger] one[k].0;
            &&& n.is_expanded == x.contains(n.key)
            &&& n.has_children ==> expandable_one(node).contains(n.key)
        } by {
            if k > 0 {
                assert(one[k] == c[k - 1]);
            }
        }
    } else {
        assert(one == seq![one[0]]);
    }
}

/// Once every node with children is expanded (as after expanding them
/// all), every visible node that has children is expanded.
pub proof fn law_expand_all_opens_every_parent<T: TreeItem>(roots: Seq<TreeNode<T>>, expanded: Set<T::Key>, i: int)
    requires
        expandable_of(roots).subset_of(expanded),
        0 <= i < flat_of(roots, expanded, 0, None, 0).len(),
        flat_of(roots, expanded, 0, None, 0)[i].0.has_children,
    ensures
        flat_of(roots, expanded, 0, None, 0)[i].0.is_expanded,
{
    lemma_flat_of_expandable(roots, expanded, 0, None, 0);
    let n = flat_of(roots, expanded, 0, None, 0)[i].0;
    assert(expandable_of(roots).contains(n.key));
}

} // verus!
