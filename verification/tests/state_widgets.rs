use rafter_widgets::list::{calculate_visible_items, ListItem, ListState};
use rafter_widgets::scroll::{
    boundary_flags, focus_target_after_scroll, scroll_action_request, scroll_offset_for_thumb, thumb_contains,
    ScrollAction, ScrollRequest, ScrollState,
};
use rafter_widgets::selection::{Selection, SelectionMode};
use rafter_widgets::table::{calculate_visible_rows, Column, ColumnWidth, TableRow, TableState};
use rafter_widgets::grid::RowCursor;
use rafter_widgets::tree::{calculate_visible_nodes, indent_width, node_icon, TreeItem, TreeNode, TreeState};
use rafter_widgets::input::{Key, KeyCombo, Modifiers};
use rafter_widgets::tree_nav::{cursor_to_first_child, cursor_to_parent, tree_arrow_action, TreeArrowAction, TreeView};

#[derive(Clone, Debug)]
struct Row {
    key: u32,
    h: u16,
}

impl ListItem for Row {
    type Key = u32;
    fn key_spec(&self) -> u32 {
        self.key
    }
    fn height_spec(&self) -> u16 {
        self.h
    }
    fn key(&self) -> u32 {
        self.key
    }
    fn height(&self) -> u16 {
        self.h
    }
}

impl TableRow for Row {
    type Key = u32;
    fn key_spec(&self) -> u32 {
        self.key
    }
    fn height_spec(&self) -> u16 {
        self.h
    }
    fn key(&self) -> u32 {
        self.key
    }
    fn height(&self) -> u16 {
        self.h
    }
}

impl TreeItem for Row {
    type Key = u32;
    fn key_spec(&self) -> u32 {
        self.key
    }
    fn height_spec(&self) -> u16 {
        self.h
    }
    fn key(&self) -> u32 {
        self.key
    }
    fn height(&self) -> u16 {
        self.h
    }
}

fn rows(hs: &[u16]) -> Vec<Row> {
    hs.iter().enumerate().map(|(i, h)| Row { key: i as u32 * 10, h: *h }).collect()
}

// ---- Selection ----

#[test]
fn selection_multi_toggle_twice_restores() {
    let mut s: Selection<u32> = Selection::multi();
    assert!(s.toggle(1));
    assert!(s.toggle(2));
    assert!(s.is_selected(&1) && s.is_selected(&2));
    assert!(s.toggle(1));
    assert!(!s.is_selected(&1));
    assert!(s.toggle(1));
    assert!(s.is_selected(&1) && s.is_selected(&2));
    assert_eq!(s.get_all().len(), 2);
}

#[test]
fn selection_single_keeps_at_most_one() {
    let mut s: Selection<u32> = Selection::single();
    s.toggle(1);
    s.toggle(2);
    assert!(!s.is_selected(&1));
    assert_eq!(s.get_single(), Some(&2));
    s.toggle(2);
    assert_eq!(s.get_single(), None);
}

#[test]
fn selection_disabled_ignores_toggle() {
    let mut s: Selection<u32> = Selection::none();
    assert!(!s.toggle(5));
    assert!(!s.is_selected(&5));
    assert!(s.get_all().is_empty());
}

#[test]
fn selection_clear_and_insert() {
    let mut s: Selection<u32> = Selection::for_mode(SelectionMode::Multi);
    s.insert(3);
    s.insert(3);
    assert_eq!(s.get_all(), vec![&3]);
    s.clear();
    assert!(s.get_all().is_empty());
    assert!(s.mode == SelectionMode::Multi);
}

// ---- ScrollState ----

#[test]
fn scroll_offset_clamped_to_max() {
    let mut s = ScrollState::with_content_height(100);
    s.set_viewport(30);
    assert_eq!(s.max_offset(), 70);
    assert!(s.can_scroll());
    s.apply_request(ScrollRequest::ToOffset(500));
    assert_eq!(s.offset, 70);
    s.apply_request(ScrollRequest::Delta(-100));
    assert_eq!(s.offset, 0);
    s.apply_request(ScrollRequest::PageDown);
    assert_eq!(s.offset, 30);
    s.apply_request(ScrollRequest::End);
    assert_eq!(s.offset, 70);
    s.apply_request(ScrollRequest::PageUp);
    assert_eq!(s.offset, 40);
    s.apply_request(ScrollRequest::Home);
    assert_eq!(s.offset, 0);
}

#[test]
fn scroll_requests_are_queued_and_processed() {
    let mut s = ScrollState::with_content_height(50);
    s.set_viewport(10);
    s.scroll_by(5);
    assert!(s.has_request());
    assert_eq!(s.process_request(), Some(ScrollRequest::Delta(5)));
    assert_eq!(s.offset, 5);
    assert!(!s.has_request());
    s.scroll_into_view(7);
    assert_eq!(s.process_request(), Some(ScrollRequest::IntoView(7)));
    s.page_down();
    assert_eq!(s.take_request(), Some(ScrollRequest::PageDown));
    assert_eq!(s.take_request(), None);
}

#[test]
fn scroll_set_content_height_shrinks_offset() {
    let mut s = ScrollState::with_content_height(100);
    s.set_viewport(10);
    s.apply_request(ScrollRequest::End);
    assert_eq!(s.offset, 90);
    s.set_content_height(40);
    assert_eq!(s.offset, 30);
    s.set_viewport(50);
    assert_eq!(s.offset, 0);
    assert!(!s.can_scroll());
}

#[test]
fn scroll_actions_and_focus_targets() {
    assert_eq!(scroll_action_request(ScrollAction::Home), ScrollRequest::Home);
    assert_eq!(focus_target_after_scroll(ScrollAction::PageDown, 100, 20, 10), Some(29));
    assert_eq!(focus_target_after_scroll(ScrollAction::PageDown, 25, 20, 10), Some(24));
    assert_eq!(focus_target_after_scroll(ScrollAction::End, 25, 0, 10), Some(24));
    assert_eq!(focus_target_after_scroll(ScrollAction::Home, 0, 0, 10), None);
    assert_eq!(boundary_flags(0, 5, 3, 10), (true, false));
    assert_eq!(boundary_flags(4, 5, 8, 10), (false, true));
}

#[test]
fn scroll_thumb_mapping() {
    // Track of 20 rows at y=2 with a 5-row thumb: 15 positions map onto 0..=30.
    assert_eq!(scroll_offset_for_thumb(2, 0, 2, 20, 5, 30), 0);
    assert_eq!(scroll_offset_for_thumb(17, 0, 2, 20, 5, 30), 30);
    assert_eq!(scroll_offset_for_thumb(9, 0, 2, 20, 5, 30), 14);
    assert_eq!(scroll_offset_for_thumb(50, 0, 2, 20, 5, 30), 30);
    assert_eq!(scroll_offset_for_thumb(9, 3, 2, 5, 5, 30), 0);
    assert!(thumb_contains(5, 2, 3, 2));
    assert!(!thumb_contains(7, 2, 3, 2));
}

// ---- ListState ----

#[test]
fn list_offsets_and_lookup() {
    let state = ListState::new(rows(&[1, 2, 3]));
    assert_eq!(state.cumulative_heights, vec![0, 1, 3, 6]);
    assert_eq!(state.total_height(), 6);
    assert_eq!(state.scroll.content_height, 6);
    assert_eq!(state.item_y_offset(2), 3);
    assert_eq!(state.item_y_offset(9), 0);
    assert_eq!(state.item_height(1), 2);
    assert_eq!(state.item_height(7), 1);
    assert_eq!(state.item_at_offset(0), 0);
    assert_eq!(state.item_at_offset(2), 1);
    assert_eq!(state.item_at_offset(3), 2);
    assert_eq!(state.item_at_offset(100), 3);
    assert_eq!(state.index_of(&20), Some(2));
    assert_eq!(state.index_of(&5), None);
}

#[test]
fn list_row_at_its_own_offset() {
    let state = ListState::new(rows(&[2, 1, 4, 3]));
    for i in 0..4 {
        assert_eq!(state.item_at_offset(state.item_y_offset(i)), i);
    }
}

#[test]
fn list_heights_saturate() {
    let state = ListState::new(rows(&[60000, 60000]));
    assert_eq!(state.total_height(), u16::MAX);
    assert_eq!(state.cumulative_heights, vec![0, 60000, u16::MAX]);
}

#[test]
fn list_scroll_into_view() {
    let mut state = ListState::new(rows(&[1; 20]));
    state.scroll.set_viewport(5);
    state.scroll_to_item(12);
    assert!(state.process_scroll());
    assert_eq!(state.scroll.offset, 8);
    assert_eq!(state.first_visible_index(), 8);
    state.scroll_to_item(3);
    assert!(state.process_scroll());
    assert_eq!(state.scroll.offset, 3);
    state.scroll_to_item(5);
    assert!(!state.process_scroll());
}

#[test]
fn list_visible_items_fill_viewport() {
    let mut state = ListState::new(rows(&[1; 30]));
    state.scroll.set_viewport(4);
    state.scroll.scroll_to(10);
    state.scroll.process_request();
    let v = calculate_visible_items(&state);
    let idx: Vec<usize> = v.iter().map(|x| x.index).collect();
    assert_eq!(idx, vec![10, 11, 12, 13]);
    let empty: ListState<Row> = ListState::new(Vec::new());
    assert!(calculate_visible_items(&empty).is_empty());
}

#[test]
fn list_activate_toggles_selection() {
    let mut state = ListState::new(rows(&[1, 1])).with_selection(SelectionMode::Multi);
    state.activate(10);
    assert_eq!(state.last_activated, Some(10));
    assert!(state.selection.is_selected(&10));
    state.activate(10);
    assert!(!state.selection.is_selected(&10));
}

// ---- TableState ----

fn cols() -> Vec<Column> {
    vec![
        Column::new("name".to_string(), "Name".to_string()),
        Column::new("size".to_string(), "Size".to_string()).fixed(8),
        Column::new("date".to_string(), "Date".to_string()).flex(2),
        Column::new("kind".to_string(), "Kind".to_string()).auto(),
    ]
}

#[test]
fn table_column_builders() {
    let c = cols();
    assert_eq!(c[0].width, ColumnWidth::Flex(1));
    assert_eq!(c[1].width, ColumnWidth::Fixed(8));
    assert_eq!(c[2].width, ColumnWidth::Flex(2));
    assert_eq!(c[3].width, ColumnWidth::Auto);
    assert_eq!(ColumnWidth::default(), ColumnWidth::Flex(1));
}

#[test]
fn table_frozen_columns_move_first_in_order() {
    let t = TableState::new(rows(&[1, 1]), cols()).with_frozen(&["kind", "size"]);
    let ids: Vec<&str> = t.columns.iter().map(|c| c.id.as_str()).collect();
    assert_eq!(ids, vec!["size", "kind", "name", "date"]);
    assert!(t.has_frozen_columns());
    let frozen: Vec<&str> = t.frozen_columns().iter().map(|c| c.id.as_str()).collect();
    assert_eq!(frozen, vec!["size", "kind"]);
    let rest: Vec<&str> = t.scrollable_columns().iter().map(|c| c.id.as_str()).collect();
    assert_eq!(rest, vec!["name", "date"]);
}

#[test]
fn table_setting_reordered_columns_again_keeps_order() {
    let mut t = TableState::new(rows(&[1, 1]), cols()).with_frozen(&["kind", "size"]);
    let again = t.columns.clone();
    t.set_columns(again);
    let ids: Vec<&str> = t.columns.iter().map(|c| c.id.as_str()).collect();
    assert_eq!(ids, vec!["size", "kind", "name", "date"]);
    assert_eq!(t.frozen_count, 2);
}

#[test]
fn table_without_frozen_columns() {
    let t = TableState::new(rows(&[1]), cols());
    assert!(!t.has_frozen_columns());
    assert!(t.frozen_columns().is_empty());
    assert_eq!(t.scrollable_columns().len(), 4);
}

#[test]
fn table_rows_and_focus() {
    let mut t = TableState::new(rows(&[1, 2, 3]), cols());
    assert_eq!(t.total_height(), 6);
    assert_eq!(t.row_y_offset(1), 1);
    assert_eq!(t.row_at_offset(4), 2);
    assert_eq!(t.row_height(2), 3);
    assert_eq!(t.index_of(&10), Some(1));
    t.focus_row(20);
    assert_eq!(t.focused_key, Some(20));
    t.blur_row(&10);
    assert_eq!(t.focused_key, Some(20));
    t.blur_row(&20);
    assert_eq!(t.focused_key, None);
    t.scroll.set_viewport(2);
    t.scroll_step_and_focus(1, 10);
    assert_eq!(t.scroll.offset, 1);
    assert_eq!(t.focused_key, Some(10));
}

// ---- TreeState ----

fn sample_tree() -> Vec<TreeNode<Row>> {
    vec![
        TreeNode::branch(
            Row { key: 1, h: 1 },
            vec![TreeNode::leaf(Row { key: 2, h: 1 }), TreeNode::branch(Row { key: 3, h: 2 }, vec![TreeNode::leaf(Row { key: 4, h: 1 })])],
        ),
        TreeNode::leaf(Row { key: 5, h: 1 }),
    ]
}

fn keys(t: &TreeState<Row>) -> Vec<u32> {
    t.flattened.iter().map(|n| n.key).collect()
}

#[test]
fn tree_starts_collapsed() {
    let t = TreeState::new(sample_tree());
    assert_eq!(keys(&t), vec![1, 5]);
    assert_eq!(t.visible_count(), 2);
    assert_eq!(t.total_height(), 2);
    assert!(t.flattened[0].has_children && !t.flattened[0].is_expanded);
    assert_eq!(t.flattened[0].first_child_index, None);
}

#[test]
fn tree_expand_flattens_in_preorder() {
    let mut t = TreeState::new(sample_tree());
    t.expand(&1);
    t.expand(&3);
    assert_eq!(keys(&t), vec![1, 2, 3, 4, 5]);
    assert_eq!(t.cumulative_heights, vec![0, 1, 2, 4, 5, 6]);
    assert_eq!(t.flattened[2].depth, 1);
    assert_eq!(t.flattened[3].depth, 2);
    assert_eq!(t.flattened[3].parent_key, Some(3));
    assert_eq!(t.flattened[0].first_child_index, Some(1));
    assert_eq!(t.flattened[2].first_child_index, Some(3));
    assert_eq!(t.scroll.content_height, 6);
    assert_eq!(t.node_at_offset(3), 2);
    assert_eq!(t.node_height(2), 2);
    assert_eq!(t.index_of(&4), Some(3));
}

#[test]
fn tree_toggle_twice_restores_visible_nodes() {
    let mut t = TreeState::new(sample_tree());
    t.expand(&1);
    let before = keys(&t);
    t.toggle_expanded(&3);
    assert_eq!(keys(&t), vec![1, 2, 3, 4, 5]);
    t.toggle_expanded(&3);
    assert_eq!(keys(&t), before);
}

#[test]
fn tree_expand_then_collapse_restores() {
    let mut t = TreeState::new(sample_tree());
    t.expand(&1);
    assert!(t.is_expanded(&1));
    t.collapse(&1);
    assert!(!t.is_expanded(&1));
    assert_eq!(keys(&t), vec![1, 5]);
}

#[test]
fn tree_collapsed_parent_hides_expanded_child() {
    let mut t = TreeState::new(sample_tree());
    t.expand(&3);
    assert_eq!(keys(&t), vec![1, 5]);
    t.expand(&1);
    assert_eq!(keys(&t), vec![1, 2, 3, 4, 5]);
}

#[test]
fn tree_roots_expanded_and_find() {
    let t = TreeState::new(sample_tree()).with_roots_expanded();
    assert_eq!(keys(&t), vec![1, 2, 3, 5]);
    assert_eq!(t.find_node(&4).map(|n| n.value.key), Some(4));
    assert!(t.find_node(&9).is_none());
}

#[test]
fn tree_left_and_right_keys() {
    let mut t = TreeState::new(sample_tree());
    assert_eq!(t.right_key(0), None);
    assert!(t.is_expanded(&1));
    assert_eq!(t.right_key(0), Some(2));
    assert_eq!(t.left_key(1), Some(1));
    assert_eq!(t.left_key(0), None);
    assert!(!t.is_expanded(&1));
    assert_eq!(t.left_key(0), None);
    assert_eq!(t.right_key(1), None);
    assert_eq!(t.right_key(9), None);
}

#[test]
fn tree_activate_and_scroll() {
    let mut t = TreeState::new(sample_tree()).with_roots_expanded().with_selection(SelectionMode::Single);
    t.activate(2);
    assert_eq!(t.last_activated, Some(2));
    assert!(t.selection.is_selected(&2));
    t.scroll.set_viewport(1);
    t.scroll.scroll_into_view(3);
    assert!(t.process_scroll());
    assert_eq!(t.scroll.offset, 4);
    assert_eq!(t.first_visible_index(), 3);
}

#[test]
fn tree_expand_all_and_collapse_all() {
    let mut t = TreeState::new(sample_tree());
    t.expand_all();
    assert_eq!(keys(&t), vec![1, 2, 3, 4, 5]);
    assert!(t.is_expanded(&1) && t.is_expanded(&3));
    assert!(!t.is_expanded(&2) && !t.is_expanded(&4) && !t.is_expanded(&5));
    assert!(t.flattened.iter().all(|n| !n.has_children || n.is_expanded));
    t.expand_all();
    assert_eq!(t.expanded.len(), 2);
    t.collapse_all();
    assert_eq!(keys(&t), vec![1, 5]);
    assert!(t.flattened.iter().all(|n| n.depth == 0 && !n.is_expanded));
    assert!(t.expanded.is_empty());
}

#[test]
fn tree_cursor_to_parent_and_first_child() {
    let mut t = TreeState::new(sample_tree());
    t.expand_all();
    let mut c = RowCursor::new();
    assert_eq!(cursor_to_parent(&t.flattened, &mut c), None);
    c.set_cursor(3, t.flattened.len());
    assert_eq!(cursor_to_parent(&t.flattened, &mut c), Some((Some(3), 2)));
    assert_eq!(cursor_to_parent(&t.flattened, &mut c), Some((Some(2), 0)));
    assert_eq!(cursor_to_parent(&t.flattened, &mut c), None);
    assert_eq!(c.cursor, Some(0));
    assert_eq!(cursor_to_first_child(&t.flattened, &mut c), Some((Some(0), 1)));
    assert_eq!(cursor_to_first_child(&t.flattened, &mut c), None);
    c.set_cursor(2, t.flattened.len());
    assert_eq!(cursor_to_first_child(&t.flattened, &mut c), Some((Some(2), 3)));
    c.set_cursor(4, t.flattened.len());
    assert_eq!(cursor_to_parent(&t.flattened, &mut c), None);
    assert_eq!(cursor_to_first_child(&t.flattened, &mut c), None);
}

#[test]
fn tree_arrow_actions() {
    let mut t = TreeState::new(sample_tree());
    let left = KeyCombo::plain(Key::Left);
    let right = KeyCombo::plain(Key::Right);
    assert_eq!(tree_arrow_action(&right, Some(&t.flattened[0])), Some(TreeArrowAction::Expand));
    assert_eq!(tree_arrow_action(&left, Some(&t.flattened[0])), Some(TreeArrowAction::ToParent));
    assert_eq!(tree_arrow_action(&right, Some(&t.flattened[1])), None);
    t.expand(&1);
    assert_eq!(tree_arrow_action(&right, Some(&t.flattened[0])), Some(TreeArrowAction::ToFirstChild));
    assert_eq!(tree_arrow_action(&left, Some(&t.flattened[0])), Some(TreeArrowAction::Collapse));
    let ctrl_left = KeyCombo { key: Key::Left, modifiers: Modifiers { ctrl: true, alt: false, shift: false } };
    assert_eq!(tree_arrow_action(&ctrl_left, Some(&t.flattened[0])), None);
    assert_eq!(tree_arrow_action::<u32>(&left, None), None);
    assert_eq!(tree_arrow_action(&KeyCombo::plain(Key::Up), Some(&t.flattened[0])), None);
}

#[test]
fn boundary_steps_scroll_and_name_the_next_row() {
    let mut l = ListState::new(rows(&[1, 1, 1, 1]));
    l.scroll.set_viewport(2);
    assert_eq!(l.scroll_step(1, 2), Some(20));
    assert_eq!(l.scroll.offset, 1);
    assert_eq!(l.scroll_step(1, 9), None);
    assert_eq!(l.scroll.offset, 2);
    assert_eq!(l.scroll_step(-1, 1), Some(10));
    assert_eq!(l.scroll.offset, 1);

    let mut tb = TableState::new(rows(&[1, 1, 1, 1]), cols());
    tb.scroll.set_viewport(2);
    assert_eq!(tb.scroll_step(1, 2), Some(20));
    assert_eq!((tb.scroll.offset, tb.focused_key), (1, Some(20)));
    assert_eq!(tb.scroll_step(1, 4), None);
    assert_eq!((tb.scroll.offset, tb.focused_key), (1, Some(20)));

    let mut t = TreeState::new(sample_tree());
    t.expand_all();
    t.scroll.set_viewport(2);
    assert_eq!(t.scroll_step(1, 2), Some(3));
    assert_eq!(t.scroll.offset, 1);
    assert_eq!(t.scroll_step(-1, 7), None);
    assert_eq!(t.scroll.offset, 0);
}

#[test]
fn tree_row_icons_and_indent() {
    let mut t = TreeState::new(sample_tree());
    t.expand(&1);
    let icon = |i: usize| node_icon(&t.flattened[i], "▶", "▼", " ");
    assert_eq!(icon(0), "▼");
    assert_eq!(icon(1), " ");
    assert_eq!(icon(2), "▶");
    assert_eq!(indent_width(t.flattened[2].depth, 2), 2);
    assert_eq!(indent_width(0, 2), 0);
    assert_eq!(indent_width(3, 4), 12);
}

#[test]
fn tree_view_cursor_and_scroll() {
    let mut t = TreeState::new(sample_tree());
    t.expand_all();
    let mut v = TreeView::new(1);
    v.set_visible_count(t.flattened.len());
    v.set_viewport_height(2);
    assert_eq!(v.max_offset(), 3);
    assert_eq!(v.viewport_item_count(), 2);
    assert_eq!(v.cursor_last(), Some((None, 4)));
    v.scroll_to_index(4);
    assert_eq!(v.scroll_offset, 3);
    assert_eq!(v.visible_range(), (3, 5));
    assert_eq!(v.index_from_viewport_y(1), Some(4));
    assert_eq!(v.index_from_viewport_y(2), None);
    assert_eq!(cursor_to_parent(&t.flattened, &mut v.cursor), None);
    v.set_cursor(3);
    assert_eq!(cursor_to_parent(&t.flattened, &mut v.cursor), Some((Some(3), 2)));
    v.scroll_to_index(v.cursor.cursor.unwrap());
    assert_eq!(v.scroll_offset, 2);
    v.scroll_by(-5);
    assert_eq!(v.scroll_offset, 0);
    v.scroll_to_bottom();
    assert_eq!(v.scroll_offset, 3);
    t.collapse_all();
    v.set_visible_count(t.flattened.len());
    assert_eq!(v.cursor.cursor, Some(1));
    assert_eq!(v.scroll_offset, 0);
    v.set_scroll_offset(9);
    assert_eq!(v.scroll_offset, 0);
    assert_eq!(v.cursor_up(), Some((Some(1), 0)));
    assert_eq!(v.cursor_down(), Some((Some(0), 1)));
    assert_eq!(v.cursor_first(), Some((Some(1), 0)));
    v.scroll_to_top();
    assert_eq!(v.scroll_offset, 0);
}

#[test]
fn table_and_tree_visible_rows_fill_viewport() {
    let mut t = TableState::new(rows(&[1, 2, 3, 1, 1]), cols());
    t.scroll.set_viewport(3);
    t.scroll.scroll_to(2);
    t.scroll.process_request();
    let v: Vec<usize> = calculate_visible_rows(&t).iter().map(|r| r.index).collect();
    assert_eq!(v, vec![1, 2]);
    let empty = TableState::new(rows(&[]), cols());
    assert!(calculate_visible_rows(&empty).is_empty());

    let mut tr = TreeState::new(sample_tree());
    tr.expand_all();
    let all: Vec<usize> = calculate_visible_nodes(&tr).iter().map(|n| n.index).collect();
    assert_eq!(all, vec![0, 1, 2, 3, 4]);
    tr.scroll.set_viewport(2);
    tr.scroll.scroll_to(2);
    tr.scroll.process_request();
    let v: Vec<usize> = calculate_visible_nodes(&tr).iter().map(|n| n.index).collect();
    assert_eq!(v, vec![2]);
}

#[test]
fn tree_rebuild_clamps_the_scroll_offset() {
    let mut t = TreeState::new(sample_tree());
    t.expand(&1);
    t.expand(&3);
    t.scroll.set_viewport(2);
    t.scroll.offset = 4;
    t.toggle_expanded(&3);
    assert_eq!(t.scroll.content_height, 5);
    assert_eq!(t.scroll.offset, 3);
    t.scroll.offset = 1;
    t.toggle_expanded(&3);
    assert_eq!(t.scroll.offset, 1);
    t.collapse(&1);
    assert_eq!(t.scroll.content_height, 2);
    assert_eq!(t.scroll.offset, 0);
    t.expand(&1);
    assert_eq!(t.scroll.offset, 0);
}
