use rafter_widgets::button::Button;
use rafter_widgets::checkbox::{Checkbox, CheckboxVariant};
use rafter_widgets::collapsible::Collapsible;
use rafter_widgets::events::{blur_should_close, starts_with, EventResult, EventSink, WidgetEvent, WidgetEventKind, WidgetEvents};
use rafter_widgets::input::{HandlerId, Key, KeyCombo, Modifiers, ScrollDirection};
use rafter_widgets::radio::{indicator, option_is_selected, RadioGroup, RadioState};
use rafter_widgets::scrollbar::{
    handle_scroll, handle_scrollbar_click, handle_scrollbar_drag, handle_scrollbar_release, DragTarget, ScrollbarClick,
    ScrollbarConfig, ScrollbarDrag, ScrollbarGeometry, ScrollbarVisibility,
};
use rafter_widgets::selection::SelectionMode;
use rafter_widgets::text_input::Input;
use rafter_widgets::traits::{
    navigation_target, selection_key_action, viewport_index, NavTarget, SelectionKeyAction, WidgetHandlers,
};
use rafter_widgets::widget_ids::{
    generate_auto_id, AutocompleteId, CheckboxId, CollapsibleId, InputId, RadioGroupId, SelectId, TableId, TreeId,
};

fn key(k: Key) -> KeyCombo {
    KeyCombo::plain(k)
}

fn ctrl(k: Key) -> KeyCombo {
    KeyCombo { key: k, modifiers: Modifiers { ctrl: true, alt: false, shift: false } }
}

// ---- ids ----

#[test]
fn widget_ids_render_prefix_and_counter() {
    assert_eq!(CheckboxId::new(0).to_string(), "__checkbox_0");
    assert_eq!(CollapsibleId::new(12).to_string(), "__collapsible_12");
    assert_eq!(InputId::new(7).to_string(), "__input_7");
    assert_eq!(RadioGroupId::new(3).to_string(), "__radio_group_3");
    assert_eq!(SelectId::new(45).to_string(), "__select_45");
    assert_eq!(TableId::new(100).to_string(), "__table_100");
    assert_eq!(TreeId::new(9).to_string(), "__tree_9");
    assert_eq!(AutocompleteId::new(2).to_string(), "__autocomplete_2");
    assert_eq!(generate_auto_id(31), "__button_31");
    assert_eq!(CheckboxId::new(5), CheckboxId::new(5));
    assert_ne!(CheckboxId::new(5), CheckboxId::new(6));
}

// ---- events ----

#[test]
fn event_results_and_prefixes() {
    assert!(!EventResult::Ignored.is_handled());
    assert!(EventResult::Consumed.is_handled());
    assert!(EventResult::StartDrag.is_handled());
    let e = WidgetEvent::new(WidgetEventKind::Sort, "tbl".to_string());
    assert_eq!(e.kind, WidgetEventKind::Sort);
    assert_eq!(e.widget_id, "tbl");
    assert!(starts_with("picker-day-1", "picker"));
    assert!(!starts_with("pick", "picker"));
    assert!(!blur_should_close(Some("picker-dropdown"), "picker"));
    assert!(blur_should_close(Some("other"), "picker"));
    assert!(blur_should_close(None, "picker"));
}

#[test]
fn widget_handlers_route_by_kind() {
    let mut h = WidgetHandlers::new();
    assert!(h.get(WidgetEventKind::Activate).is_none());
    h.on_expand = Some(HandlerId("opened".to_string()));
    h.on_change = Some(HandlerId("changed".to_string()));
    assert_eq!(h.get(WidgetEventKind::Expand).map(|x| x.0.as_str()), Some("opened"));
    assert_eq!(h.get(WidgetEventKind::Change).map(|x| x.0.as_str()), Some("changed"));
    assert!(h.get(WidgetEventKind::Collapse).is_none());
    assert!(WidgetHandlers::default().get(WidgetEventKind::Change).is_none());
}

// ---- checkbox / collapsible / button ----

#[test]
fn checkbox_keys_and_clicks() {
    assert_eq!(CheckboxVariant::default(), CheckboxVariant::Big);
    let mut c = Checkbox::with_label(CheckboxId::new(1), "Accept".to_string());
    let mut cx = EventSink::new();
    assert_eq!(c.on_key(&key(Key::Char(' ')), &mut cx), EventResult::Consumed);
    assert!(c.is_checked());
    assert_eq!(cx.events.len(), 1);
    assert_eq!(cx.events[0].kind, WidgetEventKind::Change);
    assert_eq!(cx.events[0].widget_id, "__checkbox_1");
    assert_eq!(c.on_key(&ctrl(Key::Enter), &mut cx), EventResult::Ignored);
    assert_eq!(c.on_key(&key(Key::Char('x')), &mut cx), EventResult::Ignored);
    assert_eq!(c.dispatch_click(&mut cx), EventResult::Consumed);
    assert!(!c.is_checked());
    assert_eq!(cx.events.len(), 2);
    assert_eq!(c.intrinsic_width(), 8);
    assert_eq!(Checkbox::new(CheckboxId::new(2)).intrinsic_width(), 1);
    let mut d = Checkbox::checked(CheckboxId::new(3));
    d.set_checked(true);
    assert!(!d.is_dirty());
    d.set_checked(false);
    assert!(d.is_dirty());
    d.clear_dirty();
    assert!(!d.is_dirty());
    d.focus();
    assert!(d.take_focus_request());
    assert!(!d.take_focus_request());
}

#[test]
fn checkbox_width_counts_bytes() {
    let c = Checkbox::with_label(CheckboxId::new(1), "né".to_string());
    assert_eq!(c.intrinsic_width(), 5);
}

#[test]
fn collapsible_reports_expand_and_collapse() {
    let mut c = Collapsible::with_title(CollapsibleId::new(4), "Details".to_string());
    let mut cx = EventSink::new();
    assert_eq!(c.on_key(&key(Key::Enter), &mut cx), EventResult::Consumed);
    assert!(c.is_expanded());
    assert_eq!(cx.events[0].kind, WidgetEventKind::Expand);
    assert_eq!(c.dispatch_click(0, &mut cx), EventResult::Consumed);
    assert!(!c.is_expanded());
    assert_eq!(cx.events[1].kind, WidgetEventKind::Collapse);
    assert_eq!(c.dispatch_click(2, &mut cx), EventResult::Ignored);
    assert_eq!(cx.events.len(), 2);
    assert_eq!(c.intrinsic_width(), 9);
    assert_eq!(Collapsible::new(CollapsibleId::new(0)).intrinsic_width(), 2);
    let mut e = Collapsible::expanded(CollapsibleId::new(1));
    e.expand();
    assert!(!e.is_dirty());
    e.collapse();
    assert!(e.is_dirty() && !e.is_expanded());
}

#[test]
fn button_activates() {
    let b = Button::new(0, "OK".to_string());
    assert_eq!(b.id_string(), "__button_0");
    assert_eq!(b.intrinsic_width(), 4);
    let mut cx = EventSink::new();
    assert_eq!(b.dispatch_key(&key(Key::Char(' ')), &mut cx), EventResult::Consumed);
    assert_eq!(b.dispatch_key(&key(Key::Up), &mut cx), EventResult::Ignored);
    assert_eq!(b.dispatch_click(&mut cx), EventResult::Consumed);
    assert_eq!(cx.events.len(), 2);
    assert!(cx.events.iter().all(|e| e.kind == WidgetEventKind::Activate && e.widget_id == "__button_0"));
    let mut named = Button::with_id("save".to_string(), "Save".to_string());
    named.set_label("Save all".to_string());
    assert_eq!(named.label(), "Save all");
    assert!(named.is_dirty());
}

// ---- radio ----

#[test]
fn radio_state_selection() {
    let r = RadioState::new(vec![(1, "One".to_string()), (2, "Two".to_string())]).with_value(2);
    assert!(!option_is_selected(&r, 0));
    assert!(option_is_selected(&r, 1));
    assert_eq!(indicator(true), "●");
    assert_eq!(indicator(false), "○");
}

#[test]
fn radio_group_navigation_wraps() {
    let mut g = RadioGroup::with_options(RadioGroupId::new(0), vec!["a".to_string(), "b".to_string(), "c".to_string()]);
    let mut cx = EventSink::new();
    assert_eq!(g.on_key(&key(Key::Up), &mut cx), EventResult::Consumed);
    assert_eq!(g.selected(), Some(2));
    assert_eq!(g.on_key(&key(Key::Down), &mut cx), EventResult::Consumed);
    assert_eq!(g.selected(), Some(0));
    assert_eq!(g.on_key(&key(Key::Char('j')), &mut cx), EventResult::Consumed);
    assert_eq!(g.selected(), Some(1));
    assert_eq!(g.on_key(&key(Key::Char('k')), &mut cx), EventResult::Consumed);
    assert_eq!(g.selected(), Some(0));
    assert_eq!(g.on_key(&key(Key::End), &mut cx), EventResult::Consumed);
    assert_eq!(g.selected(), Some(2));
    assert_eq!(g.on_key(&key(Key::Home), &mut cx), EventResult::Consumed);
    assert_eq!(g.selected(), Some(0));
    assert_eq!(g.on_key(&key(Key::Enter), &mut cx), EventResult::Consumed);
    assert_eq!(g.on_key(&ctrl(Key::Down), &mut cx), EventResult::Ignored);
    assert_eq!(g.on_key(&key(Key::Tab), &mut cx), EventResult::Ignored);
    assert_eq!(g.selected(), Some(0));
    assert!(cx.events.is_empty());
}

#[test]
fn radio_group_down_then_up_returns() {
    let mut g = RadioGroup::with_options(RadioGroupId::new(0), vec!["a".to_string(), "b".to_string()]);
    g.select(1);
    let mut cx = EventSink::new();
    g.on_key(&key(Key::Down), &mut cx);
    g.on_key(&key(Key::Up), &mut cx);
    assert_eq!(g.selected(), Some(1));
}

#[test]
fn radio_group_options_and_errors() {
    let mut g = RadioGroup::with_options(RadioGroupId::new(1), vec!["x".to_string(), "y".to_string()]);
    let mut cx = EventSink::new();
    assert_eq!(RadioGroup::new(RadioGroupId::new(2)).on_key(&key(Key::Down), &mut cx), EventResult::Ignored);
    g.select(5);
    assert_eq!(g.selected(), None);
    assert_eq!(g.dispatch_click(1), EventResult::Consumed);
    assert_eq!(g.selected_label(), Some("y".to_string()));
    g.set_error("pick one".to_string());
    assert!(g.has_error());
    g.select(0);
    assert!(!g.has_error());
    g.select(1);
    g.set_options(vec!["only".to_string()]);
    assert_eq!(g.selected(), None);
    assert_eq!(g.options(), vec!["only".to_string()]);
    assert_eq!(g.label_at(0), Some("only".to_string()));
    assert_eq!(g.label_at(1), None);
    g.select(0);
    g.clear();
    assert_eq!(g.selected(), None);
    let g = g.with_indicators('*', '.');
    assert_eq!((g.selected_char(), g.unselected_char()), ('*', '.'));
}

// ---- input ----

#[test]
fn input_editing_keys() {
    let mut i = Input::new(InputId::new(1));
    let mut cx = EventSink::new();
    for c in "héllo".chars() {
        assert_eq!(i.on_key(&key(Key::Char(c)), &mut cx), EventResult::Consumed);
    }
    assert_eq!(i.value(), "héllo");
    assert_eq!(i.len(), 6);
    assert_eq!(i.cursor(), 6);
    assert_eq!(cx.events.len(), 5);
    assert_eq!(cx.input_text, Some("héllo".to_string()));
    i.on_key(&key(Key::Home), &mut cx);
    i.on_key(&key(Key::Right), &mut cx);
    i.on_key(&key(Key::Right), &mut cx);
    assert_eq!(i.cursor(), 3);
    assert_eq!(cx.events.len(), 5);
    i.on_key(&key(Key::Backspace), &mut cx);
    assert_eq!(i.value(), "hllo");
    i.on_key(&key(Key::Delete), &mut cx);
    assert_eq!(i.value(), "hlo");
    assert_eq!(cx.events.len(), 7);
    assert_eq!(cx.events[6].widget_id, "__input_1");
    assert_eq!(i.on_key(&ctrl(Key::Char('a')), &mut cx), EventResult::Ignored);
    assert_eq!(i.on_key(&key(Key::Escape), &mut cx), EventResult::Ignored);
    i.on_key(&key(Key::End), &mut cx);
    i.on_key(&key(Key::Delete), &mut cx);
    assert_eq!(i.value(), "hlo");
    assert_eq!(cx.events.len(), 7);
}

#[test]
fn input_type_then_backspace_restores() {
    let mut i = Input::with_value(InputId::new(2), "abc".to_string());
    i.set_cursor(1);
    let mut cx = EventSink::new();
    i.on_key(&KeyCombo { key: Key::Char('Z'), modifiers: Modifiers { ctrl: false, alt: false, shift: true } }, &mut cx);
    assert_eq!(i.value(), "aZbc");
    i.on_key(&key(Key::Backspace), &mut cx);
    assert_eq!(i.value(), "abc");
    assert_eq!(i.cursor(), 1);
    i.on_key(&key(Key::Left), &mut cx);
    i.on_key(&key(Key::Right), &mut cx);
    assert_eq!(i.cursor(), 1);
}

#[test]
fn input_values_and_width() {
    let mut i = Input::with_placeholder(InputId::new(3), "Search files".to_string());
    assert_eq!(i.intrinsic_width(), 17);
    i.set_value("x".to_string());
    assert_eq!(i.intrinsic_width(), 15);
    assert_eq!(i.cursor(), 1);
    i.set_error("bad".to_string());
    i.insert_char('y');
    assert!(!i.has_error());
    assert_eq!(i.value(), "xy");
    i.set_cursor(99);
    assert_eq!(i.cursor(), 2);
    i.clear();
    assert!(i.is_empty());
    assert_eq!(i.cursor(), 0);
    i.delete_char_before();
    assert!(i.is_empty());
}

// ---- scrollbar ----

fn vbar() -> ScrollbarGeometry {
    ScrollbarGeometry { x: 79, y: 1, width: 1, height: 20, handle_pos: 5, handle_size: 4 }
}

#[test]
fn scrollbar_geometry_hit_tests() {
    let g = vbar();
    assert!(g.contains(79, 1));
    assert!(g.contains(79, 20));
    assert!(!g.contains(79, 21));
    assert!(!g.contains(78, 5));
    assert!(g.handle_contains(79, 6, true));
    assert!(g.handle_contains(79, 9, true));
    assert!(!g.handle_contains(79, 10, true));
    assert_eq!(ScrollbarVisibility::default(), ScrollbarVisibility::Auto);
    let cfg = ScrollbarConfig::default();
    assert_eq!(cfg.vertical, ScrollbarVisibility::Auto);
    assert!(cfg.track_color.is_none());
    assert_eq!(ScrollbarGeometry::default().width, 0);
}

#[test]
fn scrollbar_click_on_handle_and_track() {
    let g = vbar();
    assert_eq!(
        handle_scrollbar_click(Some(g), None, 79, 8),
        Some((EventResult::StartDrag, ScrollbarClick::Handle(ScrollbarDrag { is_vertical: true, grab_offset: 2 })))
    );
    assert_eq!(
        handle_scrollbar_click(Some(g), None, 79, 15),
        Some((EventResult::StartDrag, ScrollbarClick::Track { is_vertical: true }))
    );
    let h = ScrollbarGeometry { x: 0, y: 24, width: 80, height: 1, handle_pos: 10, handle_size: 20 };
    assert_eq!(
        handle_scrollbar_click(Some(g), Some(h), 12, 24),
        Some((EventResult::StartDrag, ScrollbarClick::Handle(ScrollbarDrag { is_vertical: false, grab_offset: 2 })))
    );
    assert_eq!(handle_scrollbar_click(Some(g), Some(h), 40, 10), None);
}

#[test]
fn scrollbar_wheel_drag_release() {
    assert_eq!(handle_scroll(ScrollDirection::Up, 3), (EventResult::Consumed, (0, -3)));
    assert_eq!(handle_scroll(ScrollDirection::Down, 3), (EventResult::Consumed, (0, 3)));
    assert_eq!(handle_scroll(ScrollDirection::Left, 2), (EventResult::Consumed, (-2, 0)));
    assert_eq!(handle_scroll(ScrollDirection::Right, 65535), (EventResult::Consumed, (-1, 0)));
    let drag = ScrollbarDrag { is_vertical: true, grab_offset: 1 };
    assert_eq!(
        handle_scrollbar_drag(Some(drag), Some(vbar()), None),
        (EventResult::Consumed, Some(DragTarget { is_vertical: true, geometry: vbar(), grab_offset: 1 }))
    );
    assert_eq!(handle_scrollbar_drag(Some(drag), None, None), (EventResult::Consumed, None));
    assert_eq!(handle_scrollbar_drag(None, Some(vbar()), None), (EventResult::Ignored, None));
    let mut active = Some(drag);
    assert_eq!(handle_scrollbar_release(&mut active), EventResult::Consumed);
    assert_eq!(active, None);
    assert_eq!(handle_scrollbar_release(&mut active), EventResult::Ignored);
}

// ---- navigation decisions ----

#[test]
fn navigation_and_selection_keys() {
    assert_eq!(navigation_target(Key::Up, Some(3), 10, 4), Some(NavTarget::Up));
    assert_eq!(navigation_target(Key::End, None, 10, 4), Some(NavTarget::Last));
    assert_eq!(navigation_target(Key::PageUp, Some(3), 10, 4), Some(NavTarget::To(0)));
    assert_eq!(navigation_target(Key::PageUp, Some(9), 10, 4), Some(NavTarget::To(5)));
    assert_eq!(navigation_target(Key::PageDown, Some(3), 10, 4), Some(NavTarget::To(7)));
    assert_eq!(navigation_target(Key::PageDown, Some(8), 10, 4), Some(NavTarget::To(9)));
    assert_eq!(navigation_target(Key::PageDown, None, 10, 0), Some(NavTarget::To(1)));
    assert_eq!(navigation_target(Key::PageDown, None, 0, 3), Some(NavTarget::To(0)));
    assert_eq!(navigation_target(Key::Enter, None, 10, 4), None);
    assert_eq!(selection_key_action(&key(Key::Char(' ')), SelectionMode::Multi), Some(SelectionKeyAction::ToggleAtCursor));
    assert_eq!(selection_key_action(&key(Key::Char(' ')), SelectionMode::Single), None);
    assert_eq!(selection_key_action(&ctrl(Key::Char('a')), SelectionMode::Multi), Some(SelectionKeyAction::SelectAll));
    assert_eq!(selection_key_action(&key(Key::Char('a')), SelectionMode::Multi), None);
    assert_eq!(selection_key_action(&key(Key::Escape), SelectionMode::Single), Some(SelectionKeyAction::DeselectAll));
    assert_eq!(selection_key_action(&key(Key::Escape), SelectionMode::Disabled), None);
    assert_eq!(selection_key_action(&key(Key::Enter), SelectionMode::Disabled), Some(SelectionKeyAction::Activate));
    assert_eq!(viewport_index(10, 2, 20, 5), Some(7));
    assert_eq!(viewport_index(10, 2, 7, 5), None);
    assert_eq!(viewport_index(10, 0, 20, 5), None);
}
