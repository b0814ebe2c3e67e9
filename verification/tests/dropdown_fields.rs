use rafter_widgets::autocomplete::Autocomplete;
use rafter_widgets::events::{EventResult, EventSink, WidgetEventKind, WidgetEvents};
use rafter_widgets::input::{Key, KeyCombo, Modifiers, ScrollDirection};
use rafter_widgets::select::Select;
use rafter_widgets::selection::SelectionMode;
use rafter_widgets::traits::{click_action, ClickAction};
use rafter_widgets::widget_ids::{AutocompleteId, SelectId};

fn key(k: Key) -> KeyCombo {
    KeyCombo::plain(k)
}

fn fruits() -> Vec<String> {
    vec!["apple".to_string(), "banana".to_string(), "cherry".to_string()]
}

#[test]
fn autocomplete_field_typing_filters_and_reports() {
    let mut a = Autocomplete::new(AutocompleteId::new(3));
    a.set_option_labels(fruits());
    assert_eq!(a.filtered_count(), 3);
    let mut cx = EventSink::new();
    assert_eq!(a.on_key(&key(Key::Char('b')), &mut cx), EventResult::Consumed);
    assert!(a.is_open());
    assert_eq!(a.value(), "b");
    assert_eq!(cx.input_text, Some("b".to_string()));
    assert_eq!(cx.events.len(), 1);
    assert_eq!(cx.events[0].kind, WidgetEventKind::Change);
    assert_eq!(cx.events[0].widget_id, "__autocomplete_3");
    a.on_key(&key(Key::Char('a')), &mut cx);
    a.on_key(&key(Key::Char('n')), &mut cx);
    assert_eq!(a.filtered_count(), 1);
    assert_eq!(a.filtered_label(0), Some("banana".to_string()));
    assert_eq!(a.on_key(&key(Key::Enter), &mut cx), EventResult::Consumed);
    assert!(!a.is_open());
    assert_eq!(a.value(), "banana");
    assert_eq!(a.text_cursor(), 6);
    assert_eq!(cx.events.last().map(|e| e.kind), Some(WidgetEventKind::Select));
}

#[test]
fn autocomplete_field_open_close_keys() {
    let mut a = Autocomplete::with_placeholder(AutocompleteId::new(0), "Fruit".to_string());
    a.set_option_labels(fruits());
    let mut cx = EventSink::new();
    assert_eq!(a.on_key(&key(Key::Char(' ')), &mut cx), EventResult::Consumed);
    assert!(a.is_open());
    assert_eq!(a.value(), "");
    assert_eq!(a.on_key(&key(Key::Down), &mut cx), EventResult::Consumed);
    assert_eq!(a.cursor(), 1);
    a.on_key(&key(Key::Down), &mut cx);
    a.on_key(&key(Key::Down), &mut cx);
    assert_eq!(a.cursor(), 2);
    a.on_key(&key(Key::Up), &mut cx);
    assert_eq!(a.cursor(), 1);
    assert_eq!(a.on_key(&key(Key::Escape), &mut cx), EventResult::Consumed);
    assert!(!a.is_open());
    assert_eq!(a.on_key(&key(Key::Escape), &mut cx), EventResult::Ignored);
    let ctrl = KeyCombo { key: Key::Char('x'), modifiers: Modifiers { ctrl: true, alt: false, shift: false } };
    assert_eq!(a.on_key(&ctrl, &mut cx), EventResult::Ignored);
    assert!(cx.events.is_empty());
    assert_eq!(a.intrinsic_width(), 15);
}

#[test]
fn autocomplete_field_mouse() {
    let mut a = Autocomplete::with_value(AutocompleteId::new(1), "an".to_string());
    a.set_option_labels(fruits());
    let mut cx = EventSink::new();
    assert_eq!(a.dispatch_overlay_click(0, &mut cx), EventResult::Ignored);
    assert_eq!(a.dispatch_click(), EventResult::Consumed);
    assert!(a.is_open());
    assert_eq!(a.dispatch_overlay_hover(9), EventResult::Ignored);
    assert_eq!(a.dispatch_overlay_scroll(ScrollDirection::Left), EventResult::Ignored);
    assert_eq!(a.dispatch_overlay_click(0, &mut cx), EventResult::Consumed);
    assert_eq!(a.value(), "banana");
    assert!(!a.is_open());
    assert_eq!(cx.events.len(), 1);
    a.dispatch_blur();
    assert!(!a.is_open());
}

#[test]
fn autocomplete_field_editing() {
    let mut a = Autocomplete::with_value(AutocompleteId::new(2), "grape".to_string());
    a.text_cursor_home();
    a.delete_char_at();
    assert_eq!(a.value(), "rape");
    a.text_cursor_end();
    a.delete_char_before();
    assert_eq!(a.value(), "rap");
    a.set_error("no".to_string());
    a.insert_char('t');
    assert!(!a.has_error());
    assert_eq!(a.value(), "rapt");
    a.clear();
    assert!(a.is_empty());
    a.set_items(&["x", "y"]);
    assert_eq!(a.filtered_count(), 2);
}

#[test]
fn select_field_keys() {
    let mut s = Select::with_placeholder(SelectId::new(5), "Pick".to_string());
    s.set_options_count(3);
    s.set_option_labels(fruits());
    let mut cx = EventSink::new();
    assert_eq!(s.on_key(&key(Key::Up), &mut cx), EventResult::Ignored);
    assert_eq!(s.on_key(&key(Key::Enter), &mut cx), EventResult::Consumed);
    assert!(s.is_open());
    assert_eq!(s.cursor(), 0);
    s.on_key(&key(Key::End), &mut cx);
    assert_eq!(s.cursor(), 2);
    s.on_key(&key(Key::Down), &mut cx);
    assert_eq!(s.cursor(), 2);
    s.on_key(&key(Key::Up), &mut cx);
    assert_eq!(s.cursor(), 1);
    assert_eq!(s.on_key(&key(Key::Char(' ')), &mut cx), EventResult::Consumed);
    assert_eq!(s.selected_index(), Some(1));
    assert_eq!(s.selected_label(), Some("banana".to_string()));
    assert!(!s.is_open());
    assert_eq!(cx.events.len(), 1);
    assert_eq!(cx.events[0].kind, WidgetEventKind::Change);
    assert_eq!(cx.events[0].widget_id, "__select_5");
    s.on_key(&key(Key::Down), &mut cx);
    assert_eq!(s.cursor(), 1);
    s.on_key(&key(Key::Home), &mut cx);
    assert_eq!(s.cursor(), 0);
    s.on_key(&key(Key::Escape), &mut cx);
    assert!(!s.is_open());
    assert_eq!(s.selected_index(), Some(1));
    assert_eq!(s.intrinsic_width(), 10);
}

#[test]
fn select_field_mouse_and_errors() {
    let mut s = Select::new(SelectId::new(0));
    s.set_options_count(2);
    let mut cx = EventSink::new();
    assert_eq!(s.dispatch_overlay_click(1, &mut cx), EventResult::Ignored);
    s.dispatch_click();
    assert_eq!(s.dispatch_overlay_hover(1), EventResult::Consumed);
    assert_eq!(s.cursor(), 1);
    assert_eq!(s.dispatch_overlay_scroll(ScrollDirection::Up), EventResult::Consumed);
    assert_eq!(s.cursor(), 0);
    assert_eq!(s.dispatch_overlay_click(5, &mut cx), EventResult::Consumed);
    assert!(s.is_open());
    assert_eq!(s.dispatch_overlay_click(1, &mut cx), EventResult::Consumed);
    assert_eq!(s.selected_index(), Some(1));
    s.set_error("required".to_string());
    s.set_selected_index(Some(1));
    assert!(s.has_error());
    s.clear();
    assert!(!s.has_error());
    assert_eq!(s.selected_index(), None);
}

#[test]
fn click_actions_by_mode() {
    assert_eq!(click_action(SelectionMode::Disabled, true, true), ClickAction::Activate);
    assert_eq!(click_action(SelectionMode::Single, true, false), ClickAction::Toggle);
    assert_eq!(click_action(SelectionMode::Single, false, true), ClickAction::Activate);
    assert_eq!(click_action(SelectionMode::Multi, true, true), ClickAction::RangeSelect { extend: true });
    assert_eq!(click_action(SelectionMode::Multi, false, true), ClickAction::RangeSelect { extend: false });
    assert_eq!(click_action(SelectionMode::Multi, true, false), ClickAction::Toggle);
    assert_eq!(click_action(SelectionMode::Multi, false, false), ClickAction::Activate);
}
