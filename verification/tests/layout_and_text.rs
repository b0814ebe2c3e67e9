use rafter_widgets::autocomplete::{Autocomplete, AutocompleteState};
use rafter_widgets::calendar::{weekday_index, CalendarDate};
use rafter_widgets::date_picker::DatePickerState;
use rafter_widgets::events::{EventResult, EventSink, WidgetEvents};
use rafter_widgets::input::{Key, KeyCombo, Modifiers};
use rafter_widgets::list_layout::{content_width, list_rows, RowPlacement};
use rafter_widgets::scroll::{ScrollRequest, ScrollState};
use rafter_widgets::scroll_area::{calculate_wrapped_content_size, ContentNode};
use rafter_widgets::select::SelectState;
use rafter_widgets::selection::{Selection, SelectionMode};
use rafter_widgets::trigger::{
    autocomplete_trigger_text, cursor_window, fit_text, indicator, select_trigger_text, text_width, TriggerText,
};
use rafter_widgets::widget_ids::AutocompleteId;

// ---- single value of a select or autocomplete ----

#[test]
fn select_value_is_none_with_several_in_multi_mode() {
    let opts = vec![(1, "One".to_string()), (2, "Two".to_string()), (3, "Three".to_string())];
    let mut m = SelectState::new(opts.clone()).with_selection(SelectionMode::Multi);
    assert_eq!(m.value(), None);
    m.choose_option(2);
    assert_eq!(m.value(), Some(&3));
    m.choose_option(0);
    assert_eq!(m.value(), None);
    let s = SelectState::new(opts).with_value(2);
    assert_eq!(s.value(), Some(&2));
}

#[test]
fn autocomplete_value_is_none_with_several_in_multi_mode() {
    let opts = vec![(1, "Apple".to_string()), (2, "Banana".to_string())];
    let a = AutocompleteState::new(opts).with_selection(SelectionMode::Multi).with_value(1);
    assert_eq!(a.value(), Some(&1));
    let b = a.with_value(2);
    assert_eq!(b.value(), None);
    assert_eq!(b.selected_values().len(), 2);
}

// ---- selection keeps each key once ----

#[test]
fn selection_holds_each_key_once() {
    let mut s: Selection<u32> = Selection::multi();
    s.insert(4);
    s.insert(4);
    s.insert(7);
    assert_eq!(s.get_all(), vec![&4, &7]);
    assert!(s.toggle(4));
    assert_eq!(s.get_all(), vec![&7]);
    let mut d: Selection<u32> = Selection::none();
    assert!(!d.toggle(1));
    assert!(d.get_all().is_empty());
    s.clear();
    assert_eq!(s.get_single(), None);
    assert_eq!(s.mode, SelectionMode::Multi);
}

// ---- scroll requests ----

#[test]
fn apply_request_gives_back_the_request() {
    let mut s = ScrollState::new();
    s.set_content_height(50);
    s.set_viewport(10);
    assert_eq!(s.apply_request(ScrollRequest::PageDown), Some(ScrollRequest::PageDown));
    assert_eq!(s.offset, 10);
    assert_eq!(s.apply_request(ScrollRequest::End), Some(ScrollRequest::End));
    assert_eq!(s.offset, 40);
    assert_eq!(s.apply_request(ScrollRequest::IntoView(3)), Some(ScrollRequest::IntoView(3)));
    assert_eq!(s.offset, 40);
    s.home();
    assert_eq!(s.process_request(), Some(ScrollRequest::Home));
    assert_eq!(s.offset, 0);
    assert_eq!(s.process_request(), None);
}

// ---- autocomplete keys ----

#[test]
fn autocomplete_enter_puts_the_label_under_the_cursor() {
    let mut a = Autocomplete::new(AutocompleteId::new(1));
    a.set_option_labels(vec!["apple".to_string(), "banana".to_string(), "cherry".to_string()]);
    let mut cx = EventSink::new();
    a.on_key(&KeyCombo::plain(Key::Down), &mut cx);
    assert!(a.is_open());
    a.on_key(&KeyCombo::plain(Key::Down), &mut cx);
    assert_eq!(a.cursor(), 1);
    assert_eq!(a.on_key(&KeyCombo::plain(Key::Enter), &mut cx), EventResult::Consumed);
    assert_eq!(a.value(), "banana");
    assert_eq!(a.text_cursor(), 6);
    assert!(!a.is_open());
}

#[test]
fn autocomplete_ignores_alt_keys() {
    let mut a = Autocomplete::new(AutocompleteId::new(2));
    a.set_option_labels(vec!["apple".to_string()]);
    let mut cx = EventSink::new();
    let alt = KeyCombo { key: Key::Enter, modifiers: Modifiers { ctrl: false, alt: true, shift: false } };
    assert_eq!(a.on_key(&alt, &mut cx), EventResult::Ignored);
    assert!(!a.is_open());
    assert!(cx.events.is_empty());
}

// ---- autocomplete dropdown ----

#[test]
fn autocomplete_dropdown_size_and_blur() {
    let opts: Vec<(u32, String)> = (0..12).map(|i| (i, format!("item {}", i))).collect();
    let mut a = AutocompleteState::new(opts);
    assert_eq!(a.dropdown_rows(), 10);
    assert!(a.dropdown_needs_scrollbar());
    assert_eq!(a.input_width(None, "Pick"), 9);
    assert_eq!(a.input_width(Some(30), "Pick"), 30);
    a.text_changed("item 1".to_string());
    assert_eq!(a.filtered.len(), 3);
    assert_eq!(a.dropdown_rows(), 3);
    assert!(!a.dropdown_needs_scrollbar());
    assert!(a.open);
    assert!(!a.blur(Some("ac-dropdown"), "ac"));
    assert!(a.open);
    assert!(a.blur(Some("other"), "ac"));
    assert!(!a.open);
    a.open_dropdown();
    assert!(a.blur(None, "ac"));
    assert!(!a.open);
}

// ---- trigger text ----

#[test]
fn trigger_text_fits_and_pads() {
    assert_eq!(text_width(12), 10);
    assert_eq!(text_width(1), 0);
    assert_eq!(fit_text("abc", 5), "abc  ");
    assert_eq!(fit_text("abcdef", 4), "abc…");
    assert_eq!(fit_text("abc", 0), "…");
    assert_eq!(select_trigger_text("Choose", 6), "Cho…");
    assert_eq!(select_trigger_text("One", 8), "One   ");
    assert_eq!(indicator(true), "▲");
    assert_eq!(indicator(false), "▼");
}

#[test]
fn trigger_text_window_around_cursor() {
    let w = cursor_window("hello world", 2, 6);
    assert_eq!((w.before.as_str(), w.at, w.after.as_str(), w.padding), ("he", 'l', "lo ", 0));
    let cut = cursor_window("hello world", 5, 4);
    assert_eq!((cut.before.as_str(), cut.at, cut.after.as_str(), cut.padding), ("llo", ' ', "", 0));
    let end = cursor_window("hi", 2, 6);
    assert_eq!((end.before.as_str(), end.at, end.after.as_str(), end.padding), ("hi", ' ', "", 3));
    match autocomplete_trigger_text("hi", "Fruit", 0, true, 8) {
        TriggerText::Cursor(c) => {
            assert_eq!((c.before.as_str(), c.at, c.after.as_str(), c.padding), ("", 'h', "i", 4));
        },
        TriggerText::Plain(_) => panic!("focused field with a value shows its cursor"),
    }
    match autocomplete_trigger_text("", "Fruit", 0, true, 8) {
        TriggerText::Plain(s) => assert_eq!(s, "Fruit "),
        TriggerText::Cursor(_) => panic!("an empty field shows its placeholder"),
    }
    match autocomplete_trigger_text("banana split", "Fruit", 3, false, 8) {
        TriggerText::Plain(s) => assert_eq!(s, "banan…"),
        TriggerText::Cursor(_) => panic!("an unfocused field shows no cursor"),
    }
}

// ---- list rows ----

#[test]
fn list_rows_are_placed_and_clipped() {
    assert_eq!(content_width(20, true), 18);
    assert_eq!(content_width(1, true), 0);
    assert_eq!(content_width(20, false), 20);
    let rows = list_rows(5, 7, 18, 2, 6, 3, 4);
    assert_eq!(
        rows,
        vec![
            RowPlacement { index: 2, y: 7, height: 3 },
            RowPlacement { index: 3, y: 10, height: 2 },
        ]
    );
    assert!(list_rows(5, 0, 18, 0, 3, 1, 0).is_empty());
    assert!(list_rows(5, 7, 0, 0, 3, 1, 0).is_empty());
    let all = list_rows(0, 10, 5, 0, 3, 2, 0);
    assert_eq!(all.iter().map(|r| (r.index, r.y, r.height)).collect::<Vec<_>>(), vec![(0, 0, 2), (1, 2, 2), (2, 4, 2)]);
}

// ---- dates ----

#[test]
fn weekday_counts_days_from_a_monday() {
    assert_eq!(weekday_index(CalendarDate { year: 2024, month: 1, day: 1 }), 0);
    assert_eq!(weekday_index(CalendarDate { year: 2000, month: 3, day: 1 }), 2);
    assert_eq!(weekday_index(CalendarDate { year: 1, month: 1, day: 1 }), 0);
    assert_eq!(weekday_index(CalendarDate { year: 0, month: 12, day: 31 }), 6);
}

#[test]
fn date_picker_time_and_set_date() {
    let today = CalendarDate { year: 2024, month: 5, day: 17 };
    let mut p = DatePickerState::new(today);
    assert_eq!(p.time(), None);
    p.set_date(CalendarDate { year: 2023, month: 2, day: 28 });
    assert_eq!(p.date(), Some(CalendarDate { year: 2023, month: 2, day: 28 }));
    assert_eq!(p.viewing, CalendarDate { year: 2023, month: 2, day: 1 });
    let q = DatePickerState::new(today).with_datetime(CalendarDate { year: 2024, month: 5, day: 1 }, 9, 30);
    assert_eq!(q.time(), Some((9, 30)));
}

// ---- scroll-area content size ----

#[test]
fn wrapped_content_size_of_text_columns_and_rows() {
    let text = |s: &str| ContentNode::Text { content: s.to_string() };
    assert_eq!(calculate_wrapped_content_size(&text("hello world"), 5), (5, 3));
    assert_eq!(calculate_wrapped_content_size(&text("a\nb"), 10), (10, 2));
    assert_eq!(calculate_wrapped_content_size(&text(""), 10), (10, 1));
    assert_eq!(calculate_wrapped_content_size(&text("abc"), 0), (0, 1));
    let column = ContentNode::Column {
        children: vec![text("abcdef"), ContentNode::Sized { width: 3, height: 2 }],
        padding: 1,
        gap: 1,
        bordered: true,
    };
    assert_eq!(calculate_wrapped_content_size(&column, 8), (8, 9));
    let row = ContentNode::Row { children: vec![text("abcdef"), text("ab")], padding: 0, gap: 2, bordered: false };
    assert_eq!(calculate_wrapped_content_size(&row, 8), (8, 2));
    let empty_row = ContentNode::Row { children: vec![], padding: 1, gap: 0, bordered: true };
    assert_eq!(calculate_wrapped_content_size(&empty_row, 8), (8, 4));
    assert_eq!(calculate_wrapped_content_size(&ContentNode::Sized { width: 7, height: 4 }, 20), (7, 4));
}
