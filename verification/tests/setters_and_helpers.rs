use rafter_widgets::autocomplete::{Autocomplete, AutocompleteState};
use rafter_widgets::calendar::CalendarDate;
use rafter_widgets::checkbox::{toggle_key, Checkbox};
use rafter_widgets::collapsible::Collapsible;
use rafter_widgets::cumulative::{height_at, index_at, offset_at, scroll_into_view_offset, total_of};
use rafter_widgets::date_picker::DatePickerState;
use rafter_widgets::events::{EventSink, WidgetEvent, WidgetEventKind};
use rafter_widgets::input::{Key, KeyCombo, Modifiers};
use rafter_widgets::measure::label_width;
use rafter_widgets::radio::RadioState;
use rafter_widgets::scroll::{apply_thumb_drag, apply_thumb_press, scroll_offset_for_thumb, thumb_press, ScrollRequest, ScrollState, ThumbPress};
use rafter_widgets::scrollbar::{calculate_scroll_area_layout, ScrollAreaDirection, ScrollAreaRenderState, ScrollbarConfig, ScrollbarVisibility};
use rafter_widgets::select::widget::dropdown_indicator;
use rafter_widgets::select::{find_option, selected_option_labels, Select, SelectState};
use rafter_widgets::selection::{position_of, remove_all, Selection};
use rafter_widgets::text_input::{insert_char_at, remove_char_at, Input};
use rafter_widgets::widget_ids::{prefixed_decimal, CheckboxId, CollapsibleId, InputId, AutocompleteId, SelectId};

fn date(year: i32, month: u32, day: u32) -> CalendarDate {
    CalendarDate { year, month, day }
}

#[test]
fn date_picker_setters_move_the_view() {
    let mut p = DatePickerState::new(date(2024, 3, 9)).with_date(date(2022, 12, 25));
    assert_eq!(p.date(), Some(date(2022, 12, 25)));
    assert_eq!(p.viewing, date(2022, 12, 1));
    assert_eq!(p.time(), None);
    p = p.with_time();
    assert_eq!(p.time(), Some((0, 0)));
    p.set_time(23, 59);
    assert_eq!(p.time(), Some((23, 59)));
    assert_eq!(p.display_text(), "2022-12-25 23:59");
    p.set_date(date(2025, 2, 28));
    assert_eq!(p.viewing, date(2025, 2, 1));
    assert_eq!(p.display_text(), "2025-02-28 23:59");
    p.set_datetime(date(2000, 1, 2), 7, 3);
    assert_eq!(p.viewing, date(2000, 1, 1));
    assert_eq!(p.display_text(), "2000-01-02 07:03");
}

#[test]
fn select_trigger_text_and_arrow() {
    let mut s = Select::with_placeholder(SelectId::new(1), "Pick one".to_string());
    s.set_options_count(2);
    s.set_option_labels(vec!["red".to_string(), "green".to_string()]);
    assert_eq!(s.options_count(), 2);
    assert_eq!(s.trigger_text(), ("Pick one".to_string(), true));
    s.set_selected_index(Some(1));
    assert_eq!(s.trigger_text(), ("green".to_string(), false));
    s.set_placeholder("Colour".to_string());
    assert_eq!(s.placeholder(), "Colour");
    assert_eq!(s.anchor_rect(), None);
    s.set_anchor_rect((1, 2, 30, 1));
    assert_eq!(s.anchor_rect(), Some((1, 2, 30, 1)));
    assert_eq!(dropdown_indicator(true), "▲");
    assert_eq!(dropdown_indicator(false), "▼");
}

#[test]
fn select_state_values_and_lookup() {
    let opts = vec![(10, "Ten".to_string()), (20, "Twenty".to_string()), (10, "Again".to_string())];
    assert_eq!(find_option(&opts, &10), Some(0));
    assert_eq!(find_option(&opts, &20), Some(1));
    assert_eq!(find_option(&opts, &30), None);
    let s = SelectState::new(opts.clone()).with_value(20);
    assert_eq!(s.selected_values(), vec![&20]);
    let mut sel = Selection::multi();
    sel.insert(10);
    assert_eq!(selected_option_labels(&opts, &sel), vec!["Ten", "Again"]);
}

#[test]
fn selection_vector_helpers() {
    let mut v = vec![3, 1, 3, 2, 3];
    assert_eq!(position_of(&v, &3), Some(0));
    assert_eq!(position_of(&v, &2), Some(3));
    assert_eq!(position_of(&v, &9), None);
    remove_all(&mut v, &3);
    assert_eq!(v, vec![1, 2]);
    remove_all(&mut v, &7);
    assert_eq!(v, vec![1, 2]);
}

#[test]
fn autocomplete_state_cursor_and_dropdown() {
    let opts = vec![(1, "Apple".to_string()), (2, "Banana".to_string()), (3, "Apricot".to_string())];
    let mut a = AutocompleteState::new(opts).with_selection(rafter_widgets::selection::SelectionMode::Multi);
    a.open_dropdown();
    assert!(a.open);
    a.choose_filtered(2);
    a.choose_filtered(0);
    assert!(a.open);
    assert_eq!(a.selected_values().len(), 2);
    assert!(a.is_selected(&1) && a.is_selected(&3));
    a.scroll.set_viewport(1);
    a.step_cursor(1, 1);
    assert_eq!(a.cursor, 1);
    assert_eq!(a.scroll.offset, 1);
    a.text = "zzz".to_string();
    a.refilter();
    assert!(a.filtered.is_empty());
    assert_eq!(a.cursor, 0);
    assert_eq!(a.scroll.offset, 0);
}

#[test]
fn autocomplete_field_text_cursor_and_rect() {
    let mut a = Autocomplete::with_value(AutocompleteId::new(4), "héllo".to_string());
    // The text cursor is reported as a byte offset: "é" takes two bytes.
    assert_eq!(a.text_cursor(), 6);
    a.text_cursor_left();
    a.text_cursor_left();
    assert_eq!(a.text_cursor(), 4);
    a.text_cursor_right();
    assert_eq!(a.text_cursor(), 5);
    a.text_cursor_right();
    a.text_cursor_right();
    assert_eq!(a.text_cursor(), 6);
    a.set_error("bad".to_string());
    assert_eq!(a.error(), Some("bad".to_string()));
    a.clear_error();
    assert_eq!(a.error(), None);
    a.set_placeholder("Type".to_string());
    assert_eq!(a.placeholder(), "Type");
    a.set_anchor_rect((0, 0, 12, 1));
    assert_eq!(a.anchor_rect(), Some((0, 0, 12, 1)));
    a.set_option_labels(vec!["hello".to_string(), "help".to_string()]);
    a.set_value("hel".to_string());
    a.select_at_cursor();
    assert_eq!(a.value(), "hello");
    assert!(!a.is_open());
}

#[test]
fn input_cursor_moves_by_characters() {
    let mut i = Input::with_value(InputId::new(0), "añb".to_string());
    i.cursor_home();
    assert_eq!(i.cursor_chars, 0);
    i.cursor_left();
    assert_eq!(i.cursor_chars, 0);
    i.cursor_right();
    i.cursor_right();
    assert_eq!(i.cursor_chars, 2);
    assert_eq!(i.cursor(), 3);
    i.cursor_end();
    assert_eq!(i.cursor_chars, 3);
    i.cursor_right();
    assert_eq!(i.cursor_chars, 3);
    i.set_error("too short".to_string());
    assert_eq!(i.error(), Some("too short".to_string()));
    i.clear_error();
    assert!(!i.has_error());
    i.set_placeholder("name".to_string());
    assert_eq!(i.placeholder(), "name");
    assert_eq!(insert_char_at("añb", 1, 'x'), "axñb");
    assert_eq!(insert_char_at("ab", 2, 'c'), "abc");
    assert_eq!(remove_char_at("añb", 1), "ab");
}

#[test]
fn checkbox_and_collapsible_setters() {
    let mut c = Checkbox::new(CheckboxId::new(2)).with_indicators('x', 'o');
    assert_eq!((c.checked_char, c.unchecked_char), ('x', 'o'));
    c.set_indicators('+', '-');
    assert_eq!((c.checked_char(), c.unchecked_char()), ('+', '-'));
    assert!(c.is_dirty());
    assert!(toggle_key(&KeyCombo::plain(Key::Enter)));
    assert!(toggle_key(&KeyCombo::plain(Key::Char(' '))));
    assert!(!toggle_key(&KeyCombo::plain(Key::Char('x'))));
    let shifted = KeyCombo { key: Key::Enter, modifiers: Modifiers { ctrl: false, alt: false, shift: true } };
    assert!(!toggle_key(&shifted));

    let mut k = Collapsible::new(CollapsibleId::new(1)).with_indicators('v', '>');
    assert_eq!((k.expanded_char, k.collapsed_char), ('v', '>'));
    k.set_expanded(true);
    assert!(k.is_expanded());
    k.set_title("Details".to_string());
    assert_eq!(k.title, "Details");
    k.set_indicators('-', '+');
    assert_eq!((k.expanded_char(), k.collapsed_char()), ('-', '+'));
}

#[test]
fn event_sink_records() {
    let mut cx = EventSink::new();
    cx.push_event(WidgetEvent::new(WidgetEventKind::Activate, "b".to_string()));
    cx.set_input_text("hi".to_string());
    cx.set_activated("list".to_string(), Some(4));
    cx.set_selected(vec!["a".to_string(), "c".to_string()]);
    assert_eq!(cx.events.len(), 1);
    assert_eq!(cx.events[0].kind, WidgetEventKind::Activate);
    assert_eq!(cx.input_text, Some("hi".to_string()));
    assert_eq!(cx.activated, Some(("list".to_string(), Some(4))));
    assert_eq!(cx.selected, Some(vec!["a".to_string(), "c".to_string()]));
    assert_eq!(cx.focus, None);
}

#[test]
fn cumulative_cache_lookups() {
    let cum: Vec<u16> = vec![0, 2, 3, 6];
    assert_eq!(offset_at(&cum, 2), 3);
    assert_eq!(offset_at(&cum, 9), 0);
    assert_eq!(total_of(&cum), 6);
    assert_eq!(total_of(&Vec::new()), 0);
    assert_eq!(height_at(&cum, 0), 2);
    assert_eq!(height_at(&cum, 2), 3);
    assert_eq!(height_at(&cum, 3), 1);
    assert_eq!(index_at(&cum, 0), 0);
    assert_eq!(index_at(&cum, 2), 1);
    assert_eq!(index_at(&cum, 5), 2);
    assert_eq!(index_at(&cum, 60), 3);
    assert_eq!(scroll_into_view_offset(2, 1, 5, 4), 2);
    assert_eq!(scroll_into_view_offset(10, 2, 5, 4), 8);
    assert_eq!(scroll_into_view_offset(6, 1, 5, 4), 5);
}

#[test]
fn scroll_requests_for_keys() {
    let mut s = ScrollState::with_content_height(20);
    s.set_viewport(5);
    s.scroll_to(7);
    s.process_request();
    assert_eq!(s.offset, 7);
    s.page_up();
    assert!(s.has_request());
    s.process_request();
    assert_eq!(s.offset, 2);
    s.end();
    assert_eq!(s.take_request(), Some(ScrollRequest::End));
    s.end();
    s.process_request();
    assert_eq!(s.offset, 15);
    s.home();
    s.process_request();
    assert_eq!(s.offset, 0);
}

#[test]
fn small_text_helpers() {
    assert_eq!(label_width(&"héllo".to_string()), 8);
    assert_eq!(label_width(&String::new()), 2);
    assert_eq!(prefixed_decimal("row-", 0), "row-0");
    assert_eq!(prefixed_decimal("", 4096), "4096");
    let mut r = RadioState::new(vec![(1, "A".to_string()), (2, "B".to_string())]);
    r.select_value(2);
    assert_eq!(r.value, Some(2));
}

#[test]
fn scrollbar_press_grabs_or_jumps() {
    // Track rows 2..12, thumb of 3 rows starting 4 rows in (rows 6..9).
    assert_eq!(thumb_press(7, 2, 10, 4, 3, 1, 50), ThumbPress::Grab(1));
    assert_eq!(thumb_press(6, 2, 10, 4, 3, 1, 50), ThumbPress::Grab(0));
    // Below the thumb: the thumb top goes to 11 - 1 = 10, clamped to 2 + 7 = 9, so the end.
    assert_eq!(thumb_press(11, 2, 10, 4, 3, 1, 50), ThumbPress::Jump { offset: 50, grab: 1 });
    // Above it: thumb top at 3 - 1 = 2, the start.
    assert_eq!(thumb_press(3, 2, 10, 4, 3, 1, 50), ThumbPress::Jump { offset: 0, grab: 1 });
    // Thumb top at 6: position 4 of 7, 4 * 50 / 7 rounds to 29.
    assert_eq!(thumb_press(10, 2, 10, 0, 3, 4, 50), ThumbPress::Jump { offset: 29, grab: 4 });

    let mut s = ScrollState::with_content_height(60);
    s.set_viewport(10);
    let mut grab = None;
    assert_eq!(apply_thumb_press(&mut s, &mut grab, ThumbPress::Grab(2)), None);
    assert_eq!((s.offset, grab), (0, Some(2)));
    assert_eq!(apply_thumb_press(&mut s, &mut grab, ThumbPress::Jump { offset: 29, grab: 4 }), Some(29));
    assert_eq!((s.offset, grab), (29, Some(4)));
    assert_eq!(apply_thumb_drag(&mut s, Some(0), 2, 2, 10, 3), 0);
    assert_eq!(s.offset, 0);
    assert_eq!(apply_thumb_drag(&mut s, None, 40, 2, 10, 3), 50);
    assert_eq!(s.offset, 50);
}

#[test]
fn thumb_drag_ends_and_order() {
    // Track at row 3 of 12 rows, thumb of 4 rows, held 1 row below its top.
    assert_eq!(scroll_offset_for_thumb(4, 1, 3, 12, 4, 90), 0);
    assert_eq!(scroll_offset_for_thumb(4 + 8, 1, 3, 12, 4, 90), 90);
    let mut last = 0;
    for y in 0..40u16 {
        let o = scroll_offset_for_thumb(y, 1, 3, 12, 4, 90);
        assert!(o >= last);
        last = o;
    }
}

#[test]
fn scroll_area_layout_shows_scrollbars_as_configured() {
    let auto = ScrollbarConfig::default();
    let area = (2, 3, 40, 10);
    let l = calculate_scroll_area_layout(area, (30, 50), ScrollAreaDirection::Vertical, &auto);
    assert!(l.show_vertical && !l.show_horizontal);
    assert_eq!(l.content_area, (2, 3, 39, 10));
    let l = calculate_scroll_area_layout(area, (80, 50), ScrollAreaDirection::Both, &auto);
    assert!(l.show_vertical && l.show_horizontal);
    assert_eq!(l.content_area, (2, 3, 39, 9));
    let l = calculate_scroll_area_layout(area, (30, 5), ScrollAreaDirection::Both, &auto);
    assert!(!l.show_vertical && !l.show_horizontal);
    assert_eq!(l.content_area, area);
    let always = ScrollbarConfig { vertical: ScrollbarVisibility::Always, horizontal: ScrollbarVisibility::Always, ..ScrollbarConfig::default() };
    let l = calculate_scroll_area_layout(area, (1, 1), ScrollAreaDirection::Horizontal, &always);
    assert!(!l.show_vertical && l.show_horizontal);
    let never = ScrollbarConfig { vertical: ScrollbarVisibility::Never, horizontal: ScrollbarVisibility::Never, ..ScrollbarConfig::default() };
    let l = calculate_scroll_area_layout((0, 0, 0, 0), (80, 50), ScrollAreaDirection::Both, &never);
    assert_eq!(l, ScrollAreaRenderState { content_area: (0, 0, 0, 0), show_vertical: false, show_horizontal: false });
    let l = calculate_scroll_area_layout((0, 0, 0, 0), (80, 50), ScrollAreaDirection::Both, &auto);
    assert_eq!(l.content_area, (0, 0, 0, 0));
}
