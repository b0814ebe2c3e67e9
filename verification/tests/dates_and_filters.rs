use rafter_widgets::autocomplete::{fuzzy_filter, AutocompleteState};
use rafter_widgets::autocomplete::filter::rank_matches;
use rafter_widgets::calendar::{
    date_with_day, days_in_month, first_of_month, format_date, is_valid_date, month_name, next_month, prev_month,
    weekday_index, CalendarDate, MAX_YEAR, MIN_YEAR,
};
use rafter_widgets::date_picker::{calendar_weeks, two_digits, DatePickerState};
use rafter_widgets::number_text::{is_unfinished_number, is_valid_partial};
use rafter_widgets::select::{dropdown_height, join_strs, option_rows_height, toggle_width, SelectItem, SelectState};
use rafter_widgets::autocomplete::AutocompleteItem;
use rafter_widgets::selection::SelectionMode;

fn date(year: i32, month: u32, day: u32) -> CalendarDate {
    CalendarDate { year, month, day }
}

// ---- calendar ----

#[test]
fn calendar_validity_follows_gregorian_rules() {
    assert!(is_valid_date(2024, 2, 29));
    assert!(!is_valid_date(2023, 2, 29));
    assert!(!is_valid_date(1900, 2, 29));
    assert!(is_valid_date(2000, 2, 29));
    assert!(is_valid_date(-4, 2, 29));
    assert!(!is_valid_date(2023, 4, 31));
    assert!(!is_valid_date(2015, 0, 14));
    assert!(!is_valid_date(2015, 13, 1));
    assert!(!is_valid_date(2015, 3, 0));
    assert!(!is_valid_date(400000, 1, 1));
    assert!(!is_valid_date(-400000, 1, 1));
    assert!(is_valid_date(MAX_YEAR, 12, 31));
    assert!(is_valid_date(MIN_YEAR, 1, 1));
    assert!(!is_valid_date(MAX_YEAR + 1, 1, 1));
}

#[test]
fn calendar_month_steps() {
    assert_eq!(first_of_month(date(2024, 5, 17)), date(2024, 5, 1));
    assert_eq!(prev_month(date(2024, 1, 1)), date(2023, 12, 1));
    assert_eq!(prev_month(date(2024, 3, 1)), date(2024, 2, 1));
    assert_eq!(next_month(date(2024, 12, 1)), date(2025, 1, 1));
    assert_eq!(next_month(prev_month(date(2024, 1, 1))), date(2024, 1, 1));
    assert_eq!(prev_month(next_month(date(2024, 12, 1))), date(2024, 12, 1));
    assert_eq!(prev_month(date(MIN_YEAR, 1, 1)), date(MIN_YEAR, 1, 1));
    assert_eq!(next_month(date(MAX_YEAR, 12, 1)), date(MAX_YEAR, 12, 1));
}

#[test]
fn calendar_days_in_month() {
    assert_eq!(days_in_month(2024, 2), 29);
    assert_eq!(days_in_month(2023, 2), 28);
    assert_eq!(days_in_month(2023, 4), 30);
    assert_eq!(days_in_month(2023, 12), 31);
    assert_eq!(days_in_month(2023, 1), 31);
    assert_eq!(days_in_month(MAX_YEAR, 12), 28);
    assert_eq!(days_in_month(2023, 13), 28);
}

#[test]
fn calendar_weekdays_and_names() {
    assert_eq!(weekday_index(date(2024, 1, 1)), 0);
    assert_eq!(weekday_index(date(2024, 9, 1)), 6);
    assert_eq!(weekday_index(date(2000, 1, 1)), 5);
    assert_eq!(month_name(1), "January");
    assert_eq!(month_name(12), "December");
    assert_eq!(month_name(0), "?");
    assert_eq!(month_name(13), "?");
    assert_eq!(date_with_day(date(2024, 2, 1), 29), Some(date(2024, 2, 29)));
    assert_eq!(date_with_day(date(2023, 2, 1), 29), None);
}

#[test]
fn calendar_date_text() {
    assert_eq!(format_date(date(2024, 3, 9)), "2024-03-09");
    assert_eq!(format_date(date(987, 11, 30)), "0987-11-30");
    assert_eq!(format_date(date(12345, 1, 1)), "+12345-01-01");
    assert_eq!(format_date(date(-44, 3, 15)), "-0044-03-15");
    assert_eq!(two_digits(7), "07");
    assert_eq!(two_digits(42), "42");
    assert_eq!(two_digits(123), "123");
}

#[test]
fn calendar_grid_layout() {
    // September 2024: 30 days, starting on a Sunday.
    let g = calendar_weeks(30, 6);
    assert_eq!(g.len(), 6);
    assert_eq!(g[0], vec![None, None, None, None, None, None, Some(1)]);
    assert_eq!(g[1][0], Some(2));
    assert_eq!(g[5], vec![Some(30), None, None, None, None, None, None]);
    // February 2021: 28 days from a Monday fills exactly four weeks.
    let f = calendar_weeks(28, 0);
    assert_eq!(f.len(), 4);
    assert_eq!(f[3][6], Some(28));
    assert!(calendar_weeks(0, 3).is_empty());
}

#[test]
fn calendar_grid_has_each_day_once() {
    let g = calendar_weeks(31, 4);
    let mut seen: Vec<u32> = g.iter().flatten().filter_map(|c| *c).collect();
    seen.sort();
    assert_eq!(seen, (1..=31).collect::<Vec<u32>>());
}

// ---- date picker ----

#[test]
fn date_picker_selects_days() {
    let mut p = DatePickerState::new(date(2024, 5, 17));
    assert_eq!(p.viewing, date(2024, 5, 1));
    assert_eq!(p.display_text(), "");
    p.toggle_open();
    assert!(p.is_open());
    assert!(p.choose_day(31));
    assert!(!p.is_open());
    assert_eq!(p.date(), Some(date(2024, 5, 31)));
    assert_eq!(p.display_text(), "2024-05-31");
    p.next_month();
    p.select_day(31);
    assert_eq!(p.date(), Some(date(2024, 5, 31)));
    p.select_day(30);
    assert_eq!(p.date(), Some(date(2024, 6, 30)));
    assert_eq!(p.time(), None);
}

#[test]
fn date_picker_with_time() {
    let mut p = DatePickerState::new(date(2024, 1, 1)).with_datetime(date(2023, 7, 4), 9, 5);
    assert_eq!(p.viewing, date(2023, 7, 1));
    assert_eq!(p.time(), Some((9, 5)));
    assert_eq!(p.display_text(), "2023-07-04 09:05");
    p.toggle_open();
    assert!(!p.choose_day(8));
    assert!(p.is_open());
    p.close();
    assert!(!p.is_open());
    let g = p.month_grid();
    assert_eq!(g[0][5], Some(1));
}

// ---- number text ----

#[test]
fn number_text_partial_rules() {
    assert!(is_valid_partial("", false, false));
    assert!(is_valid_partial("12.5", false, false));
    assert!(!is_valid_partial("12.5", false, true));
    assert!(!is_valid_partial("1.2.3", false, false));
    assert!(!is_valid_partial("-3", false, false));
    assert!(is_valid_partial("-3", true, false));
    assert!(!is_valid_partial("3-", true, false));
    assert!(!is_valid_partial("1e5", false, false));
    for n in 0..=5 {
        assert!(is_valid_partial(&"-12.5"[..n], true, false));
    }
    assert!(is_unfinished_number(""));
    assert!(is_unfinished_number("-"));
    assert!(is_unfinished_number("."));
    assert!(is_unfinished_number("-."));
    assert!(!is_unfinished_number("-1"));
    assert!(!is_unfinished_number("0"));
}

// ---- select ----

#[test]
fn select_items_and_sizes() {
    assert_eq!("x".to_string().select_id(), "x");
    assert_eq!(("id".to_string(), "Label".to_string()).select_label(), "Label");
    assert_eq!("y".autocomplete_label(), "y");
    assert_eq!(option_rows_height(3), 3);
    assert_eq!(option_rows_height(70000), 65535);
    assert_eq!(dropdown_height(4), 4);
    assert_eq!(dropdown_height(40), 10);
    let opts = vec![(1, "Apple".to_string()), (2, "Kiwi".to_string())];
    assert_eq!(toggle_width(None, &opts, "Pick"), 7);
    assert_eq!(toggle_width(Some(20), &opts, "Pick"), 20);
    assert_eq!(toggle_width(None, &opts, "Choose a fruit"), 16);
    assert_eq!(join_strs(&vec!["a", "b", "c"], ", "), "a, b, c");
}

#[test]
fn select_single_and_multi() {
    let opts = vec![(1, "One".to_string()), (2, "Two".to_string()), (3, "Three".to_string())];
    let mut s = SelectState::new(opts.clone());
    assert_eq!(s.display_text("Pick"), "Pick");
    s.toggle_open();
    s.choose_option(1);
    assert!(!s.open);
    assert_eq!(s.value(), Some(&2));
    assert_eq!(s.display_text("Pick"), "Two");
    let mut m = SelectState::new(opts).with_selection(SelectionMode::Multi);
    m.toggle_open();
    m.choose_option(0);
    m.choose_option(2);
    assert!(m.open);
    assert_eq!(m.display_text("Pick"), "One, Three");
    m.choose_option(1);
    assert_eq!(m.display_text("Pick"), "3 selected");
    assert_eq!(m.selected_labels(), vec!["One", "Two", "Three"]);
    m.close();
    assert!(!m.open);
}

// ---- autocomplete ----

#[test]
fn fuzzy_filter_empty_query_lists_everything() {
    let labels = vec!["apple".to_string(), "banana".to_string()];
    let r = fuzzy_filter("", &labels);
    assert_eq!(r.iter().map(|m| (m.index, m.score)).collect::<Vec<_>>(), vec![(0, 0), (1, 0)]);
}

#[test]
fn fuzzy_filter_keeps_matches_best_first() {
    let labels = vec!["apple".to_string(), "banana".to_string(), "apricot".to_string()];
    let r = fuzzy_filter("ap", &labels);
    let mut idx: Vec<usize> = r.iter().map(|m| m.index).collect();
    assert!(r.windows(2).all(|w| w[0].score >= w[1].score));
    idx.sort();
    assert_eq!(idx, vec![0, 2]);
    assert!(fuzzy_filter("zzz", &labels).is_empty());
}

#[test]
fn rank_matches_is_stable_by_score() {
    let r = rank_matches(&vec![Some(5), None, Some(9), Some(5), Some(1)]);
    assert_eq!(r.iter().map(|m| (m.index, m.score)).collect::<Vec<_>>(), vec![(2, 9), (0, 5), (3, 5), (4, 1)]);
}

#[test]
fn autocomplete_typing_and_choosing() {
    let opts = vec![(1, "Apple".to_string()), (2, "Banana".to_string()), (3, "Apricot".to_string())];
    let mut a = AutocompleteState::new(opts);
    assert_eq!(a.filtered.len(), 3);
    a.text_changed("ban".to_string());
    assert!(a.open);
    assert_eq!(a.filtered.len(), 1);
    assert_eq!(a.filtered_label(0), Some("Banana"));
    assert_eq!(a.filtered_value(0), Some(&2));
    assert!(a.submit());
    assert!(!a.open);
    assert_eq!(a.text, "Banana");
    assert_eq!(a.value(), Some(&2));
    assert!(a.is_selected(&2));
    assert_eq!(a.selected_labels(), vec!["Banana"]);
    assert!(!a.submit());
    assert!(a.open);
    a.close();
    assert!(!a.open);
}
