//! Date picker state: the chosen date and time, the month on view and the
//! calendar grid of that month.
use vstd::prelude::*;
use crate::calendar::{
    date_text, days_in_month, first_of_month, format_date, next_month, prev_month, weekday_index,
    zero_padded, CalendarDate,
};
use crate::numfmt::{decimal, decimal_string};

verus! {

/// Typestate marker: a date picker builder that still needs its state.
pub struct NeedsState;

/// The day number in cell `weekday` of week `week` of a month whose first
/// day falls on weekday `first_weekday`.
pub open spec fn grid_day(week: int, weekday: int, first_weekday: int) -> int {
    week * 7 + weekday - first_weekday + 1
}

/// The cell `(week, weekday)` of the grid of a month of `days` days: empty
/// before the first day and after the last.
pub open spec fn grid_cell(week: int, weekday: int, days: int, first_weekday: int) -> Option<u32> {
    if (week == 0 && weekday < first_weekday) || grid_day(week, weekday, first_weekday) > days {
        None
    } else {
        Some(grid_day(week, weekday, first_weekday) as u32)
    }
}

/// Number of week rows of the grid: as many as the month needs, at most 6.
pub open spec fn grid_rows(days: int, first_weekday: int) -> int {
    if days == 0 {
        0
    } else {
        let need = (days + first_weekday + 6) / 7;
        if need < 6 { need } else { 6 }
    }
}

/// The calendar grid: rows of seven cells, Monday first, each holding a day
/// number or nothing.
pub fn calendar_weeks(days: u32, first_weekday: u32) -> (r: Vec<Vec<Option<u32>>>)
    requires
        first_weekday < 7,
        days <= 31,
    ensures
        r@.len() == grid_rows(days as int, first_weekday as int),
        forall|w: int| 0 <= w < r@.len() ==> #[trigger] r@[w]@.len() == 7,
        forall|w: int, d: int| 0 <= w < r@.len() && 0 <= d < 7
            ==> #[trigger] r@[w]@[d] == grid_cell(w, d, days as int, first_weekday as int),
{
    let mut weeks: Vec<Vec<Option<u32>>> = Vec::new();
    let mut day: u32 = 1;
    let mut week: u32 = 0;
    while week < 6
        invariant
            first_weekday < 7,
            days <= 31,
            week <= 6,
            weeks@.len() == week,
            day == (if week == 0 { 1 } else {
                let s = week * 7 - first_weekday + 1;
                if s < days + 1 { s } else { days + 1 }
            }),
            forall|w: int| 0 <= w < week ==> #[trigger] weeks@[w]@.len() == 7,
            forall|w: int, d: int| 0 <= w < week && 0 <= d < 7
                ==> #[trigger] weeks@[w]@[d] == grid_cell(w, d, days as int, first_weekday as int),
            week <= grid_rows(days as int, first_weekday as int),
        ensures
            weeks@.len() == grid_rows(days as int, first_weekday as int),
            forall|w: int| 0 <= w < weeks@.len() ==> #[trigger] weeks@[w]@.len() == 7,
            forall|w: int, d: int| 0 <= w < weeks@.len() && 0 <= d < 7
                ==> #[trigger] weeks@[w]@[d] == grid_cell(w, d, days as int, first_weekday as int),
        decreases 6 - week,
    {
        if day > days {
            break;
        }
        let mut row: Vec<Option<u32>> = Vec::new();
        let mut weekday: u32 = 0;
        while weekday < 7
            invariant
                first_weekday < 7,
                days <= 31,
                week < 6,
                weekday <= 7,
                row@.len() == weekday,
                day <= days + 1,
                day == (if week == 0 && weekday < first_weekday { 1 } else {
                    let s = grid_day(week as int, weekday as int, first_weekday as int);
                    if s < days + 1 { s } else { days + 1 }
                }),
                forall|d: int| 0 <= d < weekday ==> #[trigger] row@[d] == grid_cell(week as int, d, days as int, first_weekday as int),
            decreases 7 - weekday,
        {
            if (week == 0 && weekday < first_weekday) || day > days {
                row.push(None);
            } else {
                row.push(Some(day));
                day = day + 1;
            }
            weekday = weekday + 1;
        }
        weeks.push(row);
        week = week + 1;
    }
    weeks
}

/// `n` written with at least two digits, zero-padded (`{:02}`).
pub fn two_digits(n: u32) -> (s: String)
    ensures
        s@ == zero_padded(n as nat, 2),
{
    let digits = decimal_string(n as usize);
    if n < 10 {
        proof {
            assert(decimal(n as nat).len() == 1);
            assert(Seq::new(1, |i: int| '0') =~= seq!['0']);
            reveal_strlit("0");
        }
        String::from_str("0").concat(digits.as_str())
    } else {
        proof { lemma_decimal_len_ge_2(n as nat); }
        digits
    }
}

/// Numbers of at least 10 take at least two digits.
proof fn lemma_decimal_len_ge_2(n: nat)
    requires
        n >= 10,
    ensures
        decimal(n).len() >= 2,
    decreases n,
{
    if n / 10 >= 10 {
        lemma_decimal_len_ge_2(n / 10);
    } else {
        assert(decimal(n / 10).len() == 1);
    }
}

/// State for a date picker.
#[derive(Clone, Debug)]
pub struct DatePickerState {
    /// Selected date, if any.
    pub date: Option<CalendarDate>,
    /// Whether a time is chosen along with the date.
    pub show_time: bool,
    /// Hour of the chosen time (0-23).
    pub hour: u32,
    /// Minute of the chosen time (0-59).
    pub minute: u32,
    /// Whether the calendar dropdown is open.
    pub open: bool,
    /// First day of the month on view.
    pub viewing: CalendarDate,
}

/// The text the picker shows: the date as `%Y-%m-%d`, with ` HH:MM` when
/// a time is chosen; empty without a date.
pub open spec fn picker_text(date: Option<CalendarDate>, show_time: bool, hour: u32, minute: u32) -> Seq<char> {
    match date {
        Some(d) => if show_time {
            date_text(d) + seq![' '] + zero_padded(hour as nat, 2) + seq![':'] + zero_padded(minute as nat, 2)
        } else {
            date_text(d)
        },
        None => Seq::empty(),
    }
}

/// The picker's text is the date, followed by the time only when a time is
/// shown: a space and `HH:MM` with two digits each for an hour and minute
/// of a day; with no date it is empty.
pub proof fn law_picker_text_shows_date_then_time(date: Option<CalendarDate>, show_time: bool, hour: u32, minute: u32)
    requires
        hour < 24,
        minute < 60,
    ensures
        date is None ==> picker_text(date, show_time, hour, minute).len() == 0,
        date matches Some(d) ==> picker_text(date, show_time, hour, minute).take(date_text(d).len() as int) == date_text(d),
        date matches Some(d) ==> (!show_time ==> picker_text(date, show_time, hour, minute) == date_text(d)),
        date matches Some(d) ==> (show_time ==> picker_text(date, show_time, hour, minute).len() == date_text(d).len() + 6
            && picker_text(date, show_time, hour, minute)[date_text(d).len() as int] == ' '
            && picker_text(date, show_time, hour, minute)[date_text(d).len() + 3int] == ':'),
{
    if let Some(d) = date {
        let t = picker_text(date, show_time, hour, minute);
        assert(t.take(date_text(d).len() as int) =~= date_text(d));
        if show_time {
            lemma_two_digits(hour as nat);
            lemma_two_digits(minute as nat);
        }
    }
}

/// A number below 100 takes exactly two digits once padded to two.
proof fn lemma_two_digits(n: nat)
    requires
        n < 100,
    ensures
        crate::calendar::zero_padded(n, 2).len() == 2,
{
    reveal_with_fuel(crate::numfmt::decimal, 3);
}

impl DatePickerState {
    /// The view shows the first day of a month and every date exists.
    pub open spec fn wf(&self) -> bool {
        &&& self.viewing.wf()
        &&& self.viewing.day == 1
        &&& self.date matches Some(d) ==> d.wf()
        &&& self.hour < 24
        &&& self.minute < 60
    }

    /// A picker with no date, viewing the month of `today`.
    pub fn new(today: CalendarDate) -> (r: Self)
        requires
            today.wf(),
        ensures
            r.wf(),
            r.date is None,
            !r.show_time && !r.open,
            r.hour == 0 && r.minute == 0,
            r.viewing == (CalendarDate { year: today.year, month: today.month, day: 1 }),
    {
        DatePickerState { date: None, show_time: false, hour: 0, minute: 0, open: false, viewing: first_of_month(today) }
    }

    /// Set the initial date; its month comes into view.
    pub fn with_date(self, date: CalendarDate) -> (r: Self)
        requires
            date.wf(),
        ensures
            self.wf() ==> r.wf(),
            r.date == Some(date),
            r.viewing == (CalendarDate { year: date.year, month: date.month, day: 1 }),
            r.show_time == self.show_time && r.open == self.open,
            r.hour == self.hour && r.minute == self.minute,
    {
        let mut s = self;
        s.set_date(date);
        s
    }

    /// Set the initial date and time; the time is shown.
    pub fn with_datetime(self, date: CalendarDate, hour: u32, minute: u32) -> (r: Self)
        requires
            date.wf(),
            hour < 24,
            minute < 60,
        ensures
            r.wf(),
            r.date == Some(date),
            r.viewing == (CalendarDate { year: date.year, month: date.month, day: 1 }),
            r.show_time,
            r.hour == hour && r.minute == minute,
            r.open == self.open,
    {
        let mut s = self;
        s.show_time = true;
        s.set_datetime(date, hour, minute);
        s
    }

    /// Show a time along with the date.
    pub fn with_time(self) -> (r: Self)
        ensures
            r.show_time,
            r.date == self.date && r.viewing == self.viewing && r.open == self.open,
            r.hour == self.hour && r.minute == self.minute,
    {
        let mut s = self;
        s.show_time = true;
        s
    }

    /// The selected date.
    pub fn date(&self) -> (r: Option<CalendarDate>)
        ensures
            r == self.date,
    {
        self.date
    }

    /// The chosen time as (hour, minute), when a time is shown and a date
    /// is selected.
    pub fn time(&self) -> (r: Option<(u32, u32)>)
        ensures
            r == (if self.show_time && self.date is Some { Some((self.hour, self.minute)) } else { None }),
    {
        if self.show_time && self.date.is_some() {
            Some((self.hour, self.minute))
        } else {
            None
        }
    }

    /// Select a date; its month comes into view.
    pub fn set_date(&mut self, date: CalendarDate)
        requires
            date.wf(),
        ensures
            old(self).wf() ==> final(self).wf(),
            final(self).date == Some(date),
            final(self).viewing == (CalendarDate { year: date.year, month: date.month, day: 1 }),
            final(self).show_time == old(self).show_time && final(self).open == old(self).open,
            final(self).hour == old(self).hour && final(self).minute == old(self).minute,
    {
        self.date = Some(date);
        self.viewing = first_of_month(date);
    }

    /// Select a date and time; the date's month comes into view.
    pub fn set_datetime(&mut self, date: CalendarDate, hour: u32, minute: u32)
        requires
            date.wf(),
            hour < 24,
            minute < 60,
        ensures
            final(self).wf(),
            final(self).date == Some(date),
            final(self).viewing == (CalendarDate { year: date.year, month: date.month, day: 1 }),
            final(self).hour == hour && final(self).minute == minute,
            final(self).show_time == old(self).show_time && final(self).open == old(self).open,
    {
        self.set_date(date);
        self.hour = hour;
        self.minute = minute;
    }

    /// Set the chosen time (from the hour and minute fields).
    pub fn set_time(&mut self, hour: u32, minute: u32)
        requires
            hour < 24,
            minute < 60,
        ensures
            final(self).hour == hour && final(self).minute == minute,
            final(self).date == old(self).date && final(self).viewing == old(self).viewing,
            final(self).show_time == old(self).show_time && final(self).open == old(self).open,
            old(self).wf() ==> final(self).wf(),
    {
        self.hour = hour;
        self.minute = minute;
    }

    /// Whether the dropdown is open.
    pub fn is_open(&self) -> (r: bool)
        ensures
            r == self.open,
    {
        self.open
    }

    /// Open a closed dropdown, close an open one.
    pub fn toggle_open(&mut self)
        ensures
            final(self).open == !old(self).open,
            final(self).date == old(self).date && final(self).viewing == old(self).viewing,
            final(self).show_time == old(self).show_time,
            final(self).hour == old(self).hour && final(self).minute == old(self).minute,
    {
        self.open = !self.open;
    }

    /// Close the dropdown.
    pub fn close(&mut self)
        ensures
            !final(self).open,
            final(self).date == old(self).date && final(self).viewing == old(self).viewing,
            final(self).show_time == old(self).show_time,
            final(self).hour == old(self).hour && final(self).minute == old(self).minute,
    {
        self.open = false;
    }

    /// The text the picker shows.
    pub fn display_text(&self) -> (s: String)
        requires
            self.wf(),
        ensures
            s@ == picker_text(self.date, self.show_time, self.hour, self.minute),
    {
        match self.date {
            Some(date) => {
                let text = format_date(date);
                proof {
                    reveal_strlit(" ");
                    reveal_strlit(":");
                }
                if self.show_time {
                    let t = text.concat(" ").concat(two_digits(self.hour).as_str()).concat(":");
                    t.concat(two_digits(self.minute).as_str())
                } else {
                    text
                }
            },
            None => String::new(),
        }
    }

    /// View the month before.
    pub fn prev_month(&mut self)
        requires
            old(self).wf(),
        ensures
            final(self).wf(),
            final(self).viewing == prev_month_of(old(self).viewing),
            final(self).date == old(self).date && final(self).open == old(self).open,
            final(self).show_time == old(self).show_time,
            final(self).hour == old(self).hour && final(self).minute == old(self).minute,
    {
        self.viewing = prev_month(self.viewing);
    }

    /// View the month after.
    pub fn next_month(&mut self)
        requires
            old(self).wf(),
        ensures
            final(self).wf(),
            final(self).viewing == next_month_of(old(self).viewing),
            final(self).date == old(self).date && final(self).open == old(self).open,
            final(self).show_time == old(self).show_time,
            final(self).hour == old(self).hour && final(self).minute == old(self).minute,
    {
        self.viewing = next_month(self.viewing);
    }

    /// Select day `day` of the month on view, when it exists.
    pub fn select_day(&mut self, day: u32)
        requires
            old(self).wf(),
        ensures
            final(self).wf(),
            final(self).date == (if crate::calendar::valid_date(old(self).viewing.year, old(self).viewing.month, day) {
                Some(CalendarDate { year: old(self).viewing.year, month: old(self).viewing.month, day })
            } else {
                old(self).date
            }),
            final(self).viewing == old(self).viewing && final(self).open == old(self).open,
            final(self).show_time == old(self).show_time,
            final(self).hour == old(self).hour && final(self).minute == old(self).minute,
    {
        if let Some(date) = crate::calendar::date_with_day(self.viewing, day) {
            self.date = Some(date);
        }
    }

    /// A day cell was activated: the day is selected; with a time to
    /// choose, focus moves on to the hour (`false`), else the dropdown
    /// closes (`true`).
    pub fn choose_day(&mut self, day: u32) -> (closed: bool)
        requires
            old(self).wf(),
        ensures
            final(self).wf(),
            closed == !old(self).show_time,
            final(self).open == (old(self).open && old(self).show_time),
            final(self).date == (if crate::calendar::valid_date(old(self).viewing.year, old(self).viewing.month, day) {
                Some(CalendarDate { year: old(self).viewing.year, month: old(self).viewing.month, day })
            } else {
                old(self).date
            }),
            final(self).viewing == old(self).viewing,
    {
        self.select_day(day);
        if self.show_time {
            false
        } else {
            self.open = false;
            true
        }
    }

    /// The calendar grid of the month on view.
    pub fn month_grid(&self) -> (r: Vec<Vec<Option<u32>>>)
        requires
            self.wf(),
            self.viewing.month != 12 || self.viewing.year < i32::MAX,
        ensures
            r@.len() == grid_rows(
                crate::calendar::days_in_month_spec(self.viewing.year, self.viewing.month) as int,
                crate::calendar::weekday_from_monday(self.viewing.year, self.viewing.month, 1) as int,
            ),
            forall|w: int| 0 <= w < r@.len() ==> #[trigger] r@[w]@.len() == 7,
            forall|w: int, d: int| 0 <= w < r@.len() && 0 <= d < 7 ==> #[trigger] r@[w]@[d] == grid_cell(w, d,
                crate::calendar::days_in_month_spec(self.viewing.year, self.viewing.month) as int,
                crate::calendar::weekday_from_monday(self.viewing.year, self.viewing.month, 1) as int),
    {
        let days = days_in_month(self.viewing.year, self.viewing.month);
        let first_weekday = weekday_index(self.viewing);
        calendar_weeks(days, first_weekday)
    }
}

/// The month before the one starting at `first`, as [`DatePickerState::prev_month`] moves.
pub open spec fn prev_month_of(first: CalendarDate) -> CalendarDate {
    if first.month == 1 {
        if first.year > crate::calendar::MIN_YEAR { CalendarDate { year: (first.year - 1) as i32, month: 12, day: 1 } } else { first }
    } else {
        CalendarDate { year: first.year, month: (first.month - 1) as u32, day: 1 }
    }
}

/// The month after the one starting at `first`, as [`DatePickerState::next_month`] moves.
pub open spec fn next_month_of(first: CalendarDate) -> CalendarDate {
    if first.month == 12 {
        if first.year < crate::calendar::MAX_YEAR { CalendarDate { year: (first.year + 1) as i32, month: 1, day: 1 } } else { first }
    } else {
        CalendarDate { year: first.year, month: (first.month + 1) as u32, day: 1 }
    }
}

/// Every day of a month stands in exactly one cell of its grid.
pub proof fn law_grid_holds_each_day_once(days: int, first_weekday: int, day: int)
    requires
        0 <= first_weekday < 7,
        1 <= days <= 31,
        1 <= day <= days,
    ensures
        ({
            let w = (day - 1 + first_weekday) / 7;
            let d = (day - 1 + first_weekday) % 7;
            &&& 0 <= w < grid_rows(days, first_weekday)
            &&& grid_cell(w, d, days, first_weekday) == Some(day as u32)
        }),
        forall|w: int, d: int| 0 <= w < grid_rows(days, first_weekday) && 0 <= d < 7
            && #[trigger] grid_cell(w, d, days, first_weekday) == Some(day as u32)
            ==> w == (day - 1 + first_weekday) / 7 && d == (day - 1 + first_weekday) % 7,
{
}

} // verus!
