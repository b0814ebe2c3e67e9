//! Autocomplete widget state: a text input with fuzzy-filtered dropdown
//! suggestions.
use std::hash::Hash;
use vstd::prelude::*;
use crate::scroll::{ScrollState, ScrollableWidgetState};
use crate::events::{blur_should_close, closes_on_blur};
use crate::select::{dropdown_height, labels_of, option_rows, toggle_width, widest, MAX_VISIBLE_OPTIONS};
use crate::selection::{keys_behave, toggled, Selection, SelectionMode};

pub mod filter;
pub mod item;
pub mod widget;

pub use filter::{fuzzy_filter, FilterMatch};
pub use item::AutocompleteItem;
pub use widget::Autocomplete;

verus! {

/// The labels of `options`, as owned strings.
fn option_labels<T>(options: &Vec<(T, String)>) -> (r: Vec<String>)
    ensures
        r@.len() == options@.len(),
        forall|i: int| 0 <= i < r@.len() ==> #[trigger] r@[i]@ == options@[i].1@,
{
    let mut out: Vec<String> = Vec::new();
    let mut i: usize = 0;
    while i < options.len()
        invariant
            i <= options@.len(),
            out@.len() == i,
            forall|k: int| 0 <= k < i ==> #[trigger] out@[k]@ == options@[k].1@,
        decreases options@.len() - i,
    {
        out.push(options[i].1.clone());
        i = i + 1;
    }
    out
}

/// The option labels as strings, for filtering.
pub open spec fn label_strings<T>(options: Seq<(T, String)>, labels: Seq<String>) -> bool {
    &&& labels.len() == options.len()
    &&& forall|i: int| 0 <= i < labels.len() ==> #[trigger] labels[i]@ == options[i].1@
}

/// `r` is the filter of `query` over the labels of `options`.
pub open spec fn filtered_for<T>(query: Seq<char>, options: Seq<(T, String)>, r: Seq<FilterMatch>) -> bool {
    exists|labels: Seq<String>| label_strings(options, labels) && filter::is_filter_result(query, labels, r)
}

/// State for an autocomplete widget: dropdown state, input text, selected
/// value(s) and the options as (value, label) pairs.
#[derive(Clone, Debug)]
pub struct AutocompleteState<T: Clone + Eq + Hash> {
    /// Whether the dropdown is open.
    pub open: bool,
    /// Current input text.
    pub text: String,
    /// Selection state (supports single and multi-select).
    pub selection: Selection<T>,
    /// Dropdown cursor position (index into filtered).
    pub cursor: usize,
    /// Available options as (value, label) pairs.
    pub options: Vec<(T, String)>,
    /// Cached filtered indices (indices into options), sorted by score.
    pub filtered: Vec<FilterMatch>,
    /// Scroll state for the dropdown.
    pub scroll: ScrollState,
    /// Scrollbar rect for drag calculations.
    pub scrollbar_rect: Option<(u16, u16, u16, u16)>,
    /// Drag grab offset for scrollbar.
    pub drag_grab_offset: Option<u16>,
}

impl<T: Clone + Eq + Hash> AutocompleteState<T> {
    /// Create a new AutocompleteState with the given options: closed, empty
    /// text, single-select with nothing selected, every option listed.
    pub fn new(options: Vec<(T, String)>) -> (r: Self)
        ensures
            !r.open,
            r.text@ == Seq::<char>::empty(),
            r.selection.mode == SelectionMode::Single,
            r.selection.keys() == Set::<T>::empty(),
            r.cursor == 0,
            r.options@ == options@,
            r.filtered@.len() == options@.len(),
            forall|k: int| 0 <= k < r.filtered@.len() ==> (#[trigger] r.filtered@[k]).index == k && r.filtered@[k].score == 0,
            r.scroll.content_height == option_rows(options@.len()),
            r.scroll.offset == 0 && r.scroll.viewport == 0 && r.scroll.request is None,
    {
        let labels = option_labels(&options);
        proof { reveal_strlit(""); }
        let filtered = fuzzy_filter("", labels.as_slice());
        let mut scroll = ScrollState::new();
        scroll.set_content_height(crate::select::option_rows_height(filtered.len()));
        AutocompleteState {
            open: false,
            text: String::new(),
            selection: Selection::single(),
            cursor: 0,
            options,
            filtered,
            scroll,
            scrollbar_rect: None,
            drag_grab_offset: None,
        }
    }

    /// Set the selection mode (clearing the selection).
    pub fn with_selection(self, mode: SelectionMode) -> (r: Self)
        ensures
            r.selection.mode == mode,
            r.selection.keys() == Set::<T>::empty(),
            r.text == self.text && r.options == self.options && r.filtered == self.filtered,
            r.open == self.open && r.cursor == self.cursor,
    {
        let mut s = self;
        s.selection = Selection::for_mode(mode);
        s
    }

    /// Set the initial selected value; in single-select mode the text
    /// becomes the label of the first option with that value, if any.
    pub fn with_value(self, value: T) -> (r: Self)
        ensures
            keys_behave::<T>() ==> r.selection.keys() == self.selection.keys().insert(value),
            r.selection.mode == self.selection.mode,
            keys_behave::<T>() ==> r.text@ == (if self.selection.mode is Single {
                match crate::select::first_option_with(self.options@, value) {
                    Some(i) => self.options@[i].1@,
                    None => self.text@,
                }
            } else {
                self.text@
            }),
            r.options == self.options && r.filtered == self.filtered,
            r.open == self.open && r.cursor == self.cursor,
    {
        let mut s = self;
        if s.selection.mode == SelectionMode::Single {
            if let Some(i) = crate::select::find_option(&s.options, &value) {
                s.text = s.options[i].1.clone();
            }
        }
        s.selection.insert(value);
        s
    }

    /// Get the single selected value (for single-select mode).
    ///
    /// Returns `None` if nothing is selected or if in multi-select mode with
    /// multiple selections.
    pub fn value(&self) -> (r: Option<&T>)
        ensures
            r is None <==> (self.selection.keys().is_empty()
                || (self.selection.mode is Multi && self.selection.selected@.len() >= 2)),
            r matches Some(v) ==> *v == self.selection.selected@[0],
    {
        if self.selection.mode == SelectionMode::Multi && self.selection.selected.len() >= 2 {
            proof {
                assert(self.selection.keys().contains(self.selection.selected@[0]));
            }
            return None;
        }
        self.selection.get_single()
    }

    /// Check if a value is selected.
    pub fn is_selected(&self, value: &T) -> (r: bool)
        ensures
            keys_behave::<T>() ==> r == self.selection.keys().contains(*value),
    {
        self.selection.is_selected(value)
    }

    /// Get all selected values.
    pub fn selected_values(&self) -> (r: Vec<&T>)
        ensures
            r@.unref() == self.selection.selected@,
    {
        self.selection.get_all()
    }

    /// Get labels for all selected values, in option order.
    pub fn selected_labels(&self) -> (r: Vec<&str>)
        ensures
            keys_behave::<T>() ==> crate::select::str_views(r@)
                == crate::select::selected_labels_of(self.options@, self.selection.keys()),
    {
        crate::select::selected_option_labels(&self.options, &self.selection)
    }

    /// Re-run the fuzzy filter with the current text: the cursor goes back
    /// to 0 when it no longer points into the results, the content height
    /// becomes one row per result and the scroll returns to the top.
    pub fn refilter(&mut self)
        ensures
            filtered_for(old(self).text@, old(self).options@, final(self).filtered@),
            final(self).cursor == (if old(self).cursor >= final(self).filtered@.len() { 0 } else { old(self).cursor }),
            final(self).scroll.content_height == option_rows(final(self).filtered@.len()),
            final(self).scroll.offset == 0,
            final(self).scroll.viewport == old(self).scroll.viewport,
            final(self).scroll.request == old(self).scroll.request,
            final(self).text == old(self).text,
            final(self).options == old(self).options,
            final(self).selection == old(self).selection,
            final(self).open == old(self).open,
    {
        let labels = option_labels(&self.options);
        self.filtered = fuzzy_filter(self.text.as_str(), labels.as_slice());
        proof {
            assert(label_strings(self.options@, labels@));
        }
        if self.cursor >= self.filtered.len() {
            self.cursor = 0;
        }
        self.scroll.set_content_height(crate::select::option_rows_height(self.filtered.len()));
        self.scroll.offset = 0;
    }

    /// Get the label at a filtered index.
    pub fn filtered_label(&self, filtered_index: usize) -> (r: Option<&str>)
        ensures
            r is Some <==> (filtered_index < self.filtered@.len()
                && self.filtered@[filtered_index as int].index < self.options@.len()),
            r matches Some(s) ==> s@ == self.options@[self.filtered@[filtered_index as int].index as int].1@,
    {
        if filtered_index < self.filtered.len() {
            let m = self.filtered[filtered_index].index;
            if m < self.options.len() {
                return Some(self.options[m].1.as_str());
            }
        }
        None
    }

    /// Get the value at a filtered index.
    pub fn filtered_value(&self, filtered_index: usize) -> (r: Option<&T>)
        ensures
            r == (if filtered_index < self.filtered@.len()
                && self.filtered@[filtered_index as int].index < self.options@.len() {
                Some(&self.options@[self.filtered@[filtered_index as int].index as int].0)
            } else {
                None::<&T>
            }),
    {
        if filtered_index < self.filtered.len() {
            let m = self.filtered[filtered_index].index;
            if m < self.options.len() {
                return Some(&self.options[m].0);
            }
        }
        None
    }

    /// The input text changed: take the new text, refilter, open the
    /// dropdown and put the cursor on the first result.
    pub fn text_changed(&mut self, text: String)
        ensures
            final(self).text@ == text@,
            filtered_for(text@, old(self).options@, final(self).filtered@),
            final(self).open,
            final(self).cursor == 0,
            final(self).scroll.offset == 0,
            final(self).scroll.content_height == option_rows(final(self).filtered@.len()),
            final(self).options == old(self).options,
            final(self).selection == old(self).selection,
    {
        self.text = text;
        self.refilter();
        self.open = true;
        self.cursor = 0;
    }

    /// The option at filtered position `filtered_index` was chosen: toggle
    /// its value; in single-select mode the text becomes its label, the
    /// dropdown closes and the filter is re-run on the new text.
    pub fn choose_filtered(&mut self, filtered_index: usize)
        requires
            filtered_index < old(self).filtered@.len(),
            old(self).filtered@[filtered_index as int].index < old(self).options@.len(),
        ensures
            ({
                let o = old(self).options@[old(self).filtered@[filtered_index as int].index as int];
                &&& keys_behave::<T>() ==> final(self).selection.keys()
                    == toggled(old(self).selection.mode, old(self).selection.keys(), o.0)
                &&& final(self).selection.mode == old(self).selection.mode
                &&& old(self).selection.mode is Multi ==> {
                    &&& final(self).text == old(self).text
                    &&& final(self).open == old(self).open
                    &&& final(self).filtered == old(self).filtered
                    &&& final(self).cursor == old(self).cursor
                }
                &&& !(old(self).selection.mode is Multi) ==> {
                    &&& final(self).text@ == o.1@
                    &&& !final(self).open
                    &&& filtered_for(o.1@, old(self).options@, final(self).filtered@)
                }
            }),
            final(self).options == old(self).options,
    {
        let is_multi = self.selection.mode == SelectionMode::Multi;
        let m = self.filtered[filtered_index].index;
        let value = self.options[m].0.clone();
        proof { assert(cloned(self.options@[m as int].0, value)); }
        let label = self.options[m].1.clone();
        self.selection.toggle(value);
        if !is_multi {
            self.text = label;
            self.open = false;
            self.refilter();
        }
    }

    /// Enter was pressed in the input: a closed dropdown opens; in an open
    /// dropdown with results, the result under the cursor is chosen (see
    /// [`Self::choose_filtered`]). Returns whether an option was chosen.
    pub fn submit(&mut self) -> (chosen: bool)
        ensures
            !old(self).open ==> final(self).open && !chosen
                && final(self).selection == old(self).selection && final(self).text == old(self).text,
            chosen == (old(self).open && old(self).cursor < old(self).filtered@.len()
                && old(self).filtered@[old(self).cursor as int].index < old(self).options@.len()),
            !chosen ==> final(self).selection == old(self).selection && final(self).text == old(self).text,
            chosen ==> ({
                let o = old(self).options@[old(self).filtered@[old(self).cursor as int].index as int];
                &&& keys_behave::<T>() ==> final(self).selection.keys()
                    == toggled(old(self).selection.mode, old(self).selection.keys(), o.0)
                &&& !(old(self).selection.mode is Multi) ==> final(self).text@ == o.1@ && !final(self).open
                &&& old(self).selection.mode is Multi ==> final(self).text == old(self).text && final(self).open
            }),
            final(self).options == old(self).options,
    {
        if !self.open {
            self.open = true;
            return false;
        }
        let cursor = self.cursor;
        if cursor < self.filtered.len() && self.filtered[cursor].index < self.options.len() {
            self.choose_filtered(cursor);
            true
        } else {
            false
        }
    }

    /// Open the dropdown (the input was clicked).
    pub fn open_dropdown(&mut self)
        ensures
            final(self).open,
            final(self).text == old(self).text && final(self).selection == old(self).selection,
            final(self).filtered == old(self).filtered && final(self).cursor == old(self).cursor,
    {
        self.open = true;
    }

    /// Close the dropdown (backdrop click, or focus left the widget).
    pub fn close(&mut self)
        ensures
            !final(self).open,
            final(self).text == old(self).text && final(self).selection == old(self).selection,
            final(self).filtered == old(self).filtered && final(self).cursor == old(self).cursor,
    {
        self.open = false;
    }

    /// Focus left the element `base_id` for `blur_target`: the dropdown
    /// closes unless the new target is one of this widget's own elements
    /// (see [`closes_on_blur`]). Returns whether it closed.
    pub fn blur(&mut self, blur_target: Option<&str>, base_id: &str) -> (closed: bool)
        ensures
            closed == closes_on_blur(match blur_target { Some(t) => Some(t@), None => None }, base_id@),
            final(self).open == (old(self).open && !closed),
            final(self).text == old(self).text && final(self).selection == old(self).selection,
            final(self).filtered == old(self).filtered && final(self).cursor == old(self).cursor,
    {
        let closed = blur_should_close(blur_target, base_id);
        if closed {
            self.close();
        }
        closed
    }

    /// Width of the input: the explicit width, or the widest option label
    /// or placeholder plus 2, taken as a `u16` (see [`toggle_width`]).
    pub fn input_width(&self, explicit: Option<u16>, placeholder: &str) -> (r: u16)
        requires
            widest(labels_of(self.options@), placeholder@) + 2 <= usize::MAX,
        ensures
            r == (match explicit {
                Some(w) => w,
                None => ((widest(labels_of(self.options@), placeholder@) + 2) % 65536) as u16,
            }),
    {
        toggle_width(explicit, &self.options, placeholder)
    }

    /// Rows of the open dropdown: the filtered options, capped at
    /// [`MAX_VISIBLE_OPTIONS`] (the count taken as a `u16`).
    pub fn dropdown_rows(&self) -> (r: u16)
        ensures
            r == (if (self.filtered@.len() % 65536) < 10 { (self.filtered@.len() % 65536) as u16 } else { 10 }),
    {
        dropdown_height(self.filtered.len())
    }

    /// Whether the dropdown shows a scrollbar: more filtered options than
    /// fit in it.
    pub fn dropdown_needs_scrollbar(&self) -> (r: bool)
        ensures
            r == (self.filtered@.len() > MAX_VISIBLE_OPTIONS),
    {
        self.filtered.len() > MAX_VISIBLE_OPTIONS as usize
    }

    /// Up/Down at a boundary option: scroll by one row and move the cursor
    /// to `target`.
    pub fn step_cursor(&mut self, delta: i16, target: usize)
        ensures
            final(self).scroll.offset == crate::scroll::offset_after(old(self).scroll.offset,
                old(self).scroll.viewport, old(self).scroll.content_height, crate::scroll::ScrollRequest::Delta(delta)),
            final(self).scroll.viewport == old(self).scroll.viewport,
            final(self).scroll.content_height == old(self).scroll.content_height,
            final(self).cursor == target,
            final(self).text == old(self).text && final(self).selection == old(self).selection,
            final(self).filtered == old(self).filtered && final(self).open == old(self).open,
    {
        self.scroll.apply_request(crate::scroll::ScrollRequest::Delta(delta));
        self.cursor = target;
    }
}

impl<T: Clone + Eq + Hash + Send + Sync + 'static> ScrollableWidgetState for AutocompleteState<T> {
    fn scroll(&self) -> (r: &ScrollState)
        ensures
            *r == self.scroll,
    {
        &self.scroll
    }

    fn scroll_mut(&mut self) -> (r: &mut ScrollState)
        ensures
            *r == old(self).scroll,
            *final(self) == (AutocompleteState { scroll: *final(r), ..*old(self) }),
    {
        &mut self.scroll
    }

    fn scrollbar_rect(&self) -> (r: Option<(u16, u16, u16, u16)>)
        ensures
            r == self.scrollbar_rect,
    {
        self.scrollbar_rect
    }

    fn set_scrollbar_rect(&mut self, rect: Option<(u16, u16, u16, u16)>)
        ensures
            final(self).scrollbar_rect == rect,
            final(self).scroll == old(self).scroll,
            final(self).drag_grab_offset == old(self).drag_grab_offset,
    {
        self.scrollbar_rect = rect;
    }

    fn drag_grab_offset(&self) -> (r: Option<u16>)
        ensures
            r == self.drag_grab_offset,
    {
        self.drag_grab_offset
    }

    fn set_drag_grab_offset(&mut self, offset: Option<u16>)
        ensures
            final(self).drag_grab_offset == offset,
            final(self).scroll == old(self).scroll,
            final(self).scrollbar_rect == old(self).scrollbar_rect,
    {
        self.drag_grab_offset = offset;
    }
}

/// Typestate marker: an autocomplete builder that still needs its state.
pub struct NeedsState;

} // verus!
